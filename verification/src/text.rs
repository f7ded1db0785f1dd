//! Text as the checks read it: characters, words, lines and numbers.
//!
//! Every parser in the crate works on sequences of characters. The meaning of
//! each helper is a spec function here, and the executable version is proved
//! against it.

use vstd::prelude::*;
use vstd::string::*;

verus! {

/// Appends one character to a string: `String::push`.
#[verifier::external_body]
pub(crate) fn push_char(s: &mut String, c: char)
    ensures
        final(s)@ == old(s)@.push(c),
{
    s.push(c);
}

// ---------------------------------------------------------------------------
// Characters
// ---------------------------------------------------------------------------

/// Unicode White_Space, which is what `char::is_whitespace` tests.
pub open spec fn is_ws(c: char) -> bool {
    let u = c as u32;
    u == 32 || (9 <= u && u <= 13) || u == 0x85 || u == 0xa0 || u == 0x1680 || (0x2000 <= u
        && u <= 0x200a) || u == 0x2028 || u == 0x2029 || u == 0x202f || u == 0x205f || u == 0x3000
}

pub fn is_ws_char(c: char) -> (b: bool)
    ensures
        b == is_ws(c),
{
    let u = c as u32;
    u == 32 || (9 <= u && u <= 13) || u == 0x85 || u == 0xa0 || u == 0x1680 || (0x2000 <= u
        && u <= 0x200a) || u == 0x2028 || u == 0x2029 || u == 0x202f || u == 0x205f || u == 0x3000
}

pub open spec fn is_digit(c: char) -> bool {
    '0' <= c && c <= '9'
}

pub open spec fn digit_val(c: char) -> nat {
    ((c as u32) - ('0' as u32)) as nat
}

pub open spec fn digit_char(d: nat) -> char
    recommends
        d < 10,
{
    (('0' as u32) + d) as char
}

pub open spec fn all_digits(s: Seq<char>) -> bool {
    forall|i: int| 0 <= i < s.len() ==> is_digit(#[trigger] s[i])
}

pub open spec fn is_alnum(c: char) -> bool {
    ('0' <= c && c <= '9') || ('a' <= c && c <= 'z') || ('A' <= c && c <= 'Z')
}

pub open spec fn upper(c: char) -> char {
    if 'a' <= c && c <= 'z' {
        ((c as u32) - 32) as char
    } else {
        c
    }
}

pub open spec fn upper_seq(s: Seq<char>) -> Seq<char> {
    s.map_values(|c: char| upper(c))
}

pub open spec fn lower_char(c: char) -> char {
    if 'A' <= c && c <= 'Z' {
        ((c as u32) + 32) as u8 as char
    } else {
        c
    }
}

pub open spec fn lower_seq(s: Seq<char>) -> Seq<char> {
    s.map_values(|c: char| lower_char(c))
}

// ---------------------------------------------------------------------------
// Conversions
// ---------------------------------------------------------------------------

/// The characters of a string slice, in order.
pub fn chars_of(s: &str) -> (v: Vec<char>)
    ensures
        v@ == s@,
{
    let mut v: Vec<char> = Vec::new();
    for c in it: s.chars()
        invariant
            v@ == it.seq().take(it.index() as int),
    {
        v.push(c);
    }
    v
}

/// A string holding exactly the given characters.
pub fn string_of(v: &Vec<char>) -> (s: String)
    ensures
        s@ == v@,
{
    let mut s = String::new();
    let mut i: usize = 0;
    while i < v.len()
        invariant
            i <= v.len(),
            s@ == v@.take(i as int),
        decreases v.len() - i,
    {
        push_char(&mut s, v[i]);
        assert(v@.take(i + 1) == v@.take(i as int).push(v@[i as int]));
        i += 1;
    }
    assert(v@.take(v.len() as int) == v@);
    s
}

/// A string holding the characters of a slice.
pub fn owned(s: &str) -> (r: String)
    ensures
        r@ == s@,
{
    String::from_str(s)
}

/// `a` followed by `b`.
pub fn cat(a: &str, b: &str) -> (r: String)
    ensures
        r@ == a@ + b@,
{
    let mut r = String::from_str(a);
    r.append(b);
    r
}

/// Appends `b` to `a`.
pub fn append(a: &mut String, b: &str)
    ensures
        final(a)@ == old(a)@ + b@,
{
    a.append(b);
}

/// The characters `v[i..j]`.
pub fn subvec(v: &Vec<char>, i: usize, j: usize) -> (r: Vec<char>)
    requires
        i <= j <= v.len(),
    ensures
        r@ == v@.subrange(i as int, j as int),
{
    let mut r: Vec<char> = Vec::new();
    let mut k: usize = i;
    while k < j
        invariant
            i <= k <= j <= v.len(),
            r@ == v@.subrange(i as int, k as int),
        decreases j - k,
    {
        r.push(v[k]);
        assert(v@.subrange(i as int, k + 1) == v@.subrange(i as int, k as int).push(v@[k as int]));
        k += 1;
    }
    r
}

/// Whether two character sequences are the same.
pub fn same(a: &Vec<char>, b: &Vec<char>) -> (r: bool)
    ensures
        r == (a@ == b@),
{
    if a.len() != b.len() {
        return false;
    }
    let mut i: usize = 0;
    while i < a.len()
        invariant
            a.len() == b.len(),
            i <= a.len(),
            forall|k: int| 0 <= k < i ==> a@[k] == b@[k],
        decreases a.len() - i,
    {
        if a[i] != b[i] {
            return false;
        }
        i += 1;
    }
    assert(a@ =~= b@);
    true
}

/// Whether a string equals a literal.
pub fn str_is(s: &str, lit: &str) -> (r: bool)
    ensures
        r == (s@ == lit@),
{
    let a = chars_of(s);
    let b = chars_of(lit);
    same(&a, &b)
}

/// ASCII upper case, which is what `to_ascii_uppercase` does.
pub fn to_upper(s: &Vec<char>) -> (r: Vec<char>)
    ensures
        r@ == upper_seq(s@),
{
    let mut r: Vec<char> = Vec::new();
    let mut i: usize = 0;
    while i < s.len()
        invariant
            i <= s.len(),
            r@ == upper_seq(s@.take(i as int)),
        decreases s.len() - i,
    {
        let c = s[i];
        let u = if 'a' <= c && c <= 'z' {
            let n: u8 = (c as u8) - 32;
            n as char
        } else {
            c
        };
        proof {
            if 'a' <= c && c <= 'z' {
                assert(u == upper(c));
            }
        }
        r.push(u);
        assert(upper_seq(s@.take(i + 1)) == upper_seq(s@.take(i as int)).push(upper(c)));
        i += 1;
    }
    assert(s@.take(s.len() as int) == s@);
    r
}

// ---------------------------------------------------------------------------
// Prefixes, suffixes and search
// ---------------------------------------------------------------------------

/// Whether `p` starts `s`.
pub fn starts_with(s: &Vec<char>, p: &Vec<char>) -> (r: bool)
    ensures
        r == p@.is_prefix_of(s@),
{
    if p.len() > s.len() {
        return false;
    }
    let mut i: usize = 0;
    while i < p.len()
        invariant
            p.len() <= s.len(),
            i <= p.len(),
            forall|k: int| 0 <= k < i ==> s@[k] == p@[k],
        decreases p.len() - i,
    {
        if s[i] != p[i] {
            assert(s@.subrange(0, p@.len() as int)[i as int] != p@[i as int]);
            return false;
        }
        i += 1;
    }
    assert(p@ =~= s@.subrange(0, p@.len() as int));
    true
}

/// Whether `p` ends `s`.
pub fn ends_with(s: &Vec<char>, p: &Vec<char>) -> (r: bool)
    ensures
        r == p@.is_suffix_of(s@),
{
    if p.len() > s.len() {
        return false;
    }
    let off = s.len() - p.len();
    let mut i: usize = 0;
    while i < p.len()
        invariant
            p.len() <= s.len(),
            off == s.len() - p.len(),
            i <= p.len(),
            forall|k: int| 0 <= k < i ==> s@[off + k] == p@[k],
        decreases p.len() - i,
    {
        if s[off + i] != p[i] {
            assert(s@.subrange(off as int, s@.len() as int)[i as int] != p@[i as int]);
            return false;
        }
        i += 1;
    }
    assert(p@ =~= s@.subrange(off as int, s@.len() as int));
    true
}

/// Whether `p` occurs in `s` starting at `i`.
pub open spec fn occurs_at(s: Seq<char>, p: Seq<char>, i: int) -> bool {
    0 <= i && i + p.len() <= s.len() && s.subrange(i, i + p.len()) == p
}

/// Whether `p` occurs anywhere in `s`.
pub open spec fn contains_seq(s: Seq<char>, p: Seq<char>) -> bool {
    exists|i: int| occurs_at(s, p, i)
}

fn matches_at(s: &Vec<char>, p: &Vec<char>, i: usize) -> (r: bool)
    requires
        i + p.len() <= s.len(),
    ensures
        r == occurs_at(s@, p@, i as int),
{
    let mut k: usize = 0;
    while k < p.len()
        invariant
            i + p.len() <= s.len(),
            k <= p.len(),
            forall|m: int| 0 <= m < k ==> s@[i + m] == p@[m],
        decreases p.len() - k,
    {
        if s[i + k] != p[k] {
            assert(s@.subrange(i as int, i + p@.len())[k as int] != p@[k as int]);
            return false;
        }
        k += 1;
    }
    assert(s@.subrange(i as int, i + p@.len()) =~= p@);
    true
}

/// Whether `p` occurs anywhere in `s`.
pub fn contains(s: &Vec<char>, p: &Vec<char>) -> (r: bool)
    ensures
        r == contains_seq(s@, p@),
{
    if p.len() > s.len() {
        return false;
    }
    if p.len() == 0 {
        assert(s@.subrange(0, 0) =~= p@);
        assert(occurs_at(s@, p@, 0));
        return true;
    }
    let mut i: usize = 0;
    while i <= s.len() - p.len()
        invariant
            1 <= p.len() <= s.len(),
            i <= s.len() - p.len() + 1,
            forall|m: int| 0 <= m < i ==> !occurs_at(s@, p@, m),
        decreases s.len() - p.len() + 1 - i,
    {
        if matches_at(s, p, i) {
            return true;
        }
        i += 1;
    }
    assert forall|m: int| !occurs_at(s@, p@, m) by {
        if 0 <= m && m + p@.len() <= s@.len() {
            assert(m < i);
        }
    }
    false
}

/// Whether a string contains a literal.
pub fn str_contains(s: &str, lit: &str) -> (r: bool)
    ensures
        r == contains_seq(s@, lit@),
{
    let a = chars_of(s);
    let b = chars_of(lit);
    contains(&a, &b)
}

/// Whether a string starts with a literal.
pub fn str_starts(s: &str, lit: &str) -> (r: bool)
    ensures
        r == lit@.is_prefix_of(s@),
{
    let a = chars_of(s);
    let b = chars_of(lit);
    starts_with(&a, &b)
}

/// The first position of `c` in `s`, or -1.
pub open spec fn first_index(s: Seq<char>, c: char) -> int
    decreases s.len(),
{
    if s.len() == 0 {
        -1
    } else if s[0] == c {
        0
    } else {
        let r = first_index(s.drop_first(), c);
        if r < 0 {
            -1
        } else {
            r + 1
        }
    }
}

pub proof fn lemma_first_index(s: Seq<char>, c: char)
    ensures
        first_index(s, c) < 0 ==> !s.contains(c),
        first_index(s, c) >= 0 ==> {
            let i = first_index(s, c);
            &&& i < s.len()
            &&& s[i] == c
            &&& forall|j: int| 0 <= j < i ==> s[j] != c
        },
    decreases s.len(),
{
    if s.len() > 0 && s[0] != c {
        lemma_first_index(s.drop_first(), c);
        if first_index(s, c) < 0 {
            assert forall|j: int| 0 <= j < s.len() implies s[j] != c by {
                if j > 0 {
                    assert(s.drop_first()[j - 1] == s[j]);
                }
            }
        } else {
            let i = first_index(s, c);
            assert forall|j: int| 0 <= j < i implies s[j] != c by {
                if j > 0 {
                    assert(s.drop_first()[j - 1] == s[j]);
                }
            }
        }
    }
}

pub proof fn lemma_first_index_is(s: Seq<char>, c: char, i: int)
    requires
        0 <= i <= s.len(),
        i < s.len() ==> s[i] == c,
        forall|j: int| 0 <= j < i ==> s[j] != c,
    ensures
        first_index(s, c) == (if i < s.len() {
            i
        } else {
            -1
        }),
    decreases s.len(),
{
    if s.len() > 0 && i > 0 {
        assert forall|j: int| 0 <= j < i - 1 implies s.drop_first()[j] != c by {
            assert(s.drop_first()[j] == s[j + 1]);
        }
        lemma_first_index_is(s.drop_first(), c, i - 1);
    }
}

/// Where `c` first occurs in `v`, if it does.
pub fn find_char(v: &Vec<char>, c: char) -> (r: Option<usize>)
    ensures
        match r {
            Some(i) => first_index(v@, c) == i as int,
            None => first_index(v@, c) < 0,
        },
{
    let mut i: usize = 0;
    while i < v.len()
        invariant
            i <= v.len(),
            forall|j: int| 0 <= j < i ==> v@[j] != c,
        decreases v.len() - i,
    {
        if v[i] == c {
            proof {
                lemma_first_index_is(v@, c, i as int);
            }
            return Some(i);
        }
        i += 1;
    }
    proof {
        lemma_first_index_is(v@, c, v@.len() as int);
    }
    None
}

/// Whether `c` occurs in `v`.
pub fn has_char(v: &Vec<char>, c: char) -> (r: bool)
    ensures
        r == v@.contains(c),
{
    let r = find_char(v, c);
    proof {
        lemma_first_index(v@, c);
    }
    r.is_some()
}

/// Split at the first `c`: the part before it and the part after it.
pub open spec fn split_once(s: Seq<char>, c: char) -> Option<(Seq<char>, Seq<char>)> {
    let i = first_index(s, c);
    if i < 0 {
        None
    } else {
        Some((s.take(i), s.skip(i + 1)))
    }
}

pub fn split_once_char(v: &Vec<char>, c: char) -> (r: Option<(Vec<char>, Vec<char>)>)
    ensures
        match r {
            Some((a, b)) => split_once(v@, c) == Some((a@, b@)),
            None => split_once(v@, c) is None,
        },
{
    match find_char(v, c) {
        Some(i) => {
            proof {
                lemma_first_index(v@, c);
            }
            let a = subvec(v, 0, i);
            assert(i < v.len());
            let b = subvec(v, i + 1, v.len());
            assert(a@ == v@.take(i as int));
            assert(b@ == v@.skip(i + 1));
            Some((a, b))
        },
        None => None,
    }
}

// ---------------------------------------------------------------------------
// Trimming
// ---------------------------------------------------------------------------

pub open spec fn trim_start(s: Seq<char>) -> Seq<char>
    decreases s.len(),
{
    if s.len() > 0 && is_ws(s[0]) {
        trim_start(s.drop_first())
    } else {
        s
    }
}

pub open spec fn trim_end(s: Seq<char>) -> Seq<char>
    decreases s.len(),
{
    if s.len() > 0 && is_ws(s.last()) {
        trim_end(s.drop_last())
    } else {
        s
    }
}

/// `str::trim`.
pub open spec fn trim(s: Seq<char>) -> Seq<char> {
    trim_end(trim_start(s))
}

pub fn trim_start_vec(v: &Vec<char>) -> (r: Vec<char>)
    ensures
        r@ == trim_start(v@),
{
    let mut i: usize = 0;
    assert(v@.subrange(0, v@.len() as int) == v@);
    while i < v.len() && is_ws_char(v[i])
        invariant
            i <= v.len(),
            trim_start(v@) == trim_start(v@.subrange(i as int, v@.len() as int)),
        decreases v.len() - i,
    {
        assert(v@.subrange(i as int, v@.len() as int).drop_first() == v@.subrange(
            i + 1,
            v@.len() as int,
        ));
        i += 1;
    }
    subvec(v, i, v.len())
}

pub fn trim_end_vec(v: &Vec<char>) -> (r: Vec<char>)
    ensures
        r@ == trim_end(v@),
{
    let mut j: usize = v.len();
    assert(v@.take(v@.len() as int) == v@);
    while j > 0 && is_ws_char(v[j - 1])
        invariant
            j <= v.len(),
            trim_end(v@) == trim_end(v@.take(j as int)),
        decreases j,
    {
        assert(v@.take(j as int).drop_last() == v@.take(j - 1));
        j -= 1;
    }
    subvec(v, 0, j)
}

pub fn trim_vec(v: &Vec<char>) -> (r: Vec<char>)
    ensures
        r@ == trim(v@),
{
    let a = trim_start_vec(v);
    trim_end_vec(&a)
}

/// `trim_matches(c)`: `c` removed from both ends.
pub open spec fn strip_char_start(s: Seq<char>, c: char) -> Seq<char>
    decreases s.len(),
{
    if s.len() > 0 && s[0] == c {
        strip_char_start(s.drop_first(), c)
    } else {
        s
    }
}

pub open spec fn strip_char_end(s: Seq<char>, c: char) -> Seq<char>
    decreases s.len(),
{
    if s.len() > 0 && s.last() == c {
        strip_char_end(s.drop_last(), c)
    } else {
        s
    }
}

pub open spec fn trim_char(s: Seq<char>, c: char) -> Seq<char> {
    strip_char_end(strip_char_start(s, c), c)
}

pub fn trim_char_vec(v: &Vec<char>, c: char) -> (r: Vec<char>)
    ensures
        r@ == trim_char(v@, c),
{
    let mut i: usize = 0;
    assert(v@.subrange(0, v@.len() as int) == v@);
    while i < v.len() && v[i] == c
        invariant
            i <= v.len(),
            strip_char_start(v@, c) == strip_char_start(v@.subrange(i as int, v@.len() as int), c),
        decreases v.len() - i,
    {
        assert(v@.subrange(i as int, v@.len() as int).drop_first() == v@.subrange(
            i + 1,
            v@.len() as int,
        ));
        i += 1;
    }
    let a = subvec(v, i, v.len());
    let mut j: usize = a.len();
    assert(a@.take(a@.len() as int) == a@);
    while j > 0 && a[j - 1] == c
        invariant
            j <= a.len(),
            strip_char_end(a@, c) == strip_char_end(a@.take(j as int), c),
        decreases j,
    {
        assert(a@.take(j as int).drop_last() == a@.take(j - 1));
        j -= 1;
    }
    subvec(&a, 0, j)
}

// ---------------------------------------------------------------------------
// Splitting
// ---------------------------------------------------------------------------

/// `str::split(c)`: the pieces between occurrences of `c`, empty ones kept.
pub open spec fn split_on(s: Seq<char>, c: char) -> Seq<Seq<char>>
    decreases s.len(),
{
    if s.len() == 0 {
        seq![Seq::<char>::empty()]
    } else {
        let rest = split_on(s.drop_last(), c);
        if s.last() == c {
            rest.push(Seq::<char>::empty())
        } else {
            rest.update(rest.len() - 1, rest.last().push(s.last()))
        }
    }
}

pub proof fn lemma_split_on_nonempty(s: Seq<char>, c: char)
    ensures
        split_on(s, c).len() >= 1,
    decreases s.len(),
{
    if s.len() > 0 {
        lemma_split_on_nonempty(s.drop_last(), c);
    }
}

pub open spec fn views(v: Seq<String>) -> Seq<Seq<char>> {
    v.map_values(|s: String| s@)
}

/// The pieces of `v` between occurrences of `c`.
pub fn split_char(v: &Vec<char>, c: char) -> (r: Vec<String>)
    ensures
        views(r@) == split_on(v@, c),
{
    let mut out: Vec<String> = Vec::new();
    let mut cur: Vec<char> = Vec::new();
    let mut i: usize = 0;
    while i < v.len()
        invariant
            i <= v.len(),
            views(out@).push(cur@) == split_on(v@.take(i as int), c),
        decreases v.len() - i,
    {
        let ghost prev = v@.take(i as int);
        assert(v@.take(i + 1).drop_last() == prev);
        proof {
            lemma_split_on_nonempty(prev, c);
        }
        if v[i] == c {
            let w = string_of(&cur);
            out.push(w);
            cur = Vec::new();
            assert(views(out@) == views(out@.drop_last()).push(w@));
        } else {
            cur.push(v[i]);
        }
        i += 1;
    }
    assert(v@.take(v.len() as int) == v@);
    let w = string_of(&cur);
    out.push(w);
    assert(views(out@) == views(out@.drop_last()).push(w@));
    out
}

/// A line as `str::lines` yields it: a trailing carriage return removed.
pub open spec fn strip_cr(l: Seq<char>) -> Seq<char> {
    if l.len() > 0 && l.last() == '\r' {
        l.drop_last()
    } else {
        l
    }
}

/// `str::lines`.
pub open spec fn lines(s: Seq<char>) -> Seq<Seq<char>> {
    let p = split_on(s, '\n');
    let q = if p.last().len() == 0 {
        p.drop_last()
    } else {
        p
    };
    q.map_values(|l: Seq<char>| strip_cr(l))
}

/// The lines of a text.
pub fn lines_of(v: &Vec<char>) -> (r: Vec<String>)
    ensures
        views(r@) == lines(v@),
{
    let pieces = split_char(v, '\n');
    proof {
        lemma_split_on_nonempty(v@, '\n');
    }
    let mut n = pieces.len();
    assert(n >= 1);
    let last = chars_of(pieces[n - 1].as_str());
    if last.len() == 0 {
        n = n - 1;
    }
    let ghost q = if split_on(v@, '\n').last().len() == 0 {
        split_on(v@, '\n').drop_last()
    } else {
        split_on(v@, '\n')
    };
    assert(q.len() == n);
    let mut out: Vec<String> = Vec::new();
    let mut i: usize = 0;
    while i < n
        invariant
            n <= pieces.len(),
            q.len() == n,
            views(pieces@) == split_on(v@, '\n'),
            forall|k: int| 0 <= k < n ==> q[k] == views(pieces@)[k],
            i <= n,
            views(out@) == q.take(i as int).map_values(|l: Seq<char>| strip_cr(l)),
        decreases n - i,
    {
        let p = chars_of(pieces[i].as_str());
        let l = if p.len() > 0 && p[p.len() - 1] == '\r' {
            subvec(&p, 0, p.len() - 1)
        } else {
            p
        };
        assert(l@ == strip_cr(q[i as int]));
        let w = string_of(&l);
        out.push(w);
        assert(views(out@) == views(out@.drop_last()).push(w@));
        assert(q.take(i + 1).map_values(|l: Seq<char>| strip_cr(l)) == q.take(i as int).map_values(
            |l: Seq<char>| strip_cr(l),
        ).push(strip_cr(q[i as int])));
        i += 1;
    }
    assert(q.take(n as int) == q);
    out
}

/// The state `split_whitespace` carries across a text: the words so far and
/// the word being read.
pub open spec fn ws_fold(s: Seq<char>) -> (Seq<Seq<char>>, Seq<char>)
    decreases s.len(),
{
    if s.len() == 0 {
        (Seq::<Seq<char>>::empty(), Seq::<char>::empty())
    } else {
        let (words, cur) = ws_fold(s.drop_last());
        let c = s.last();
        if is_ws(c) {
            if cur.len() > 0 {
                (words.push(cur), Seq::<char>::empty())
            } else {
                (words, cur)
            }
        } else {
            (words, cur.push(c))
        }
    }
}

/// `str::split_whitespace`.
pub open spec fn split_ws(s: Seq<char>) -> Seq<Seq<char>> {
    let (words, cur) = ws_fold(s);
    if cur.len() > 0 {
        words.push(cur)
    } else {
        words
    }
}

/// The whitespace separated words of a text.
pub fn words_of(v: &Vec<char>) -> (r: Vec<String>)
    ensures
        views(r@) == split_ws(v@),
{
    let mut out: Vec<String> = Vec::new();
    let mut cur: Vec<char> = Vec::new();
    let mut i: usize = 0;
    while i < v.len()
        invariant
            i <= v.len(),
            (views(out@), cur@) == ws_fold(v@.take(i as int)),
        decreases v.len() - i,
    {
        assert(v@.take(i + 1).drop_last() == v@.take(i as int));
        let c = v[i];
        if is_ws_char(c) {
            if cur.len() > 0 {
                let w = string_of(&cur);
                out.push(w);
                cur = Vec::new();
                assert(views(out@) == views(out@.drop_last()).push(w@));
            }
        } else {
            cur.push(c);
        }
        i += 1;
    }
    assert(v@.take(v.len() as int) == v@);
    if cur.len() > 0 {
        let w = string_of(&cur);
        out.push(w);
        assert(views(out@) == views(out@.drop_last()).push(w@));
    }
    out
}

/// The words of a string.
pub fn str_words(s: &str) -> (r: Vec<String>)
    ensures
        views(r@) == split_ws(s@),
{
    let v = chars_of(s);
    words_of(&v)
}

/// The lines of a string.
pub fn str_lines(s: &str) -> (r: Vec<String>)
    ensures
        views(r@) == lines(s@),
{
    let v = chars_of(s);
    lines_of(&v)
}

// ---------------------------------------------------------------------------
// Numbers
// ---------------------------------------------------------------------------

/// The value of a run of decimal digits.
pub open spec fn digits_val(s: Seq<char>) -> nat
    decreases s.len(),
{
    if s.len() == 0 {
        0
    } else {
        digits_val(s.drop_last()) * 10 + digit_val(s.last())
    }
}

/// `str::parse::<u64>`: an optional `+`, then one or more digits, in range.
pub open spec fn parse_u64(s: Seq<char>) -> Option<u64> {
    let d = if s.len() > 0 && s[0] == '+' {
        s.drop_first()
    } else {
        s
    };
    if d.len() > 0 && all_digits(d) && digits_val(d) <= u64::MAX {
        Some(digits_val(d) as u64)
    } else {
        None
    }
}

proof fn lemma_digits_val_mono(s: Seq<char>, j: int, k: int)
    requires
        0 <= j <= k <= s.len(),
        all_digits(s),
    ensures
        digits_val(s.take(j)) <= digits_val(s.take(k)),
    decreases k - j,
{
    if j < k {
        lemma_digits_val_mono(s, j, k - 1);
        assert(s.take(k).drop_last() == s.take(k - 1));
    }
}

/// The index of the first `a` or `b` in `s` at or after `k`, or its length.
pub open spec fn first_of(s: Seq<char>, a: char, b: char, k: int) -> int
    decreases s.len() - k,
{
    if k < 0 || k >= s.len() {
        s.len() as int
    } else if s[k] == a || s[k] == b {
        k
    } else {
        first_of(s, a, b, k + 1)
    }
}

/// `m` times ten, `k` times over, held at `u64::MAX` once it passes it.
pub open spec fn scale_up(m: nat, k: nat) -> nat
    decreases k,
{
    if k == 0 {
        m
    } else {
        let p = scale_up(m, (k - 1) as nat);
        if p * 10 > u64::MAX {
            u64::MAX as nat
        } else {
            p * 10
        }
    }
}

/// `m` divided by ten, `k` times over, rounding down.
pub open spec fn scale_down(m: nat, k: nat) -> nat
    decreases k,
{
    if k == 0 {
        m
    } else {
        scale_down(m, (k - 1) as nat) / 10
    }
}

/// A mantissa `mv` scaled by ten to the power `net`: held at `u64::MAX` above
/// it, rounded down below one.
pub open spec fn count_value(mv: nat, net: int) -> nat {
    if mv == 0 {
        0
    } else if net >= 0 {
        if net > 40 {
            u64::MAX as nat
        } else {
            scale_up(mv, net as nat)
        }
    } else if -net > 40 {
        0
    } else {
        scale_down(mv, (-net) as nat)
    }
}

/// A count written the ways a float is: an optional `+`, digits with an
/// optional fractional part, and an optional exponent, as in `50000000`,
/// `50000000.0` or `5e7`. The value is the whole count, a fraction rounding
/// down, held at `u64::MAX` when it is larger; the mantissa's digits and the
/// exponent's must each fit a `u64`.
pub open spec fn parse_count(s: Seq<char>) -> Option<u64> {
    let d = if s.len() > 0 && s[0] == '+' {
        s.drop_first()
    } else {
        s
    };
    let ei = first_of(d, 'e', 'E', 0);
    let m = d.take(ei);
    let x = d.skip(ei);
    let pi = first_of(m, '.', '.', 0);
    let ip = m.take(pi);
    let fp = if pi < m.len() {
        m.skip(pi + 1)
    } else {
        Seq::empty()
    };
    let mdig = ip + fp;
    let xs = if x.len() > 0 {
        x.drop_first()
    } else {
        Seq::empty()
    };
    let neg = xs.len() > 0 && xs[0] == '-';
    let ed = if xs.len() > 0 && (xs[0] == '-' || xs[0] == '+') {
        xs.drop_first()
    } else {
        xs
    };
    if mdig.len() > 0 && all_digits(mdig) && digits_val(mdig) <= u64::MAX && (x.len() == 0 || (
    ed.len() > 0 && all_digits(ed) && digits_val(ed) <= u64::MAX)) {
        let mv = digits_val(mdig);
        let e: int = if neg {
            -(digits_val(ed) as int)
        } else {
            digits_val(ed) as int
        };
        Some(count_value(mv, e - fp.len()) as u64)
    } else {
        None
    }
}

fn first_of_vec(s: &Vec<char>, a: char, b: char) -> (r: usize)
    ensures
        r as int == first_of(s@, a, b, 0),
        r <= s@.len(),
{
    let mut i: usize = 0;
    while i < s.len() && s[i] != a && s[i] != b
        invariant
            i <= s@.len(),
            first_of(s@, a, b, 0) == first_of(s@, a, b, i as int),
        decreases s.len() - i,
    {
        i += 1;
    }
    i
}

fn digits_u64(v: &Vec<char>) -> (r: Option<u64>)
    ensures
        r matches Some(n) <==> (v@.len() > 0 && all_digits(v@) && digits_val(v@) <= u64::MAX),
        r matches Some(n) ==> n as nat == digits_val(v@),
{
    if v.len() == 0 || !all_digits_of(v) {
        return None;
    }
    assert(v@[0] != '+');
    parse_u64_vec(v)
}

/// Parses a count the way `parse_count` says.
#[verifier::rlimit(50)]
pub fn parse_count_str(s: &str) -> (r: Option<u64>)
    ensures
        r == parse_count(s@),
{
    let v = chars_of(s);
    let start: usize = if v.len() > 0 && v[0] == '+' {
        1
    } else {
        0
    };
    let d = subvec(&v, start, v.len());
    assert(d@ == if s@.len() > 0 && s@[0] == '+' {
        s@.drop_first()
    } else {
        s@
    });
    let ei = first_of_vec(&d, 'e', 'E');
    let m = subvec(&d, 0, ei);
    let x = subvec(&d, ei, d.len());
    assert(m@ == d@.take(ei as int));
    assert(x@ == d@.skip(ei as int));
    let pi = first_of_vec(&m, '.', '.');
    let ip = subvec(&m, 0, pi);
    let fp: Vec<char> = if pi < m.len() {
        subvec(&m, pi + 1, m.len())
    } else {
        Vec::new()
    };
    assert(ip@ == m@.take(pi as int));
    let mut mdig = ip;
    let mut k: usize = 0;
    while k < fp.len()
        invariant
            k <= fp@.len(),
            mdig@ == m@.take(pi as int) + fp@.take(k as int),
        decreases fp.len() - k,
    {
        assert(fp@.take(k + 1) == fp@.take(k as int).push(fp@[k as int]));
        mdig.push(fp[k]);
        k += 1;
    }
    assert(fp@.take(fp@.len() as int) == fp@);
    let mv = match digits_u64(&mdig) {
        Some(n) => n,
        None => return None,
    };
    let xs: Vec<char> = if x.len() > 0 {
        subvec(&x, 1, x.len())
    } else {
        Vec::new()
    };
    let neg = xs.len() > 0 && xs[0] == '-';
    let ed: Vec<char> = if xs.len() > 0 && (xs[0] == '-' || xs[0] == '+') {
        subvec(&xs, 1, xs.len())
    } else {
        xs
    };
    let ev: u64 = if x.len() == 0 {
        0
    } else {
        match digits_u64(&ed) {
            Some(n) => n,
            None => return None,
        }
    };
    assert(x@.len() == 0 ==> ed@.len() == 0);
    assert(x@.len() == 0 ==> digits_val(ed@) == 0);
    let e: i128 = if neg {
        -(ev as i128)
    } else {
        ev as i128
    };
    let net: i128 = e - fp.len() as i128;
    Some(scale_count(mv, net))
}

fn scale_count(mv: u64, net: i128) -> (r: u64)
    requires
        -0x4_0000_0000_0000_0000 <= net,
    ensures
        r as nat == count_value(mv as nat, net as int),
{
    if mv == 0 {
        return 0;
    }
    if net >= 0 {
        if net > 40 {
            return u64::MAX;
        }
        let mut acc: u64 = mv;
        let mut j: i128 = 0;
        while j < net
            invariant
                0 <= j <= net <= 40,
                acc as nat == scale_up(mv as nat, j as nat),
            decreases net - j,
        {
            acc = if acc > u64::MAX / 10 {
                u64::MAX
            } else {
                acc * 10
            };
            j += 1;
        }
        acc
    } else {
        if -net > 40 {
            return 0;
        }
        let mut acc: u64 = mv;
        let mut j: i128 = 0;
        while j < -net
            invariant
                0 <= j <= -net <= 40,
                acc as nat == scale_down(mv as nat, j as nat),
            decreases -net - j,
        {
            acc = acc / 10;
            j += 1;
        }
        acc
    }
}

/// Parses a decimal number the way `u64::from_str` does.
pub fn parse_u64_vec(v: &Vec<char>) -> (r: Option<u64>)
    ensures
        r == parse_u64(v@),
{
    let start: usize = if v.len() > 0 && v[0] == '+' {
        1
    } else {
        0
    };
    let ghost d = if v@.len() > 0 && v@[0] == '+' {
        v@.drop_first()
    } else {
        v@
    };
    assert(d == v@.subrange(start as int, v@.len() as int));
    if start >= v.len() {
        return None;
    }
    let mut acc: u64 = 0;
    let mut i: usize = start;
    while i < v.len()
        invariant
            start <= i <= v.len(),
            d == v@.subrange(start as int, v@.len() as int),
            d == (if v@.len() > 0 && v@[0] == '+' {
                v@.drop_first()
            } else {
                v@
            }),
            forall|k: int| start <= k < i ==> is_digit(#[trigger] v@[k]),
            acc as nat == digits_val(d.take(i - start)),
        decreases v.len() - i,
    {
        let c = v[i];
        if !('0' <= c && c <= '9') {
            assert(d[i - start] == c);
            assert(!is_digit(d[i - start]));
            assert(!all_digits(d));
            assert(parse_u64(v@) is None);
            return None;
        }
        let dv = (c as u32 - '0' as u32) as u64;
        assert(d.take(i - start + 1).drop_last() == d.take(i - start));
        if acc > (u64::MAX - dv) / 10 {
            proof {
                let a = acc as int;
                let e = dv as int;
                assert(a * 10 + e > u64::MAX) by (nonlinear_arith)
                    requires
                        a > (u64::MAX - e) / 10,
                        0 <= e < 10,
                ;
                assert(digit_val(d[i - start]) == dv);
                assert(digits_val(d.take(i - start + 1)) == a * 10 + e);
                if all_digits(d) {
                    lemma_digits_val_mono(d, i - start + 1, d.len() as int);
                    assert(d.take(d.len() as int) == d);
                    assert(digits_val(d) > u64::MAX);
                }
                assert(parse_u64(v@) is None);
            }
            return None;
        }
        acc = acc * 10 + dv;
        i += 1;
    }
    assert(d.take(d.len() as int) == d);
    assert(all_digits(d));
    Some(acc)
}

/// Parses a decimal number in a string.
pub fn parse_u64_str(s: &str) -> (r: Option<u64>)
    ensures
        r == parse_u64(s@),
{
    let v = chars_of(s);
    parse_u64_vec(&v)
}

/// `str::parse::<u32>`.
pub open spec fn parse_u32(s: Seq<char>) -> Option<u32> {
    match parse_u64(s) {
        Some(n) => if n <= u32::MAX {
            Some(n as u32)
        } else {
            None
        },
        None => None,
    }
}

pub fn parse_u32_vec(v: &Vec<char>) -> (r: Option<u32>)
    ensures
        r == parse_u32(v@),
{
    match parse_u64_vec(v) {
        Some(n) => if n <= 0xffff_ffff {
            Some(n as u32)
        } else {
            None
        },
        None => None,
    }
}

/// `str::parse::<i64>`: an optional sign, then one or more digits, in range.
pub open spec fn parse_i64(s: Seq<char>) -> Option<i64> {
    if s.len() > 0 && s[0] == '-' {
        let d = s.drop_first();
        if d.len() > 0 && all_digits(d) && digits_val(d) <= 0x8000_0000_0000_0000 {
            Some((0 - digits_val(d)) as i64)
        } else {
            None
        }
    } else {
        match parse_u64(s) {
            Some(n) => if n <= 0x7fff_ffff_ffff_ffff {
                Some(n as i64)
            } else {
                None
            },
            None => None,
        }
    }
}

pub fn parse_i64_vec(v: &Vec<char>) -> (r: Option<i64>)
    ensures
        r == parse_i64(v@),
{
    if v.len() > 0 && v[0] == '-' {
        let d = subvec(v, 1, v.len());
        assert(d@ == v@.drop_first());
        if d.len() == 0 || d[0] == '+' {
            return None;
        }
        match parse_u64_vec(&d) {
            Some(n) => {
                if n <= 0x8000_0000_0000_0000 {
                    if n == 0x8000_0000_0000_0000 {
                        Some(i64::MIN)
                    } else {
                        Some(0 - (n as i64))
                    }
                } else {
                    None
                }
            },
            None => {
                proof {
                    if all_digits(d@) && digits_val(d@) <= 0x8000_0000_0000_0000 {
                        assert(parse_u64(d@) is Some);
                    }
                }
                None
            },
        }
    } else {
        match parse_u64_vec(v) {
            Some(n) => if n <= 0x7fff_ffff_ffff_ffff {
                Some(n as i64)
            } else {
                None
            },
            None => None,
        }
    }
}

/// The decimal digits of a number.
pub open spec fn dec(n: nat) -> Seq<char>
    decreases n,
{
    if n < 10 {
        seq![digit_char(n)]
    } else {
        dec(n / 10).push(digit_char(n % 10))
    }
}

fn digit_to_char(d: u64) -> (c: char)
    requires
        d < 10,
    ensures
        c == digit_char(d as nat),
{
    let n: u8 = 48 + d as u8;
    n as char
}

/// A number written out in decimal.
pub fn dec_string(n: u64) -> (s: String)
    ensures
        s@ == dec(n as nat),
{
    let mut acc: Vec<char> = Vec::new();
    let mut q: u64 = n;
    while q >= 10
        invariant
            dec(n as nat) == dec(q as nat) + acc@,
        decreases q,
    {
        let c = digit_to_char(q % 10);
        assert(dec(q as nat) == dec((q / 10) as nat).push(c));
        acc.insert(0, c);
        assert(dec((q / 10) as nat) + acc@ == dec((q / 10) as nat).push(c) + acc@.drop_first());
        q = q / 10;
    }
    let c = digit_to_char(q);
    acc.insert(0, c);
    assert(dec(q as nat) == seq![c]);
    assert(acc@ == seq![c] + acc@.drop_first());
    string_of(&acc)
}

// ---------------------------------------------------------------------------
// Lines with keys
// ---------------------------------------------------------------------------

/// The first of `ls` that starts with `p`.
pub open spec fn first_prefixed(ls: Seq<Seq<char>>, p: Seq<char>) -> Option<Seq<char>>
    decreases ls.len(),
{
    if ls.len() == 0 {
        None
    } else if p.is_prefix_of(ls[0]) {
        Some(ls[0])
    } else {
        first_prefixed(ls.drop_first(), p)
    }
}

/// The first line that starts with a literal.
pub fn find_prefixed(ls: &Vec<String>, p: &str) -> (r: Option<String>)
    ensures
        crate::model::opt_view(r) == first_prefixed(views(ls@), p@),
        r is Some ==> p@.is_prefix_of(r->0@),
{
    let mut i: usize = 0;
    assert(views(ls@).skip(0) == views(ls@));
    while i < ls.len()
        invariant
            i <= ls@.len(),
            first_prefixed(views(ls@), p@) == first_prefixed(views(ls@).skip(i as int), p@),
        decreases ls.len() - i,
    {
        assert(views(ls@).skip(i as int)[0] == ls@[i as int]@);
        assert(views(ls@).skip(i as int).drop_first() == views(ls@).skip(i + 1));
        if str_starts(ls[i].as_str(), p) {
            return Some(ls[i].clone());
        }
        i += 1;
    }
    assert(views(ls@).skip(i as int) =~= Seq::<Seq<char>>::empty());
    None
}

/// How many of `ls` start with `p`.
pub open spec fn count_prefixed(ls: Seq<Seq<char>>, p: Seq<char>) -> nat
    decreases ls.len(),
{
    if ls.len() == 0 {
        0
    } else {
        count_prefixed(ls.drop_last(), p) + if p.is_prefix_of(ls.last()) {
            1nat
        } else {
            0nat
        }
    }
}

pub proof fn lemma_count_prefixed_le(ls: Seq<Seq<char>>, p: Seq<char>)
    ensures
        count_prefixed(ls, p) <= ls.len(),
    decreases ls.len(),
{
    if ls.len() > 0 {
        lemma_count_prefixed_le(ls.drop_last(), p);
    }
}

/// The number of lines that start with a literal.
pub fn count_lines_prefixed(ls: &Vec<String>, p: &str) -> (r: usize)
    ensures
        r == count_prefixed(views(ls@), p@),
{
    let mut n: usize = 0;
    let mut i: usize = 0;
    while i < ls.len()
        invariant
            i <= ls@.len(),
            n == count_prefixed(views(ls@).take(i as int), p@),
        decreases ls.len() - i,
    {
        assert(views(ls@).take(i + 1).drop_last() == views(ls@).take(i as int));
        proof {
            lemma_count_prefixed_le(views(ls@).take(i as int), p@);
        }
        if str_starts(ls[i].as_str(), p) {
            n = n + 1;
        }
        i += 1;
    }
    assert(views(ls@).take(ls@.len() as int) == views(ls@));
    n
}

/// The piece after the first `c` and before the next one, trimmed: what
/// `line.split(c).nth(1).map(str::trim)` gives.
pub open spec fn second_piece(line: Seq<char>, c: char) -> Option<Seq<char>> {
    let ps = split_on(line, c);
    if ps.len() >= 2 {
        Some(trim(ps[1]))
    } else {
        None
    }
}

pub fn second_piece_of(line: &str, c: char) -> (r: Option<String>)
    ensures
        crate::model::opt_view(r) == second_piece(line@, c),
{
    let v = chars_of(line);
    let ps = split_char(&v, c);
    if ps.len() >= 2 {
        let pv = chars_of(ps[1].as_str());
        let t = trim_vec(&pv);
        Some(string_of(&t))
    } else {
        None
    }
}

/// `text.lines().find(|l| l.starts_with(key)).and_then(|l| l.split(':').nth(1)).map(str::trim)`.
pub open spec fn keyed_field(text: Seq<char>, key: Seq<char>) -> Option<Seq<char>> {
    match first_prefixed(lines(text), key) {
        Some(l) => second_piece(l, ':'),
        None => None,
    }
}

pub fn keyed_field_of(text: &str, key: &str) -> (r: Option<String>)
    ensures
        crate::model::opt_view(r) == keyed_field(text@, key@),
{
    let ls = str_lines(text);
    match find_prefixed(&ls, key) {
        Some(l) => second_piece_of(l.as_str(), ':'),
        None => None,
    }
}

/// The `n`th whitespace separated word.
pub open spec fn nth_word(s: Seq<char>, n: int) -> Option<Seq<char>> {
    let ws = split_ws(s);
    if 0 <= n < ws.len() {
        Some(ws[n])
    } else {
        None
    }
}

pub fn nth_word_of(s: &str, n: usize) -> (r: Option<String>)
    ensures
        crate::model::opt_view(r) == nth_word(s@, n as int),
{
    let ws = str_words(s);
    if n < ws.len() {
        Some(ws[n].clone())
    } else {
        None
    }
}

/// Whether every character is a decimal digit.
pub fn all_digits_of(v: &Vec<char>) -> (r: bool)
    ensures
        r == all_digits(v@),
{
    let mut i: usize = 0;
    while i < v.len()
        invariant
            i <= v@.len(),
            forall|k: int| 0 <= k < i ==> is_digit(#[trigger] v@[k]),
        decreases v.len() - i,
    {
        if !('0' <= v[i] && v[i] <= '9') {
            assert(!is_digit(v@[i as int]));
            return false;
        }
        i += 1;
    }
    true
}

/// The thousandths a decimal fraction's digits stand for, the rest dropped.
pub open spec fn milli_frac(f: Seq<char>) -> nat {
    if f.len() >= 3 {
        digits_val(f.take(3))
    } else if f.len() == 2 {
        digits_val(f) * 10
    } else if f.len() == 1 {
        digits_val(f) * 100
    } else {
        0
    }
}

/// A decimal such as `2999.998` in thousandths, rounded down: digits, and
/// optionally a point and more digits, with at least one digit in all.
pub open spec fn parse_milli(s: Seq<char>) -> Option<u64> {
    let (ip, fp) = match split_once(s, '.') {
        Some((a, b)) => (a, b),
        None => (s, Seq::<char>::empty()),
    };
    if (ip.len() > 0 || fp.len() > 0) && all_digits(ip) && all_digits(fp) && digits_val(ip) * 1000
        + milli_frac(fp) <= u64::MAX {
        Some((digits_val(ip) * 1000 + milli_frac(fp)) as u64)
    } else {
        None
    }
}

fn digits_value(v: &Vec<char>) -> (r: Option<u64>)
    requires
        all_digits(v@),
    ensures
        match r {
            Some(n) => n == digits_val(v@),
            None => digits_val(v@) > u64::MAX,
        },
{
    if v.len() == 0 {
        return Some(0);
    }
    let r = parse_u64_vec(v);
    proof {
        if v@.len() > 0 && v@[0] == '+' {
            assert(!is_digit(v@[0]));
        }
    }
    r
}

/// Reads a decimal in thousandths.
pub fn parse_milli_str(s: &str) -> (r: Option<u64>)
    ensures
        r == parse_milli(s@),
{
    let v = chars_of(s);
    let (ip, fp) = match split_once_char(&v, '.') {
        Some((a, b)) => (a, b),
        None => (v, Vec::new()),
    };
    assert(fp@ == Seq::<char>::empty() || split_once(s@, '.') is Some);
    if ip.len() == 0 && fp.len() == 0 {
        return None;
    }
    if !all_digits_of(&ip) || !all_digits_of(&fp) {
        return None;
    }
    let whole = match digits_value(&ip) {
        Some(n) => n,
        None => return None,
    };
    let frac: u64 = if fp.len() >= 3 {
        let f3 = subvec(&fp, 0, 3);
        assert(all_digits(f3@));
        proof {
            lemma_digits_val_bound3(f3@);
        }
        match digits_value(&f3) {
            Some(n) => n,
            None => 0,
        }
    } else {
        proof {
            lemma_digits_val_bound3(fp@);
        }
        match digits_value(&fp) {
            Some(n) => if fp.len() == 2 {
                n * 10
            } else {
                n * 100
            },
            None => 0,
        }
    };
    assert(frac == milli_frac(fp@));
    if whole > (u64::MAX - frac) / 1000 {
        proof {
            let w = whole as int;
            let f = frac as int;
            assert(w * 1000 + f > u64::MAX) by (nonlinear_arith)
                requires
                    w > (u64::MAX - f) / 1000,
                    0 <= f < 1000,
            ;
        }
        return None;
    }
    Some(whole * 1000 + frac)
}

proof fn lemma_digits_val_bound3(s: Seq<char>)
    requires
        s.len() <= 3,
        all_digits(s),
    ensures
        digits_val(s) < 1000,
        s.len() == 2 ==> digits_val(s) < 100,
        s.len() == 1 ==> digits_val(s) < 10,
        s.len() == 0 ==> digits_val(s) == 0,
    decreases s.len(),
{
    if s.len() > 0 {
        lemma_digits_val_bound3(s.drop_last());
        assert(is_digit(s.last()));
    }
}

/// A signed number written out in decimal.
pub open spec fn idec(n: int) -> Seq<char> {
    if n < 0 {
        "-"@ + dec((-n) as nat)
    } else {
        dec(n as nat)
    }
}

pub fn idec_string(n: i64) -> (s: String)
    ensures
        s@ == idec(n as int),
{
    if n < 0 {
        let m: u64 = ((-(n + 1)) as u64) + 1;
        let d = dec_string(m);
        cat("-", d.as_str())
    } else {
        dec_string(n as u64)
    }
}

/// Name and value pairs, as text.
pub open spec fn pair_views(v: Seq<(String, String)>) -> Seq<(Seq<char>, Seq<char>)> {
    v.map_values(|p: (String, String)| (p.0@, p.1@))
}

/// The value paired with the first occurrence of `key`.
pub open spec fn lookup(ps: Seq<(Seq<char>, Seq<char>)>, key: Seq<char>) -> Option<Seq<char>>
    decreases ps.len(),
{
    if ps.len() == 0 {
        None
    } else if ps[0].0 == key {
        Some(ps[0].1)
    } else {
        lookup(ps.drop_first(), key)
    }
}

/// A key no pair carries looks up to nothing.
pub proof fn lemma_lookup_absent(ps: Seq<(Seq<char>, Seq<char>)>, key: Seq<char>)
    requires
        forall|k: int| 0 <= k < ps.len() ==> (#[trigger] ps[k]).0 != key,
    ensures
        lookup(ps, key) is None,
    decreases ps.len(),
{
    if ps.len() > 0 {
        assert forall|k: int| 0 <= k < ps.drop_first().len() implies (#[trigger] ps.drop_first()[k]).0
            != key by {
            assert(ps.drop_first()[k] == ps[k + 1]);
        }
        lemma_lookup_absent(ps.drop_first(), key);
    }
}

pub fn lookup_of(ps: &Vec<(String, String)>, key: &str) -> (r: Option<String>)
    ensures
        crate::model::opt_view(r) == lookup(pair_views(ps@), key@),
{
    let k = chars_of(key);
    let mut i: usize = 0;
    assert(pair_views(ps@).skip(0) == pair_views(ps@));
    while i < ps.len()
        invariant
            i <= ps@.len(),
            k@ == key@,
            lookup(pair_views(ps@), key@) == lookup(pair_views(ps@).skip(i as int), key@),
        decreases ps.len() - i,
    {
        assert(pair_views(ps@).skip(i as int)[0] == (ps@[i as int].0@, ps@[i as int].1@));
        assert(pair_views(ps@).skip(i as int).drop_first() == pair_views(ps@).skip(i + 1));
        let n = chars_of(ps[i].0.as_str());
        if same(&n, &k) {
            return Some(ps[i].1.clone());
        }
        i += 1;
    }
    assert(pair_views(ps@).skip(i as int) =~= Seq::<(Seq<char>, Seq<char>)>::empty());
    None
}

/// Whether a string equals a literal.
pub fn eq_lit(s: &str, lit: &str) -> (r: bool)
    ensures
        r == (s@ == lit@),
{
    let a = chars_of(s);
    let b = chars_of(lit);
    same(&a, &b)
}

/// `trim_end_matches(c)`.
pub fn strip_char_end_vec(a: &Vec<char>, c: char) -> (r: Vec<char>)
    ensures
        r@ == strip_char_end(a@, c),
{
    let mut j: usize = a.len();
    assert(a@.take(a@.len() as int) == a@);
    while j > 0 && a[j - 1] == c
        invariant
            j <= a.len(),
            strip_char_end(a@, c) == strip_char_end(a@.take(j as int), c),
        decreases j,
    {
        assert(a@.take(j as int).drop_last() == a@.take(j - 1));
        j -= 1;
    }
    subvec(a, 0, j)
}

/// The pieces with `sep` between each pair: `join`.
pub open spec fn join(v: Seq<Seq<char>>, sep: Seq<char>) -> Seq<char>
    decreases v.len(),
{
    if v.len() == 0 {
        Seq::empty()
    } else if v.len() == 1 {
        v[0]
    } else {
        join(v.drop_last(), sep) + sep + v.last()
    }
}

pub fn join_strings(v: &Vec<String>, sep: &str) -> (r: String)
    ensures
        r@ == join(views(v@), sep@),
{
    let mut out = String::new();
    let mut i: usize = 0;
    while i < v.len()
        invariant
            i <= v@.len(),
            out@ == join(views(v@).take(i as int), sep@),
        decreases v.len() - i,
    {
        assert(views(v@).take(i + 1).drop_last() == views(v@).take(i as int));
        assert(views(v@).take(i + 1).last() == v@[i as int]@);
        if i > 0 {
            append(&mut out, sep);
        } else {
            assert(views(v@).take(1) == seq![v@[0]@]);
        }
        append(&mut out, v[i].as_str());
        i += 1;
    }
    assert(views(v@).take(v@.len() as int) == views(v@));
    out
}

// ---------------------------------------------------------------------------
// Hexadecimal
// ---------------------------------------------------------------------------

pub open spec fn hex_val(c: char) -> Option<nat> {
    if '0' <= c && c <= '9' {
        Some(((c as u32) - ('0' as u32)) as nat)
    } else if 'a' <= c && c <= 'f' {
        Some(((c as u32) - ('a' as u32) + 10) as nat)
    } else if 'A' <= c && c <= 'F' {
        Some(((c as u32) - ('A' as u32) + 10) as nat)
    } else {
        None
    }
}

pub open spec fn hex_digits(s: Seq<char>) -> Option<nat>
    decreases s.len(),
{
    if s.len() == 0 {
        Some(0)
    } else {
        match (hex_digits(s.drop_last()), hex_val(s.last())) {
            (Some(a), Some(d)) => Some(a * 16 + d),
            _ => None,
        }
    }
}

/// `u64::from_str_radix(s, 16)`: an optional `+`, then one or more hex
/// digits, in range.
pub open spec fn parse_hex(s: Seq<char>) -> Option<u64> {
    let d = if s.len() > 0 && s[0] == '+' {
        s.drop_first()
    } else {
        s
    };
    if d.len() == 0 {
        None
    } else {
        match hex_digits(d) {
            Some(v) => if v <= u64::MAX {
                Some(v as u64)
            } else {
                None
            },
            None => None,
        }
    }
}

proof fn lemma_hex_prefix(s: Seq<char>, k: int)
    requires
        0 <= k <= s.len(),
        hex_digits(s) is Some,
    ensures
        hex_digits(s.take(k)) is Some,
        hex_digits(s.take(k))->0 <= hex_digits(s)->0,
    decreases s.len() - k,
{
    if k == s.len() {
        assert(s.take(k) == s);
    } else {
        lemma_hex_prefix(s, k + 1);
        assert(s.take(k + 1).drop_last() == s.take(k));
    }
}

fn hex_digit(c: char) -> (r: Option<u64>)
    ensures
        match hex_val(c) {
            Some(v) => r == Some(v as u64),
            None => r is None,
        },
{
    if '0' <= c && c <= '9' {
        Some((c as u32 - '0' as u32) as u64)
    } else if 'a' <= c && c <= 'f' {
        Some((c as u32 - 'a' as u32 + 10) as u64)
    } else if 'A' <= c && c <= 'F' {
        Some((c as u32 - 'A' as u32 + 10) as u64)
    } else {
        None
    }
}

pub fn parse_hex_str(s: &str) -> (r: Option<u64>)
    ensures
        r == parse_hex(s@),
{
    let v = chars_of(s);
    let start: usize = if v.len() > 0 && v[0] == '+' {
        1
    } else {
        0
    };
    let ghost d = if v@.len() > 0 && v@[0] == '+' {
        v@.drop_first()
    } else {
        v@
    };
    assert(d == v@.subrange(start as int, v@.len() as int));
    if start >= v.len() {
        return None;
    }
    let mut acc: u64 = 0;
    let mut i: usize = start;
    assert(d.take(0) =~= Seq::<char>::empty());
    while i < v.len()
        invariant
            start <= i <= v.len(),
            v@ == s@,
            d == (if v@.len() > 0 && v@[0] == '+' {
                v@.drop_first()
            } else {
                v@
            }),
            d.len() > 0,
            d == v@.subrange(start as int, v@.len() as int),
            hex_digits(d.take(i - start)) == Some(acc as nat),
        decreases v.len() - i,
    {
        assert(d.take(i - start + 1).drop_last() == d.take(i - start));
        assert(d.take(i - start + 1).last() == v@[i as int]);
        let dv = match hex_digit(v[i]) {
            Some(x) => x,
            None => {
                proof {
                    assert(hex_digits(d.take(i - start + 1)) is None);
                    if hex_digits(d) is Some {
                        lemma_hex_prefix(d, i - start + 1);
                    }
                }
                return None;
            },
        };
        if acc > (u64::MAX - dv) / 16 {
            proof {
                let a = acc as int;
                let e = dv as int;
                assert(a * 16 + e > u64::MAX) by (nonlinear_arith)
                    requires
                        a > (u64::MAX - e) / 16,
                        0 <= e < 16,
                ;
                assert(hex_digits(d.take(i - start + 1)) == Some((a * 16 + e) as nat));
                if hex_digits(d) is Some {
                    lemma_hex_prefix(d, i - start + 1);
                }
            }
            return None;
        }
        acc = acc * 16 + dv;
        i += 1;
    }
    assert(d.take(d.len() as int) == d);
    Some(acc)
}

pub open spec fn hex_char(d: nat) -> char {
    if d < 10 {
        (('0' as u32) + d) as char
    } else {
        (('a' as u32) + d - 10) as char
    }
}

/// The last `k` hex digits of `n`, zero padded: `{:0k$x}` for a number that fits.
pub open spec fn hex_text(n: nat, k: nat) -> Seq<char>
    decreases k,
{
    if k == 0 {
        Seq::empty()
    } else {
        hex_text(n / 16, (k - 1) as nat).push(hex_char(n % 16))
    }
}

pub fn hex16(n: u64) -> (r: String)
    ensures
        r@ == hex_text(n as nat, 16),
{
    let mut digits: Vec<char> = Vec::new();
    let mut q: u64 = n;
    let mut k: u64 = 0;
    while k < 16
        invariant
            k <= 16,
            hex_text(n as nat, 16) == hex_text(q as nat, (16 - k) as nat) + digits@,
        decreases 16 - k,
    {
        let d = q % 16;
        let c: char = if d < 10 {
            (48 + d as u8) as char
        } else {
            (87 + d as u8) as char
        };
        assert(c == hex_char(d as nat));
        assert(hex_text(q as nat, (16 - k) as nat) == hex_text((q / 16) as nat, (16 - k - 1) as nat).push(c));
        digits.insert(0, c);
        assert(hex_text((q / 16) as nat, (16 - k - 1) as nat).push(c) + digits@.drop_first()
            == hex_text((q / 16) as nat, (16 - k - 1) as nat) + digits@);
        q = q / 16;
        k += 1;
    }
    assert(hex_text(q as nat, 0) == Seq::<char>::empty());
    assert(Seq::<char>::empty() + digits@ == digits@);
    string_of(&digits)
}

} // verus!
