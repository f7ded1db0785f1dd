//! Finding the validator command line.
//!
//! Looks at a running process first, then a systemd unit, then the wrapper
//! script that unit points at, since that is the layout Anza's setup guide
//! produces. Failure is reported with the full trail, never as an empty result.
//!
//! Everything here works on text that has already been read: the caller hands
//! in process command lines, unit files and scripts, and this module decides.

use vstd::prelude::*;
use vstd::string::*;
use crate::text::{
    append, cat, chars_of, contains_seq, has_char, owned, split_char, split_on, split_once,
    split_once_char, string_of, subvec, views,
};

verus! {

#[derive(Debug, Clone, Copy, PartialEq, Eq, Structural)]
pub enum Origin {
    RunningProcess,
    UnitExecStart,
    WrapperScript,
    File,
}

pub open spec fn origin_label(o: Origin) -> Seq<char> {
    match o {
        Origin::RunningProcess => "running process"@,
        Origin::UnitExecStart => "unit ExecStart"@,
        Origin::WrapperScript => "unit ExecStart -> wrapper script"@,
        Origin::File => "--invocation file"@,
    }
}

impl Origin {
    pub fn label(self) -> (r: &'static str)
        ensures
            r@ == origin_label(self),
    {
        match self {
            Origin::RunningProcess => "running process",
            Origin::UnitExecStart => "unit ExecStart",
            Origin::WrapperScript => "unit ExecStart -> wrapper script",
            Origin::File => "--invocation file",
        }
    }
}

/// An environment as an ordered list of assignments, each name at most once.
pub open spec fn env_view(e: Seq<(String, String)>) -> Seq<(Seq<char>, Seq<char>)> {
    e.map_values(|p: (String, String)| (p.0@, p.1@))
}

/// No name is assigned twice.
pub open spec fn env_keys_unique(e: Seq<(Seq<char>, Seq<char>)>) -> bool {
    forall|i: int, j: int| 0 <= i < e.len() && 0 <= j < e.len() && i != j ==> e[i].0 != e[j].0
}

/// Sets `k` to `v`, replacing an earlier assignment of `k`.
pub open spec fn env_set(e: Seq<(Seq<char>, Seq<char>)>, k: Seq<char>, v: Seq<char>) -> Seq<
    (Seq<char>, Seq<char>),
>
    decreases e.len(),
{
    if e.len() == 0 {
        seq![(k, v)]
    } else if e[0].0 == k {
        seq![(k, v)] + e.drop_first()
    } else {
        seq![e[0]] + env_set(e.drop_first(), k, v)
    }
}

proof fn lemma_env_set_at(e: Seq<(Seq<char>, Seq<char>)>, k: Seq<char>, v: Seq<char>, i: int)
    requires
        0 <= i <= e.len(),
        i < e.len() ==> e[i].0 == k,
        forall|j: int| 0 <= j < i ==> e[j].0 != k,
    ensures
        env_set(e, k, v) == (if i < e.len() {
            e.update(i, (k, v))
        } else {
            e.push((k, v))
        }),
    decreases e.len(),
{
    if e.len() > 0 && i > 0 {
        assert forall|j: int| 0 <= j < i - 1 implies e.drop_first()[j].0 != k by {
            assert(e.drop_first()[j] == e[j + 1]);
        }
        lemma_env_set_at(e.drop_first(), k, v, i - 1);
        if i < e.len() {
            assert(seq![e[0]] + e.drop_first().update(i - 1, (k, v)) =~= e.update(i, (k, v)));
        } else {
            assert(seq![e[0]] + e.drop_first().push((k, v)) =~= e.push((k, v)));
        }
    } else if e.len() > 0 {
        assert(seq![(k, v)] + e.drop_first() =~= e.update(0, (k, v)));
    } else {
        assert(seq![(k, v)] =~= e.push((k, v)));
    }
}

/// Sets `k` to `v` in an environment.
pub fn env_insert(env: &mut Vec<(String, String)>, k: String, v: String)
    ensures
        env_view(final(env)@) == env_set(env_view(old(env)@), k@, v@),
{
    let ghost e0 = env_view(env@);
    let kc = chars_of(k.as_str());
    let mut i: usize = 0;
    while i < env.len()
        invariant
            i <= env@.len(),
            e0 == env_view(env@),
            e0 == env_view(old(env)@),
            kc@ == k@,
            forall|j: int| 0 <= j < i ==> e0[j].0 != k@,
        decreases env.len() - i,
    {
        let a = chars_of(env[i].0.as_str());
        assert(e0[i as int].0 == a@);
        if crate::text::same(&a, &kc) {
            proof {
                lemma_env_set_at(e0, k@, v@, i as int);
            }
            let ghost kv = k@;
            let ghost vv = v@;
            env.set(i, (k, v));
            assert(env_view(env@) =~= e0.update(i as int, (kv, vv)));
            return;
        }
        i += 1;
    }
    proof {
        lemma_env_set_at(e0, k@, v@, e0.len() as int);
    }
    let ghost kv = k@;
    let ghost vv = v@;
    env.push((k, v));
    assert(env_view(env@) =~= e0.push((kv, vv)));
}

#[derive(Debug, Clone)]
pub struct Invocation {
    pub origin: Origin,
    pub pid: Option<String>,
    /// The file an operator actually edits to change this command line.
    pub edit_target: Option<String>,
    pub unit_path: Option<String>,
    pub unit_name: Option<String>,
    pub program: String,
    pub args: Vec<String>,
    pub env: Vec<(String, String)>,
    pub unresolved: Vec<String>,
    pub trail: Vec<String>,
}

/// Whether `flag` is among the arguments, alone or as `flag=value`.
pub open spec fn has_flag(args: Seq<Seq<char>>, flag: Seq<char>) -> bool {
    exists|i: int|
        0 <= i < args.len() && (args[i] == flag || (flag + "="@).is_prefix_of(#[trigger] args[i]))
}

/// The value given to `flag`: the text after `flag=`, or the next argument
/// unless that is itself a flag. The first mention decides.
pub open spec fn flag_value(args: Seq<Seq<char>>, flag: Seq<char>) -> Option<Seq<char>>
    decreases args.len(),
{
    if args.len() == 0 {
        None
    } else {
        let a = args[0];
        let eq = flag + "="@;
        if eq.is_prefix_of(a) {
            Some(a.skip(eq.len() as int))
        } else if a == flag {
            if args.len() > 1 && !"--"@.is_prefix_of(args[1]) {
                Some(args[1])
            } else {
                None
            }
        } else {
            flag_value(args.drop_first(), flag)
        }
    }
}

/// The flags of `list` that are present, in the order `list` gives them.
pub open spec fn present(args: Seq<Seq<char>>, list: Seq<Seq<char>>) -> Seq<Seq<char>>
    decreases list.len(),
{
    if list.len() == 0 {
        Seq::empty()
    } else {
        let rest = present(args, list.drop_last());
        if has_flag(args, list.last()) {
            rest.push(list.last())
        } else {
            rest
        }
    }
}

pub open spec fn str_views(v: Seq<&str>) -> Seq<Seq<char>> {
    v.map_values(|s: &str| s@)
}

impl Invocation {
    pub open spec fn arg_views(&self) -> Seq<Seq<char>> {
        views(self.args@)
    }

    pub fn has(&self, flag: &str) -> (r: bool)
        ensures
            r == has_flag(self.arg_views(), flag@),
    {
        let f = chars_of(flag);
        let eq = chars_of(cat(flag, "=").as_str());
        let mut i: usize = 0;
        while i < self.args.len()
            invariant
                i <= self.args@.len(),
                f@ == flag@,
                eq@ == flag@ + "="@,
                forall|k: int|
                    0 <= k < i ==> !(self.arg_views()[k] == flag@ || (flag@ + "="@).is_prefix_of(
                        #[trigger] self.arg_views()[k],
                    )),
            decreases self.args.len() - i,
        {
            let a = chars_of(self.args[i].as_str());
            assert(a@ == self.arg_views()[i as int]);
            if crate::text::same(&a, &f) || crate::text::starts_with(&a, &eq) {
                return true;
            }
            i += 1;
        }
        false
    }

    pub fn value(&self, flag: &str) -> (r: Option<String>)
        ensures
            crate::model::opt_view(r) == flag_value(self.arg_views(), flag@),
    {
        let f = chars_of(flag);
        let eq = chars_of(cat(flag, "=").as_str());
        let dd = chars_of("--");
        let ghost all = self.arg_views();
        let mut i: usize = 0;
        assert(all.skip(0) == all);
        while i < self.args.len()
            invariant
                i <= self.args@.len(),
                all == self.arg_views(),
                f@ == flag@,
                eq@ == flag@ + "="@,
                dd@ == "--"@,
                flag_value(all, flag@) == flag_value(all.skip(i as int), flag@),
            decreases self.args.len() - i,
        {
            let a = chars_of(self.args[i].as_str());
            assert(a@ == all[i as int]);
            assert(all.skip(i as int)[0] == all[i as int]);
            assert(all.skip(i as int).drop_first() == all.skip(i + 1));
            if crate::text::starts_with(&a, &eq) {
                let v = subvec(&a, eq.len(), a.len());
                return Some(string_of(&v));
            }
            if crate::text::same(&a, &f) {
                if i + 1 < self.args.len() {
                    let n = chars_of(self.args[i + 1].as_str());
                    assert(all.skip(i as int)[1] == all[i + 1]);
                    if crate::text::starts_with(&n, &dd) {
                        return None;
                    }
                    return Some(self.args[i + 1].clone());
                }
                return None;
            }
            i += 1;
        }
        None
    }

    pub fn present_from(&self, list: &[&str]) -> (r: Vec<String>)
        ensures
            views(r@) == present(self.arg_views(), str_views(list@)),
    {
        let mut out: Vec<String> = Vec::new();
        let mut i: usize = 0;
        while i < list.len()
            invariant
                i <= list@.len(),
                views(out@) == present(self.arg_views(), str_views(list@).take(i as int)),
            decreases list.len() - i,
        {
            let ghost l = str_views(list@);
            assert(l.take(i + 1).drop_last() == l.take(i as int));
            assert(l.take(i + 1).last() == list@[i as int]@);
            if self.has(list[i]) {
                let s = owned(list[i]);
                out.push(s);
                assert(views(out@) == views(out@.drop_last()).push(s@));
            }
            i += 1;
        }
        assert(str_views(list@).take(list@.len() as int) == str_views(list@));
        out
    }
}

/// A flag that has a value is present.
pub proof fn law_value_implies_present(args: Seq<Seq<char>>, flag: Seq<char>)
    requires
        flag_value(args, flag) is Some,
    ensures
        has_flag(args, flag),
    decreases args.len(),
{
    let eq = flag + "="@;
    if eq.is_prefix_of(args[0]) || args[0] == flag {
        assert(args[0] == args[0]);
    } else {
        law_value_implies_present(args.drop_first(), flag);
        let i = choose|i: int|
            0 <= i < args.drop_first().len() && (args.drop_first()[i] == flag || (flag
                + "="@).is_prefix_of(#[trigger] args.drop_first()[i]));
        assert(args[i + 1] == args.drop_first()[i]);
    }
}

// ---------------------------------------------------------------------------
// Words
// ---------------------------------------------------------------------------

/// The shell-like tokenizer's state after some prefix of a line: words done,
/// the word being read, the open quote, whether a word has begun, and whether
/// the last character was a backslash.
pub struct SplitState {
    pub words: Seq<Seq<char>>,
    pub cur: Seq<char>,
    pub quote: Option<char>,
    pub started: bool,
    pub escaped: bool,
}

pub open spec fn split_start() -> SplitState {
    SplitState {
        words: Seq::empty(),
        cur: Seq::empty(),
        quote: None,
        started: false,
        escaped: false,
    }
}

/// One character through the tokenizer. A backslash takes the next character
/// literally, except a newline, which it swallows. A quote opens or closes a
/// quoted run, and inside a run the other quote is an ordinary character.
/// Whitespace outside quotes ends a word.
pub open spec fn split_step(st: SplitState, c: char) -> SplitState {
    if st.escaped {
        if c != '\n' {
            SplitState { cur: st.cur.push(c), started: true, escaped: false, ..st }
        } else {
            SplitState { escaped: false, ..st }
        }
    } else if c == '\\' {
        SplitState { escaped: true, ..st }
    } else if c == '\'' || c == '"' {
        match st.quote {
            Some(q) => if q == c {
                SplitState { quote: None, ..st }
            } else {
                SplitState { cur: st.cur.push(c), started: true, ..st }
            },
            None => SplitState { quote: Some(c), started: true, ..st },
        }
    } else if crate::text::is_ws(c) && st.quote is None {
        if st.started {
            SplitState { words: st.words.push(st.cur), cur: Seq::empty(), started: false, ..st }
        } else {
            st
        }
    } else {
        SplitState { cur: st.cur.push(c), started: true, ..st }
    }
}

pub open spec fn split_fold(s: Seq<char>) -> SplitState
    decreases s.len(),
{
    if s.len() == 0 {
        split_start()
    } else {
        split_step(split_fold(s.drop_last()), s.last())
    }
}

/// The words of a command line, with quotes and backslashes read the way a
/// shell reads them.
pub open spec fn shell_words(s: Seq<char>) -> Seq<Seq<char>> {
    let st = split_fold(s);
    if st.started {
        st.words.push(st.cur)
    } else {
        st.words
    }
}

pub fn split_words(line: &str) -> (r: Vec<String>)
    ensures
        views(r@) == shell_words(line@),
{
    let v = chars_of(line);
    let mut out: Vec<String> = Vec::new();
    let mut cur: Vec<char> = Vec::new();
    let mut quote: Option<char> = None;
    let mut started = false;
    let mut escaped = false;
    let mut i: usize = 0;
    assert(v@.take(0) =~= Seq::<char>::empty());
    assert(views(out@) =~= Seq::<Seq<char>>::empty());
    while i < v.len()
        invariant
            i <= v@.len(),
            v@ == line@,
            split_fold(v@.take(i as int)).words == views(out@),
            split_fold(v@.take(i as int)).cur == cur@,
            split_fold(v@.take(i as int)).quote == quote,
            split_fold(v@.take(i as int)).started == started,
            split_fold(v@.take(i as int)).escaped == escaped,
        decreases v.len() - i,
    {
        assert(v@.take(i + 1).drop_last() == v@.take(i as int));
        let c = v[i];
        if escaped {
            escaped = false;
            if c != '\n' {
                cur.push(c);
                started = true;
            }
        } else if c == '\\' {
            escaped = true;
        } else if c == '\'' || c == '"' {
            match quote {
                Some(q) => {
                    if q == c {
                        quote = None;
                    } else {
                        cur.push(c);
                        started = true;
                    }
                },
                None => {
                    quote = Some(c);
                    started = true;
                },
            }
        } else if crate::text::is_ws_char(c) && quote.is_none() {
            if started {
                let w = string_of(&cur);
                out.push(w);
                assert(views(out@) == views(out@.drop_last()).push(w@));
                cur = Vec::new();
                started = false;
            }
        } else {
            cur.push(c);
            started = true;
        }
        i += 1;
    }
    assert(v@.take(v.len() as int) == v@);
    if started {
        let w = string_of(&cur);
        out.push(w);
        assert(views(out@) == views(out@.drop_last()).push(w@));
    }
    out
}

/// A backslash at the end of a line joins it to the next, as one space.
pub open spec fn join_cont(s: Seq<char>) -> Seq<char>
    decreases s.len(),
{
    if s.len() == 0 {
        s
    } else if s.len() >= 2 && s[0] == '\\' && s[1] == '\n' {
        seq![' '] + join_cont(s.skip(2))
    } else {
        seq![s[0]] + join_cont(s.drop_first())
    }
}

pub fn join_continuations(text: &str) -> (r: String)
    ensures
        r@ == join_cont(text@),
{
    let v = chars_of(text);
    let mut out: Vec<char> = Vec::new();
    let mut i: usize = 0;
    assert(v@.skip(0) == v@);
    while i < v.len()
        invariant
            i <= v@.len(),
            v@ == text@,
            join_cont(v@) == out@ + join_cont(v@.skip(i as int)),
        decreases v.len() - i,
    {
        let ghost rest = v@.skip(i as int);
        if i + 1 < v.len() && v[i] == '\\' && v[i + 1] == '\n' {
            assert(rest[0] == '\\' && rest[1] == '\n');
            assert(rest.skip(2) == v@.skip(i + 2));
            out.push(' ');
            assert(out@ + join_cont(v@.skip(i + 2)) == out@.drop_last() + (seq![' '] + join_cont(
                rest.skip(2),
            )));
            i += 2;
        } else {
            assert(rest.drop_first() == v@.skip(i + 1));
            assert(rest[0] == v@[i as int]);
            out.push(v[i]);
            assert(out@ + join_cont(v@.skip(i + 1)) == out@.drop_last() + (seq![v@[i as int]]
                + join_cont(rest.drop_first())));
            i += 1;
        }
    }
    assert(v@.skip(v@.len() as int) =~= Seq::<char>::empty());
    assert(out@ + Seq::<char>::empty() == out@);
    string_of(&out)
}

/// The last path component: everything after the final `/`.
pub open spec fn basename(s: Seq<char>) -> Seq<char>
    decreases s.len(),
{
    if s.len() == 0 {
        s
    } else if s.last() == '/' {
        Seq::empty()
    } else {
        basename(s.drop_last()).push(s.last())
    }
}

/// A name with no `/` in it is its own last path component, whatever
/// directory it is put in.
pub proof fn lemma_basename_of_a_name(dir: Seq<char>, name: Seq<char>)
    requires
        forall|i: int| 0 <= i < name.len() ==> name[i] != '/',
    ensures
        basename(name) == name,
        basename(dir + "/"@ + name) == name,
    decreases name.len(),
{
    reveal_strlit("/");
    let s = dir + "/"@ + name;
    if name.len() == 0 {
        assert(s.last() == '/');
    } else {
        let init = name.drop_last();
        lemma_basename_of_a_name(dir, init);
        assert(s.drop_last() =~= dir + "/"@ + init);
        assert(s.last() == name.last());
        assert(name.drop_last().push(name.last()) =~= name);
    }
}

pub open spec fn is_validator_name(b: Seq<char>) -> bool {
    b == "agave-validator"@ || b == "solana-validator"@ || b == "solana-test-validator"@ || b
        == "fdctl"@
}

/// A token that names a validator binary, by itself or as the last
/// component of a path.
pub open spec fn is_validator_token(tok: Seq<char>) -> bool {
    is_validator_name(basename(tok))
}

pub fn basename_of(v: &Vec<char>) -> (r: Vec<char>)
    ensures
        r@ == basename(v@),
{
    let mut j: usize = v.len();
    let mut tail: Vec<char> = Vec::new();
    assert(v@.take(v@.len() as int) == v@);
    while j > 0 && v[j - 1] != '/'
        invariant
            j <= v@.len(),
            basename(v@) == basename(v@.take(j as int)) + tail@,
        decreases j,
    {
        let ghost p = v@.take(j as int);
        assert(p.drop_last() == v@.take(j - 1));
        assert(p.last() == v@[j - 1]);
        tail.insert(0, v[j - 1]);
        assert(basename(p) + tail@.drop_first() == basename(v@.take(j - 1)) + tail@);
        j -= 1;
    }
    proof {
        let p = v@.take(j as int);
        if j > 0 {
            assert(p.last() == v@[j - 1]);
        }
        assert(basename(p) =~= Seq::<char>::empty());
        assert(Seq::<char>::empty() + tail@ == tail@);
    }
    tail
}

pub fn is_validator_bin(tok: &str) -> (r: bool)
    ensures
        r == is_validator_token(tok@),
{
    let v = chars_of(tok);
    let b = basename_of(&v);
    crate::text::same(&b, &chars_of("agave-validator")) || crate::text::same(
        &b,
        &chars_of("solana-validator"),
    ) || crate::text::same(&b, &chars_of("solana-test-validator")) || crate::text::same(
        &b,
        &chars_of("fdctl"),
    )
}

// ---------------------------------------------------------------------------
// Building an invocation
// ---------------------------------------------------------------------------

/// What an invocation says, as text.
#[verifier::ext_equal]
pub struct InvocationView {
    pub origin: Origin,
    pub pid: Option<Seq<char>>,
    pub edit_target: Option<Seq<char>>,
    pub unit_path: Option<Seq<char>>,
    pub unit_name: Option<Seq<char>>,
    pub program: Seq<char>,
    pub args: Seq<Seq<char>>,
    pub env: Seq<(Seq<char>, Seq<char>)>,
    pub unresolved: Seq<Seq<char>>,
    pub trail: Seq<Seq<char>>,
}

impl View for Invocation {
    type V = InvocationView;

    open spec fn view(&self) -> InvocationView {
        InvocationView {
            origin: self.origin,
            pid: crate::model::opt_view(self.pid),
            edit_target: crate::model::opt_view(self.edit_target),
            unit_path: crate::model::opt_view(self.unit_path),
            unit_name: crate::model::opt_view(self.unit_name),
            program: self.program@,
            args: views(self.args@),
            env: env_view(self.env@),
            unresolved: views(self.unresolved@),
            trail: views(self.trail@),
        }
    }
}

pub open spec fn opt_inv(o: Option<Invocation>) -> Option<InvocationView> {
    match o {
        Some(i) => Some(i@),
        None => None,
    }
}

/// A word that sets a variable for the program after it, such as `RUST_LOG=info`.
pub open spec fn is_env_word(w: Seq<char>) -> bool {
    !"-"@.is_prefix_of(w) && w.contains('=') && !w.contains('/')
}

/// Leading assignments, the program and its arguments, and every token the
/// shell would still have expanded.
pub struct EnvSplit {
    pub env: Seq<(Seq<char>, Seq<char>)>,
    pub rest: Seq<Seq<char>>,
    pub unresolved: Seq<Seq<char>>,
    pub seen_program: bool,
}

pub open spec fn env_split_step(st: EnvSplit, w: Seq<char>) -> EnvSplit {
    if !st.seen_program && is_env_word(w) {
        let (k, v) = split_once(w, '=').unwrap();
        EnvSplit { env: env_set(st.env, k, v), ..st }
    } else {
        EnvSplit {
            unresolved: if w.contains('$') {
                st.unresolved.push(w)
            } else {
                st.unresolved
            },
            seen_program: st.seen_program || is_validator_token(w),
            rest: st.rest.push(w),
            ..st
        }
    }
}

pub open spec fn env_split(ws: Seq<Seq<char>>) -> EnvSplit
    decreases ws.len(),
{
    if ws.len() == 0 {
        EnvSplit {
            env: Seq::empty(),
            rest: Seq::empty(),
            unresolved: Seq::empty(),
            seen_program: false,
        }
    } else {
        env_split_step(env_split(ws.drop_last()), ws.last())
    }
}

fn split_env_and_args(words: &Vec<String>) -> (r: (Vec<(String, String)>, Vec<String>, Vec<String>))
    ensures
        env_view(r.0@) == env_split(views(words@)).env,
        views(r.1@) == env_split(views(words@)).rest,
        views(r.2@) == env_split(views(words@)).unresolved,
{
    let mut env: Vec<(String, String)> = Vec::new();
    let mut unresolved: Vec<String> = Vec::new();
    let mut rest: Vec<String> = Vec::new();
    let mut seen_program = false;
    let ghost ws = views(words@);
    let mut i: usize = 0;
    assert(ws.take(0) =~= Seq::<Seq<char>>::empty());
    assert(env_view(env@) =~= Seq::<(Seq<char>, Seq<char>)>::empty());
    assert(views(rest@) =~= Seq::<Seq<char>>::empty());
    assert(views(unresolved@) =~= Seq::<Seq<char>>::empty());
    while i < words.len()
        invariant
            i <= words@.len(),
            ws == views(words@),
            env_split(ws.take(i as int)).env == env_view(env@),
            env_split(ws.take(i as int)).rest == views(rest@),
            env_split(ws.take(i as int)).unresolved == views(unresolved@),
            env_split(ws.take(i as int)).seen_program == seen_program,
        decreases words.len() - i,
    {
        assert(ws.take(i + 1).drop_last() == ws.take(i as int));
        assert(ws.take(i + 1).last() == words@[i as int]@);
        let w = chars_of(words[i].as_str());
        let is_env = !seen_program && !crate::text::starts_with(&w, &chars_of("-")) && has_char(
            &w,
            '=',
        ) && !has_char(&w, '/');
        if is_env {
            match split_once_char(&w, '=') {
                Some((k, v)) => {
                    env_insert(&mut env, string_of(&k), string_of(&v));
                },
                None => {
                    proof {
                        crate::text::lemma_first_index(w@, '=');
                    }
                },
            }
        } else {
            if has_char(&w, '$') {
                let u = words[i].clone();
                unresolved.push(u);
                assert(views(unresolved@) == views(unresolved@.drop_last()).push(w@));
            }
            if !seen_program && is_validator_bin(words[i].as_str()) {
                seen_program = true;
            }
            let r = words[i].clone();
            rest.push(r);
            assert(views(rest@) == views(rest@.drop_last()).push(w@));
        }
        i += 1;
    }
    assert(ws.take(words@.len() as int) == ws);
    (env, rest, unresolved)
}

/// The first word that names a validator binary, or -1.
pub open spec fn first_validator(ws: Seq<Seq<char>>) -> int
    decreases ws.len(),
{
    if ws.len() == 0 {
        -1
    } else if is_validator_token(ws[0]) {
        0
    } else {
        let r = first_validator(ws.drop_first());
        if r < 0 {
            -1
        } else {
            r + 1
        }
    }
}

proof fn lemma_first_validator_is(ws: Seq<Seq<char>>, i: int)
    requires
        0 <= i <= ws.len(),
        i < ws.len() ==> is_validator_token(ws[i]),
        forall|j: int| 0 <= j < i ==> !is_validator_token(#[trigger] ws[j]),
    ensures
        first_validator(ws) == (if i < ws.len() {
            i
        } else {
            -1
        }),
    decreases ws.len(),
{
    if ws.len() > 0 && i > 0 {
        assert forall|j: int| 0 <= j < i - 1 implies !is_validator_token(
            #[trigger] ws.drop_first()[j],
        ) by {
            assert(ws.drop_first()[j] == ws[j + 1]);
        }
        lemma_first_validator_is(ws.drop_first(), i - 1);
    }
}

/// Each assignment of `add`, applied in order over `env`.
pub open spec fn env_extend(env: Seq<(Seq<char>, Seq<char>)>, add: Seq<(Seq<char>, Seq<char>)>) -> Seq<
    (Seq<char>, Seq<char>),
>
    decreases add.len(),
{
    if add.len() == 0 {
        env
    } else {
        let e = env_extend(env, add.drop_last());
        env_set(e, add.last().0, add.last().1)
    }
}

pub open spec fn unexpanded_note(n: nat) -> Seq<char> {
    crate::text::dec(n) + " unexpanded token(s) left literal"@
}

/// The invocation a run of words describes, starting at the first word that
/// names a validator binary. Assignments before the program become its
/// environment, and a token the shell would have expanded is kept literal and
/// noted in the trail.
pub open spec fn build_spec(
    origin: Origin,
    words: Seq<Seq<char>>,
    trail: Seq<Seq<char>>,
    env: Seq<(Seq<char>, Seq<char>)>,
) -> Option<InvocationView> {
    let start = first_validator(words);
    if start < 0 {
        None
    } else {
        let st = env_split(words.skip(start));
        if st.rest.len() == 0 {
            None
        } else {
            Some(
                InvocationView {
                    origin,
                    pid: None,
                    edit_target: None,
                    unit_path: None,
                    unit_name: None,
                    program: st.rest[0],
                    args: st.rest.drop_first(),
                    env: env_extend(env, st.env),
                    unresolved: st.unresolved,
                    trail: if st.unresolved.len() > 0 {
                        trail.push(unexpanded_note(st.unresolved.len()))
                    } else {
                        trail
                    },
                },
            )
        }
    }
}

fn first_validator_index(words: &Vec<String>) -> (r: Option<usize>)
    ensures
        match r {
            Some(i) => first_validator(views(words@)) == i as int && i < words@.len(),
            None => first_validator(views(words@)) < 0,
        },
{
    let ghost ws = views(words@);
    let mut i: usize = 0;
    while i < words.len()
        invariant
            i <= words@.len(),
            ws == views(words@),
            forall|j: int| 0 <= j < i ==> !is_validator_token(#[trigger] ws[j]),
        decreases words.len() - i,
    {
        assert(ws[i as int] == words@[i as int]@);
        if is_validator_bin(words[i].as_str()) {
            proof {
                lemma_first_validator_is(ws, i as int);
            }
            return Some(i);
        }
        i += 1;
    }
    proof {
        lemma_first_validator_is(ws, ws.len() as int);
    }
    None
}

fn build(origin: Origin, words: Vec<String>, trail: Vec<String>, env: Vec<(String, String)>) -> (r:
    Option<Invocation>)
    ensures
        opt_inv(r) == build_spec(origin, views(words@), views(trail@), env_view(env@)),
{
    let ghost w0 = views(words@);
    let ghost t0 = views(trail@);
    let ghost env0 = env_view(env@);
    let start = match first_validator_index(&words) {
        Some(s) => s,
        None => return None,
    };
    let mut tail: Vec<String> = Vec::new();
    let mut k: usize = start;
    while k < words.len()
        invariant
            start <= k <= words@.len(),
            views(tail@) == views(words@).skip(start as int).take(k - start),
        decreases words.len() - k,
    {
        let w = words[k].clone();
        tail.push(w);
        assert(views(tail@) == views(tail@.drop_last()).push(w@));
        assert(views(words@).skip(start as int).take(k + 1 - start) == views(words@).skip(
            start as int,
        ).take(k - start).push(words@[k as int]@));
        k += 1;
    }
    assert(views(words@).skip(start as int).take(words@.len() - start) == views(words@).skip(
        start as int,
    ));
    let (inline_env, rest, unresolved) = split_env_and_args(&tail);
    let mut env = env;
    let mut j: usize = 0;
    let ghost e0 = env_view(env@);
    assert(env_view(inline_env@).take(0) =~= Seq::<(Seq<char>, Seq<char>)>::empty());
    while j < inline_env.len()
        invariant
            j <= inline_env@.len(),
            env_view(env@) == env_extend(e0, env_view(inline_env@).take(j as int)),
        decreases inline_env.len() - j,
    {
        let ghost add = env_view(inline_env@);
        assert(add.take(j + 1).drop_last() == add.take(j as int));
        assert(add.take(j + 1).last() == (inline_env@[j as int].0@, inline_env@[j as int].1@));
        let kv = inline_env[j].0.clone();
        let vv = inline_env[j].1.clone();
        env_insert(&mut env, kv, vv);
        j += 1;
    }
    assert(env_view(inline_env@).take(inline_env@.len() as int) == env_view(inline_env@));
    if rest.len() == 0 {
        return None;
    }
    let program = rest[0].clone();
    let mut args: Vec<String> = Vec::new();
    let mut m: usize = 1;
    while m < rest.len()
        invariant
            1 <= m <= rest@.len(),
            views(args@) == views(rest@).drop_first().take(m - 1),
        decreases rest.len() - m,
    {
        let a = rest[m].clone();
        args.push(a);
        assert(views(args@) == views(args@.drop_last()).push(a@));
        assert(views(rest@).drop_first().take(m as int) == views(rest@).drop_first().take(m - 1).push(
            rest@[m as int]@,
        ));
        m += 1;
    }
    assert(views(rest@).drop_first().take(rest@.len() - 1) == views(rest@).drop_first());
    let mut trail = trail;
    if unresolved.len() > 0 {
        let mut note = crate::text::dec_string(unresolved.len() as u64);
        append(&mut note, " unexpanded token(s) left literal");
        trail.push(note);
        assert(views(trail@) == views(trail@.drop_last()).push(note@));
    }
    let r = Invocation {
        origin,
        pid: None,
        edit_target: None,
        unit_path: None,
        unit_name: None,
        program,
        args,
        env,
        unresolved,
        trail,
    };
    assert(r@ =~= build_spec(origin, w0, t0, env0).unwrap());
    Some(r)
}

// ---------------------------------------------------------------------------
// Wrapper scripts and unit files
// ---------------------------------------------------------------------------

/// The first line of a script, skipping comments, that runs a validator
/// binary, possibly through `exec`. Yields its words from the binary on.
pub open spec fn script_exec(ls: Seq<Seq<char>>) -> Option<Seq<Seq<char>>>
    decreases ls.len(),
{
    if ls.len() == 0 {
        None
    } else {
        let l = crate::text::trim(ls[0]);
        if "#"@.is_prefix_of(l) {
            script_exec(ls.drop_first())
        } else {
            let w = shell_words(l);
            let idx: int = if w.len() > 0 && w[0] == "exec"@ {
                1
            } else {
                0
            };
            if idx < w.len() && is_validator_token(w[idx]) {
                Some(w.skip(idx))
            } else {
                script_exec(ls.drop_first())
            }
        }
    }
}

/// The validator line of a script, after joining continued lines.
pub open spec fn script_exec_line(text: Seq<char>) -> Option<Seq<Seq<char>>> {
    script_exec(crate::text::lines(join_cont(text)))
}

pub open spec fn opt_views(o: Option<Vec<String>>) -> Option<Seq<Seq<char>>> {
    match o {
        Some(v) => Some(views(v@)),
        None => None,
    }
}

pub fn exec_line_from_script(text: &str) -> (r: Option<Vec<String>>)
    ensures
        opt_views(r) == script_exec_line(text@),
{
    let joined = join_continuations(text);
    let ls = crate::text::str_lines(joined.as_str());
    let ghost all = views(ls@);
    let mut i: usize = 0;
    assert(all.skip(0) == all);
    while i < ls.len()
        invariant
            i <= ls@.len(),
            all == views(ls@),
            all == crate::text::lines(join_cont(text@)),
            script_exec(all) == script_exec(all.skip(i as int)),
        decreases ls.len() - i,
    {
        let ghost sub = all.skip(i as int);
        assert(sub[0] == ls@[i as int]@);
        assert(sub.drop_first() == all.skip(i + 1));
        let lc = chars_of(ls[i].as_str());
        let l = crate::text::trim_vec(&lc);
        if crate::text::starts_with(&l, &chars_of("#")) {
            i += 1;
            continue;
        }
        let ls_str = string_of(&l);
        let words = split_words(ls_str.as_str());
        let mut idx: usize = 0;
        if words.len() > 0 && crate::text::str_is(words[0].as_str(), "exec") {
            idx = 1;
        }
        if idx < words.len() && is_validator_bin(words[idx].as_str()) {
            let mut out: Vec<String> = Vec::new();
            let mut k: usize = idx;
            while k < words.len()
                invariant
                    idx <= k <= words@.len(),
                    views(out@) == views(words@).skip(idx as int).take(k - idx),
                decreases words.len() - k,
            {
                let w = words[k].clone();
                out.push(w);
                assert(views(out@) == views(out@.drop_last()).push(w@));
                assert(views(words@).skip(idx as int).take(k + 1 - idx) == views(words@).skip(
                    idx as int,
                ).take(k - idx).push(words@[k as int]@));
                k += 1;
            }
            assert(views(words@).skip(idx as int).take(words@.len() - idx) == views(words@).skip(
                idx as int,
            ));
            return Some(out);
        }
        i += 1;
    }
    None
}

/// `trim_start_matches(['-', '@', '+', '!'])`: systemd's ExecStart prefixes.
pub open spec fn strip_exec_prefix(s: Seq<char>) -> Seq<char>
    decreases s.len(),
{
    if s.len() > 0 && (s[0] == '-' || s[0] == '@' || s[0] == '+' || s[0] == '!') {
        strip_exec_prefix(s.drop_first())
    } else {
        s
    }
}

/// Each `name=value` word, applied in order.
pub open spec fn env_words(env: Seq<(Seq<char>, Seq<char>)>, ws: Seq<Seq<char>>) -> Seq<
    (Seq<char>, Seq<char>),
>
    decreases ws.len(),
{
    if ws.len() == 0 {
        env
    } else {
        let e = env_words(env, ws.drop_last());
        match split_once(ws.last(), '=') {
            Some((k, v)) => env_set(e, k, v),
            None => e,
        }
    }
}

pub struct UnitParse {
    pub exec_line: Option<Seq<char>>,
    pub env: Seq<(Seq<char>, Seq<char>)>,
}

/// One line of a unit: the last `ExecStart=` wins, and every `Environment=`
/// adds its assignments.
pub open spec fn unit_step(st: UnitParse, line: Seq<char>) -> UnitParse {
    let l = crate::text::trim(line);
    if "ExecStart="@.is_prefix_of(l) {
        UnitParse { exec_line: Some(crate::text::trim(strip_exec_prefix(l.skip(10)))), ..st }
    } else if "Environment="@.is_prefix_of(l) {
        UnitParse { env: env_words(st.env, shell_words(l.skip(12))), ..st }
    } else {
        st
    }
}

pub open spec fn unit_fold(ls: Seq<Seq<char>>) -> UnitParse
    decreases ls.len(),
{
    if ls.len() == 0 {
        UnitParse { exec_line: None, env: Seq::empty() }
    } else {
        unit_step(unit_fold(ls.drop_last()), ls.last())
    }
}

/// A unit's ExecStart line and its environment, when it has an ExecStart.
pub open spec fn unit_spec(text: Seq<char>) -> Option<(Seq<char>, Seq<(Seq<char>, Seq<char>)>)> {
    let st = unit_fold(crate::text::lines(join_cont(text)));
    match st.exec_line {
        Some(e) => Some((e, st.env)),
        None => None,
    }
}

pub open spec fn opt_unit(o: Option<(String, Vec<(String, String)>)>) -> Option<
    (Seq<char>, Seq<(Seq<char>, Seq<char>)>),
> {
    match o {
        Some((e, env)) => Some((e@, env_view(env@))),
        None => None,
    }
}

fn strip_exec_prefix_vec(v: &Vec<char>) -> (r: Vec<char>)
    ensures
        r@ == strip_exec_prefix(v@),
{
    let mut i: usize = 0;
    assert(v@.subrange(0, v@.len() as int) == v@);
    while i < v.len() && (v[i] == '-' || v[i] == '@' || v[i] == '+' || v[i] == '!')
        invariant
            i <= v@.len(),
            strip_exec_prefix(v@) == strip_exec_prefix(v@.subrange(i as int, v@.len() as int)),
        decreases v.len() - i,
    {
        assert(v@.subrange(i as int, v@.len() as int).drop_first() == v@.subrange(
            i + 1,
            v@.len() as int,
        ));
        i += 1;
    }
    subvec(v, i, v.len())
}

pub fn parse_unit(text: &str) -> (r: Option<(String, Vec<(String, String)>)>)
    ensures
        opt_unit(r) == unit_spec(text@),
{
    let joined = join_continuations(text);
    let ls = crate::text::str_lines(joined.as_str());
    let ghost all = views(ls@);
    let mut exec: Option<String> = None;
    let mut env: Vec<(String, String)> = Vec::new();
    let pre_exec = chars_of("ExecStart=");
    let pre_env = chars_of("Environment=");
    proof {
        reveal_strlit("ExecStart=");
        reveal_strlit("Environment=");
    }
    let mut i: usize = 0;
    assert(all.take(0) =~= Seq::<Seq<char>>::empty());
    assert(env_view(env@) =~= Seq::<(Seq<char>, Seq<char>)>::empty());
    while i < ls.len()
        invariant
            i <= ls@.len(),
            all == views(ls@),
            pre_exec@ == "ExecStart="@,
            pre_env@ == "Environment="@,
            pre_exec@.len() == 10,
            pre_env@.len() == 12,
            unit_fold(all.take(i as int)).exec_line == crate::model::opt_view(exec),
            unit_fold(all.take(i as int)).env == env_view(env@),
        decreases ls.len() - i,
    {
        assert(all.take(i + 1).drop_last() == all.take(i as int));
        assert(all.take(i + 1).last() == ls@[i as int]@);
        let lc = chars_of(ls[i].as_str());
        let l = crate::text::trim_vec(&lc);
        if crate::text::starts_with(&l, &pre_exec) {
            let v = subvec(&l, 10, l.len());
            assert(v@ == l@.skip(10));
            let st = strip_exec_prefix_vec(&v);
            let t = crate::text::trim_vec(&st);
            exec = Some(string_of(&t));
        } else if crate::text::starts_with(&l, &pre_env) {
            let v = subvec(&l, 12, l.len());
            assert(v@ == l@.skip(12));
            let vs = string_of(&v);
            let ws = split_words(vs.as_str());
            let ghost e0 = env_view(env@);
            let mut k: usize = 0;
            assert(views(ws@).take(0) =~= Seq::<Seq<char>>::empty());
            while k < ws.len()
                invariant
                    k <= ws@.len(),
                    env_view(env@) == env_words(e0, views(ws@).take(k as int)),
                decreases ws.len() - k,
            {
                assert(views(ws@).take(k + 1).drop_last() == views(ws@).take(k as int));
                assert(views(ws@).take(k + 1).last() == ws@[k as int]@);
                let wc = chars_of(ws[k].as_str());
                match split_once_char(&wc, '=') {
                    Some((a, b)) => {
                        env_insert(&mut env, string_of(&a), string_of(&b));
                    },
                    None => {},
                }
                k += 1;
            }
            assert(views(ws@).take(ws@.len() as int) == views(ws@));
        }
        i += 1;
    }
    assert(all.take(ls@.len() as int) == all);
    match exec {
        Some(e) => Some((e, env)),
        None => None,
    }
}

pub open spec fn res_view(r: Result<Invocation, Vec<String>>) -> Result<InvocationView, Seq<Seq<char>>> {
    match r {
        Ok(i) => Ok(i@),
        Err(t) => Err(views(t@)),
    }
}

pub open spec fn from_text_spec(text: Seq<char>) -> Result<InvocationView, Seq<Seq<char>>> {
    let trail = seq!["read from --invocation file"@];
    let joined = join_cont(text);
    match script_exec_line(joined) {
        Some(w) => match build_spec(Origin::File, w, trail, Seq::empty()) {
            Some(i) => Ok(i),
            None => Err(seq!["file contained no validator invocation"@]),
        },
        None => match build_spec(Origin::File, shell_words(joined), trail, Seq::empty()) {
            Some(i) => Ok(i),
            None => Err(seq!["file contained no recognised validator binary"@]),
        },
    }
}

/// A command line from a file: the validator line of a script, or failing
/// that the whole text read as one command.
pub fn from_text(text: &str) -> (r: Result<Invocation, Vec<String>>)
    ensures
        res_view(r) == from_text_spec(text@),
{
    let mut trail: Vec<String> = Vec::new();
    trail.push(owned("read from --invocation file"));
    assert(views(trail@) =~= seq!["read from --invocation file"@]);
    let joined = join_continuations(text);
    let env: Vec<(String, String)> = Vec::new();
    assert(env_view(env@) =~= Seq::<(Seq<char>, Seq<char>)>::empty());
    match exec_line_from_script(joined.as_str()) {
        Some(w) => match build(Origin::File, w, trail, env) {
            Some(i) => Ok(i),
            None => {
                let mut e: Vec<String> = Vec::new();
                e.push(owned("file contained no validator invocation"));
                assert(views(e@) =~= seq!["file contained no validator invocation"@]);
                Err(e)
            },
        },
        None => {
            let words = split_words(joined.as_str());
            match build(Origin::File, words, trail, env) {
                Some(i) => Ok(i),
                None => {
                    let mut e: Vec<String> = Vec::new();
                    e.push(owned("file contained no recognised validator binary"));
                    assert(views(e@) =~= seq!["file contained no recognised validator binary"@]);
                    Err(e)
                },
            }
        },
    }
}

// ---------------------------------------------------------------------------
// Resolving the invocation on a host
// ---------------------------------------------------------------------------

/// A directory under /proc, and its command line when it could be read.
pub struct ProcEntry {
    pub pid: String,
    pub cmdline: Option<String>,
}

/// A unit file found in a systemd load path, in the order systemd's own
/// directories are searched. `script` is what reading the first word of its
/// ExecStart gave: the file's text, or why it could not be read.
pub struct UnitFile {
    pub name: String,
    pub text: Option<String>,
    pub script: Result<String, String>,
}

/// The words that are not empty, in order.
pub open spec fn nonempty(ws: Seq<Seq<char>>) -> Seq<Seq<char>>
    decreases ws.len(),
{
    if ws.len() == 0 {
        ws
    } else if ws.last().len() > 0 {
        nonempty(ws.drop_last()).push(ws.last())
    } else {
        nonempty(ws.drop_last())
    }
}

fn nonempty_vec(ws: &Vec<String>) -> (r: Vec<String>)
    ensures
        views(r@) == nonempty(views(ws@)),
{
    let mut out: Vec<String> = Vec::new();
    let mut i: usize = 0;
    assert(views(ws@).take(0) =~= Seq::<Seq<char>>::empty());
    assert(views(out@) =~= Seq::<Seq<char>>::empty());
    while i < ws.len()
        invariant
            i <= ws@.len(),
            views(out@) == nonempty(views(ws@).take(i as int)),
        decreases ws.len() - i,
    {
        assert(views(ws@).take(i + 1).drop_last() == views(ws@).take(i as int));
        assert(views(ws@).take(i + 1).last() == ws@[i as int]@);
        let c = chars_of(ws[i].as_str());
        if c.len() > 0 {
            let w = ws[i].clone();
            out.push(w);
            assert(views(out@) == views(out@.drop_last()).push(w@));
        }
        i += 1;
    }
    assert(views(ws@).take(ws@.len() as int) == views(ws@));
    out
}

/// The arguments in a /proc cmdline: NUL separated, empty pieces dropped.
pub open spec fn cmdline_words(raw: Seq<char>) -> Seq<Seq<char>> {
    nonempty(split_on(raw, '\0'))
}

/// The words of a process that is a validator: its name is a pid, its
/// command line could be read, and it starts with a validator binary.
pub open spec fn proc_hit(p: ProcEntry) -> Option<Seq<Seq<char>>> {
    if crate::text::all_digits(p.pid@) && p.cmdline is Some {
        let ws = cmdline_words(p.cmdline.unwrap()@);
        if ws.len() > 0 && is_validator_token(ws[0]) {
            Some(ws)
        } else {
            None
        }
    } else {
        None
    }
}

/// The first running validator, by pid, with its arguments.
pub open spec fn find_pid_spec(procs: Seq<ProcEntry>) -> Option<(Seq<char>, Seq<Seq<char>>)>
    decreases procs.len(),
{
    if procs.len() == 0 {
        None
    } else {
        match proc_hit(procs[0]) {
            Some(ws) => Some((procs[0].pid@, ws)),
            None => find_pid_spec(procs.drop_first()),
        }
    }
}

fn all_digits_vec(v: &Vec<char>) -> (r: bool)
    ensures
        r == crate::text::all_digits(v@),
{
    let mut i: usize = 0;
    while i < v.len()
        invariant
            i <= v@.len(),
            forall|k: int| 0 <= k < i ==> crate::text::is_digit(#[trigger] v@[k]),
        decreases v.len() - i,
    {
        if !('0' <= v[i] && v[i] <= '9') {
            assert(!crate::text::is_digit(v@[i as int]));
            return false;
        }
        i += 1;
    }
    true
}

fn proc_hit_exec(p: &ProcEntry) -> (r: Option<Vec<String>>)
    ensures
        opt_views(r) == proc_hit(*p),
{
    let pid = chars_of(p.pid.as_str());
    if !all_digits_vec(&pid) {
        return None;
    }
    match &p.cmdline {
        None => None,
        Some(raw) => {
            let rc = chars_of(raw.as_str());
            let pieces = split_char(&rc, '\0');
            let ws = nonempty_vec(&pieces);
            if ws.len() > 0 && is_validator_bin(ws[0].as_str()) {
                Some(ws)
            } else {
                None
            }
        },
    }
}

pub open spec fn opt_pid(o: Option<(String, Vec<String>)>) -> Option<(Seq<char>, Seq<Seq<char>>)> {
    match o {
        Some((p, w)) => Some((p@, views(w@))),
        None => None,
    }
}

/// The first running validator process among the entries of /proc.
pub fn find_pid(procs: &Vec<ProcEntry>) -> (r: Option<(String, Vec<String>)>)
    ensures
        opt_pid(r) == find_pid_spec(procs@),
{
    let mut i: usize = 0;
    assert(procs@.skip(0) == procs@);
    while i < procs.len()
        invariant
            i <= procs@.len(),
            find_pid_spec(procs@) == find_pid_spec(procs@.skip(i as int)),
        decreases procs.len() - i,
    {
        assert(procs@.skip(i as int)[0] == procs@[i as int]);
        assert(procs@.skip(i as int).drop_first() == procs@.skip(i + 1));
        match proc_hit_exec(&procs[i]) {
            Some(ws) => {
                return Some((procs[i].pid.clone(), ws));
            },
            None => {},
        }
        i += 1;
    }
    None
}

/// A process environment: NUL separated `name=value` entries.
pub open spec fn environ_spec(text: Option<Seq<char>>) -> Seq<(Seq<char>, Seq<char>)> {
    match text {
        Some(t) => env_words(Seq::empty(), nonempty(split_on(t, '\0'))),
        None => Seq::empty(),
    }
}

pub open spec fn opt_seq(o: Option<String>) -> Option<Seq<char>> {
    crate::model::opt_view(o)
}

fn proc_environ(text: &Option<String>) -> (r: Vec<(String, String)>)
    ensures
        env_view(r@) == environ_spec(opt_seq(*text)),
{
    let mut env: Vec<(String, String)> = Vec::new();
    assert(env_view(env@) =~= Seq::<(Seq<char>, Seq<char>)>::empty());
    match text {
        None => env,
        Some(raw) => {
            let rc = chars_of(raw.as_str());
            let pieces = split_char(&rc, '\0');
            let ws = nonempty_vec(&pieces);
            let mut k: usize = 0;
            assert(views(ws@).take(0) =~= Seq::<Seq<char>>::empty());
            while k < ws.len()
                invariant
                    k <= ws@.len(),
                    env_view(env@) == env_words(Seq::empty(), views(ws@).take(k as int)),
                decreases ws.len() - k,
            {
                assert(views(ws@).take(k + 1).drop_last() == views(ws@).take(k as int));
                assert(views(ws@).take(k + 1).last() == ws@[k as int]@);
                let wc = chars_of(ws[k].as_str());
                match split_once_char(&wc, '=') {
                    Some((a, b)) => {
                        env_insert(&mut env, string_of(&a), string_of(&b));
                    },
                    None => {},
                }
                k += 1;
            }
            assert(views(ws@).take(ws@.len() as int) == views(ws@));
            env
        },
    }
}

/// The first cgroup line whose last component is a service unit.
pub open spec fn first_service(ls: Seq<Seq<char>>) -> Option<Seq<char>>
    decreases ls.len(),
{
    if ls.len() == 0 {
        None
    } else if ".service"@.is_suffix_of(basename(ls[0])) {
        Some(basename(ls[0]))
    } else {
        first_service(ls.drop_first())
    }
}

/// The unit that owns a process, from systemd's own bookkeeping in
/// /proc/<pid>/cgroup.
pub open spec fn cgroup_unit(text: Option<Seq<char>>) -> Option<Seq<char>> {
    match text {
        Some(t) => first_service(crate::text::lines(t)),
        None => None,
    }
}

/// The unit that owns a running process, named exactly. Guessing by scanning
/// unit files for the word "validator" matches anything that merely mentions
/// one, and then every fix points at the wrong file.
fn unit_of_pid(text: &Option<String>) -> (r: Option<String>)
    ensures
        opt_seq(r) == cgroup_unit(opt_seq(*text)),
{
    match text {
        None => None,
        Some(t) => {
            let ghost goal = cgroup_unit(opt_seq(*text));
            assert(goal == first_service(crate::text::lines(t@)));
            let ls = crate::text::str_lines(t.as_str());
            let ghost all = views(ls@);
            let suffix = chars_of(".service");
            let mut i: usize = 0;
            assert(all.skip(0) == all);
            while i < ls.len()
                invariant
                    i <= ls@.len(),
                    all == views(ls@),
                    all == crate::text::lines(t@),
                    suffix@ == ".service"@,
                    goal == first_service(all.skip(i as int)),
                    goal == cgroup_unit(opt_seq(*text)),
                decreases ls.len() - i,
            {
                assert(all.skip(i as int)[0] == ls@[i as int]@);
                assert(all.skip(i as int).drop_first() == all.skip(i + 1));
                let lc = chars_of(ls[i].as_str());
                assert(lc@ == all.skip(i as int)[0]);
                let b = basename_of(&lc);
                if crate::text::ends_with(&b, &suffix) {
                    assert(first_service(all.skip(i as int)) == Some(b@));
                    return Some(string_of(&b));
                }
                i += 1;
            }
            assert(all.skip(i as int) =~= Seq::<Seq<char>>::empty());
            None
        },
    }
}

pub open spec fn unit_abs(name: Seq<char>) -> Seq<char> {
    "/etc/systemd/system/"@ + name
}

/// The file to edit for a unit: the unit itself when its ExecStart runs the
/// validator directly, otherwise the script ExecStart runs.
pub open spec fn edit_of(abs: Seq<char>, exec: Seq<char>) -> Seq<char> {
    let ws = shell_words(exec);
    let first = if ws.len() > 0 {
        ws[0]
    } else {
        Seq::empty()
    };
    if is_validator_token(first) {
        abs
    } else {
        first
    }
}

/// The file to edit for a unit is the unit file itself when the first word
/// of its ExecStart is a validator binary (agave-validator, solana-validator,
/// solana-test-validator or fdctl, by itself or at the end of a path), since
/// the flags are then in the unit; otherwise it is that first word, the
/// script the unit runs, which holds the flags.
pub proof fn law_the_file_to_edit_holds_the_flags(abs: Seq<char>, exec: Seq<char>)
    requires
        shell_words(exec).len() > 0,
    ensures
        ({
            let first = shell_words(exec)[0];
            let b = basename(first);
            &&& (b == "agave-validator"@ || b == "solana-validator"@ || b == "solana-test-validator"@
                || b == "fdctl"@) ==> edit_of(abs, exec) == abs
            &&& !(b == "agave-validator"@ || b == "solana-validator"@ || b == "solana-test-validator"@
                || b == "fdctl"@) ==> edit_of(abs, exec) == first
        }),
{
}

fn edit_target_for(abs: &String, exec: &String) -> (r: String)
    ensures
        r@ == edit_of(abs@, exec@),
{
    let ws = split_words(exec.as_str());
    let first = if ws.len() > 0 {
        ws[0].clone()
    } else {
        String::new()
    };
    if is_validator_bin(first.as_str()) {
        abs.clone()
    } else {
        first
    }
}

/// The first unit file of that name.
pub open spec fn find_unit(units: Seq<UnitFile>, name: Seq<char>) -> int
    decreases units.len(),
{
    if units.len() == 0 {
        -1
    } else if units[0].name@ == name {
        0
    } else {
        let r = find_unit(units.drop_first(), name);
        if r < 0 {
            -1
        } else {
            r + 1
        }
    }
}

/// Path, name and file to edit for a unit systemd named.
pub open spec fn unit_details_spec(units: Seq<UnitFile>, name: Seq<char>) -> Option<
    (Seq<char>, Seq<char>, Seq<char>),
> {
    let i = find_unit(units, name);
    if i < 0 {
        None
    } else {
        match units[i].text {
            None => None,
            Some(t) => match unit_spec(t@) {
                None => None,
                Some((e, _)) => Some((unit_abs(name), name, edit_of(unit_abs(name), e))),
            },
        }
    }
}

pub open spec fn opt_triple(o: Option<(String, String, String)>) -> Option<
    (Seq<char>, Seq<char>, Seq<char>),
> {
    match o {
        Some((a, b, c)) => Some((a@, b@, c@)),
        None => None,
    }
}

fn unit_details(units: &Vec<UnitFile>, name: &String) -> (r: Option<(String, String, String)>)
    ensures
        opt_triple(r) == unit_details_spec(units@, name@),
{
    let nc = chars_of(name.as_str());
    let mut i: usize = 0;
    assert(units@.skip(0) == units@);
    while i < units.len()
        invariant
            i <= units@.len(),
            nc@ == name@,
            find_unit(units@, name@) == (if find_unit(units@.skip(i as int), name@) < 0 {
                -1
            } else {
                find_unit(units@.skip(i as int), name@) + i
            }),
        decreases units.len() - i,
    {
        assert(units@.skip(i as int)[0] == units@[i as int]);
        assert(units@.skip(i as int).drop_first() == units@.skip(i + 1));
        let uc = chars_of(units[i].name.as_str());
        assert(find_unit(units@.skip(i as int), name@) == (if units@[i as int].name@ == name@ {
            0
        } else if find_unit(units@.skip(i + 1), name@) < 0 {
            -1
        } else {
            find_unit(units@.skip(i + 1), name@) + 1
        }));
        if crate::text::same(&uc, &nc) {
            assert(find_unit(units@, name@) == i);
            match &units[i].text {
                None => return None,
                Some(t) => match parse_unit(t.as_str()) {
                    None => return None,
                    Some((e, _)) => {
                        let abs = cat("/etc/systemd/system/", name.as_str());
                        let edit = edit_target_for(&abs, &e);
                        return Some((abs, name.clone(), edit));
                    },
                },
            }
        }
        i += 1;
    }
    assert(units@.skip(units@.len() as int) =~= Seq::<UnitFile>::empty());
    None
}

/// Whether a unit's ExecStart reaches a validator binary, directly or through
/// the wrapper script it points at.
pub open spec fn launches_spec(u: UnitFile) -> bool {
    match u.text {
        None => false,
        Some(t) => match unit_spec(t@) {
            None => false,
            Some((e, _)) => {
                let ws = shell_words(e);
                ws.len() > 0 && (is_validator_token(ws[0]) || match u.script {
                    Ok(body) => script_exec_line(body@) is Some,
                    Err(_) => false,
                })
            },
        },
    }
}

/// The first unit that launches a validator, with its path, name and the
/// file to edit.
pub open spec fn owning_unit_spec(units: Seq<UnitFile>) -> Option<(Seq<char>, Seq<char>, Seq<char>)>
    decreases units.len(),
{
    if units.len() == 0 {
        None
    } else {
        let u = units[0];
        if launches_spec(u) {
            let e = unit_spec(u.text.unwrap()@).unwrap().0;
            let abs = unit_abs(u.name@);
            Some((abs, u.name@, edit_of(abs, e)))
        } else {
            owning_unit_spec(units.drop_first())
        }
    }
}

fn launches_a_validator(u: &UnitFile) -> (r: bool)
    ensures
        r == launches_spec(*u),
{
    match &u.text {
        None => false,
        Some(t) => match parse_unit(t.as_str()) {
            None => false,
            Some((e, _)) => {
                let ws = split_words(e.as_str());
                if ws.len() == 0 {
                    return false;
                }
                if is_validator_bin(ws[0].as_str()) {
                    return true;
                }
                match &u.script {
                    Ok(body) => exec_line_from_script(body.as_str()).is_some(),
                    Err(_) => false,
                }
            },
        },
    }
}

fn owning_unit(units: &Vec<UnitFile>) -> (r: Option<(String, String, String)>)
    ensures
        opt_triple(r) == owning_unit_spec(units@),
{
    let mut i: usize = 0;
    assert(units@.skip(0) == units@);
    while i < units.len()
        invariant
            i <= units@.len(),
            owning_unit_spec(units@) == owning_unit_spec(units@.skip(i as int)),
        decreases units.len() - i,
    {
        assert(units@.skip(i as int)[0] == units@[i as int]);
        assert(units@.skip(i as int).drop_first() == units@.skip(i + 1));
        if launches_a_validator(&units[i]) {
            match &units[i].text {
                Some(t) => match parse_unit(t.as_str()) {
                    Some((e, _)) => {
                        let abs = cat("/etc/systemd/system/", units[i].name.as_str());
                        let edit = edit_target_for(&abs, &e);
                        return Some((abs, units[i].name.clone(), edit));
                    },
                    None => {},
                },
                None => {},
            }
        }
        i += 1;
    }
    None
}

/// Whether a unit mentions a validator at all, which is where the scan starts.
pub open spec fn mentions_validator(t: Seq<char>) -> bool {
    contains_seq(t, "agave-validator"@) || contains_seq(t, "solana-validator"@) || contains_seq(
        t,
        "solana-test-validator"@,
    ) || contains_seq(t, "fdctl"@) || contains_seq(t, "validator"@)
}

pub open spec fn with_unit(
    i: InvocationView,
    path: Seq<char>,
    name: Seq<char>,
    edit: Seq<char>,
) -> InvocationView {
    InvocationView { unit_path: Some(path), unit_name: Some(name), edit_target: Some(edit), ..i }
}

/// One unit of the scan: an invocation when it yields one, otherwise the trail
/// with whatever was learned from it.
pub open spec fn unit_step_spec(u: UnitFile, trail: Seq<Seq<char>>) -> Result<
    InvocationView,
    Seq<Seq<char>>,
> {
    match u.text {
        None => Err(trail),
        Some(t) => if !mentions_validator(t@) {
            Err(trail)
        } else {
            match unit_spec(t@) {
                None => Err(trail),
                Some((exec, env)) => {
                    let name = u.name@;
                    let abs = unit_abs(name);
                    let tr1 = trail.push("unit "@ + name + ": ExecStart="@ + exec);
                    let ws = shell_words(exec);
                    let direct = if ws.len() > 0 && is_validator_token(ws[0]) {
                        build_spec(Origin::UnitExecStart, ws, tr1, env)
                    } else {
                        None
                    };
                    match direct {
                        Some(i) => Ok(with_unit(i, abs, name, abs)),
                        None => {
                            let script = if ws.len() > 0 {
                                ws[0]
                            } else {
                                Seq::empty()
                            };
                            match u.script {
                                Ok(body) => {
                                    let tr2 = tr1.push(
                                        "ExecStart is not a validator binary, reading "@ + script,
                                    );
                                    match script_exec_line(body@) {
                                        Some(w) => {
                                            let tr3 = tr2.push("found exec line in wrapper script"@);
                                            match build_spec(Origin::WrapperScript, w, tr3, env) {
                                                Some(i) => Ok(with_unit(i, abs, name, script)),
                                                None => Err(tr3),
                                            }
                                        },
                                        None => Err(
                                            tr2.push("no 'exec <validator>' line found in "@ + script),
                                        ),
                                    }
                                },
                                Err(e) => Err(tr1.push("cannot read "@ + script + ": "@ + e@)),
                            }
                        },
                    }
                },
            }
        },
    }
}

/// Units in order until one yields an invocation.
pub open spec fn scan_units(units: Seq<UnitFile>, trail: Seq<Seq<char>>) -> Result<
    InvocationView,
    Seq<Seq<char>>,
>
    decreases units.len(),
{
    if units.len() == 0 {
        Err(trail.push("no validator invocation could be resolved"@))
    } else {
        match unit_step_spec(units[0], trail) {
            Ok(i) => Ok(i),
            Err(t2) => scan_units(units.drop_first(), t2),
        }
    }
}

/// Where the validator's command line comes from: a running process first,
/// with the unit that owns it, then a unit's ExecStart, then the wrapper
/// script it points at. Failure carries the whole trail.
pub open spec fn resolve_spec(
    procs: Seq<ProcEntry>,
    environ: Option<Seq<char>>,
    cgroup: Option<Seq<char>>,
    units: Seq<UnitFile>,
) -> Result<InvocationView, Seq<Seq<char>>> {
    match find_pid_spec(procs) {
        Some((pid, words)) => {
            let tr = seq!["found running validator, pid "@ + pid];
            match build_spec(Origin::RunningProcess, words, tr, environ_spec(environ)) {
                Some(i) => {
                    let owner = match cgroup_unit(cgroup) {
                        Some(n) => match unit_details_spec(units, n) {
                            Some(o) => Some(o),
                            None => owning_unit_spec(units),
                        },
                        None => owning_unit_spec(units),
                    };
                    let j = InvocationView { pid: Some(pid), ..i };
                    Ok(
                        match owner {
                            Some((p, n, e)) => with_unit(j, p, n, e),
                            None => j,
                        },
                    )
                },
                None => scan_units(units, tr.push("no running validator process found"@)),
            }
        },
        None => scan_units(units, seq!["no running validator process found"@]),
    }
}

fn unit_step_exec(u: &UnitFile, trail: Vec<String>) -> (r: Result<Invocation, Vec<String>>)
    ensures
        res_view(r) == unit_step_spec(*u, views(trail@)),
{
    let ghost t0 = views(trail@);
    let t = match &u.text {
        None => return Err(trail),
        Some(t) => t,
    };
    let tc = chars_of(t.as_str());
    let mentions = crate::text::contains(&tc, &chars_of("agave-validator")) || crate::text::contains(
        &tc,
        &chars_of("solana-validator"),
    ) || crate::text::contains(&tc, &chars_of("solana-test-validator")) || crate::text::contains(
        &tc,
        &chars_of("fdctl"),
    ) || crate::text::contains(&tc, &chars_of("validator"));
    if !mentions {
        return Err(trail);
    }
    let (exec, env) = match parse_unit(t.as_str()) {
        None => return Err(trail),
        Some(p) => p,
    };
    let abs = cat("/etc/systemd/system/", u.name.as_str());
    let mut trail = trail;
    let mut line = cat("unit ", u.name.as_str());
    append(&mut line, ": ExecStart=");
    append(&mut line, exec.as_str());
    trail.push(line);
    assert(views(trail@) == t0.push(line@));
    let ghost tr1 = views(trail@);
    let words = split_words(exec.as_str());
    if words.len() > 0 && is_validator_bin(words[0].as_str()) {
        let ws2 = clone_strings(&words);
        let tr_copy = clone_strings(&trail);
        let env_copy = clone_env(&env);
        match build(Origin::UnitExecStart, ws2, tr_copy, env_copy) {
            Some(mut inv) => {
                inv.unit_path = Some(abs.clone());
                inv.unit_name = Some(u.name.clone());
                inv.edit_target = Some(abs);
                return Ok(inv);
            },
            None => {},
        }
    }
    let script = if words.len() > 0 {
        words[0].clone()
    } else {
        String::new()
    };
    match &u.script {
        Ok(body) => {
            let mut l2 = owned("ExecStart is not a validator binary, reading ");
            append(&mut l2, script.as_str());
            trail.push(l2);
            assert(views(trail@) == tr1.push(l2@));
            let ghost tr2 = views(trail@);
            match exec_line_from_script(body.as_str()) {
                Some(w) => {
                    let l3 = owned("found exec line in wrapper script");
                    trail.push(l3);
                    assert(views(trail@) == tr2.push(l3@));
                    let tr_copy = clone_strings(&trail);
                    match build(Origin::WrapperScript, w, tr_copy, env) {
                        Some(mut inv) => {
                            inv.unit_path = Some(abs);
                            inv.unit_name = Some(u.name.clone());
                            inv.edit_target = Some(script);
                            Ok(inv)
                        },
                        None => Err(trail),
                    }
                },
                None => {
                    let mut l3 = owned("no 'exec <validator>' line found in ");
                    append(&mut l3, script.as_str());
                    trail.push(l3);
                    assert(views(trail@) == tr2.push(l3@));
                    Err(trail)
                },
            }
        },
        Err(e) => {
            let mut l2 = owned("cannot read ");
            append(&mut l2, script.as_str());
            append(&mut l2, ": ");
            append(&mut l2, e.as_str());
            trail.push(l2);
            assert(views(trail@) == tr1.push(l2@));
            Err(trail)
        },
    }
}

/// A copy of a list of strings.
pub fn clone_strings(v: &Vec<String>) -> (r: Vec<String>)
    ensures
        views(r@) == views(v@),
{
    let mut out: Vec<String> = Vec::new();
    let mut i: usize = 0;
    while i < v.len()
        invariant
            i <= v@.len(),
            views(out@) == views(v@).take(i as int),
        decreases v.len() - i,
    {
        let s = v[i].clone();
        out.push(s);
        assert(views(out@) == views(out@.drop_last()).push(s@));
        assert(views(v@).take(i + 1) == views(v@).take(i as int).push(v@[i as int]@));
        i += 1;
    }
    assert(views(v@).take(v@.len() as int) == views(v@));
    out
}

fn clone_env(v: &Vec<(String, String)>) -> (r: Vec<(String, String)>)
    ensures
        env_view(r@) == env_view(v@),
{
    let mut out: Vec<(String, String)> = Vec::new();
    let mut i: usize = 0;
    while i < v.len()
        invariant
            i <= v@.len(),
            env_view(out@) == env_view(v@).take(i as int),
        decreases v.len() - i,
    {
        let a = v[i].0.clone();
        let b = v[i].1.clone();
        let ghost p = (a@, b@);
        out.push((a, b));
        assert(env_view(out@) == env_view(out@.drop_last()).push(p));
        assert(env_view(v@).take(i + 1) == env_view(v@).take(i as int).push(p));
        i += 1;
    }
    assert(env_view(v@).take(v@.len() as int) == env_view(v@));
    out
}

#[verifier::loop_isolation(false)]
fn scan_units_exec(units: &Vec<UnitFile>, trail: Vec<String>) -> (r: Result<Invocation, Vec<String>>)
    ensures
        res_view(r) == scan_units(units@, views(trail@)),
{
    let ghost goal = scan_units(units@, views(trail@));
    let mut trail = trail;
    let mut i: usize = 0;
    assert(units@.skip(0) == units@);
    while i < units.len()
        invariant
            i <= units@.len(),
            goal == scan_units(units@.skip(i as int), views(trail@)),
        decreases units.len() - i,
    {
        assert(units@.skip(i as int)[0] == units@[i as int]);
        assert(units@.skip(i as int).drop_first() == units@.skip(i + 1));
        let ghost tv = views(trail@);
        assert(scan_units(units@.skip(i as int), tv) == match unit_step_spec(units@[i as int], tv) {
            Ok(x) => Ok(x),
            Err(t2) => scan_units(units@.skip(i + 1), t2),
        });
        match unit_step_exec(&units[i], trail) {
            Ok(inv) => {
                assert(unit_step_spec(units@[i as int], tv) == Ok::<InvocationView, Seq<Seq<char>>>(inv@));
                assert(goal == Ok::<InvocationView, Seq<Seq<char>>>(inv@));
                return Ok(inv);
            },
            Err(t) => {
                trail = t;
            },
        }
        i += 1;
    }
    assert(units@.skip(units@.len() as int) =~= Seq::<UnitFile>::empty());
    let l = owned("no validator invocation could be resolved");
    let ghost t0 = views(trail@);
    trail.push(l);
    assert(views(trail@) == t0.push(l@));
    Err(trail)
}

/// Finds the validator's command line from what was read on the host: the
/// entries of /proc, the environment and cgroup of the process `find_pid`
/// picked, and the unit files with the scripts they run.
pub fn resolve(
    procs: &Vec<ProcEntry>,
    environ: &Option<String>,
    cgroup: &Option<String>,
    units: &Vec<UnitFile>,
) -> (r: Result<Invocation, Vec<String>>)
    ensures
        res_view(r) == resolve_spec(procs@, opt_seq(*environ), opt_seq(*cgroup), units@),
{
    let mut trail: Vec<String> = Vec::new();
    let ghost envs = environ_spec(opt_seq(*environ));
    let found = find_pid(procs);
    match found {
        Some((pid, words)) => {
            let ghost ws = views(words@);
            assert(find_pid_spec(procs@) == Some((pid@, ws)));
            let line = cat("found running validator, pid ", pid.as_str());
            trail.push(line);
            let ghost tr = seq!["found running validator, pid "@ + pid@];
            assert(views(trail@) =~= tr);
            let env = proc_environ(environ);
            let tr_copy = clone_strings(&trail);
            let built = build(Origin::RunningProcess, words, tr_copy, env);
            assert(opt_inv(built) == build_spec(Origin::RunningProcess, ws, tr, envs));
            match built {
                Some(mut inv) => {
                    let ghost i0 = inv@;
                    inv.pid = Some(pid.clone());
                    let ghost j = InvocationView { pid: Some(pid@), ..i0 };
                    assert(inv@ =~= j);
                    let cg = unit_of_pid(cgroup);
                    let named = match cg {
                        Some(n) => unit_details(units, &n),
                        None => None,
                    };
                    let owner = match named {
                        Some(o) => Some(o),
                        None => owning_unit(units),
                    };
                    let ghost want = match cgroup_unit(opt_seq(*cgroup)) {
                        Some(n) => match unit_details_spec(units@, n) {
                            Some(o) => Some(o),
                            None => owning_unit_spec(units@),
                        },
                        None => owning_unit_spec(units@),
                    };
                    assert(opt_triple(owner) == want);
                    match owner {
                        Some((path, name, edit)) => {
                            inv.unit_path = Some(path);
                            inv.unit_name = Some(name);
                            inv.edit_target = Some(edit);
                            assert(inv@ =~= with_unit(j, path@, name@, edit@));
                        },
                        None => {},
                    }
                    return Ok(inv);
                },
                None => {
                    let l = owned("no running validator process found");
                    trail.push(l);
                    assert(views(trail@) =~= tr.push(l@));
                    return scan_units_exec(units, trail);
                },
            }
        },
        None => {},
    }
    let l = owned("no running validator process found");
    trail.push(l);
    assert(views(trail@) =~= seq![l@]);
    scan_units_exec(units, trail)
}

} // verus!
