//! What preflight knows about a machine.
//!
//! Facts are what the machine is, ClientVersion is which validator it runs.
//! Everything here works on text that was read from the machine: /proc/cpuinfo,
//! /proc/meminfo, /proc/mounts and the sysfs entries of each block device. The
//! reading itself happens in the program around the library; this module
//! decides what the text says. Sizes are whole bytes and kilobytes, clocks are
//! thousandths of a megahertz.

use vstd::prelude::*;
use vstd::string::*;
use crate::model::opt_view;
use crate::text::{
    all_digits, append, cat, chars_of, count_lines_prefixed, count_prefixed, dec, dec_string,
    digits_val, find_char, first_prefixed, is_digit, keyed_field, keyed_field_of, lines, nth_word,
    nth_word_of, owned, parse_u32, parse_u64, parse_u64_str, parse_u64_vec, second_piece,
    second_piece_of, split_char, split_on, split_ws, str_lines, str_starts, str_words, string_of,
    subvec, trim, views,
};

verus! {

// ---------------------------------------------------------------------------
// Where the machine's files live
// ---------------------------------------------------------------------------

/// The root that every path is read under: `/` for the live host, or a
/// captured tree.
#[derive(Debug, Clone)]
pub struct Rootfs {
    pub root: String,
}

/// A path with its leading `/` removed, so it can be joined under a root.
pub open spec fn relative(p: Seq<char>) -> Seq<char> {
    if p.len() > 0 && p[0] == '/' {
        p.drop_first()
    } else {
        p
    }
}

/// `root` joined with a relative path, with one `/` between them.
pub open spec fn joined(root: Seq<char>, rel: Seq<char>) -> Seq<char> {
    if root.len() > 0 && root.last() == '/' {
        root + rel
    } else {
        root + "/"@ + rel
    }
}

impl Rootfs {
    /// The live host when no root is given.
    pub fn new(root: Option<String>) -> (r: Rootfs)
        ensures
            r.root@ == match root {
                Some(p) => p@,
                None => "/"@,
            },
    {
        match root {
            Some(p) => Rootfs { root: p },
            None => Rootfs { root: owned("/") },
        }
    }

    /// Whether reads are pointed at a captured tree rather than the live host.
    pub fn is_prefixed(&self) -> (r: bool)
        ensures
            r == (self.root@ != "/"@),
    {
        let v = chars_of(self.root.as_str());
        let slash = chars_of("/");
        !crate::text::same(&v, &slash)
    }

    /// Where an absolute path of the machine lives under this root.
    pub fn at(&self, p: &str) -> (r: String)
        ensures
            r@ == joined(self.root@, relative(p@)),
    {
        let pv = chars_of(p);
        let rel = if pv.len() > 0 && pv[0] == '/' {
            subvec(&pv, 1, pv.len())
        } else {
            pv
        };
        assert(rel@ == relative(p@));
        let rv = chars_of(self.root.as_str());
        let mut out = owned(self.root.as_str());
        if !(rv.len() > 0 && rv[rv.len() - 1] == '/') {
            append(&mut out, "/");
        }
        let rs = string_of(&rel);
        append(&mut out, rs.as_str());
        out
    }
}

// ---------------------------------------------------------------------------
// Client versions
// ---------------------------------------------------------------------------

/// The newest release any check in the registry cites. Bump it when checks are
/// added for a newer release.
pub const REGISTRY_COVERS_MAJOR: u64 = 4;

pub const REGISTRY_COVERS_MINOR: u64 = 3;

/// A client version, parsed only as far as checks need it.
///
/// Checks key on floors, "this requirement starts at v4.1", never on a
/// release channel. A floor stays correct forever; a channel does not.
#[derive(Debug, Clone)]
pub struct ClientVersion {
    pub major: u64,
    pub minor: u64,
    pub patch: u64,
    pub raw: String,
}

/// A word that reads as a version: it starts with a digit and has a dot.
pub open spec fn version_word(t: Seq<char>) -> bool {
    t.len() > 0 && is_digit(t[0]) && t.contains('.')
}

pub open spec fn first_version_word(ws: Seq<Seq<char>>) -> Option<Seq<char>>
    decreases ws.len(),
{
    if ws.len() == 0 {
        None
    } else if version_word(ws[0]) {
        Some(ws[0])
    } else {
        first_version_word(ws.drop_first())
    }
}

/// The part of a version word before any `-` or `+` suffix.
pub open spec fn version_core(t: Seq<char>) -> Seq<char>
    decreases t.len(),
{
    if t.len() == 0 || t[0] == '-' || t[0] == '+' {
        Seq::empty()
    } else {
        seq![t[0]] + version_core(t.drop_first())
    }
}

/// What `ClientVersion::parse` reads from a text: major, minor, patch and the
/// word they came from. The first word that starts with a digit and contains
/// a dot decides; a missing patch reads as 0, an unreadable one too.
pub open spec fn version_of(s: Seq<char>) -> Option<(u64, u64, u64, Seq<char>)> {
    match first_version_word(split_ws(s)) {
        None => None,
        Some(tok) => {
            let ps = split_on(version_core(tok), '.');
            if ps.len() < 2 {
                None
            } else {
                match (parse_u64(ps[0]), parse_u64(ps[1])) {
                    (Some(ma), Some(mi)) => {
                        let pa = if ps.len() >= 3 {
                            match parse_u64(ps[2]) {
                                Some(p) => p,
                                None => 0u64,
                            }
                        } else {
                            0u64
                        };
                        Some((ma, mi, pa, tok))
                    },
                    _ => None,
                }
            }
        },
    }
}

pub open spec fn version_view(v: ClientVersion) -> (u64, u64, u64, Seq<char>) {
    (v.major, v.minor, v.patch, v.raw@)
}

pub open spec fn opt_version(o: Option<ClientVersion>) -> Option<(u64, u64, u64, Seq<char>)> {
    match o {
        Some(v) => Some(version_view(v)),
        None => None,
    }
}

/// `(major, minor) >= (a, b)`, read as a release number.
pub open spec fn release_at_least(major: u64, minor: u64, a: u64, b: u64) -> bool {
    major > a || (major == a && minor >= b)
}

pub open spec fn short_text(major: u64, minor: u64, patch: u64) -> Seq<char> {
    dec(major as nat) + "."@ + dec(minor as nat) + "."@ + dec(patch as nat)
}

fn first_version_index(ws: &Vec<String>) -> (r: Option<usize>)
    ensures
        match r {
            Some(i) => i < ws@.len() && first_version_word(views(ws@)) == Some(ws@[i as int]@),
            None => first_version_word(views(ws@)) is None,
        },
{
    let mut i: usize = 0;
    assert(views(ws@).skip(0) == views(ws@));
    while i < ws.len()
        invariant
            i <= ws@.len(),
            first_version_word(views(ws@)) == first_version_word(views(ws@).skip(i as int)),
        decreases ws.len() - i,
    {
        assert(views(ws@).skip(i as int)[0] == ws@[i as int]@);
        assert(views(ws@).skip(i as int).drop_first() == views(ws@).skip(i + 1));
        let w = chars_of(ws[i].as_str());
        if w.len() > 0 && '0' <= w[0] && w[0] <= '9' && crate::text::has_char(&w, '.') {
            return Some(i);
        }
        i += 1;
    }
    assert(views(ws@).skip(i as int) =~= Seq::<Seq<char>>::empty());
    None
}

fn version_core_of(t: &Vec<char>) -> (r: Vec<char>)
    ensures
        r@ == version_core(t@),
{
    let mut i: usize = 0;
    assert(t@.skip(0) == t@);
    assert(t@.take(0) + version_core(t@) == version_core(t@));
    while i < t.len() && t[i] != '-' && t[i] != '+'
        invariant
            i <= t@.len(),
            version_core(t@) == t@.take(i as int) + version_core(t@.skip(i as int)),
        decreases t.len() - i,
    {
        assert(t@.skip(i as int).drop_first() == t@.skip(i + 1));
        assert(t@.take(i + 1) == t@.take(i as int) + seq![t@[i as int]]);
        i += 1;
    }
    assert(version_core(t@.skip(i as int)) == Seq::<char>::empty());
    subvec(t, 0, i)
}

impl ClientVersion {
    /// Reads the version a `--version` output or a `--client` flag carries.
    pub fn parse(s: &str) -> (r: Option<ClientVersion>)
        ensures
            opt_version(r) == version_of(s@),
    {
        let ws = str_words(s);
        let i = match first_version_index(&ws) {
            Some(i) => i,
            None => return None,
        };
        let tok = chars_of(ws[i].as_str());
        let core = version_core_of(&tok);
        let ps = split_char(&core, '.');
        if ps.len() < 2 {
            return None;
        }
        let major = match parse_u64_str(ps[0].as_str()) {
            Some(n) => n,
            None => return None,
        };
        let minor = match parse_u64_str(ps[1].as_str()) {
            Some(n) => n,
            None => return None,
        };
        let patch = if ps.len() >= 3 {
            match parse_u64_str(ps[2].as_str()) {
                Some(p) => p,
                None => 0,
            }
        } else {
            0
        };
        Some(ClientVersion { major, minor, patch, raw: string_of(&tok) })
    }

    /// True when this release is at or above `major.minor`.
    pub fn at_least(&self, major: u64, minor: u64) -> (r: bool)
        ensures
            r == release_at_least(self.major, self.minor, major, minor),
    {
        self.major > major || (self.major == major && self.minor >= minor)
    }

    /// `major.minor.patch`, without any channel suffix.
    pub fn short(&self) -> (r: String)
        ensures
            r@ == short_text(self.major, self.minor, self.patch),
    {
        let mut s = dec_string(self.major);
        append(&mut s, ".");
        let mi = dec_string(self.minor);
        append(&mut s, mi.as_str());
        append(&mut s, ".");
        let pa = dec_string(self.patch);
        append(&mut s, pa.as_str());
        s
    }

    /// True when the version is newer than anything the registry was written
    /// against, so the report can say its coverage may be incomplete.
    pub fn newer_than_registry(&self) -> (r: bool)
        ensures
            r == !release_at_least(
                REGISTRY_COVERS_MAJOR,
                REGISTRY_COVERS_MINOR,
                self.major,
                self.minor,
            ),
    {
        self.major > REGISTRY_COVERS_MAJOR || (self.major == REGISTRY_COVERS_MAJOR && self.minor
            > REGISTRY_COVERS_MINOR)
    }
}

/// A release that meets a floor meets every lower floor too: gating on
/// floors never flips as the floor goes down.
pub proof fn law_at_least_is_monotone(major: u64, minor: u64, a: u64, b: u64, c: u64, d: u64)
    requires
        release_at_least(major, minor, a, b),
        release_at_least(a, b, c, d),
    ensures
        release_at_least(major, minor, c, d),
{
}

/// A release newer than the registry meets every floor the registry cites.
pub proof fn law_newer_than_registry_meets_its_floors(major: u64, minor: u64, a: u64, b: u64)
    requires
        !release_at_least(REGISTRY_COVERS_MAJOR, REGISTRY_COVERS_MINOR, major, minor),
        release_at_least(REGISTRY_COVERS_MAJOR, REGISTRY_COVERS_MINOR, a, b),
    ensures
        release_at_least(major, minor, a, b),
{
}

// ---------------------------------------------------------------------------
// Cores
// ---------------------------------------------------------------------------

/// The number after the first `:` of a cpuinfo line.
pub open spec fn colon_u32(line: Seq<char>) -> Option<u32> {
    match second_piece(line, ':') {
        Some(v) => parse_u32(v),
        None => None,
    }
}

/// What the walk over cpuinfo carries: the (socket, core) pairs seen so far,
/// each once, in the order first met, and the halves of the next pair.
pub open spec fn cores_step(
    st: (Seq<(u32, u32)>, Option<u32>, Option<u32>),
    line: Seq<char>,
) -> (Seq<(u32, u32)>, Option<u32>, Option<u32>) {
    let (seen, so, co) = st;
    if !"physical id"@.is_prefix_of(line) && !"core id"@.is_prefix_of(line) {
        st
    } else {
        let (s2, c2) = if "physical id"@.is_prefix_of(line) {
            (colon_u32(line), co)
        } else {
            (so, colon_u32(line))
        };
        match (s2, c2) {
            (Some(a), Some(b)) => (
                if seen.contains((a, b)) {
                    seen
                } else {
                    seen.push((a, b))
                },
                None,
                None,
            ),
            _ => (seen, s2, c2),
        }
    }
}

pub open spec fn cores_fold(ls: Seq<Seq<char>>) -> (Seq<(u32, u32)>, Option<u32>, Option<u32>)
    decreases ls.len(),
{
    if ls.len() == 0 {
        (Seq::empty(), None, None)
    } else {
        cores_step(cores_fold(ls.drop_last()), ls.last())
    }
}

pub open spec fn parse_usize(s: Seq<char>) -> Option<usize> {
    match parse_u64(s) {
        Some(n) => if n <= usize::MAX {
            Some(n as usize)
        } else {
            None
        },
        None => None,
    }
}

/// The physical core count: distinct (physical id, core id) pairs, or the
/// per-socket "cpu cores" figure when cpuinfo gives no pairs.
pub open spec fn physical_cores_of(info: Seq<char>) -> Option<usize> {
    let seen = cores_fold(lines(info)).0;
    if seen.len() > 0 {
        Some(seen.len() as usize)
    } else {
        match keyed_field(info, "cpu cores"@) {
            Some(v) => parse_usize(v),
            None => None,
        }
    }
}

fn colon_u32_of(line: &str) -> (r: Option<u32>)
    ensures
        r == colon_u32(line@),
{
    match second_piece_of(line, ':') {
        Some(v) => {
            let c = chars_of(v.as_str());
            crate::text::parse_u32_vec(&c)
        },
        None => None,
    }
}

fn has_pair(v: &Vec<(u32, u32)>, p: (u32, u32)) -> (r: bool)
    ensures
        r == v@.contains(p),
{
    let mut i: usize = 0;
    while i < v.len()
        invariant
            i <= v@.len(),
            forall|k: int| 0 <= k < i ==> v@[k] != p,
        decreases v.len() - i,
    {
        if v[i].0 == p.0 && v[i].1 == p.1 {
            assert(v@[i as int] == p);
            return true;
        }
        i += 1;
    }
    false
}

fn parse_usize_of(s: &str) -> (r: Option<usize>)
    ensures
        r == parse_usize(s@),
{
    match parse_u64_str(s) {
        Some(n) => if n <= usize::MAX as u64 {
            Some(n as usize)
        } else {
            None
        },
        None => None,
    }
}

/// cpuinfo's "cpu cores" is per socket, so a dual socket box under-counts.
/// Unique (physical id, core id) pairs are the real number.
pub fn physical_cores(info: &str) -> (r: Option<usize>)
    ensures
        r == physical_cores_of(info@),
{
    let ls = str_lines(info);
    let mut seen: Vec<(u32, u32)> = Vec::new();
    let mut socket: Option<u32> = None;
    let mut core: Option<u32> = None;
    let mut i: usize = 0;
    while i < ls.len()
        invariant
            i <= ls@.len(),
            views(ls@) == lines(info@),
            (seen@, socket, core) == cores_fold(views(ls@).take(i as int)),
        decreases ls.len() - i,
    {
        assert(views(ls@).take(i + 1).drop_last() == views(ls@).take(i as int));
        assert(views(ls@).take(i + 1).last() == ls@[i as int]@);
        let line = ls[i].as_str();
        let is_socket = str_starts(line, "physical id");
        let is_core = str_starts(line, "core id");
        if is_socket || is_core {
            if is_socket {
                socket = colon_u32_of(line);
            } else {
                core = colon_u32_of(line);
            }
            match (socket, core) {
                (Some(a), Some(b)) => {
                    if !has_pair(&seen, (a, b)) {
                        seen.push((a, b));
                    }
                    socket = None;
                    core = None;
                },
                _ => {},
            }
        }
        i += 1;
    }
    assert(views(ls@).take(ls@.len() as int) == views(ls@));
    if seen.len() > 0 {
        Some(seen.len())
    } else {
        match keyed_field_of(info, "cpu cores") {
            Some(v) => parse_usize_of(v.as_str()),
            None => None,
        }
    }
}

// ---------------------------------------------------------------------------
// Facts
// ---------------------------------------------------------------------------

/// A block device as sysfs describes it.
#[derive(Debug, Clone)]
pub struct Disk {
    pub name: String,
    pub size_bytes: u64,
    pub rotational: bool,
    /// A view of other devices rather than hardware of its own. Listed, but
    /// never added to a capacity total: a mapper volume and the disk under it
    /// are the same bytes counted twice.
    pub mapped: bool,
}

/// A mounted filesystem that could hold validator storage.
#[derive(Debug, Clone)]
pub struct Mount {
    pub target: String,
    pub fstype: String,
    pub free_bytes: Option<u64>,
    pub total_bytes: Option<u64>,
}

/// Everything preflight records about the machine itself.
pub struct Facts {
    pub cpu_model: Option<String>,
    pub cores: Option<usize>,
    pub threads: Option<usize>,
    /// The governor's current clock, in kilohertz.
    pub khz: Option<u64>,
    pub avx2: Option<bool>,
    pub mem_kb: Option<u64>,
    pub swap_kb: Option<u64>,
    pub disks: Vec<Disk>,
    pub mounts: Vec<Mount>,
}

/// The flags line: the first line that starts with `flags` or `Features`.
pub open spec fn flags_line(ls: Seq<Seq<char>>) -> Option<Seq<char>>
    decreases ls.len(),
{
    if ls.len() == 0 {
        None
    } else if "flags"@.is_prefix_of(ls[0]) || "Features"@.is_prefix_of(ls[0]) {
        Some(ls[0])
    } else {
        flags_line(ls.drop_first())
    }
}

/// Whether the CPU flags name AVX2.
pub open spec fn has_avx2(info: Seq<char>) -> bool {
    match flags_line(lines(info)) {
        Some(l) => split_ws(l).contains("avx2"@),
        None => false,
    }
}

/// The flags line is the first line that starts with `flags` (x86) or
/// `Features` (ARM): every line before it starts with neither.
pub proof fn law_flags_line_is_the_first_flags_line(ls: Seq<Seq<char>>)
    ensures
        flags_line(ls) matches Some(l) ==> exists|k: int|
            0 <= k < ls.len() && #[trigger] ls[k] == l && ("flags"@.is_prefix_of(l) || "Features"@.is_prefix_of(l))
                && forall|j: int| 0 <= j < k ==> !"flags"@.is_prefix_of(#[trigger] ls[j])
                    && !"Features"@.is_prefix_of(ls[j]),
        flags_line(ls) is None ==> forall|j: int| 0 <= j < ls.len() ==> !"flags"@.is_prefix_of(#[trigger] ls[j])
            && !"Features"@.is_prefix_of(ls[j]),
    decreases ls.len(),
{
    if ls.len() > 0 && !("flags"@.is_prefix_of(ls[0]) || "Features"@.is_prefix_of(ls[0])) {
        let rest = ls.drop_first();
        law_flags_line_is_the_first_flags_line(rest);
        if let Some(l) = flags_line(ls) {
            let k = choose|k: int|
                0 <= k < rest.len() && #[trigger] rest[k] == l && ("flags"@.is_prefix_of(l) || "Features"@.is_prefix_of(l))
                    && forall|j: int| 0 <= j < k ==> !"flags"@.is_prefix_of(#[trigger] rest[j])
                        && !"Features"@.is_prefix_of(rest[j]);
            assert(ls[k + 1] == l);
            assert forall|j: int| 0 <= j < k + 1 implies !"flags"@.is_prefix_of(#[trigger] ls[j])
                && !"Features"@.is_prefix_of(ls[j]) by {
                if j > 0 {
                    assert(ls[j] == rest[j - 1]);
                }
            }
        } else {
            assert forall|j: int| 0 <= j < ls.len() implies !"flags"@.is_prefix_of(#[trigger] ls[j])
                && !"Features"@.is_prefix_of(ls[j]) by {
                if j > 0 {
                    assert(ls[j] == rest[j - 1]);
                }
            }
        }
    } else if ls.len() > 0 {
        assert(ls[0] == flags_line(ls)->0);
    }
}

/// AVX2 is present exactly when the exact lower-case word `avx2` is one of
/// the whitespace-separated words of the CPU's flags line; other spellings
/// such as `AVX2` or `avx512f` do not count, and no flags line means no AVX2.
pub proof fn law_avx2_is_the_avx2_flag_word(info: Seq<char>)
    ensures
        flags_line(lines(info)) matches Some(l) ==> (has_avx2(info) <==> exists|k: int|
            0 <= k < split_ws(l).len() && #[trigger] split_ws(l)[k] == seq!['a', 'v', 'x', '2']),
        flags_line(lines(info)) is None ==> !has_avx2(info),
{
    reveal_strlit("avx2");
    assert("avx2"@ =~= seq!['a', 'v', 'x', '2']);
}

pub fn flags_line_of(info: &str) -> (r: Option<String>)
    ensures
        opt_view(r) == flags_line(lines(info@)),
{
    let ls = str_lines(info);
    let mut i: usize = 0;
    assert(views(ls@).skip(0) == views(ls@));
    while i < ls.len()
        invariant
            i <= ls@.len(),
            views(ls@) == lines(info@),
            flags_line(views(ls@)) == flags_line(views(ls@).skip(i as int)),
        decreases ls.len() - i,
    {
        assert(views(ls@).skip(i as int)[0] == ls@[i as int]@);
        assert(views(ls@).skip(i as int).drop_first() == views(ls@).skip(i + 1));
        if str_starts(ls[i].as_str(), "flags") || str_starts(ls[i].as_str(), "Features") {
            return Some(ls[i].clone());
        }
        i += 1;
    }
    assert(views(ls@).skip(i as int) =~= Seq::<Seq<char>>::empty());
    None
}

fn words_contain(ws: &Vec<String>, w: &str) -> (r: bool)
    ensures
        r == views(ws@).contains(w@),
{
    let wv = chars_of(w);
    let mut i: usize = 0;
    while i < ws.len()
        invariant
            i <= ws@.len(),
            wv@ == w@,
            forall|k: int| 0 <= k < i ==> ws@[k]@ != w@,
        decreases ws.len() - i,
    {
        let c = chars_of(ws[i].as_str());
        if crate::text::same(&c, &wv) {
            assert(views(ws@)[i as int] == w@);
            return true;
        }
        i += 1;
    }
    assert(forall|k: int| 0 <= k < views(ws@).len() ==> views(ws@)[k] != w@);
    false
}

/// Whether a cpuinfo text lists AVX2 among the CPU flags.
pub fn avx2_in(info: &str) -> (r: bool)
    ensures
        r == has_avx2(info@),
{
    match flags_line_of(info) {
        Some(l) => {
            let ws = str_words(l.as_str());
            words_contain(&ws, "avx2")
        },
        None => false,
    }
}

/// The model name, or `Model` on ARM.
pub open spec fn cpu_model_of(info: Seq<char>) -> Option<Seq<char>> {
    match keyed_field(info, "model name"@) {
        Some(m) => Some(m),
        None => keyed_field(info, "Model"@),
    }
}

/// The number of logical processors, when there is at least one.
pub open spec fn threads_of(info: Seq<char>) -> Option<usize> {
    let n = count_prefixed(lines(info), "processor"@);
    if n > 0 {
        Some(n as usize)
    } else {
        None
    }
}

pub open spec fn khz_of(info: Seq<char>) -> Option<u64> {
    match keyed_field(info, "cpu MHz"@) {
        Some(v) => crate::text::parse_milli(v),
        None => None,
    }
}

/// A meminfo figure in kilobytes: the second word of the first line that
/// starts with the key.
pub open spec fn meminfo_kb(text: Seq<char>, key: Seq<char>) -> Option<u64> {
    match first_prefixed(lines(text), key) {
        Some(l) => match nth_word(l, 1) {
            Some(v) => parse_u64(v),
            None => None,
        },
        None => None,
    }
}

pub fn meminfo_kb_of(text: &str, key: &str) -> (r: Option<u64>)
    ensures
        r == meminfo_kb(text@, key@),
{
    let ls = str_lines(text);
    match crate::text::find_prefixed(&ls, key) {
        Some(l) => match nth_word_of(l.as_str(), 1) {
            Some(v) => parse_u64_str(v.as_str()),
            None => None,
        },
        None => None,
    }
}

/// A block device, from what sysfs holds for it: loop and ram devices are not
/// storage, a device of no sectors is not there, and a mapper volume goes by
/// its mapper name.
pub open spec fn disk_of(
    name: Seq<char>,
    size: Option<Seq<char>>,
    rotational: Option<Seq<char>>,
    has_slaves: bool,
    dm_name: Option<Seq<char>>,
) -> Option<(Seq<char>, u64, bool, bool)> {
    if "loop"@.is_prefix_of(name) || "ram"@.is_prefix_of(name) {
        None
    } else {
        match size {
            None => None,
            Some(t) => match parse_u64(trim(t)) {
                Some(sectors) => if sectors > 0 && sectors * 512 <= u64::MAX {
                    let label = match dm_name {
                        Some(d) => if trim(d).len() > 0 {
                            trim(d)
                        } else {
                            name
                        },
                        None => name,
                    };
                    let rot = match rotational {
                        Some(r) => trim(r) == "1"@,
                        None => false,
                    };
                    Some((label, (sectors * 512) as u64, rot, has_slaves))
                } else {
                    None
                },
                None => None,
            },
        }
    }
}

pub open spec fn disk_view(d: Disk) -> (Seq<char>, u64, bool, bool) {
    (d.name@, d.size_bytes, d.rotational, d.mapped)
}

fn trimmed(s: &str) -> (r: Vec<char>)
    ensures
        r@ == trim(s@),
{
    let v = chars_of(s);
    crate::text::trim_vec(&v)
}

/// The disk a /sys/block entry describes, or none when it is not storage.
pub fn disk_entry(
    name: &str,
    size: &Option<String>,
    rotational: &Option<String>,
    has_slaves: bool,
    dm_name: &Option<String>,
) -> (r: Option<Disk>)
    ensures
        match r {
            Some(d) => disk_of(name@, opt_view(*size), opt_view(*rotational), has_slaves, opt_view(*dm_name)) == Some(disk_view(d)),
            None => disk_of(name@, opt_view(*size), opt_view(*rotational), has_slaves, opt_view(*dm_name)) is None,
        },
{
    if str_starts(name, "loop") || str_starts(name, "ram") {
        return None;
    }
    let t = match size {
        Some(t) => t,
        None => return None,
    };
    let tv = trimmed(t.as_str());
    let sectors = match parse_u64_vec(&tv) {
        Some(n) => n,
        None => return None,
    };
    if sectors == 0 || sectors > u64::MAX / 512 {
        return None;
    }
    let label = match dm_name {
        Some(d) => {
            let dv = trimmed(d.as_str());
            if dv.len() > 0 {
                string_of(&dv)
            } else {
                owned(name)
            }
        },
        None => owned(name),
    };
    let rot = match rotational {
        Some(r) => {
            let rv = trimmed(r.as_str());
            let one = chars_of("1");
            crate::text::same(&rv, &one)
        },
        None => false,
    };
    Some(Disk { name: label, size_bytes: sectors * 512, rotational: rot, mapped: has_slaves })
}

/// A /proc/mounts line worth reporting: a real device, and not a snap image or
/// the boot partition, which are not validator storage and bury the disks
/// that are.
pub open spec fn storage_line(ws: Seq<Seq<char>>) -> bool {
    ws.len() >= 3 && "/dev/"@.is_prefix_of(ws[0]) && ws[2] != "squashfs"@ && !"/snap/"@.is_prefix_of(
        ws[1],
    ) && !"/boot"@.is_prefix_of(ws[1])
}

/// The storage mounts of a /proc/mounts text, as (target, fstype), in order.
pub open spec fn storage_mounts_of(ls: Seq<Seq<char>>) -> Seq<(Seq<char>, Seq<char>)>
    decreases ls.len(),
{
    if ls.len() == 0 {
        Seq::empty()
    } else {
        let rest = storage_mounts_of(ls.drop_last());
        let ws = split_ws(ls.last());
        if storage_line(ws) {
            rest.push((ws[1], ws[2]))
        } else {
            rest
        }
    }
}

pub open spec fn mount_pairs(ms: Seq<Mount>) -> Seq<(Seq<char>, Seq<char>)> {
    ms.map_values(|m: Mount| (m.target@, m.fstype@))
}

fn words_equal(w: &String, lit: &str) -> (r: bool)
    ensures
        r == (w@ == lit@),
{
    let a = chars_of(w.as_str());
    let b = chars_of(lit);
    crate::text::same(&a, &b)
}

/// The storage mounts in a /proc/mounts text, with no space figures yet.
pub fn storage_mounts(text: &str) -> (r: Vec<Mount>)
    ensures
        mount_pairs(r@) == storage_mounts_of(lines(text@)),
        forall|i: int| 0 <= i < r@.len() ==> (#[trigger] r@[i]).free_bytes is None && r@[i].total_bytes is None,
{
    let ls = str_lines(text);
    let mut out: Vec<Mount> = Vec::new();
    let mut i: usize = 0;
    while i < ls.len()
        invariant
            i <= ls@.len(),
            views(ls@) == lines(text@),
            mount_pairs(out@) == storage_mounts_of(views(ls@).take(i as int)),
            forall|k: int| 0 <= k < out@.len() ==> (#[trigger] out@[k]).free_bytes is None && out@[k].total_bytes is None,
        decreases ls.len() - i,
    {
        assert(views(ls@).take(i + 1).drop_last() == views(ls@).take(i as int));
        assert(views(ls@).take(i + 1).last() == ls@[i as int]@);
        let ws = str_words(ls[i].as_str());
        if ws.len() >= 3 && str_starts(ws[0].as_str(), "/dev/") && !words_equal(&ws[2], "squashfs")
            && !str_starts(ws[1].as_str(), "/snap/") && !str_starts(ws[1].as_str(), "/boot") {
            let m = Mount {
                target: ws[1].clone(),
                fstype: ws[2].clone(),
                free_bytes: None,
                total_bytes: None,
            };
            out.push(m);
            assert(mount_pairs(out@) == mount_pairs(out@.drop_last()).push((ws@[1]@, ws@[2]@)));
        }
        i += 1;
    }
    assert(views(ls@).take(ls@.len() as int) == views(ls@));
    out
}

// ---------------------------------------------------------------------------
// Ordering disks by name
// ---------------------------------------------------------------------------

/// `a` sorts strictly before `b`, comparing characters in order, a prefix
/// first: the order `String`'s `cmp` gives.
pub open spec fn name_lt(a: Seq<char>, b: Seq<char>) -> bool
    decreases a.len(),
{
    if b.len() == 0 {
        false
    } else if a.len() == 0 {
        true
    } else if (a[0] as u32) < (b[0] as u32) {
        true
    } else if (a[0] as u32) > (b[0] as u32) {
        false
    } else {
        name_lt(a.drop_first(), b.drop_first())
    }
}

/// `x` placed after every disk whose name does not sort after its own.
pub open spec fn insert_by_name(s: Seq<Disk>, x: Disk) -> Seq<Disk>
    decreases s.len(),
{
    if s.len() == 0 {
        seq![x]
    } else if name_lt(x.name@, s[0].name@) {
        seq![x] + s
    } else {
        seq![s[0]] + insert_by_name(s.drop_first(), x)
    }
}

/// Disks in name order, disks of equal names in the order they came: what a
/// stable sort by name gives.
pub open spec fn sort_by_name(s: Seq<Disk>) -> Seq<Disk>
    decreases s.len(),
{
    if s.len() == 0 {
        Seq::empty()
    } else {
        insert_by_name(sort_by_name(s.drop_last()), s.last())
    }
}

pub fn lt_exec(a: &Vec<char>, b: &Vec<char>) -> (r: bool)
    ensures
        r == name_lt(a@, b@),
{
    let mut i: usize = 0;
    assert(a@.skip(0) == a@ && b@.skip(0) == b@);
    while i < a.len() && i < b.len() && (a[i] as u32) == (b[i] as u32)
        invariant
            i <= a@.len(),
            i <= b@.len(),
            name_lt(a@, b@) == name_lt(a@.skip(i as int), b@.skip(i as int)),
        decreases a.len() - i,
    {
        assert(a@.skip(i as int).drop_first() == a@.skip(i + 1));
        assert(b@.skip(i as int).drop_first() == b@.skip(i + 1));
        i += 1;
    }
    if i == b.len() {
        assert(b@.skip(i as int).len() == 0);
        false
    } else if i == a.len() {
        assert(a@.skip(i as int).len() == 0);
        true
    } else {
        assert(a@.skip(i as int)[0] == a@[i as int]);
        assert(b@.skip(i as int)[0] == b@[i as int]);
        (a[i] as u32) < (b[i] as u32)
    }
}

proof fn lemma_insert_at(s: Seq<Disk>, x: Disk, k: int)
    requires
        0 <= k <= s.len(),
        forall|j: int| 0 <= j < k ==> !name_lt(x.name@, #[trigger] s[j].name@),
        k < s.len() ==> name_lt(x.name@, s[k].name@),
    ensures
        insert_by_name(s, x) == s.insert(k, x),
    decreases s.len(),
{
    if s.len() == 0 {
        assert(s.insert(k, x) =~= seq![x]);
    } else if k == 0 {
        assert(s.insert(0, x) =~= seq![x] + s);
    } else {
        let t = s.drop_first();
        assert forall|j: int| 0 <= j < k - 1 implies !name_lt(x.name@, #[trigger] t[j].name@) by {
            assert(t[j] == s[j + 1]);
        }
        if k < s.len() {
            assert(t[k - 1] == s[k]);
        }
        lemma_insert_at(t, x, k - 1);
        assert(s.insert(k, x) =~= seq![s[0]] + t.insert(k - 1, x));
    }
}

/// Disks sorted by name, stably.
pub fn sort_disks(disks: Vec<Disk>) -> (r: Vec<Disk>)
    ensures
        r@ == sort_by_name(disks@),
{
    let mut out: Vec<Disk> = Vec::new();
    let mut rest = disks;
    let ghost all = rest@;
    let ghost mut taken: Seq<Disk> = Seq::empty();
    assert(taken + rest@ == all);
    while rest.len() > 0
        invariant
            taken + rest@ == all,
            out@ == sort_by_name(taken),
        decreases rest.len(),
    {
        let ghost r0 = rest@;
        let x = rest.remove(0);
        assert(r0 == seq![x] + rest@);
        let xn = chars_of(x.name.as_str());
        let mut k: usize = 0;
        let mut stop = false;
        while k < out.len() && !stop
            invariant
                k <= out@.len(),
                xn@ == x.name@,
                forall|j: int| 0 <= j < k ==> !name_lt(x.name@, #[trigger] out@[j].name@),
                stop ==> k < out@.len() && name_lt(x.name@, out@[k as int].name@),
            decreases (out.len() - k) * 2 + if stop {
                0int
            } else {
                1int
            },
        {
            let on = chars_of(out[k].name.as_str());
            if lt_exec(&xn, &on) {
                stop = true;
            } else {
                k += 1;
            }
        }
        proof {
            lemma_insert_at(out@, x, k as int);
            let t2 = taken.push(x);
            assert(t2.drop_last() == taken);
            assert(t2 + rest@ == all);
            taken = t2;
        }
        out.insert(k, x);
    }
    assert(taken == all);
    out
}

/// What the processor and memory figures are, read from /proc/cpuinfo and
/// /proc/meminfo; all unknown where the file was not read.
pub open spec fn read_facts(f: Facts, cpuinfo: Option<Seq<char>>, meminfo: Option<Seq<char>>) -> bool {
    &&& match cpuinfo {
        Some(i) => opt_view(f.cpu_model) =~~= cpu_model_of(i) && f.threads == threads_of(i)
            && f.cores == physical_cores_of(i) && f.khz == khz_of(i) && f.avx2 == Some(has_avx2(i)),
        None => f.cpu_model is None && f.threads is None && f.cores is None && f.khz is None
            && f.avx2 is None,
    }
    &&& match meminfo {
        Some(m) => f.mem_kb == meminfo_kb(m, "MemTotal:"@) && f.swap_kb == meminfo_kb(m, "SwapTotal:"@),
        None => f.mem_kb is None && f.swap_kb is None,
    }
}

/// The machine's facts, from its cpuinfo and meminfo texts (when they could be
/// read), its block devices and its storage mounts.
pub fn gather(cpuinfo: &Option<String>, meminfo: &Option<String>, disks: Vec<Disk>, mounts: Vec<
    Mount,
>) -> (f: Facts)
    ensures
        read_facts(f, opt_view(*cpuinfo), opt_view(*meminfo)),
        f.disks@ == sort_by_name(disks@),
        f.mounts@ == mounts@,
{
    let mut f = Facts {
        cpu_model: None,
        cores: None,
        threads: None,
        khz: None,
        avx2: None,
        mem_kb: None,
        swap_kb: None,
        disks: sort_disks(disks),
        mounts,
    };
    match cpuinfo {
        Some(info) => {
            let t = info.as_str();
            f.cpu_model = match keyed_field_of(t, "model name") {
                Some(m) => Some(m),
                None => keyed_field_of(t, "Model"),
            };
            let ls = str_lines(t);
            let n = count_lines_prefixed(&ls, "processor");
            f.threads = if n > 0 {
                Some(n)
            } else {
                None
            };
            f.cores = physical_cores(t);
            f.khz = match keyed_field_of(t, "cpu MHz") {
                Some(v) => crate::text::parse_milli_str(v.as_str()),
                None => None,
            };
            f.avx2 = Some(avx2_in(t));
        },
        None => {},
    }
    match meminfo {
        Some(m) => {
            f.mem_kb = meminfo_kb_of(m.as_str(), "MemTotal:");
            f.swap_kb = meminfo_kb_of(m.as_str(), "SwapTotal:");
        },
        None => {},
    }
    f
}

// ---------------------------------------------------------------------------
// The time of a run
// ---------------------------------------------------------------------------

pub open spec fn leap(y: int) -> bool {
    (y % 4 == 0 && y % 100 != 0) || y % 400 == 0
}

pub open spec fn year_len(y: int) -> nat {
    if leap(y) {
        366
    } else {
        365
    }
}

/// The year a day count from the start of `y` falls in, and the day of that
/// year, both counted from zero.
pub open spec fn civil_year(days: nat, y: nat) -> (nat, nat)
    decreases days,
{
    if days < year_len(y as int) {
        (y, days)
    } else {
        civil_year((days - year_len(y as int)) as nat, y + 1)
    }
}

pub open spec fn month_len(y: int, m: nat) -> nat {
    if m == 1 {
        if leap(y) {
            29
        } else {
            28
        }
    } else if m == 3 || m == 5 || m == 8 || m == 10 {
        30
    } else {
        31
    }
}

/// The month (from zero) a day of the year falls in, and the day of that month.
pub open spec fn civil_month(left: nat, y: int, m: nat) -> (nat, nat)
    decreases 12 - m,
{
    if m >= 11 || left < month_len(y, m) {
        (m, left)
    } else {
        civil_month((left - month_len(y, m)) as nat, y, m + 1)
    }
}

/// Two digits at least, as `{:02}` writes a number.
pub open spec fn pad2(n: nat) -> Seq<char> {
    if n < 10 {
        "0"@ + dec(n)
    } else {
        dec(n)
    }
}

/// `YYYY-MM-DD HH:MM UTC` for a count of seconds since the Unix epoch.
pub open spec fn utc_text(secs: nat) -> Seq<char> {
    let days = secs / 86400;
    let rem = secs % 86400;
    let (year, yday) = civil_year(days, 1970);
    let (month, mday) = civil_month(yday, year as int, 0);
    dec(year) + "-"@ + pad2(month + 1) + "-"@ + pad2(mday + 1) + " "@ + pad2(rem / 3600) + ":"@
        + pad2((rem % 3600) / 60) + " UTC"@
}

fn is_leap(y: u64) -> (r: bool)
    ensures
        r == leap(y as int),
{
    (y % 4 == 0 && y % 100 != 0) || y % 400 == 0
}

fn month_days(leap_year: bool, m: u64) -> (r: u64)
    ensures
        forall|y: int| leap(y) == leap_year ==> r == month_len(y, m as nat),
{
    if m == 1 {
        if leap_year {
            29
        } else {
            28
        }
    } else if m == 3 || m == 5 || m == 8 || m == 10 {
        30
    } else {
        31
    }
}

/// The year, the month from zero and the day of the month from zero, of a
/// count of seconds since the Unix epoch.
pub fn civil_date(secs: u64) -> (r: (u64, u64, u64))
    ensures
        ({
            let (y, yd) = civil_year((secs / 86400) as nat, 1970);
            let (m, md) = civil_month(yd, y as int, 0);
            r.0 == y && r.1 == m && r.2 == md
        }),
        r.1 < 12,
        r.2 < month_len(r.0 as int, r.1 as nat),
{
    let days = secs / 86400;
    let mut year: u64 = 1970;
    let mut left: u64 = days;
    loop
        invariant
            left <= days,
            days <= u64::MAX / 86400,
            year - 1970 <= days - left,
            1970 <= year,
            civil_year(days as nat, 1970) == civil_year(left as nat, year as nat),
        ensures
            left < year_len(year as int),
            civil_year(days as nat, 1970) == civil_year(left as nat, year as nat),
        decreases left,
    {
        let len: u64 = if is_leap(year) {
            366
        } else {
            365
        };
        if left < len {
            break;
        }
        left = left - len;
        year = year + 1;
    }
    let ghost yd = left;
    assert(civil_year(days as nat, 1970) == (year as nat, yd as nat));
    let lp = is_leap(year);
    let mut month: u64 = 0;
    loop
        invariant
            month < 12,
            lp == leap(year as int),
            left + month_start(year as int, month as nat) == yd,
            yd < year_len(year as int),
            civil_month(yd as nat, year as int, 0) == civil_month(
                left as nat,
                year as int,
                month as nat,
            ),
        ensures
            month < 12,
            left + month_start(year as int, month as nat) == yd,
            civil_month(yd as nat, year as int, 0) == (month as nat, left as nat),
        decreases 12 - month,
    {
        let ml = month_days(lp, month);
        if month >= 11 || left < ml {
            break;
        }
        left = left - ml;
        month = month + 1;
    }
    proof {
        lemma_days_fit(yd as nat, year as int, 0);
    }
    (year, month, left)
}

/// Days into a year that fit the year land in a month they fit.
proof fn lemma_days_fit(left: nat, y: int, m: nat)
    requires
        m <= 11,
        left + month_start(y, m) < year_len(y),
    ensures
        civil_month(left, y, m).1 < month_len(y, civil_month(left, y, m).0),
        civil_month(left, y, m).0 < 12,
    decreases 12 - m,
{
    if m >= 11 || left < month_len(y, m) {
        if m == 11 {
            reveal_with_fuel(month_start, 12);
            assert(month_start(y, 11) + 31 == year_len(y));
        }
    } else {
        lemma_days_fit((left - month_len(y, m)) as nat, y, m + 1);
    }
}

/// The days of the year before month `m`.
pub open spec fn month_start(y: int, m: nat) -> nat
    decreases m,
{
    if m == 0 {
        0
    } else {
        month_start(y, (m - 1) as nat) + month_len(y, (m - 1) as nat)
    }
}

fn pad2_string(n: u64) -> (s: String)
    ensures
        s@ == pad2(n as nat),
{
    let d = dec_string(n);
    if n < 10 {
        cat("0", d.as_str())
    } else {
        d
    }
}

/// A UTC timestamp for the report header, so a pasted run says when it was
/// taken. The caller reads the clock and hands in the seconds since the epoch.
pub fn now_utc(secs: u64) -> (s: String)
    ensures
        s@ == utc_text(secs as nat),
{
    let (year, month, mday) = civil_date(secs);
    let rem = secs % 86400;
    let mut s = dec_string(year);
    append(&mut s, "-");
    let p = pad2_string(month + 1);
    append(&mut s, p.as_str());
    append(&mut s, "-");
    let p = pad2_string(mday + 1);
    append(&mut s, p.as_str());
    append(&mut s, " ");
    let p = pad2_string(rem / 3600);
    append(&mut s, p.as_str());
    append(&mut s, ":");
    let p = pad2_string((rem % 3600) / 60);
    append(&mut s, p.as_str());
    append(&mut s, " UTC");
    s
}

} // verus!
