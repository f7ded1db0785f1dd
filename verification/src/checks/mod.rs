//! The check layers, and the helpers they share.
//!
//! Each layer is a module of functions that take the context and return an
//! outcome. They never write, never prompt, and never run anything.

use vstd::prelude::*;
use vstd::string::*;
use crate::ctx::Ctx;
use crate::model::{opt_view, Outcome, Status};
use crate::text::{append, cat, chars_of, lines, owned, str_lines, string_of, subvec, trim, trim_char, views};

pub mod kernel;
pub mod net;
pub mod arg;
pub mod fs;
pub mod hw;
pub mod service;
pub mod xdp;

verus! {

/// What `needs_linux` answers: nothing on Linux; off it, Unknown for a
/// captured tree and Unsupported for a real machine.
pub open spec fn off_linux_status(c: Ctx) -> Option<Status> {
    if c.linux {
        None
    } else if c.fs.root@ != "/"@ {
        Some(Status::Unknown)
    } else {
        Some(Status::Unsupported)
    }
}

/// What `needs_linux` observes and expects off Linux.
pub open spec fn off_linux_text(c: Ctx) -> (Seq<char>, Seq<char>) {
    if c.fs.root@ != "/"@ {
        ("the captured tree has no /proc"@, "a capture taken from a Linux host"@)
    } else {
        ("this machine runs "@ + c.host_os@ + ", not Linux"@, "a Linux host"@)
    }
}

pub open spec fn gate_matches(r: Option<Outcome>, want: Option<Status>, why: Seq<char>) -> bool {
    match (r, want) {
        (None, None) => true,
        (Some(o), Some(s)) => o.status == s && o.why@ == why && o.fix@.len() == 0,
        _ => false,
    }
}

/// Host layers read /proc and /sys.
///
/// A captured tree missing /proc is an incomplete capture, so Unknown. A real
/// machine that is not Linux is Unsupported: no command turns macOS into a
/// validator host, and saying "cannot say" would be hedging on a known answer.
pub fn needs_linux(ctx: &Ctx, why: &str) -> (r: Option<Outcome>)
    ensures
        gate_matches(r, off_linux_status(*ctx), why@),
        r is Some && !ctx.linux && ctx.fs.root@ == "/"@ ==> r->0.observed@ == "this machine runs "@
            + ctx.host_os@ + ", not Linux"@,
        r matches Some(o) ==> (o.observed@, o.expected@) == off_linux_text(*ctx) && o.verify is None
            && o.persistence is None,
        r matches Some(o) ==> (o.status == Status::Unknown ==> o.observed@.len() > 0),
{
    if ctx.is_linux() {
        return None;
    }
    if ctx.fs.is_prefixed() {
        proof {
            reveal_strlit("the captured tree has no /proc");
        }
        Some(
            Outcome::unknown("the captured tree has no /proc").expected(
                "a capture taken from a Linux host",
            ).why(why),
        )
    } else {
        let mut obs = cat("this machine runs ", ctx.host_os.as_str());
        append(&mut obs, ", not Linux");
        Some(Outcome::unsupported(obs.as_str(), "a Linux host").why(why))
    }
}

/// The value a unit line assigns to `key`, when it assigns one: the text after
/// `key=`, trimmed and unquoted.
pub open spec fn assigned(line: Seq<char>, key: Seq<char>) -> Option<Seq<char>> {
    let t = trim(line);
    let k = key + "="@;
    if k.is_prefix_of(t) {
        Some(trim_char(trim(t.skip(k.len() as int)), '"'))
    } else {
        None
    }
}

pub open spec fn line_values(ls: Seq<Seq<char>>, key: Seq<char>) -> Seq<Seq<char>>
    decreases ls.len(),
{
    if ls.len() == 0 {
        Seq::empty()
    } else {
        let rest = line_values(ls.drop_last(), key);
        match assigned(ls.last(), key) {
            Some(v) => rest.push(v),
            None => rest,
        }
    }
}

/// Every assignment of `key` across the unit and its drop-ins, in the order
/// systemd reads them.
pub open spec fn directive_values(texts: Seq<Seq<char>>, key: Seq<char>) -> Seq<Seq<char>>
    decreases texts.len(),
{
    if texts.len() == 0 {
        Seq::empty()
    } else {
        directive_values(texts.drop_last(), key) + line_values(lines(texts.last()), key)
    }
}

/// The assignment in effect for a directive systemd replaces: the last one,
/// unless that one is empty.
pub open spec fn directive(texts: Seq<Seq<char>>, key: Seq<char>) -> Option<Seq<char>> {
    let vs = directive_values(texts, key);
    if vs.len() > 0 && vs.last().len() > 0 {
        Some(vs.last())
    } else {
        None
    }
}

fn assigned_of(line: &str, key: &str) -> (r: Option<String>)
    ensures
        opt_view(r) == assigned(line@, key@),
{
    let v = chars_of(line);
    let t = crate::text::trim_vec(&v);
    let k = chars_of(cat(key, "=").as_str());
    if crate::text::starts_with(&t, &k) {
        let rest = subvec(&t, k.len(), t.len());
        assert(rest@ == t@.skip(k@.len() as int));
        let rt = crate::text::trim_vec(&rest);
        let q = crate::text::trim_char_vec(&rt, '"');
        Some(string_of(&q))
    } else {
        None
    }
}

fn text_values(text: &str, key: &str, out: &mut Vec<String>)
    ensures
        views(final(out)@) == views(old(out)@) + line_values(lines(text@), key@),
{
    let ls = str_lines(text);
    let ghost start = views(out@);
    let mut i: usize = 0;
    assert(views(ls@).take(0) =~= Seq::<Seq<char>>::empty());
    assert(start + line_values(Seq::empty(), key@) == start);
    while i < ls.len()
        invariant
            i <= ls@.len(),
            views(ls@) == lines(text@),
            views(out@) == start + line_values(views(ls@).take(i as int), key@),
        decreases ls.len() - i,
    {
        assert(views(ls@).take(i + 1).drop_last() == views(ls@).take(i as int));
        assert(views(ls@).take(i + 1).last() == ls@[i as int]@);
        match assigned_of(ls[i].as_str(), key) {
            Some(v) => {
                let ghost before = views(out@);
                out.push(v);
                assert(views(out@) == before.push(v@));
            },
            None => {},
        }
        i += 1;
    }
    assert(views(ls@).take(ls@.len() as int) == views(ls@));
}

/// Every assignment, for a directive systemd appends rather than replaces.
pub fn unit_directive_all(ctx: &Ctx, key: &str) -> (r: Vec<String>)
    ensures
        views(r@) == directive_values(views(ctx.files.unit_texts@), key@),
{
    let texts = &ctx.files.unit_texts;
    let mut out: Vec<String> = Vec::new();
    let mut i: usize = 0;
    assert(views(texts@).take(0) =~= Seq::<Seq<char>>::empty());
    while i < texts.len()
        invariant
            i <= texts@.len(),
            views(out@) == directive_values(views(texts@).take(i as int), key@),
        decreases texts.len() - i,
    {
        assert(views(texts@).take(i + 1).drop_last() == views(texts@).take(i as int));
        assert(views(texts@).take(i + 1).last() == texts@[i as int]@);
        text_values(texts[i].as_str(), key, &mut out);
        i += 1;
    }
    assert(views(texts@).take(texts@.len() as int) == views(texts@));
    out
}

/// Last assignment wins, for a directive systemd replaces.
pub fn unit_directive(ctx: &Ctx, key: &str) -> (r: Option<String>)
    ensures
        opt_view(r) == directive(views(ctx.files.unit_texts@), key@),
{
    let all = unit_directive_all(ctx, key);
    if all.len() == 0 {
        return None;
    }
    let last = all[all.len() - 1].clone();
    assert(views(all@).last() == last@);
    let lv = chars_of(last.as_str());
    if lv.len() > 0 {
        Some(last)
    } else {
        None
    }
}

} // verus!
