//! Turning findings into a report.
//!
//! Describes the machine first, then answers two questions in order: can this
//! box run a validator, and is the validator on it configured correctly. Also
//! holds the markdown renderer and the registry table.

use vstd::prelude::*;
use vstd::string::*;
use crate::ctx::{Ctx, VersionSource};
use crate::host::{release_at_least, short_text, REGISTRY_COVERS_MAJOR, REGISTRY_COVERS_MINOR};
use crate::model::{
    any_provisional, client_label, layer_label, profile_label, severity_label, status_label, Check,
    ClientKind, Finding, FixStep, Outcome, Phase, Profile, Source, Status,
};
use crate::privilege::{allowlist, allowlist_spec, Elevated};
use crate::registry::{applies, finding, finding_of, run, run_status};
use crate::text::{lower_char, lower_seq, 
    upper_seq, append, cat, chars_of, contains_seq, dec, dec_string, join, join_strings, owned, push_char,
    split_on, split_ws, views,
};

verus! {

pub struct Style {
    pub color: bool,
}

/// The ANSI colour each status is painted in.
pub open spec fn status_color(s: Status) -> Seq<char> {
    match s {
        Status::Pass => "32"@,
        Status::Ephemeral => "33"@,
        Status::Fail => "31"@,
        Status::Unsupported => "35"@,
        Status::Skipped => "90"@,
        Status::Unknown => "36"@,
        Status::Reported => "34"@,
    }
}

pub open spec fn painted(color: bool, code: Seq<char>, text: Seq<char>) -> Seq<char> {
    if color {
        "\x1b["@ + code + "m"@ + text + "\x1b[0m"@
    } else {
        text
    }
}

fn ansi(code: &str, text: &str) -> (r: String)
    ensures
        r@ == "\x1b["@ + code@ + "m"@ + text@ + "\x1b[0m"@,
{
    let mut s = cat("\x1b[", code);
    append(&mut s, "m");
    append(&mut s, text);
    append(&mut s, "\x1b[0m");
    s
}

impl Style {
    pub fn paint(&self, s: Status, text: &str) -> (r: String)
        ensures
            r@ == painted(self.color, status_color(s), text@),
    {
        if !self.color {
            return owned(text);
        }
        let c = match s {
            Status::Pass => "32",
            Status::Ephemeral => "33",
            Status::Fail => "31",
            Status::Unsupported => "35",
            Status::Skipped => "90",
            Status::Unknown => "36",
            Status::Reported => "34",
        };
        ansi(c, text)
    }

    pub fn dim(&self, text: &str) -> (r: String)
        ensures
            r@ == painted(self.color, "90"@, text@),
    {
        if self.color {
            ansi("90", text)
        } else {
            owned(text)
        }
    }

    pub fn bold(&self, text: &str) -> (r: String)
        ensures
            r@ == painted(self.color, "1"@, text@),
    {
        if self.color {
            ansi("1", text)
        } else {
            owned(text)
        }
    }
}

/// "1 check needs" but "2 checks need".
pub open spec fn plural_spec(n: nat, one: Seq<char>, many: Seq<char>) -> Seq<char> {
    if n == 1 {
        one
    } else {
        many
    }
}

fn plural(n: usize, one: &'static str, many: &'static str) -> (r: &'static str)
    ensures
        r@ == plural_spec(n as nat, one@, many@),
{
    if n == 1 {
        one
    } else {
        many
    }
}

/// `s` padded with spaces on the right to `w` characters, as `{:<w}` does.
pub open spec fn pad_right(s: Seq<char>, w: nat) -> Seq<char> {
    if s.len() >= w {
        s
    } else {
        s + Seq::new((w - s.len()) as nat, |i: int| ' ')
    }
}

/// `s` padded with spaces on the left to `w` characters, as `{:>w}` does.
pub open spec fn pad_left(s: Seq<char>, w: nat) -> Seq<char> {
    if s.len() >= w {
        s
    } else {
        Seq::new((w - s.len()) as nat, |i: int| ' ') + s
    }
}

fn spaces(n: usize) -> (r: String)
    ensures
        r@ == Seq::new(n as nat, |i: int| ' '),
{
    let mut v: Vec<char> = Vec::new();
    let mut i: usize = 0;
    while i < n
        invariant
            i <= n,
            v@ == Seq::new(i as nat, |k: int| ' '),
        decreases n - i,
    {
        v.push(' ');
        assert(v@ =~= Seq::new((i + 1) as nat, |k: int| ' '));
        i += 1;
    }
    crate::text::string_of(&v)
}

pub fn pad(s: &str, w: usize) -> (r: String)
    ensures
        r@ == pad_right(s@, w as nat),
{
    let v = chars_of(s);
    if v.len() >= w {
        owned(s)
    } else {
        let sp = spaces(w - v.len());
        cat(s, sp.as_str())
    }
}

pub fn pad_l(s: &str, w: usize) -> (r: String)
    ensures
        r@ == pad_left(s@, w as nat),
{
    let v = chars_of(s);
    if v.len() >= w {
        owned(s)
    } else {
        let sp = spaces(w - v.len());
        cat(sp.as_str(), s)
    }
}

// ---------------------------------------------------------------------------
// Wrapping
// ---------------------------------------------------------------------------

/// One word into the lines being filled: it goes on the current line when it
/// fits in `width` with a space before it, and starts a new line when not.
pub open spec fn fill_step(st: (Seq<Seq<char>>, Seq<char>), word: Seq<char>, width: nat) -> (
    Seq<Seq<char>>,
    Seq<char>,
) {
    let (ls, cur) = st;
    if cur.len() > 0 && cur.len() + 1 + word.len() > width {
        (ls.push(cur), word)
    } else if cur.len() > 0 {
        (ls, cur + " "@ + word)
    } else {
        (ls, word)
    }
}

pub open spec fn fill(ws: Seq<Seq<char>>, width: nat) -> (Seq<Seq<char>>, Seq<char>)
    decreases ws.len(),
{
    if ws.len() == 0 {
        (Seq::empty(), Seq::empty())
    } else {
        fill_step(fill(ws.drop_last(), width), ws.last(), width)
    }
}

/// A paragraph's lines: words filled greedily, an empty paragraph one empty
/// line.
pub open spec fn para_lines(p: Seq<char>, width: nat) -> Seq<Seq<char>> {
    let (ls, cur) = fill(split_ws(p), width);
    ls.push(cur)
}

pub open spec fn wrap_paras(ps: Seq<Seq<char>>, width: nat) -> Seq<Seq<char>>
    decreases ps.len(),
{
    if ps.len() == 0 {
        Seq::empty()
    } else {
        wrap_paras(ps.drop_last(), width) + para_lines(ps.last(), width)
    }
}

/// The lines of a text wrapped at `width`, paragraph by paragraph.
pub open spec fn textwrap_spec(s: Seq<char>, width: nat) -> Seq<Seq<char>> {
    wrap_paras(split_on(s, '\n'), width)
}

fn para_lines_of(p: &str, width: usize) -> (r: Vec<String>)
    ensures
        views(r@) == para_lines(p@, width as nat),
{
    let ws = crate::text::str_words(p);
    let mut lines: Vec<String> = Vec::new();
    let mut cur = String::new();
    let mut i: usize = 0;
    assert(views(ws@).take(0) =~= Seq::<Seq<char>>::empty());
    while i < ws.len()
        invariant
            i <= ws@.len(),
            views(ws@) == split_ws(p@),
            (views(lines@), cur@) == fill(views(ws@).take(i as int), width as nat),
        decreases ws.len() - i,
    {
        assert(views(ws@).take(i + 1).drop_last() == views(ws@).take(i as int));
        assert(views(ws@).take(i + 1).last() == ws@[i as int]@);
        let cl = chars_of(cur.as_str()).len();
        let wl = chars_of(ws[i].as_str()).len();
        if cl > 0 && (cl as u128) + 1 + (wl as u128) > width as u128 {
            let ghost before = views(lines@);
            let done = cur;
            lines.push(done);
            assert(views(lines@) == before.push(lines@.last()@));
            cur = ws[i].clone();
        } else if cl > 0 {
            append(&mut cur, " ");
            append(&mut cur, ws[i].as_str());
        } else {
            cur = ws[i].clone();
        }
        i += 1;
    }
    assert(views(ws@).take(ws@.len() as int) == views(ws@));
    let ghost before = views(lines@);
    let last = cur;
    lines.push(last);
    assert(views(lines@) == before.push(lines@.last()@));
    lines
}

pub fn textwrap(s: &str, width: usize) -> (r: Vec<String>)
    ensures
        views(r@) == textwrap_spec(s@, width as nat),
{
    let v = chars_of(s);
    let paras = crate::text::split_char(&v, '\n');
    let mut out: Vec<String> = Vec::new();
    let mut i: usize = 0;
    assert(views(paras@).take(0) =~= Seq::<Seq<char>>::empty());
    while i < paras.len()
        invariant
            i <= paras@.len(),
            views(paras@) == split_on(s@, '\n'),
            views(out@) == wrap_paras(views(paras@).take(i as int), width as nat),
        decreases paras.len() - i,
    {
        assert(views(paras@).take(i + 1).drop_last() == views(paras@).take(i as int));
        assert(views(paras@).take(i + 1).last() == paras@[i as int]@);
        let ls = para_lines_of(paras[i].as_str(), width);
        let ghost before = views(out@);
        let mut k: usize = 0;
        while k < ls.len()
            invariant
                k <= ls@.len(),
                views(out@) == before + views(ls@).take(k as int),
            decreases ls.len() - k,
        {
            let ghost b2 = views(out@);
            out.push(ls[k].clone());
            assert(views(out@) == b2.push(ls@[k as int]@));
            assert(views(ls@).take(k + 1) == views(ls@).take(k as int).push(ls@[k as int]@));
            k += 1;
        }
        assert(views(ls@).take(ls@.len() as int) == views(ls@));
        i += 1;
    }
    assert(views(paras@).take(paras@.len() as int) == views(paras@));
    out
}

/// The column labels take this many characters.
pub open spec fn label_width() -> nat {
    10
}

/// A labelled block: the body wrapped at 68, the label on its first line and
/// the rest indented under it. Nothing for an empty body.
pub open spec fn wrap_lines(label: Seq<char>, ls: Seq<Seq<char>>) -> Seq<char>
    decreases ls.len(),
{
    if ls.len() == 0 {
        Seq::empty()
    } else if ls.len() == 1 {
        "  "@ + pad_right(label, 10) + ls[0] + "\n"@
    } else {
        wrap_lines(label, ls.drop_last()) + Seq::new(12, |i: int| ' ') + ls.last() + "\n"@
    }
}

pub open spec fn wrap_spec(label: Seq<char>, body: Seq<char>) -> Seq<char> {
    if body.len() == 0 {
        Seq::empty()
    } else {
        wrap_lines(label, textwrap_spec(body, 68))
    }
}

fn wrap(label: &str, body: &str, out: &mut String)
    ensures
        final(out)@ == old(out)@ + wrap_spec(label@, body@),
{
    let bv = chars_of(body);
    if bv.len() == 0 {
        return;
    }
    let ls = textwrap(body, 68);
    let pad_str = spaces(12);
    let lab = pad(label, 10);
    let ghost start = out@;
    let mut i: usize = 0;
    assert(views(ls@).take(0) =~= Seq::<Seq<char>>::empty());
    while i < ls.len()
        invariant
            i <= ls@.len(),
            lab@ == pad_right(label@, 10),
            pad_str@ == Seq::new(12, |k: int| ' '),
            out@ == start + wrap_lines(label@, views(ls@).take(i as int)),
        decreases ls.len() - i,
    {
        assert(views(ls@).take(i + 1).drop_last() == views(ls@).take(i as int));
        assert(views(ls@).take(i + 1).last() == ls@[i as int]@);
        if i == 0 {
            append(out, "  ");
            append(out, lab.as_str());
        } else {
            append(out, pad_str.as_str());
        }
        append(out, ls[i].as_str());
        append(out, "\n");
        i += 1;
    }
    assert(views(ls@).take(ls@.len() as int) == views(ls@));
}

// ---------------------------------------------------------------------------
// One finding
// ---------------------------------------------------------------------------

/// Whether a finding is shown: always in verbose mode, otherwise only when it
/// did not pass and was not skipped.
pub open spec fn shown(f: Finding, verbose: bool) -> bool {
    verbose || !(f.outcome.status == Status::Pass || f.outcome.status == Status::Skipped)
}

/// A title cut to fit its column: over 46 characters it keeps 43 and ends in
/// an ellipsis.
pub open spec fn title_spec(t: Seq<char>) -> Seq<char> {
    if t.len() > 46 {
        t.take(43) + "..."@
    } else {
        t
    }
}

fn title_of(t: &str) -> (r: String)
    ensures
        r@ == title_spec(t@),
{
    let v = chars_of(t);
    if v.len() > 46 {
        let head = crate::text::subvec(&v, 0, 43);
        let mut s = crate::text::string_of(&head);
        append(&mut s, "...");
        s
    } else {
        owned(t)
    }
}

/// One fix step: the command under the `fix` label (only the first step
/// carries it), then its note dimmed in brackets on a line of its own.
pub open spec fn fix_line(step: FixStep, first: bool, color: bool) -> Seq<char> {
    "  "@ + pad_right(if first { "fix"@ } else { ""@ }, 10) + step.command@ + "\n"@ + match step.note {
        Some(n) => Seq::new(12, |i: int| ' ') + painted(color, "90"@, "("@ + n@ + ")"@) + "\n"@,
        None => Seq::empty(),
    }
}

pub open spec fn fix_lines(fix: Seq<FixStep>, color: bool) -> Seq<char>
    decreases fix.len(),
{
    if fix.len() == 0 {
        Seq::empty()
    } else {
        fix_lines(fix.drop_last(), color) + fix_line(fix.last(), fix.len() == 1, color)
    }
}

/// Every source as `locator [verified against]`, separated by a middle dot.
pub open spec fn sources_text(src: Seq<Source>) -> Seq<char>
    decreases src.len(),
{
    if src.len() == 0 {
        Seq::empty()
    } else {
        sources_text(src.drop_last()) + (if src.len() > 1 {
            "  \u{b7}  "@
        } else {
            ""@
        }) + src.last().locator@ + " ["@ + src.last().verified_against@ + "]"@
    }
}

/// The header line of a finding: id, title, status, severity and whether it
/// is provisional.
pub open spec fn finding_head(f: Finding, color: bool) -> Seq<char> {
    "\n  "@ + painted(color, "90"@, f.id@) + "  "@ + pad_right(title_spec(f.title@), 48) + painted(
        color,
        status_color(f.outcome.status),
        status_label(f.outcome.status),
    ) + "  "@ + f.severity@ + painted(
        color,
        "90"@,
        if f.provisional {
            "  [provisional]"@
        } else {
            ""@
        },
    ) + "\n\n"@
}

/// The body of a finding: what was observed and expected, why it matters,
/// the fix, how to verify it, and the sources.
pub open spec fn finding_body(f: Finding, color: bool) -> Seq<char> {
    wrap_spec("observed"@, f.outcome.observed@) + wrap_spec("expected"@, f.outcome.expected@)
        + wrap_spec("why"@, f.outcome.why@) + fix_lines(f.outcome.fix@, color) + match f.outcome.verify {
        Some(v) => wrap_spec("verify"@, v@),
        None => Seq::empty(),
    } + wrap_spec("source"@, sources_text(f.source@))
}

/// A finding as the report shows it; nothing for one that is not shown.
pub open spec fn finding_spec(f: Finding, color: bool, verbose: bool) -> Seq<char> {
    if !shown(f, verbose) {
        Seq::empty()
    } else {
        finding_head(f, color) + finding_body(f, color)
    }
}

#[verifier::rlimit(40)]
fn fix_text(fix: &Vec<FixStep>, st: &Style, out: &mut String)
    ensures
        final(out)@ == old(out)@ + fix_lines(fix@, st.color),
{
    let pad_str = spaces(12);
    let ghost start = out@;
    let mut i: usize = 0;
    assert(fix@.take(0) =~= Seq::<FixStep>::empty());
    while i < fix.len()
        invariant
            i <= fix@.len(),
            pad_str@ == Seq::new(12, |k: int| ' '),
            out@ == start + fix_lines(fix@.take(i as int), st.color),
        decreases fix.len() - i,
    {
        assert(fix@.take(i + 1).drop_last() == fix@.take(i as int));
        assert(fix@.take(i + 1).last() == fix@[i as int]);
        let ghost before = out@;
        let label = if i == 0 {
            "fix"
        } else {
            ""
        };
        append(out, "  ");
        let lp = pad(label, 10);
        append(out, lp.as_str());
        append(out, fix[i].command.as_str());
        append(out, "\n");
        match &fix[i].note {
            Some(n) => {
                append(out, pad_str.as_str());
                let mut paren = cat("(", n.as_str());
                append(&mut paren, ")");
                let d = st.dim(paren.as_str());
                append(out, d.as_str());
                append(out, "\n");
            },
            None => {},
        }
        assert(out@ == before + fix_line(fix@[i as int], i == 0, st.color));
        i += 1;
    }
    assert(fix@.take(fix@.len() as int) == fix@);
}

fn sources_of(src: &Vec<Source>) -> (r: String)
    ensures
        r@ == sources_text(src@),
{
    let mut out = String::new();
    let mut k: usize = 0;
    assert(src@.take(0) =~= Seq::<Source>::empty());
    while k < src.len()
        invariant
            k <= src@.len(),
            out@ == sources_text(src@.take(k as int)),
        decreases src.len() - k,
    {
        assert(src@.take(k + 1).drop_last() == src@.take(k as int));
        assert(src@.take(k + 1).last() == src@[k as int]);
        if k > 0 {
            append(&mut out, "  \u{b7}  ");
        } else {
            proof {
                reveal_strlit("");
            }
        }
        append(&mut out, src[k].locator);
        append(&mut out, " [");
        append(&mut out, src[k].verified_against);
        append(&mut out, "]");
        k += 1;
    }
    assert(src@.take(src@.len() as int) == src@);
    out
}

fn finding_head_of(f: &Finding, st: &Style) -> (r: String)
    ensures
        r@ == finding_head(*f, st.color),
{
    let mut s = owned("\n  ");
    let id = st.dim(f.id.as_str());
    append(&mut s, id.as_str());
    append(&mut s, "  ");
    let t = title_of(f.title.as_str());
    let tp = pad(t.as_str(), 48);
    append(&mut s, tp.as_str());
    let label = st.paint(f.outcome.status, f.outcome.status.label());
    append(&mut s, label.as_str());
    append(&mut s, "  ");
    append(&mut s, f.severity.as_str());
    let tag = if f.provisional {
        "  [provisional]"
    } else {
        ""
    };
    let tg = st.dim(tag);
    append(&mut s, tg.as_str());
    append(&mut s, "\n\n");
    s
}

fn finding_body_into(f: &Finding, st: &Style, s: &mut String)
    ensures
        final(s)@ == old(s)@ + finding_body(*f, st.color),
{
    let ghost start = s@;
    wrap("observed", f.outcome.observed.as_str(), s);
    wrap("expected", f.outcome.expected.as_str(), s);
    wrap("why", f.outcome.why.as_str(), s);
    fix_text(&f.outcome.fix, st, s);
    let ghost mid = s@;
    match &f.outcome.verify {
        Some(v) => wrap("verify", v.as_str(), s),
        None => {},
    }
    let src = sources_of(&f.source);
    wrap("source", src.as_str(), s);
    assert(s@ == start + finding_body(*f, st.color));
}

fn finding_text(f: &Finding, st: &Style, verbose: bool) -> (r: String)
    ensures
        r@ == finding_spec(*f, st.color, verbose),
{
    if !verbose && (f.outcome.status == Status::Pass || f.outcome.status == Status::Skipped) {
        return String::new();
    }
    let mut s = finding_head_of(f, st);
    finding_body_into(f, st, &mut s);
    s
}

/// One finding on its own, in full whatever its status.
pub fn finding_block(f: &Finding, st: &Style) -> (r: String)
    ensures
        r@ == finding_head(*f, st.color) + finding_body(*f, st.color),
{
    finding_text(f, st, true)
}

// ---------------------------------------------------------------------------
// The verdicts
// ---------------------------------------------------------------------------

/// The answer to one of the report's two questions, from the findings of its
/// phase: how many ran, could not be met on this hardware, are fatal failures,
/// are other failures or ephemeral values, and could not be read.
pub open spec fn verdict_spec(
    validator_phase: bool,
    ran: nat,
    unsupported: nat,
    fatal: nat,
    other: nat,
    unknown: nat,
) -> Seq<char> {
    if ran == 0 {
        if validator_phase {
            "no validator installed, nothing to check"@
        } else {
            "nothing applied to this host"@
        }
    } else if unsupported > 0 {
        "no. "@ + dec(unsupported) + " requirement"@ + plural_spec(unsupported, ""@, "s"@)
            + " cannot be met on this hardware"@
    } else if fatal > 0 {
        "no. "@ + dec(fatal) + " thing"@ + plural_spec(fatal, ""@, "s"@) + " must be fixed first"@
    } else if other > 0 {
        "yes, with "@ + dec(other) + " thing"@ + plural_spec(other, ""@, "s"@) + " worth fixing"@
    } else if unknown > 0 {
        "cannot say. "@ + dec(unknown) + " thing"@ + plural_spec(unknown, ""@, "s"@)
            + " could not be read"@
    } else {
        "yes"@
    }
}

pub fn verdict(
    validator_phase: bool,
    ran: usize,
    unsupported: usize,
    fatal: usize,
    other: usize,
    unknown: usize,
) -> (r: String)
    ensures
        r@ == verdict_spec(
            validator_phase,
            ran as nat,
            unsupported as nat,
            fatal as nat,
            other as nat,
            unknown as nat,
        ),
{
    if ran == 0 {
        return if validator_phase {
            owned("no validator installed, nothing to check")
        } else {
            owned("nothing applied to this host")
        };
    }
    let (lead, n, noun, tail): (&str, usize, &str, &str) = if unsupported > 0 {
        ("no. ", unsupported, " requirement", " cannot be met on this hardware")
    } else if fatal > 0 {
        ("no. ", fatal, " thing", " must be fixed first")
    } else if other > 0 {
        ("yes, with ", other, " thing", " worth fixing")
    } else if unknown > 0 {
        ("cannot say. ", unknown, " thing", " could not be read")
    } else {
        return owned("yes");
    };
    let d = dec_string(n as u64);
    let mut s = cat(lead, d.as_str());
    append(&mut s, noun);
    append(&mut s, plural(n, "", "s"));
    append(&mut s, tail);
    s
}

pub open spec fn count_status(fs: Seq<Finding>, s: Status) -> nat
    decreases fs.len(),
{
    if fs.len() == 0 {
        0
    } else {
        count_status(fs.drop_last(), s) + if fs.last().outcome.status == s {
            1nat
        } else {
            0nat
        }
    }
}

/// Failures of fatal severity.
pub open spec fn count_fatal(fs: Seq<Finding>) -> nat
    decreases fs.len(),
{
    if fs.len() == 0 {
        0
    } else {
        count_fatal(fs.drop_last()) + if fs.last().outcome.status == Status::Fail
            && fs.last().severity@ == "fatal"@ {
            1nat
        } else {
            0nat
        }
    }
}

/// The findings of one phase.
pub open spec fn of_phase(fs: Seq<Finding>, p: Phase) -> Seq<Finding> {
    fs.filter(|f: Finding| f.phase == p)
}

proof fn lemma_counts_bounded(fs: Seq<Finding>)
    ensures
        count_status(fs, Status::Fail) <= fs.len(),
        count_status(fs, Status::Skipped) <= fs.len(),
        count_status(fs, Status::Unsupported) <= fs.len(),
        count_status(fs, Status::Ephemeral) <= fs.len(),
        count_status(fs, Status::Unknown) <= fs.len(),
        count_fatal(fs) <= count_status(fs, Status::Fail),
        count_status(fs, Status::Fail) + count_status(fs, Status::Ephemeral) <= fs.len(),
    decreases fs.len(),
{
    if fs.len() > 0 {
        lemma_counts_bounded(fs.drop_last());
    }
}

/// The counts the verdict of a phase is made of.
pub open spec fn phase_verdict(fs: Seq<Finding>, p: Phase) -> Seq<char> {
    let mine = of_phase(fs, p);
    verdict_spec(
        p == Phase::Validator,
        (mine.len() - count_status(mine, Status::Skipped)) as nat,
        count_status(mine, Status::Unsupported),
        count_fatal(mine),
        (count_status(mine, Status::Fail) - count_fatal(mine) + count_status(
            mine,
            Status::Ephemeral,
        )) as nat,
        count_status(mine, Status::Unknown),
    )
}

fn phase_findings(findings: &Vec<Finding>, p: Phase) -> (r: Vec<usize>)
    ensures
        r@.len() == of_phase(findings@, p).len(),
        forall|k: int| 0 <= k < r@.len() ==> (#[trigger] r@[k]) < findings@.len() && findings@[r@[k] as int]
            == of_phase(findings@, p)[k],
{
    let mut out: Vec<usize> = Vec::new();
    let mut i: usize = 0;
    while i < findings.len()
        invariant
            i <= findings@.len(),
            out@.len() == of_phase(findings@.take(i as int), p).len(),
            forall|k: int| 0 <= k < out@.len() ==> (#[trigger] out@[k]) < i && findings@[out@[k] as int]
                == of_phase(findings@.take(i as int), p)[k],
        decreases findings.len() - i,
    {
        proof {
            let t = findings@.take(i as int);
            assert(findings@.take(i + 1) == t.push(findings@[i as int]));
            t.lemma_filter_push(findings@[i as int], |f: Finding| f.phase == p);
        }
        if findings[i].phase == p {
            out.push(i);
        }
        i += 1;
    }
    assert(findings@.take(findings@.len() as int) == findings@);
    out
}

/// The verdict of a phase, from its findings.
pub fn phase_verdict_of(findings: &Vec<Finding>, p: Phase) -> (r: String)
    ensures
        r@ == phase_verdict(findings@, p),
{
    let idx = phase_findings(findings, p);
    let ghost mine = of_phase(findings@, p);
    let mut skipped: usize = 0;
    let mut unsupported: usize = 0;
    let mut fails: usize = 0;
    let mut fatal: usize = 0;
    let mut ephemeral: usize = 0;
    let mut unknown: usize = 0;
    let mut k: usize = 0;
    while k < idx.len()
        invariant
            k <= idx@.len(),
            idx@.len() == mine.len(),
            mine == of_phase(findings@, p),
            forall|j: int| 0 <= j < idx@.len() ==> (#[trigger] idx@[j]) < findings@.len() && findings@[idx@[j] as int]
                == mine[j],
            skipped == count_status(mine.take(k as int), Status::Skipped),
            unsupported == count_status(mine.take(k as int), Status::Unsupported),
            fails == count_status(mine.take(k as int), Status::Fail),
            fatal == count_fatal(mine.take(k as int)),
            ephemeral == count_status(mine.take(k as int), Status::Ephemeral),
            unknown == count_status(mine.take(k as int), Status::Unknown),
        decreases idx.len() - k,
    {
        proof {
            assert(mine.take(k + 1).drop_last() == mine.take(k as int));
            lemma_counts_bounded(mine.take(k as int));
        }
        let f = &findings[idx[k]];
        assert(*f == mine[k as int]);
        let st = f.outcome.status;
        if st == Status::Skipped {
            skipped += 1;
        }
        if st == Status::Unsupported {
            unsupported += 1;
        }
        if st == Status::Fail {
            fails += 1;
            if crate::text::eq_lit(f.severity.as_str(), "fatal") {
                fatal += 1;
            }
        }
        if st == Status::Ephemeral {
            ephemeral += 1;
        }
        if st == Status::Unknown {
            unknown += 1;
        }
        k += 1;
    }
    proof {
        assert(mine.take(mine.len() as int) == mine);
        lemma_counts_bounded(mine);
    }
    let other = fails - fatal + ephemeral;
    verdict(p == Phase::Validator, idx.len() - skipped, unsupported, fatal, other, unknown)
}

// ---------------------------------------------------------------------------
// The machine described
// ---------------------------------------------------------------------------

fn row(out: &mut String, k: &str, v: &str)
    ensures
        final(out)@ == old(out)@ + row_text(k@, v@),
{
    append(out, "  ");
    let kp = pad(k, 12);
    append(out, kp.as_str());
    append(out, v);
    append(out, "\n");
}

/// "macos" is how Rust spells it; people spell it macOS.
fn os_name(host_os: &str) -> (r: String)
    ensures
        r@ == (if host_os@ == "macos"@ {
            "macOS"@
        } else {
            host_os@
        }),
{
    if crate::text::eq_lit(host_os, "macos") {
        owned("macOS")
    } else {
        owned(host_os)
    }
}

/// One row of the system table: the key in a column of 12, then the value.
pub open spec fn row_text(k: Seq<char>, v: Seq<char>) -> Seq<char> {
    "  "@ + pad_right(k, 12) + v + "\n"@
}

/// `n / d` rounded to the nearest whole number, halves up.
pub open spec fn nearest(n: nat, d: nat) -> nat {
    n / d + if n % d >= d / 2 {
        1nat
    } else {
        0nat
    }
}

pub open spec fn dot() -> Seq<char> {
    "  \u{b7}  "@
}

/// Bytes as whole gigabytes, the nearest one, written out.
fn gb_text(b: u64) -> (r: String)
    ensures
        r@ == dec(nearest(b as nat, 1_000_000_000)),
{
    let g: u64 = b / 1_000_000_000 + if b % 1_000_000_000 >= 500_000_000 {
        1
    } else {
        0
    };
    dec_string(g)
}

/// Kilobytes as whole gibibytes, the nearest one, written out.
fn gib_text(kb: u64) -> (r: String)
    ensures
        r@ == dec(nearest(kb as nat, 1_048_576)),
{
    let g: u64 = kb / 1_048_576 + if kb % 1_048_576 >= 524_288 {
        1
    } else {
        0
    };
    dec_string(g)
}

/// What the report says about the CPU: cores, threads, clock, AVX2.
pub open spec fn cpu_details(f: crate::host::Facts) -> Seq<Seq<char>> {
    (match f.cores {
        Some(c) => seq![dec(c as nat) + " cores"@],
        None => Seq::empty(),
    }) + (match f.threads {
        Some(t) => seq![dec(t as nat) + " threads"@],
        None => Seq::empty(),
    }) + (match f.khz {
        Some(k) => seq![dec(nearest(k as nat, 1000)) + " MHz"@],
        None => Seq::empty(),
    }) + seq![
        match f.avx2 {
            Some(true) => "AVX2 yes"@,
            Some(false) => "AVX2 NO"@,
            None => "AVX2 unknown"@,
        },
    ]
}

pub open spec fn cpu_lines(ctx: Ctx) -> Seq<char> {
    match ctx.facts.cpu_model {
        Some(m) => row_text("cpu"@, m@) + row_text(""@, join(cpu_details(ctx.facts), dot())),
        None => row_text(
            "cpu"@,
            match ctx.arch {
                Some(a) => a@,
                None => "unknown"@,
            },
        ),
    }
}

pub open spec fn memory_lines(ctx: Ctx) -> Seq<char> {
    match ctx.facts.mem_kb {
        Some(kb) => row_text(
            "memory"@,
            dec(nearest(kb as nat, 1_048_576)) + " GB  \u{b7}  "@ + match ctx.facts.swap_kb {
                Some(sw) => if sw * 2 > 1_048_576 {
                    dec(nearest(sw as nat, 1_048_576)) + " GB swap"@
                } else {
                    "no swap"@
                },
                None => "swap unknown"@,
            },
        ),
        None => Seq::empty(),
    }
}

pub open spec fn disk_row(d: crate::host::Disk) -> Seq<char> {
    pad_right(d.name@, 12) + pad_left(dec(nearest(d.size_bytes as nat, 1_000_000_000)), 8) + " GB  "@
        + if d.rotational {
        "spinning disk"@
    } else {
        "SSD or NVMe"@
    }
}

pub open spec fn disk_rows(ds: Seq<crate::host::Disk>) -> Seq<char>
    decreases ds.len(),
{
    if ds.len() == 0 {
        Seq::empty()
    } else {
        disk_rows(ds.drop_last()) + row_text(
            if ds.len() == 1 {
                "disks"@
            } else {
                ""@
            },
            disk_row(ds.last()),
        )
    }
}

pub open spec fn disk_lines(ctx: Ctx) -> Seq<char> {
    if ctx.facts.disks@.len() == 0 && ctx.linux {
        row_text("disks"@, "none detected"@)
    } else {
        disk_rows(ctx.facts.disks@)
    }
}

pub open spec fn mount_row(m: crate::host::Mount) -> Seq<char> {
    pad_right(m.target@, 16) + pad_right(m.fstype@, 10) + match m.free_bytes {
        Some(b) => dec(nearest(b as nat, 1_000_000_000)) + " GB free"@,
        None => "free space not measured"@,
    }
}

pub open spec fn mount_rows(ms: Seq<crate::host::Mount>) -> Seq<char>
    decreases ms.len(),
{
    if ms.len() == 0 {
        Seq::empty()
    } else {
        mount_rows(ms.drop_last()) + row_text(
            if ms.len() == 1 {
                "storage"@
            } else {
                ""@
            },
            mount_row(ms.last()),
        )
    }
}

pub open spec fn os_name_spec(host_os: Seq<char>) -> Seq<char> {
    if host_os == "macos"@ {
        "macOS"@
    } else {
        host_os
    }
}

pub open spec fn os_lines(ctx: Ctx) -> Seq<char> {
    (match (ctx.os, ctx.kernel) {
        (Some(o), Some(k)) => row_text("os"@, o@ + "  \u{b7}  kernel "@ + k@),
        _ => row_text("os"@, os_name_spec(ctx.host_os@)),
    }) + match ctx.virt {
        Some(v) => row_text("machine"@, v@),
        None => Seq::empty(),
    }
}

pub open spec fn trail_rows(t: Seq<Seq<char>>, color: bool) -> Seq<char>
    decreases t.len(),
{
    if t.len() == 0 {
        Seq::empty()
    } else {
        trail_rows(t.drop_last(), color) + row_text(
            ""@,
            painted(color, "90"@, "resolution trail: "@ + t.last()),
        )
    }
}

pub open spec fn validator_main(ctx: Ctx) -> Seq<char> {
    row_text(
        "validator"@,
        match ctx.version {
            Some(v) => client_label(ctx.client) + " "@ + short_text(v.major, v.minor, v.patch),
            None => if ctx.validator_present {
                client_label(ctx.client) + ", version not detected"@
            } else {
                "none installed"@
            },
        },
    )
}

pub open spec fn validator_detection(ctx: Ctx, color: bool) -> Seq<char> {
    (if ctx.validator_present && ctx.version is None {
        match ctx.version_source {
            VersionSource::Undetected(reason) => row_text(
                ""@,
                painted(color, "90"@, "version not detected: "@ + reason@),
            ),
            _ => Seq::empty(),
        }
    } else {
        Seq::empty()
    }) + (if ctx.validator_present && ctx.invocation is None {
        trail_rows(views(ctx.invocation_trail@), color)
    } else {
        Seq::empty()
    }) + (if ctx.version is Some {
        match ctx.version_source {
            VersionSource::Executed(cmd) => row_text(
                ""@,
                painted(color, "90"@, "version read by running: "@ + cmd@),
            ),
            _ => Seq::empty(),
        }
    } else {
        Seq::empty()
    })
}

pub open spec fn validator_config(ctx: Ctx, color: bool) -> Seq<char> {
    (match ctx.invocation {
        Some(i) => match i.edit_target {
            Some(t) => row_text("config"@, t@),
            None => Seq::empty(),
        },
        None => Seq::empty(),
    }) + match ctx.version {
        Some(v) => if !release_at_least(
            REGISTRY_COVERS_MAJOR,
            REGISTRY_COVERS_MINOR,
            v.major,
            v.minor,
        ) {
            row_text(
                ""@,
                painted(
                    color,
                    "90"@,
                    "checks cover releases up to v4.3; this client is newer, so coverage may be incomplete"@,
                ),
            )
        } else {
            Seq::empty()
        },
        None => Seq::empty(),
    }
}

/// The validator: which client and version, why no version was read, how
/// its command line was looked for, and which file holds it.
pub open spec fn validator_lines(ctx: Ctx, color: bool) -> Seq<char> {
    validator_main(ctx) + validator_detection(ctx, color) + validator_config(ctx, color)
}

/// How preflight ran: read-only, as whom, and how many checks would need
/// elevated reads.
pub open spec fn mode_text(uid: u32, needs_root: nat) -> Seq<char> {
    if needs_root == 0 {
        if uid == 0 {
            "read-only, running as root"@
        } else {
            "read-only, running as uid "@ + dec(uid as nat)
        }
    } else {
        "read-only, running as uid "@ + dec(uid as nat) + ", "@ + dec(needs_root) + " check"@
            + plural_spec(needs_root, ""@, "s"@) + " need"@ + plural_spec(needs_root, "s"@, ""@)
            + " elevated reads"@
    }
}

pub open spec fn profile_lines(ctx: Ctx, needs_root: nat) -> Seq<char> {
    row_text("profile"@, profile_label(ctx.profile) + dot() + ctx.profile_reason@) + row_text(
        "preflight"@,
        mode_text(ctx.uid, needs_root),
    )
}

/// What this machine is, before any judgement about it.
pub open spec fn system_spec(ctx: Ctx, color: bool, needs_root: nat) -> Seq<char> {
    painted(color, "1"@, "SYSTEM\n"@) + cpu_lines(ctx) + memory_lines(ctx) + disk_lines(ctx)
        + mount_rows(ctx.facts.mounts@) + os_lines(ctx) + validator_lines(ctx, color)
        + profile_lines(ctx, needs_root)
}

fn cpu_lines_of(ctx: &Ctx, out: &mut String)
    ensures
        final(out)@ == old(out)@ + cpu_lines(*ctx),
{
    let f = &ctx.facts;
    match &f.cpu_model {
        Some(m) => {
            row(out, "cpu", m.as_str());
            let mut d: Vec<String> = Vec::new();
            match f.cores {
                Some(c) => d.push(cat(dec_string(c as u64).as_str(), " cores")),
                None => {},
            }
            let ghost d1 = views(d@);
            match f.threads {
                Some(t) => d.push(cat(dec_string(t as u64).as_str(), " threads")),
                None => {},
            }
            let ghost d2 = views(d@);
            match f.khz {
                Some(k) => {
                    let mhz = k / 1000 + if k % 1000 >= 500 {
                        1
                    } else {
                        0
                    };
                    d.push(cat(dec_string(mhz).as_str(), " MHz"));
                },
                None => {},
            }
            let ghost d3 = views(d@);
            d.push(
                owned(
                    match f.avx2 {
                        Some(true) => "AVX2 yes",
                        Some(false) => "AVX2 NO",
                        None => "AVX2 unknown",
                    },
                ),
            );
            assert(views(d@) =~= cpu_details(*f));
            let joined = join_strings(&d, "  \u{b7}  ");
            row(out, "", joined.as_str());
        },
        None => {
            let a = match &ctx.arch {
                Some(a) => a.clone(),
                None => owned("unknown"),
            };
            row(out, "cpu", a.as_str());
        },
    }
}

fn memory_lines_of(ctx: &Ctx, out: &mut String)
    ensures
        final(out)@ == old(out)@ + memory_lines(*ctx),
{
    let f = &ctx.facts;
    match f.mem_kb {
        Some(kb) => {
            let swap = match f.swap_kb {
                Some(s) => if (s as u128) * 2 > 1_048_576 {
                    cat(gib_text(s).as_str(), " GB swap")
                } else {
                    owned("no swap")
                },
                None => owned("swap unknown"),
            };
            let mut v = cat(gib_text(kb).as_str(), " GB  \u{b7}  ");
            append(&mut v, swap.as_str());
            row(out, "memory", v.as_str());
        },
        None => {},
    }
}

fn disk_lines_of(ctx: &Ctx, out: &mut String)
    ensures
        final(out)@ == old(out)@ + disk_lines(*ctx),
{
    let ds = &ctx.facts.disks;
    if ds.len() == 0 && ctx.is_linux() {
        row(out, "disks", "none detected");
        return;
    }
    let ghost start = out@;
    let mut i: usize = 0;
    assert(ds@.take(0) =~= Seq::<crate::host::Disk>::empty());
    while i < ds.len()
        invariant
            i <= ds@.len(),
            ds@ == ctx.facts.disks@,
            out@ == start + disk_rows(ds@.take(i as int)),
        decreases ds.len() - i,
    {
        assert(ds@.take(i + 1).drop_last() == ds@.take(i as int));
        assert(ds@.take(i + 1).last() == ds@[i as int]);
        let kind = if ds[i].rotational {
            "spinning disk"
        } else {
            "SSD or NVMe"
        };
        let mut v = pad(ds[i].name.as_str(), 12);
        let size = gb_text(ds[i].size_bytes);
        let sp = pad_l(size.as_str(), 8);
        append(&mut v, sp.as_str());
        append(&mut v, " GB  ");
        append(&mut v, kind);
        row(
            out,
            if i == 0 {
                "disks"
            } else {
                ""
            },
            v.as_str(),
        );
        i += 1;
    }
    assert(ds@.take(ds@.len() as int) == ds@);
}

fn mount_lines_of(ctx: &Ctx, out: &mut String)
    ensures
        final(out)@ == old(out)@ + mount_rows(ctx.facts.mounts@),
{
    let ms = &ctx.facts.mounts;
    let ghost start = out@;
    let mut i: usize = 0;
    assert(ms@.take(0) =~= Seq::<crate::host::Mount>::empty());
    while i < ms.len()
        invariant
            i <= ms@.len(),
            ms@ == ctx.facts.mounts@,
            out@ == start + mount_rows(ms@.take(i as int)),
        decreases ms.len() - i,
    {
        assert(ms@.take(i + 1).drop_last() == ms@.take(i as int));
        assert(ms@.take(i + 1).last() == ms@[i as int]);
        let free = match ms[i].free_bytes {
            Some(b) => cat(gb_text(b).as_str(), " GB free"),
            None => owned("free space not measured"),
        };
        let mut v = pad(ms[i].target.as_str(), 16);
        let fp = pad(ms[i].fstype.as_str(), 10);
        append(&mut v, fp.as_str());
        append(&mut v, free.as_str());
        row(
            out,
            if i == 0 {
                "storage"
            } else {
                ""
            },
            v.as_str(),
        );
        i += 1;
    }
    assert(ms@.take(ms@.len() as int) == ms@);
}

fn os_lines_of(ctx: &Ctx, out: &mut String)
    ensures
        final(out)@ == old(out)@ + os_lines(*ctx),
{
    let ghost start = out@;
    match (&ctx.os, &ctx.kernel) {
        (Some(o), Some(k)) => {
            let mut v = cat(o.as_str(), "  \u{b7}  kernel ");
            append(&mut v, k.as_str());
            row(out, "os", v.as_str());
        },
        _ => {
            let n = os_name(ctx.host_os.as_str());
            row(out, "os", n.as_str());
        },
    }
    match &ctx.virt {
        Some(v) => row(out, "machine", v.as_str()),
        None => {},
    }
}

fn trail_rows_of(t: &Vec<String>, st: &Style, out: &mut String)
    ensures
        final(out)@ == old(out)@ + trail_rows(views(t@), st.color),
{
    let ghost start = out@;
    let mut i: usize = 0;
    assert(views(t@).take(0) =~= Seq::<Seq<char>>::empty());
    while i < t.len()
        invariant
            i <= t@.len(),
            out@ == start + trail_rows(views(t@).take(i as int), st.color),
        decreases t.len() - i,
    {
        assert(views(t@).take(i + 1).drop_last() == views(t@).take(i as int));
        assert(views(t@).take(i + 1).last() == t@[i as int]@);
        let d = st.dim(cat("resolution trail: ", t[i].as_str()).as_str());
        row(out, "", d.as_str());
        i += 1;
    }
    assert(views(t@).take(t@.len() as int) == views(t@));
}

fn validator_main_of(ctx: &Ctx, out: &mut String)
    ensures
        final(out)@ == old(out)@ + validator_main(*ctx),
{
    let validator = match &ctx.version {
        Some(v) => {
            let mut s = cat(ctx.client.label(), " ");
            append(&mut s, v.short().as_str());
            s
        },
        None => if ctx.validator_present {
            cat(ctx.client.label(), ", version not detected")
        } else {
            owned("none installed")
        },
    };
    row(out, "validator", validator.as_str());
}

fn validator_detection_of(ctx: &Ctx, st: &Style, out: &mut String)
    ensures
        final(out)@ == old(out)@ + validator_detection(*ctx, st.color),
{
    let ghost start = out@;
    if ctx.validator_present && ctx.version.is_none() {
        match &ctx.version_source {
            VersionSource::Undetected(reason) => {
                let d = st.dim(cat("version not detected: ", reason.as_str()).as_str());
                row(out, "", d.as_str());
            },
            _ => {},
        }
    }
    let ghost b = out@;
    if ctx.validator_present && ctx.invocation.is_none() {
        trail_rows_of(&ctx.invocation_trail, st, out);
    }
    let ghost c = out@;
    if ctx.version.is_some() {
        match &ctx.version_source {
            VersionSource::Executed(cmd) => {
                let d = st.dim(cat("version read by running: ", cmd.as_str()).as_str());
                row(out, "", d.as_str());
            },
            _ => {},
        }
    }
}

fn validator_config_of(ctx: &Ctx, st: &Style, out: &mut String)
    ensures
        final(out)@ == old(out)@ + validator_config(*ctx, st.color),
{
    let ghost start = out@;
    match &ctx.invocation {
        Some(i) => match &i.edit_target {
            Some(t) => row(out, "config", t.as_str()),
            None => {},
        },
        None => {},
    }
    let ghost e = out@;
    match &ctx.version {
        Some(v) => if v.newer_than_registry() {
            let d = st.dim(
                "checks cover releases up to v4.3; this client is newer, so coverage may be incomplete",
            );
            row(out, "", d.as_str());
        },
        None => {},
    }
}

fn validator_lines_of(ctx: &Ctx, st: &Style, out: &mut String)
    ensures
        final(out)@ == old(out)@ + validator_lines(*ctx, st.color),
{
    let ghost start = out@;
    validator_main_of(ctx, out);
    validator_detection_of(ctx, st, out);
    validator_config_of(ctx, st, out);
}

fn mode_of(uid: u32, needs_root: usize) -> (r: String)
    ensures
        r@ == mode_text(uid, needs_root as nat),
{
    let u = dec_string(uid as u64);
    if needs_root == 0 {
        if uid == 0 {
            owned("read-only, running as root")
        } else {
            cat("read-only, running as uid ", u.as_str())
        }
    } else {
        let mut m = cat("read-only, running as uid ", u.as_str());
        append(&mut m, ", ");
        append(&mut m, dec_string(needs_root as u64).as_str());
        append(&mut m, " check");
        append(&mut m, plural(needs_root, "", "s"));
        append(&mut m, " need");
        append(&mut m, plural(needs_root, "s", ""));
        append(&mut m, " elevated reads");
        m
    }
}

/// What this machine is, before any judgement about it. An operator wants to
/// see the box described back to them whether or not anything is wrong.
fn system_report(ctx: &Ctx, st: &Style, needs_root: usize) -> (r: String)
    ensures
        r@ == system_spec(*ctx, st.color, needs_root as nat),
{
    let mut out = st.bold("SYSTEM\n");
    cpu_lines_of(ctx, &mut out);
    memory_lines_of(ctx, &mut out);
    disk_lines_of(ctx, &mut out);
    mount_lines_of(ctx, &mut out);
    os_lines_of(ctx, &mut out);
    validator_lines_of(ctx, st, &mut out);
    // The verdict names a cluster, so the report has to say where that came
    // from and how to ask a different question.
    let mut p = cat(ctx.profile.label(), "  \u{b7}  ");
    append(&mut p, ctx.profile_reason.as_str());
    row(&mut out, "profile", p.as_str());
    let mode = mode_of(ctx.uid, needs_root);
    row(&mut out, "preflight", mode.as_str());
    out
}

// ---------------------------------------------------------------------------
// The two questions, and what to do next
// ---------------------------------------------------------------------------

fn lower(s: &str) -> (r: String)
    ensures
        r@ == lower_seq(s@),
{
    let v = chars_of(s);
    let mut out: Vec<char> = Vec::new();
    let mut i: usize = 0;
    while i < v.len()
        invariant
            i <= v@.len(),
            v@ == s@,
            out@ == lower_seq(v@.take(i as int)),
        decreases v.len() - i,
    {
        let c = v[i];
        let l = if 'A' <= c && c <= 'Z' {
            ((c as u32) + 32) as u8 as char
        } else {
            c
        };
        out.push(l);
        assert(lower_seq(v@.take(i + 1)) == lower_seq(v@.take(i as int)).push(lower_char(c)));
        i += 1;
    }
    assert(v@.take(v@.len() as int) == v@);
    crate::text::string_of(&out)
}

/// The machine question on a host that is not Linux: say that rather than a
/// count.
pub open spec fn off_host(ctx: Ctx, phase: Phase) -> bool {
    phase == Phase::Machine && !ctx.linux && ctx.fs.root@ == "/"@
}

/// The sections of a list of findings, each once, in the order its first
/// finding came.
pub open spec fn sections_of(fs: Seq<Finding>) -> Seq<Seq<char>>
    decreases fs.len(),
{
    if fs.len() == 0 {
        Seq::empty()
    } else {
        let prev = sections_of(fs.drop_last());
        if prev.contains(fs.last().section@) {
            prev
        } else {
            prev.push(fs.last().section@)
        }
    }
}

/// Whether a finding is listed under its section: shown at this verbosity,
/// and not a host finding while the host is hidden.
pub open spec fn listed_in_block(f: Finding, verbose: bool, hide_host: bool) -> bool {
    !(hide_host && f.needs_linux) && shown(f, verbose)
}

/// Every listed finding of one section, in full.
pub open spec fn section_body(
    fs: Seq<Finding>,
    sec: Seq<char>,
    color: bool,
    verbose: bool,
    hide_host: bool,
) -> Seq<char>
    decreases fs.len(),
{
    if fs.len() == 0 {
        Seq::empty()
    } else {
        section_body(fs.drop_last(), sec, color, verbose, hide_host) + if fs.last().section@ == sec
            && listed_in_block(fs.last(), verbose, hide_host) {
            finding_head(fs.last(), color) + finding_body(fs.last(), color)
        } else {
            Seq::empty()
        }
    }
}

/// A section's heading over its findings; nothing when none is listed.
pub open spec fn section_block(
    fs: Seq<Finding>,
    sec: Seq<char>,
    color: bool,
    verbose: bool,
    hide_host: bool,
) -> Seq<char> {
    let body = section_body(fs, sec, color, verbose, hide_host);
    if body.len() > 0 {
        "\n"@ + painted(color, "90"@, sec) + "\n"@ + body
    } else {
        Seq::empty()
    }
}

pub open spec fn sections_text(
    fs: Seq<Finding>,
    secs: Seq<Seq<char>>,
    color: bool,
    verbose: bool,
    hide_host: bool,
) -> Seq<char>
    decreases secs.len(),
{
    if secs.len() == 0 {
        Seq::empty()
    } else {
        sections_text(fs, secs.drop_last(), color, verbose, hide_host) + section_block(
            fs,
            secs.last(),
            color,
            verbose,
            hide_host,
        )
    }
}

pub open spec fn remote_hint(repo: Seq<char>) -> Seq<char> {
    "\n  preflight has to run on the Linux machine you are asking about:\n      ssh you@your-server\n      cargo install --git "@
        + repo
        + "\n      preflight --profile testnet\n\n  or, to check that machine's validator settings from here, copy its\n  command line over first:\n      ssh you@your-server 'cat /proc/$(pgrep -f agave-validator)/cmdline | tr \"\\0\" \" \"' > cmdline.txt\n      ssh you@your-server 'agave-validator --version'\n      preflight --invocation cmdline.txt --client agave-validator@<that version>\n"@
}

pub open spec fn local_hint() -> Seq<char> {
    "  this asks what a test validator needs. for a real voting node:\n    preflight --profile testnet\n"@
}

/// One half of the report: the question, its answer, then the findings
/// behind it grouped under their sections. Nothing when no finding belongs to
/// the question; on a machine that is not Linux, the answer and how to ask
/// from the right machine.
pub open spec fn phase_block_spec(
    ctx: Ctx,
    fs: Seq<Finding>,
    color: bool,
    verbose: bool,
    hide_host: bool,
    phase: Phase,
    question: Seq<char>,
    repo: Seq<char>,
) -> Seq<char> {
    let mine = of_phase(fs, phase);
    if mine.len() == 0 {
        Seq::empty()
    } else if off_host(ctx, phase) {
        "\n"@ + painted(color, "1"@, question) + "\n  no. this machine runs "@ + os_name_spec(
            ctx.host_os@,
        ) + ", and a Solana validator runs on Linux\n"@ + painted(color, "90"@, remote_hint(repo))
    } else {
        "\n"@ + painted(color, "1"@, question) + "\n  "@ + phase_verdict(fs, phase) + "\n"@ + (if phase
            == Phase::Machine && !ctx.validator_present && ctx.profile == Profile::Local {
            painted(color, "90"@, local_hint())
        } else {
            Seq::empty()
        }) + sections_text(mine, sections_of(mine), color, verbose, hide_host)
    }
}

pub open spec fn indexes(findings: Seq<Finding>, idx: Seq<usize>, mine: Seq<Finding>) -> bool {
    &&& idx.len() == mine.len()
    &&& forall|k: int|
        0 <= k < idx.len() ==> (#[trigger] idx[k]) < findings.len() && findings[idx[k] as int]
            == mine[k]
}

fn sections_list(findings: &Vec<Finding>, idx: &Vec<usize>, Ghost(mine): Ghost<Seq<Finding>>) -> (r:
    Vec<String>)
    requires
        indexes(findings@, idx@, mine),
    ensures
        views(r@) == sections_of(mine),
{
    let mut sections: Vec<String> = Vec::new();
    let mut k: usize = 0;
    assert(mine.take(0) =~= Seq::<Finding>::empty());
    while k < idx.len()
        invariant
            k <= idx@.len(),
            indexes(findings@, idx@, mine),
            views(sections@) == sections_of(mine.take(k as int)),
        decreases idx.len() - k,
    {
        assert(mine.take(k + 1).drop_last() == mine.take(k as int));
        assert(mine.take(k + 1).last() == mine[k as int]);
        let f = &findings[idx[k]];
        let sec = chars_of(f.section.as_str());
        let mut seen = false;
        let mut j: usize = 0;
        while j < sections.len()
            invariant
                j <= sections@.len(),
                sec@ == f.section@,
                !seen ==> forall|i: int| 0 <= i < j ==> #[trigger] views(sections@)[i] != sec@,
                seen ==> views(sections@).contains(sec@),
            decreases sections.len() - j,
        {
            let sj = chars_of(sections[j].as_str());
            if crate::text::same(&sj, &sec) {
                seen = true;
                assert(views(sections@)[j as int] == sec@);
            }
            j += 1;
        }
        assert(seen == views(sections@).contains(f.section@));
        if !seen {
            let ghost before = views(sections@);
            sections.push(f.section.clone());
            assert(views(sections@) == before.push(f.section@));
        }
        k += 1;
    }
    assert(mine.take(mine.len() as int) == mine);
    sections
}

fn section_body_of(
    findings: &Vec<Finding>,
    idx: &Vec<usize>,
    Ghost(mine): Ghost<Seq<Finding>>,
    sec: &str,
    st: &Style,
    verbose: bool,
    hide_host: bool,
) -> (r: String)
    requires
        indexes(findings@, idx@, mine),
    ensures
        r@ == section_body(mine, sec@, st.color, verbose, hide_host),
{
    let sv = chars_of(sec);
    let mut block = String::new();
    let mut k: usize = 0;
    assert(mine.take(0) =~= Seq::<Finding>::empty());
    while k < idx.len()
        invariant
            k <= idx@.len(),
            sv@ == sec@,
            indexes(findings@, idx@, mine),
            block@ == section_body(mine.take(k as int), sec@, st.color, verbose, hide_host),
        decreases idx.len() - k,
    {
        assert(mine.take(k + 1).drop_last() == mine.take(k as int));
        assert(mine.take(k + 1).last() == mine[k as int]);
        let f = &findings[idx[k]];
        let fs = chars_of(f.section.as_str());
        if crate::text::same(&fs, &sv) && !(hide_host && f.needs_linux) && (verbose || !(
        f.outcome.status == Status::Pass || f.outcome.status == Status::Skipped)) {
            append(&mut block, finding_text(f, st, true).as_str());
        }
        k += 1;
    }
    assert(mine.take(mine.len() as int) == mine);
    block
}

fn off_host_block(ctx: &Ctx, st: &Style, question: &str, repo: &str) -> (r: String)
    ensures
        r@ == "\n"@ + painted(st.color, "1"@, question@) + "\n  no. this machine runs "@
            + os_name_spec(ctx.host_os@) + ", and a Solana validator runs on Linux\n"@ + painted(
            st.color,
            "90"@,
            remote_hint(repo@),
        ),
{
    let q = st.bold(question);
    let mut s = cat("\n", q.as_str());
    append(&mut s, "\n  no. this machine runs ");
    append(&mut s, os_name(ctx.host_os.as_str()).as_str());
    append(&mut s, ", and a Solana validator runs on Linux\n");
    let mut hint = owned(
        "\n  preflight has to run on the Linux machine you are asking about:\n      ssh you@your-server\n      cargo install --git ",
    );
    append(&mut hint, repo);
    append(
        &mut hint,
        "\n      preflight --profile testnet\n\n  or, to check that machine's validator settings from here, copy its\n  command line over first:\n      ssh you@your-server 'cat /proc/$(pgrep -f agave-validator)/cmdline | tr \"\\0\" \" \"' > cmdline.txt\n      ssh you@your-server 'agave-validator --version'\n      preflight --invocation cmdline.txt --client agave-validator@<that version>\n",
    );
    append(&mut s, st.dim(hint.as_str()).as_str());
    s
}

/// One half of the report: a verdict, then the findings behind it, grouped
/// under plain-English headings rather than layer codes.
#[verifier::rlimit(80)]
#[verifier::spinoff_prover]
fn phase_block(
    ctx: &Ctx,
    findings: &Vec<Finding>,
    st: &Style,
    verbose: bool,
    hide_host: bool,
    phase: Phase,
    question: &str,
    repo: &str,
) -> (r: String)
    ensures
        r@ == phase_block_spec(*ctx, findings@, st.color, verbose, hide_host, phase, question@, repo@),
{
    let ghost mine = of_phase(findings@, phase);
    let idx = phase_findings(findings, phase);
    if idx.len() == 0 {
        return String::new();
    }
    if phase == Phase::Machine && !ctx.is_linux() && !ctx.fs.is_prefixed() {
        return off_host_block(ctx, st, question, repo);
    }
    let q = st.bold(question);
    let v = phase_verdict_of(findings, phase);
    let mut s = cat("\n", q.as_str());
    append(&mut s, "\n  ");
    append(&mut s, v.as_str());
    append(&mut s, "\n");
    if phase == Phase::Machine && !ctx.validator_present && ctx.profile == Profile::Local {
        let d = st.dim(
            "  this asks what a test validator needs. for a real voting node:\n    preflight --profile testnet\n",
        );
        append(&mut s, d.as_str());
    }
    let ghost base = s@;
    // The sections in the order their first finding came.
    let sections = sections_list(findings, &idx, Ghost(mine));
    let ghost secs = views(sections@);
    let mut n: usize = 0;
    assert(secs.take(0) =~= Seq::<Seq<char>>::empty());
    while n < sections.len()
        invariant
            n <= sections@.len(),
            secs == views(sections@),
            indexes(findings@, idx@, mine),
            s@ == base + sections_text(mine, secs.take(n as int), st.color, verbose, hide_host),
        decreases sections.len() - n,
    {
        assert(secs.take(n + 1).drop_last() == secs.take(n as int));
        assert(secs.take(n + 1).last() == sections@[n as int]@);
        let block = section_body_of(
            findings,
            &idx,
            Ghost(mine),
            sections[n].as_str(),
            st,
            verbose,
            hide_host,
        );
        let ghost before = s@;
        let ghost sec = sections@[n as int]@;
        if chars_of(block.as_str()).len() > 0 {
            append(&mut s, "\n");
            append(&mut s, st.dim(sections[n].as_str()).as_str());
            append(&mut s, "\n");
            append(&mut s, block.as_str());
        }
        assert(s@ == before + section_block(mine, sec, st.color, verbose, hide_host));
        n += 1;
    }
    assert(secs.take(secs.len() as int) == secs);
    s
}

/// Why a skipped check was skipped, from the reason it recorded.
pub open spec fn skip_reason_spec(observed: Seq<char>) -> Seq<char> {
    if contains_seq(observed, "no validator installed"@) {
        "need a validator installed on this host"@
    } else if contains_seq(observed, "no validator on this host"@) {
        "need a validator installed on this host"@
    } else if contains_seq(observed, "requirement starts at"@) {
        "apply to a newer release than this client"@
    } else if contains_seq(observed, "not applicable to profile"@) {
        "do not apply to this profile"@
    } else {
        "do not apply to this host"@
    }
}

/// Why a skipped check was skipped, matched on the reason it recorded.
fn skip_reason(observed: &str) -> (r: &'static str)
    ensures
        r@ == skip_reason_spec(observed@),
{
    if crate::text::str_contains(observed, "no validator installed") {
        "need a validator installed on this host"
    } else if crate::text::str_contains(observed, "no validator on this host") {
        "need a validator installed on this host"
    } else if crate::text::str_contains(observed, "requirement starts at") {
        "apply to a newer release than this client"
    } else if crate::text::str_contains(observed, "not applicable to profile") {
        "do not apply to this profile"
    } else {
        "do not apply to this host"
    }
}

pub open spec fn all_skipped(fs: Seq<Finding>) -> bool {
    forall|i: int| 0 <= i < fs.len() ==> (#[trigger] fs[i]).outcome.status == Status::Skipped
}

pub open spec fn nothing_hint() -> Seq<char> {
    "          no validator found on this host: no running process, no systemd\n          unit, no binary on PATH. preflight has nothing to look at.\n\n          to check a command line from somewhere else:\n            preflight --invocation <file> --client agave-validator@<version>\n"@
}

/// How many findings have a status, painted in its colour; nothing for none.
pub open spec fn count_part(fs: Seq<Finding>, st: Status, color: bool) -> Seq<Seq<char>> {
    if count_status(fs, st) > 0 {
        seq![painted(color, status_color(st), dec(count_status(fs, st)) + " "@ + lower_seq(status_label(st)))]
    } else {
        Seq::empty()
    }
}

pub open spec fn count_parts(fs: Seq<Finding>, color: bool) -> Seq<Seq<char>> {
    count_part(fs, Status::Fail, color) + count_part(fs, Status::Unsupported, color) + count_part(
        fs,
        Status::Ephemeral,
        color,
    ) + count_part(fs, Status::Unknown, color) + count_part(fs, Status::Pass, color)
}

/// The reasons skipped checks were skipped, each once, in the order first met.
pub open spec fn skip_reasons(fs: Seq<Finding>) -> Seq<Seq<char>>
    decreases fs.len(),
{
    if fs.len() == 0 {
        Seq::empty()
    } else {
        let prev = skip_reasons(fs.drop_last());
        let r = skip_reason_spec(fs.last().outcome.observed@);
        if fs.last().outcome.status == Status::Skipped && !prev.contains(r) {
            prev.push(r)
        } else {
            prev
        }
    }
}

/// How many checks were skipped for a reason.
pub open spec fn reason_count(fs: Seq<Finding>, r: Seq<char>) -> nat
    decreases fs.len(),
{
    if fs.len() == 0 {
        0
    } else {
        reason_count(fs.drop_last(), r) + if fs.last().outcome.status == Status::Skipped
            && skip_reason_spec(fs.last().outcome.observed@) == r {
            1nat
        } else {
            0nat
        }
    }
}

pub open spec fn reason_lines(fs: Seq<Finding>, rs: Seq<Seq<char>>, color: bool) -> Seq<char>
    decreases rs.len(),
{
    if rs.len() == 0 {
        Seq::empty()
    } else {
        reason_lines(fs, rs.drop_last(), color) + painted(
            color,
            "90"@,
            "          "@ + pad_left(dec(reason_count(fs, rs.last())), 2) + "  "@ + rs.last() + "\n"@,
        )
    }
}

/// Why checks were not run, grouped by reason.
pub open spec fn not_checked(fs: Seq<Finding>, color: bool) -> Seq<char> {
    let rs = skip_reasons(fs);
    if rs.len() > 0 {
        "\nnot checked\n"@ + reason_lines(fs, rs, color) + painted(
            color,
            "90"@,
            "          preflight -v  lists them individually\n"@,
        )
    } else {
        Seq::empty()
    }
}

/// The ids of the fatal failures, in order.
pub open spec fn fatal_ids(fs: Seq<Finding>) -> Seq<Seq<char>>
    decreases fs.len(),
{
    if fs.len() == 0 {
        Seq::empty()
    } else {
        fatal_ids(fs.drop_last()) + if fs.last().outcome.status == Status::Fail
            && fs.last().severity@ == "fatal"@ {
            seq![fs.last().id@]
        } else {
            Seq::empty()
        }
    }
}

/// The fatal failures by id, and that they come first.
pub open spec fn fatal_line(ids: Seq<Seq<char>>) -> Seq<char> {
    "\nnext      "@ + (if ids.len() == 1 {
        "1 finding"@
    } else {
        dec(ids.len()) + " findings"@
    }) + " stop"@ + (if ids.len() == 1 {
        "s"@
    } else {
        ""@
    }) + " the validator from starting: "@ + join(ids, ", "@) + "\n"@ + plural_spec(
        ids.len(),
        "          fix that first, then re-run\n"@,
        "          fix those first, then re-run\n"@,
    )
}

pub open spec fn short_line(other: nat, color: bool) -> Seq<char> {
    painted(
        color,
        "90"@,
        "          the other "@ + dec(other) + " "@ + plural_spec(other, "leaves"@, "leave"@)
            + " the node short: it runs, but not as configured\n"@,
    )
}

pub open spec fn runs_line(other: nat) -> Seq<char> {
    "\nnext      nothing blocks startup; "@ + dec(other) + " finding"@ + plural_spec(other, ""@, "s"@)
        + " mean the node runs but not as configured\n"@
}

/// What to do first: the fatal failures by id, or that nothing blocks
/// startup.
pub open spec fn next_head(fs: Seq<Finding>, color: bool) -> Seq<char> {
    let ids = fatal_ids(fs);
    let other = (count_status(fs, Status::Fail) - count_fatal(fs)) as nat;
    if ids.len() > 0 {
        fatal_line(ids) + if other > 0 {
            short_line(other, color)
        } else {
            Seq::empty()
        }
    } else if other > 0 {
        runs_line(other)
    } else {
        Seq::empty()
    }
}

/// What to do first, and how to look at one finding on its own.
pub open spec fn next_steps(fs: Seq<Finding>, color: bool) -> Seq<char> {
    next_head(fs, color) + if count_status(fs, Status::Fail) > 0 {
        painted(color, "90"@, "          preflight explain <id>  for one finding on its own\n"@)
    } else {
        Seq::empty()
    }
}

/// The counts by status, why checks were not run, and what to do first.
/// Nothing on a machine that is not Linux: nothing ran, and the answer
/// already said why.
pub open spec fn summary_spec(ctx: Ctx, fs: Seq<Finding>, color: bool) -> Seq<char> {
    if !ctx.linux && ctx.fs.root@ == "/"@ {
        Seq::empty()
    } else if all_skipped(fs) {
        "\nnothing applied to this host\n"@ + painted(color, "90"@, nothing_hint())
    } else {
        "\n"@ + join(count_parts(fs, color), dot()) + "\n"@ + not_checked(fs, color) + next_steps(
            fs,
            color,
        )
    }
}

fn count_of(findings: &Vec<Finding>, want: Status) -> (r: u64)
    ensures
        r == count_status(findings@, want),
{
    let mut n: u64 = 0;
    let mut k: usize = 0;
    assert(findings@.take(0) =~= Seq::<Finding>::empty());
    while k < findings.len()
        invariant
            k <= findings@.len(),
            n == count_status(findings@.take(k as int), want),
            n <= k,
        decreases findings.len() - k,
    {
        assert(findings@.take(k + 1).drop_last() == findings@.take(k as int));
        if findings[k].outcome.status == want {
            n += 1;
        }
        k += 1;
    }
    assert(findings@.take(findings@.len() as int) == findings@);
    n
}

fn count_part_of(findings: &Vec<Finding>, want: Status, st: &Style, parts: &mut Vec<String>)
    ensures
        views(final(parts)@) == views(old(parts)@) + count_part(findings@, want, st.color),
{
    let n = count_of(findings, want);
    if n > 0 {
        let mut t = dec_string(n);
        append(&mut t, " ");
        append(&mut t, lower(want.label()).as_str());
        let ghost before = views(parts@);
        parts.push(st.paint(want, t.as_str()));
        assert(views(parts@) == before.push(parts@.last()@));
    } else {
        assert(views(parts@) =~= views(parts@) + Seq::<Seq<char>>::empty());
    }
}

fn reasons_of(findings: &Vec<Finding>) -> (r: Vec<&'static str>)
    ensures
        r@.map_values(|x: &'static str| x@) == skip_reasons(findings@),
{
    let mut reasons: Vec<&'static str> = Vec::new();
    let mut k: usize = 0;
    assert(findings@.take(0) =~= Seq::<Finding>::empty());
    while k < findings.len()
        invariant
            k <= findings@.len(),
            reasons@.map_values(|x: &'static str| x@) == skip_reasons(findings@.take(k as int)),
        decreases findings.len() - k,
    {
        assert(findings@.take(k + 1).drop_last() == findings@.take(k as int));
        assert(findings@.take(k + 1).last() == findings@[k as int]);
        let ghost rv = reasons@.map_values(|x: &'static str| x@);
        if findings[k].outcome.status == Status::Skipped {
            let reason = skip_reason(findings[k].outcome.observed.as_str());
            let mut j: usize = 0;
            let mut found = false;
            while j < reasons.len()
                invariant
                    j <= reasons@.len(),
                    rv == reasons@.map_values(|x: &'static str| x@),
                    !found ==> forall|i: int| 0 <= i < j ==> #[trigger] rv[i] != reason@,
                    found ==> rv.contains(reason@),
                decreases reasons.len() - j,
            {
                if crate::text::eq_lit(reasons[j], reason) {
                    found = true;
                    assert(rv[j as int] == reason@);
                }
                j += 1;
            }
            assert(found == rv.contains(reason@));
            if !found {
                reasons.push(reason);
                assert(reasons@.map_values(|x: &'static str| x@) == rv.push(reason@));
            }
        }
        k += 1;
    }
    assert(findings@.take(findings@.len() as int) == findings@);
    reasons
}

fn reason_count_of(findings: &Vec<Finding>, reason: &str) -> (r: u64)
    ensures
        r == reason_count(findings@, reason@),
{
    let mut n: u64 = 0;
    let mut k: usize = 0;
    assert(findings@.take(0) =~= Seq::<Finding>::empty());
    while k < findings.len()
        invariant
            k <= findings@.len(),
            n == reason_count(findings@.take(k as int), reason@),
            n <= k,
        decreases findings.len() - k,
    {
        assert(findings@.take(k + 1).drop_last() == findings@.take(k as int));
        if findings[k].outcome.status == Status::Skipped && crate::text::eq_lit(
            skip_reason(findings[k].outcome.observed.as_str()),
            reason,
        ) {
            n += 1;
        }
        k += 1;
    }
    assert(findings@.take(findings@.len() as int) == findings@);
    n
}

fn not_checked_of(findings: &Vec<Finding>, st: &Style, out: &mut String)
    ensures
        final(out)@ == old(out)@ + not_checked(findings@, st.color),
{
    let reasons = reasons_of(findings);
    let ghost rs = reasons@.map_values(|x: &'static str| x@);
    if reasons.len() == 0 {
        return;
    }
    let ghost start = out@;
    append(out, "\nnot checked\n");
    let ghost base = out@;
    let mut j: usize = 0;
    assert(rs.take(0) =~= Seq::<Seq<char>>::empty());
    while j < reasons.len()
        invariant
            j <= reasons@.len(),
            rs == reasons@.map_values(|x: &'static str| x@),
            out@ == base + reason_lines(findings@, rs.take(j as int), st.color),
        decreases reasons.len() - j,
    {
        assert(rs.take(j + 1).drop_last() == rs.take(j as int));
        assert(rs.take(j + 1).last() == reasons@[j as int]@);
        let n = reason_count_of(findings, reasons[j]);
        let mut t = owned("          ");
        append(&mut t, pad_l(dec_string(n).as_str(), 2).as_str());
        append(&mut t, "  ");
        append(&mut t, reasons[j]);
        append(&mut t, "\n");
        append(out, st.dim(t.as_str()).as_str());
        j += 1;
    }
    assert(rs.take(rs.len() as int) == rs);
    append(out, st.dim("          preflight -v  lists them individually\n").as_str());
}

fn fatal_ids_of(findings: &Vec<Finding>) -> (r: (Vec<String>, u64))
    ensures
        views(r.0@) == fatal_ids(findings@),
        r.1 == count_status(findings@, Status::Fail) - count_fatal(findings@),
        r.1 <= findings@.len(),
        count_fatal(findings@) <= count_status(findings@, Status::Fail),
{
    let mut fatal: Vec<String> = Vec::new();
    let mut other: u64 = 0;
    let mut k: usize = 0;
    assert(findings@.take(0) =~= Seq::<Finding>::empty());
    while k < findings.len()
        invariant
            k <= findings@.len(),
            views(fatal@) == fatal_ids(findings@.take(k as int)),
            other == count_status(findings@.take(k as int), Status::Fail) - count_fatal(
                findings@.take(k as int),
            ),
            count_fatal(findings@.take(k as int)) <= count_status(findings@.take(k as int), Status::Fail),
            other <= k,
        decreases findings.len() - k,
    {
        assert(findings@.take(k + 1).drop_last() == findings@.take(k as int));
        assert(findings@.take(k + 1).last() == findings@[k as int]);
        if findings[k].outcome.status == Status::Fail {
            if crate::text::eq_lit(findings[k].severity.as_str(), "fatal") {
                let ghost before = views(fatal@);
                fatal.push(findings[k].id.clone());
                assert(views(fatal@) == before + seq![findings@[k as int].id@]);
            } else {
                other += 1;
            }
        }
        k += 1;
    }
    assert(findings@.take(findings@.len() as int) == findings@);
    (fatal, other)
}

fn fatal_line_of(fatal: &Vec<String>) -> (r: String)
    ensures
        r@ == fatal_line(views(fatal@)),
{
    let what = if fatal.len() == 1 {
        owned("1 finding")
    } else {
        cat(dec_string(fatal.len() as u64).as_str(), " findings")
    };
    let mut n = cat("\nnext      ", what.as_str());
    append(&mut n, " stop");
    append(
        &mut n,
        if fatal.len() == 1 {
            "s"
        } else {
            ""
        },
    );
    append(&mut n, " the validator from starting: ");
    append(&mut n, crate::text::join_strings(fatal, ", ").as_str());
    append(&mut n, "\n");
    append(
        &mut n,
        plural(
            fatal.len(),
            "          fix that first, then re-run\n",
            "          fix those first, then re-run\n",
        ),
    );
    n
}

fn short_line_of(other: usize, st: &Style) -> (r: String)
    ensures
        r@ == short_line(other as nat, st.color),
{
    let mut t = cat("          the other ", dec_string(other as u64).as_str());
    append(&mut t, " ");
    append(&mut t, plural(other, "leaves", "leave"));
    append(&mut t, " the node short: it runs, but not as configured\n");
    st.dim(t.as_str())
}

fn runs_line_of(other: usize) -> (r: String)
    ensures
        r@ == runs_line(other as nat),
{
    let mut t = cat("\nnext      nothing blocks startup; ", dec_string(other as u64).as_str());
    append(&mut t, " finding");
    append(&mut t, plural(other, "", "s"));
    append(&mut t, " mean the node runs but not as configured\n");
    t
}

fn next_steps_of(findings: &Vec<Finding>, st: &Style, out: &mut String)
    ensures
        final(out)@ == old(out)@ + next_steps(findings@, st.color),
{
    let ghost start = out@;
    let (fatal, other64) = fatal_ids_of(findings);
    let n = findings.len();
    assert(other64 <= n);
    let other = other64 as usize;
    assert(other == count_status(findings@, Status::Fail) - count_fatal(findings@));
    assert(views(fatal@).len() == fatal@.len());
    if fatal.len() > 0 {
        append(out, fatal_line_of(&fatal).as_str());
        if other > 0 {
            append(out, short_line_of(other, st).as_str());
        }
    } else if other > 0 {
        append(out, runs_line_of(other).as_str());
    }
    assert(out@ == start + next_head(findings@, st.color));
    if count_of(findings, Status::Fail) > 0 {
        append(out, st.dim("          preflight explain <id>  for one finding on its own\n").as_str());
    }
}

fn all_skipped_of(findings: &Vec<Finding>) -> (r: bool)
    ensures
        r == all_skipped(findings@),
{
    let mut i: usize = 0;
    while i < findings.len()
        invariant
            i <= findings@.len(),
            forall|k: int| 0 <= k < i ==> (#[trigger] findings@[k]).outcome.status == Status::Skipped,
        decreases findings.len() - i,
    {
        if findings[i].outcome.status != Status::Skipped {
            return false;
        }
        i += 1;
    }
    true
}

/// The counts by status, why checks were not run, and what to do first.
fn summary(ctx: &Ctx, findings: &Vec<Finding>, st: &Style) -> (r: String)
    ensures
        r@ == summary_spec(*ctx, findings@, st.color),
{
    // Nothing ran, and the verdict already said why. Counts would be filler.
    if !ctx.is_linux() && !ctx.fs.is_prefixed() {
        return String::new();
    }
    if all_skipped_of(findings) {
        let mut s = owned("\nnothing applied to this host\n");
        let d = st.dim(
            "          no validator found on this host: no running process, no systemd\n          unit, no binary on PATH. preflight has nothing to look at.\n\n          to check a command line from somewhere else:\n            preflight --invocation <file> --client agave-validator@<version>\n",
        );
        append(&mut s, d.as_str());
        return s;
    }
    let mut parts: Vec<String> = Vec::new();
    count_part_of(findings, Status::Fail, st, &mut parts);
    count_part_of(findings, Status::Unsupported, st, &mut parts);
    count_part_of(findings, Status::Ephemeral, st, &mut parts);
    count_part_of(findings, Status::Unknown, st, &mut parts);
    count_part_of(findings, Status::Pass, st, &mut parts);
    assert(views(parts@) =~= count_parts(findings@, st.color));
    let mut line = cat("\n", crate::text::join_strings(&parts, "  \u{b7}  ").as_str());
    append(&mut line, "\n");
    let ghost head = line@;
    // Why a check was skipped, grouped by reason in the order first met.
    not_checked_of(findings, st, &mut line);
    next_steps_of(findings, st, &mut line);
    line
}

/// The whole text report: what the machine is, the verdict on each question,
/// then what to do. `version` is this program's version and `repo` where it is
/// installed from, both named in the report.
pub fn report(
    ctx: &Ctx,
    findings: &Vec<Finding>,
    st: &Style,
    verbose: bool,
    hide_host: bool,
    needs_root: usize,
    version: &str,
    repo: &str,
) -> (r: String)
    ensures
        r@ == painted(st.color, "1"@, "preflight"@) + " "@ + version@ + "\n\n"@ + system_spec(
            *ctx,
            st.color,
            needs_root as nat,
        ) + phase_block_spec(
            *ctx,
            findings@,
            st.color,
            verbose,
            hide_host,
            Phase::Machine,
            "CAN THIS MACHINE RUN A "@ + upper_seq(profile_label(ctx.profile)) + " VALIDATOR?"@,
            repo@,
        ) + phase_block_spec(
            *ctx,
            findings@,
            st.color,
            verbose,
            hide_host,
            Phase::Validator,
            "IS THE VALIDATOR CONFIGURED CORRECTLY?"@,
            repo@,
        ) + summary_spec(*ctx, findings@, st.color),
{
    let mut s = st.bold("preflight");
    append(&mut s, " ");
    append(&mut s, version);
    append(&mut s, "\n\n");
    let ghost head = s@;
    let q1 = {
        let up = crate::text::to_upper(&chars_of(ctx.profile.label()));
        let mut q = owned("CAN THIS MACHINE RUN A ");
        append(&mut q, crate::text::string_of(&up).as_str());
        append(&mut q, " VALIDATOR?");
        q
    };
    append(&mut s, system_report(ctx, st, needs_root).as_str());
    // The machine question is answered first and on its own: a box that cannot
    // run a validator makes every finding about its configuration beside the
    // point.
    append(
        &mut s,
        phase_block(ctx, findings, st, verbose, hide_host, Phase::Machine, q1.as_str(), repo).as_str(),
    );
    append(
        &mut s,
        phase_block(
            ctx,
            findings,
            st,
            verbose,
            hide_host,
            Phase::Validator,
            "IS THE VALIDATOR CONFIGURED CORRECTLY?",
            repo,
        ).as_str(),
    );
    append(&mut s, summary(ctx, findings, st).as_str());
    s
}

// ---------------------------------------------------------------------------
// Markdown
// ---------------------------------------------------------------------------

pub open spec fn or_not_probed(o: Option<String>) -> Seq<char> {
    match o {
        Some(s) => s@,
        None => "not probed"@,
    }
}

/// The host table that opens the markdown report, and the head of the
/// findings table.
pub open spec fn md_head(ctx: Ctx) -> Seq<char> {
    "## preflight report\n\n"@ + "| | |\n|---|---|\n| host | `"@ + or_not_probed(ctx.arch)
        + "` \u{b7} kernel `"@ + or_not_probed(ctx.kernel) + "` |\n| os | "@ + or_not_probed(ctx.os)
        + " |\n| client | "@ + client_label(ctx.client) + " "@ + match ctx.version {
        Some(v) => short_text(v.major, v.minor, v.patch),
        None => "unknown"@,
    } + " |\n| profile | `"@ + profile_label(ctx.profile) + "` ("@ + ctx.profile_reason@
        + ") |\n\n"@ + "| id | status | severity | check |\n|---|---|---|---|\n"@
}

/// One row of the findings table.
pub open spec fn md_row(f: Finding) -> Seq<char> {
    "| `"@ + f.id@ + "` | "@ + status_label(f.outcome.status) + " | "@ + f.severity@ + " | "@
        + f.title@ + " |\n"@
}

/// A row for every finding that ran, skipped ones left out.
pub open spec fn md_rows(fs: Seq<Finding>) -> Seq<char>
    decreases fs.len(),
{
    if fs.len() == 0 {
        Seq::empty()
    } else {
        md_rows(fs.drop_last()) + if fs.last().outcome.status != Status::Skipped {
            md_row(fs.last())
        } else {
            Seq::empty()
        }
    }
}

pub open spec fn fix_commands(fix: Seq<FixStep>) -> Seq<char>
    decreases fix.len(),
{
    if fix.len() == 0 {
        Seq::empty()
    } else {
        fix_commands(fix.drop_last()) + fix.last().command@ + "\n"@
    }
}

/// The detail of one finding: what was observed, what was expected and why,
/// when those were said, and the fix commands in a code block.
pub open spec fn md_detail(f: Finding) -> Seq<char> {
    "\n### "@ + f.id@ + " \u{2014} "@ + f.title@ + "\n\n- **observed** "@ + f.outcome.observed@ + "\n"@
        + (if f.outcome.expected@.len() > 0 {
        "- **expected** "@ + f.outcome.expected@ + "\n"@
    } else {
        Seq::empty()
    }) + (if f.outcome.why@.len() > 0 {
        "- **why** "@ + f.outcome.why@ + "\n"@
    } else {
        Seq::empty()
    }) + (if f.outcome.fix@.len() > 0 {
        "\n```\n"@ + fix_commands(f.outcome.fix@) + "```\n"@
    } else {
        Seq::empty()
    })
}

/// The detail of every finding that neither passed nor was skipped.
pub open spec fn md_details(fs: Seq<Finding>) -> Seq<char>
    decreases fs.len(),
{
    if fs.len() == 0 {
        Seq::empty()
    } else {
        md_details(fs.drop_last()) + if !(fs.last().outcome.status == Status::Pass
            || fs.last().outcome.status == Status::Skipped) {
            md_detail(fs.last())
        } else {
            Seq::empty()
        }
    }
}

fn or_not_probed_of(o: &Option<String>) -> (r: String)
    ensures
        r@ == or_not_probed(*o),
{
    match o {
        Some(a) => a.clone(),
        None => owned("not probed"),
    }
}

fn md_head_of(ctx: &Ctx) -> (r: String)
    ensures
        r@ == md_head(*ctx),
{
    let arch = or_not_probed_of(&ctx.arch);
    let kernel = or_not_probed_of(&ctx.kernel);
    let os = or_not_probed_of(&ctx.os);
    let ver = match &ctx.version {
        Some(v) => v.short(),
        None => owned("unknown"),
    };
    let mut t = owned("## preflight report\n\n");
    append(&mut t, "| | |\n|---|---|\n| host | `");
    append(&mut t, arch.as_str());
    append(&mut t, "` \u{b7} kernel `");
    append(&mut t, kernel.as_str());
    append(&mut t, "` |\n| os | ");
    append(&mut t, os.as_str());
    append(&mut t, " |\n| client | ");
    append(&mut t, ctx.client.label());
    append(&mut t, " ");
    append(&mut t, ver.as_str());
    append(&mut t, " |\n| profile | `");
    append(&mut t, ctx.profile.label());
    append(&mut t, "` (");
    append(&mut t, ctx.profile_reason.as_str());
    append(&mut t, ") |\n\n");
    append(&mut t, "| id | status | severity | check |\n|---|---|---|---|\n");
    t
}

fn md_row_of(f: &Finding) -> (r: String)
    ensures
        r@ == md_row(*f),
{
    let mut l = cat("| `", f.id.as_str());
    append(&mut l, "` | ");
    append(&mut l, f.outcome.status.label());
    append(&mut l, " | ");
    append(&mut l, f.severity.as_str());
    append(&mut l, " | ");
    append(&mut l, f.title.as_str());
    append(&mut l, " |\n");
    l
}

fn fix_commands_of(fix: &Vec<FixStep>, out: &mut String)
    ensures
        final(out)@ == old(out)@ + fix_commands(fix@),
{
    let ghost start = out@;
    let mut k: usize = 0;
    assert(fix@.take(0) =~= Seq::<FixStep>::empty());
    while k < fix.len()
        invariant
            k <= fix@.len(),
            out@ == start + fix_commands(fix@.take(k as int)),
        decreases fix.len() - k,
    {
        assert(fix@.take(k + 1).drop_last() == fix@.take(k as int));
        assert(fix@.take(k + 1).last() == fix@[k as int]);
        append(out, fix[k].command.as_str());
        append(out, "\n");
        k += 1;
    }
    assert(fix@.take(fix@.len() as int) == fix@);
}

fn md_detail_of(f: &Finding) -> (r: String)
    ensures
        r@ == md_detail(*f),
{
    let mut l = cat("\n### ", f.id.as_str());
    append(&mut l, " \u{2014} ");
    append(&mut l, f.title.as_str());
    append(&mut l, "\n\n- **observed** ");
    append(&mut l, f.outcome.observed.as_str());
    append(&mut l, "\n");
    let ghost a = l@;
    if chars_of(f.outcome.expected.as_str()).len() > 0 {
        append(&mut l, "- **expected** ");
        append(&mut l, f.outcome.expected.as_str());
        append(&mut l, "\n");
    }
    let ghost b = l@;
    if chars_of(f.outcome.why.as_str()).len() > 0 {
        append(&mut l, "- **why** ");
        append(&mut l, f.outcome.why.as_str());
        append(&mut l, "\n");
    }
    let ghost c = l@;
    if f.outcome.fix.len() > 0 {
        append(&mut l, "\n```\n");
        fix_commands_of(&f.outcome.fix, &mut l);
        append(&mut l, "```\n");
    }
    l
}

/// The report as markdown, for pasting into a thread: a host table, a table of
/// every finding that ran, and the detail of each one that did not pass.
pub fn markdown(ctx: &Ctx, findings: &Vec<Finding>) -> (r: String)
    ensures
        r@ == md_head(*ctx) + md_rows(findings@) + md_details(findings@),
{
    let mut s = md_head_of(ctx);
    let ghost head = s@;
    let mut i: usize = 0;
    assert(findings@.take(0) =~= Seq::<Finding>::empty());
    while i < findings.len()
        invariant
            i <= findings@.len(),
            s@ == head + md_rows(findings@.take(i as int)),
        decreases findings.len() - i,
    {
        assert(findings@.take(i + 1).drop_last() == findings@.take(i as int));
        assert(findings@.take(i + 1).last() == findings@[i as int]);
        if findings[i].outcome.status != Status::Skipped {
            let l = md_row_of(&findings[i]);
            append(&mut s, l.as_str());
        }
        i += 1;
    }
    assert(findings@.take(findings@.len() as int) == findings@);
    let ghost mid = s@;
    let mut i: usize = 0;
    assert(findings@.take(0) =~= Seq::<Finding>::empty());
    while i < findings.len()
        invariant
            i <= findings@.len(),
            s@ == mid + md_details(findings@.take(i as int)),
        decreases findings.len() - i,
    {
        assert(findings@.take(i + 1).drop_last() == findings@.take(i as int));
        assert(findings@.take(i + 1).last() == findings@[i as int]);
        let st = findings[i].outcome.status;
        if !(st == Status::Pass || st == Status::Skipped) {
            let l = md_detail_of(&findings[i]);
            append(&mut s, l.as_str());
        }
        i += 1;
    }
    assert(findings@.take(findings@.len() as int) == findings@);
    s
}

pub open spec fn locators(src: Seq<Source>) -> Seq<Seq<char>> {
    src.map_values(|x: Source| x.locator@)
}

pub open spec fn verified_against(src: Seq<Source>) -> Seq<Seq<char>> {
    src.map_values(|x: Source| x.verified_against@)
}

/// One row of the registry table.
pub open spec fn registry_row(c: Check) -> Seq<char> {
    "| `"@ + c.id@ + "` | "@ + layer_label(c.layer) + " | "@ + severity_label(c.severity) + " | "@
        + join(profile_labels(c.profiles@), " "@) + " | "@ + join(client_labels(c.clients@), " "@)
        + " | "@ + c.title@ + (if any_provisional(c.source@) {
        " *(provisional)*"@
    } else {
        Seq::empty()
    }) + " | "@ + join(locators(c.source@), "<br>"@) + " | "@ + join(
        verified_against(c.source@),
        "<br>"@,
    ) + " |\n"@
}

pub open spec fn registry_rows(cs: Seq<Check>) -> Seq<char>
    decreases cs.len(),
{
    if cs.len() == 0 {
        Seq::empty()
    } else {
        registry_rows(cs.drop_last()) + registry_row(cs.last())
    }
}

pub open spec fn registry_table_head() -> Seq<char> {
    "| id | layer | severity | profiles | clients | check | source | verified |\n|---|---|---|---|---|---|---|---|\n"@
}

fn source_columns(src: &Vec<Source>) -> (r: (Vec<String>, Vec<String>))
    ensures
        views(r.0@) == locators(src@),
        views(r.1@) == verified_against(src@),
{
    let mut a: Vec<String> = Vec::new();
    let mut b: Vec<String> = Vec::new();
    let mut k: usize = 0;
    while k < src.len()
        invariant
            k <= src@.len(),
            views(a@) == locators(src@.take(k as int)),
            views(b@) == verified_against(src@.take(k as int)),
        decreases src.len() - k,
    {
        let ghost (a0, b0) = (views(a@), views(b@));
        a.push(owned(src[k].locator));
        b.push(owned(src[k].verified_against));
        assert(views(a@) == a0.push(src@[k as int].locator@));
        assert(views(b@) == b0.push(src@[k as int].verified_against@));
        assert(locators(src@.take(k + 1)) == locators(src@.take(k as int)).push(
            src@[k as int].locator@,
        ));
        assert(verified_against(src@.take(k + 1)) == verified_against(src@.take(k as int)).push(
            src@[k as int].verified_against@,
        ));
        k += 1;
    }
    assert(src@.take(src@.len() as int) == src@);
    (a, b)
}

fn registry_row_of(c: &Check) -> (r: String)
    ensures
        r@ == registry_row(*c),
{
    let profiles = labels_of_profiles(&c.profiles);
    let clients = labels_of_clients(&c.clients);
    let (src, ver) = source_columns(&c.source);
    let mut l = cat("| `", c.id.as_str());
    append(&mut l, "` | ");
    append(&mut l, c.layer.label());
    append(&mut l, " | ");
    append(&mut l, c.severity.label());
    append(&mut l, " | ");
    append(&mut l, join_strings(&profiles, " ").as_str());
    append(&mut l, " | ");
    append(&mut l, join_strings(&clients, " ").as_str());
    append(&mut l, " | ");
    append(&mut l, c.title.as_str());
    let ghost t = l@;
    if c.provisional() {
        append(&mut l, " *(provisional)*");
    }
    append(&mut l, " | ");
    append(&mut l, join_strings(&src, "<br>").as_str());
    append(&mut l, " | ");
    append(&mut l, join_strings(&ver, "<br>").as_str());
    append(&mut l, " |\n");
    l
}

/// The full check table as markdown: what docs/registry.md holds.
pub fn dump_registry(checks: &Vec<Check>) -> (r: String)
    ensures
        r@ == registry_table_head() + registry_rows(checks@),
{
    let mut s = owned(
        "| id | layer | severity | profiles | clients | check | source | verified |\n|---|---|---|---|---|---|---|---|\n",
    );
    let ghost head = s@;
    let mut i: usize = 0;
    assert(checks@.take(0) =~= Seq::<Check>::empty());
    while i < checks.len()
        invariant
            i <= checks@.len(),
            s@ == head + registry_rows(checks@.take(i as int)),
        decreases checks.len() - i,
    {
        assert(checks@.take(i + 1).drop_last() == checks@.take(i as int));
        assert(checks@.take(i + 1).last() == checks@[i as int]);
        let l = registry_row_of(&checks[i]);
        append(&mut s, l.as_str());
        i += 1;
    }
    assert(checks@.take(checks@.len() as int) == checks@);
    s
}

// ---------------------------------------------------------------------------
// One check explained
// ---------------------------------------------------------------------------

/// The elevated commands a check would run, with what each looks for.
pub open spec fn root_lines(list: Seq<Elevated>, id: Seq<char>) -> Seq<char>
    decreases list.len(),
{
    if list.len() == 0 {
        Seq::empty()
    } else {
        root_lines(list.drop_last(), id) + if contains_seq(list.last().used_by@, id) {
            "             $ sudo "@ + list.last().command@ + "\n"@ + "               "@
                + list.last().looking_for@ + "\n"@
        } else {
            Seq::empty()
        }
    }
}

pub open spec fn source_lines(src: Seq<Source>) -> Seq<char>
    decreases src.len(),
{
    if src.len() == 0 {
        Seq::empty()
    } else {
        source_lines(src.drop_last()) + "  source     "@ + src.last().locator@ + " ["@
            + src.last().verified_against@ + "]\n"@
    }
}

pub open spec fn profile_labels(ps: Seq<Profile>) -> Seq<Seq<char>> {
    ps.map_values(|p: Profile| profile_label(p))
}

pub open spec fn client_labels(cs: Seq<ClientKind>) -> Seq<Seq<char>> {
    cs.map_values(|k: ClientKind| client_label(k))
}

/// The lines that say where a check sits and who it applies to.
pub open spec fn explain_meta(c: Check) -> Seq<char> {
    "\n"@ + "  layer      "@ + layer_label(c.layer) + "\n"@ + "  severity   "@ + severity_label(
        c.severity,
    ) + "\n"@ + "  profiles   "@ + join(profile_labels(c.profiles@), ", "@) + "\n"@
        + "  clients    "@ + join(client_labels(c.clients@), ", "@) + "\n"@
}

/// Whether it reads anything elevated, and what.
pub open spec fn explain_root(c: Check) -> Seq<char> {
    "  root       "@ + (if c.needs_root {
        "elevated reads required"@
    } else {
        "no"@
    }) + "\n"@ + (if c.needs_root {
        root_lines(allowlist_spec(), c.id@)
    } else {
        Seq::empty()
    })
}

/// What follows a check's finding when it is explained: where it sits, who
/// it applies to, whether it reads anything elevated, and its sources.
pub open spec fn explain_tail(c: Check) -> Seq<char> {
    explain_meta(c) + explain_root(c) + (if any_provisional(c.source@) {
        "  status     provisional: sourced to an unreleased channel, cannot fire yet\n"@
    } else {
        Seq::empty()
    }) + "\n"@ + source_lines(c.source@)
}

/// The status an explained check reports: what it finds when it applies to
/// this profile and client, Skipped otherwise. Explaining runs it whether or
/// not a validator is installed.
pub open spec fn explain_status(c: Check, ctx: Ctx) -> Status {
    if applies(c, ctx) {
        match run_status(c.id@, ctx) {
            Some(s) => s,
            None => Status::Unknown,
        }
    } else {
        Status::Skipped
    }
}

fn labels_of_profiles(ps: &Vec<Profile>) -> (r: Vec<String>)
    ensures
        views(r@) == profile_labels(ps@),
{
    let mut out: Vec<String> = Vec::new();
    let mut i: usize = 0;
    while i < ps.len()
        invariant
            i <= ps@.len(),
            views(out@) == profile_labels(ps@.take(i as int)),
        decreases ps.len() - i,
    {
        let ghost before = views(out@);
        out.push(owned(ps[i].label()));
        assert(views(out@) == before.push(profile_label(ps@[i as int])));
        assert(profile_labels(ps@.take(i + 1)) == profile_labels(ps@.take(i as int)).push(
            profile_label(ps@[i as int]),
        ));
        i += 1;
    }
    assert(ps@.take(ps@.len() as int) == ps@);
    out
}

fn labels_of_clients(cs: &Vec<ClientKind>) -> (r: Vec<String>)
    ensures
        views(r@) == client_labels(cs@),
{
    let mut out: Vec<String> = Vec::new();
    let mut i: usize = 0;
    while i < cs.len()
        invariant
            i <= cs@.len(),
            views(out@) == client_labels(cs@.take(i as int)),
        decreases cs.len() - i,
    {
        let ghost before = views(out@);
        out.push(owned(cs[i].label()));
        assert(views(out@) == before.push(client_label(cs@[i as int])));
        assert(client_labels(cs@.take(i + 1)) == client_labels(cs@.take(i as int)).push(
            client_label(cs@[i as int]),
        ));
        i += 1;
    }
    assert(cs@.take(cs@.len() as int) == cs@);
    out
}

fn root_text(list: &Vec<Elevated>, id: &str, out: &mut String)
    ensures
        final(out)@ == old(out)@ + root_lines(list@, id@),
{
    let ghost start = out@;
    let mut i: usize = 0;
    assert(list@.take(0) =~= Seq::<Elevated>::empty());
    while i < list.len()
        invariant
            i <= list@.len(),
            out@ == start + root_lines(list@.take(i as int), id@),
        decreases list.len() - i,
    {
        assert(list@.take(i + 1).drop_last() == list@.take(i as int));
        assert(list@.take(i + 1).last() == list@[i as int]);
        if crate::text::str_contains(list[i].used_by, id) {
            append(out, "             $ sudo ");
            append(out, list[i].command);
            append(out, "\n");
            append(out, "               ");
            append(out, list[i].looking_for);
            append(out, "\n");
        }
        i += 1;
    }
    assert(list@.take(list@.len() as int) == list@);
}

fn source_text(src: &Vec<Source>, out: &mut String)
    ensures
        final(out)@ == old(out)@ + source_lines(src@),
{
    let ghost start = out@;
    let mut i: usize = 0;
    assert(src@.take(0) =~= Seq::<Source>::empty());
    while i < src.len()
        invariant
            i <= src@.len(),
            out@ == start + source_lines(src@.take(i as int)),
        decreases src.len() - i,
    {
        assert(src@.take(i + 1).drop_last() == src@.take(i as int));
        assert(src@.take(i + 1).last() == src@[i as int]);
        append(out, "  source     ");
        append(out, src[i].locator);
        append(out, " [");
        append(out, src[i].verified_against);
        append(out, "]\n");
        i += 1;
    }
    assert(src@.take(src@.len() as int) == src@);
}

fn explain_meta_of(c: &Check) -> (r: String)
    ensures
        r@ == explain_meta(*c),
{
    let mut s = owned("\n");
    append(&mut s, "  layer      ");
    append(&mut s, c.layer.label());
    append(&mut s, "\n");
    append(&mut s, "  severity   ");
    append(&mut s, c.severity.label());
    append(&mut s, "\n");
    let ps = labels_of_profiles(&c.profiles);
    let cs = labels_of_clients(&c.clients);
    append(&mut s, "  profiles   ");
    append(&mut s, join_strings(&ps, ", ").as_str());
    append(&mut s, "\n");
    append(&mut s, "  clients    ");
    append(&mut s, join_strings(&cs, ", ").as_str());
    append(&mut s, "\n");
    s
}

fn explain_root_of(c: &Check) -> (r: String)
    ensures
        r@ == explain_root(*c),
{
    let mut s = owned("  root       ");
    if c.needs_root {
        append(&mut s, "elevated reads required");
    } else {
        append(&mut s, "no");
    }
    append(&mut s, "\n");
    if c.needs_root {
        let list = allowlist();
        root_text(&list, c.id.as_str(), &mut s);
    }
    s
}

fn explain_outcome(c: &Check, ctx: &Ctx) -> (o: Outcome)
    ensures
        o.status == explain_status(*c, *ctx),
        !applies(*c, *ctx) ==> o.observed@ == "not applicable to profile "@ + profile_label(
            ctx.profile,
        ) + " with client "@ + client_label(ctx.client),
{
    if c.applies_to(ctx.profile, ctx.client) {
        match run(c.id.as_str(), ctx) {
            Some(o) => o,
            None => {
                proof {
                    reveal_strlit("no such check in the registry");
                }
                Outcome::unknown("no such check in the registry")
            },
        }
    } else {
        let mut obs = cat("not applicable to profile ", ctx.profile.label());
        append(&mut obs, " with client ");
        append(&mut obs, ctx.client.label());
        Outcome::skipped(obs.as_str())
    }
}

fn explain_tail_of(c: &Check) -> (r: String)
    ensures
        r@ == explain_tail(*c),
{
    let mut s = explain_meta_of(c);
    let root = explain_root_of(c);
    append(&mut s, root.as_str());
    if c.provisional() {
        append(&mut s, "  status     provisional: sourced to an unreleased channel, cannot fire yet\n");
    }
    append(&mut s, "\n");
    source_text(&c.source, &mut s);
    s
}

/// One check's documentation and sources, with what it says about this
/// machine: metadata alone is the least useful view of a finding, so the
/// check is run and its finding shown in full.
pub fn explain(c: &Check, st: &Style, ctx: &Ctx) -> (r: String)
    ensures
        exists|f: Finding|
            {
                &&& finding_of(*c, f)
                &&& f.outcome.status == explain_status(*c, *ctx)
                &&& !applies(*c, *ctx) ==> f.outcome.observed@ == "not applicable to profile "@
                    + profile_label(ctx.profile) + " with client "@ + client_label(ctx.client)
                &&& r@ == finding_head(f, st.color) + finding_body(f, st.color) + explain_tail(*c)
            },
{
    let outcome = explain_outcome(c, ctx);
    let f = finding(c, outcome);
    let mut s = finding_block(&f, st);
    let tail = explain_tail_of(c);
    append(&mut s, tail.as_str());
    assert(finding_of(*c, f));
    s
}

} // verus!
