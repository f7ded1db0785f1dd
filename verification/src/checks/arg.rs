//! ARG layer. Did the last upgrade break the command line?
//!
//! Pure functions of the resolved invocation and the detected version. No
//! privileges, no hardware, no network, which makes this the only layer that
//! runs correctly against a command line pasted from another machine.

use vstd::prelude::*;
use vstd::string::*;
use crate::argv::{flag_value, has_flag, present, Invocation};
use crate::ctx::Ctx;
use crate::host::{release_at_least, short_text};
use crate::model::{opt_view, FixStep, Outcome, Status, ValueCarry};
use crate::text::{
    append, cat, chars_of, contains_seq, dec, dec_string, join, join_strings, owned, parse_u32,
    parse_u64, split_once, trim, views,
};

verus! {

/// The narrowest port range a validator accepts since v4.1.
pub const PORT_RANGE_MIN_WIDTH: u16 = 26;

/// The first unresolved token that is not itself a flag.
pub open spec fn bare_token(u: Seq<Seq<char>>) -> Option<Seq<char>>
    decreases u.len(),
{
    if u.len() == 0 {
        None
    } else if !"-"@.is_prefix_of(u[0]) {
        Some(u[0])
    } else {
        bare_token(u.drop_first())
    }
}

/// When a check of this layer stops before looking at any flag: Skipped with
/// no validator, Unknown when the command line still holds an unexpanded
/// token or could not be resolved, Skipped when the client predates the
/// release the requirement starts at, Unknown when no version was detected.
pub open spec fn gate_status(c: Ctx, major: u64, minor: u64) -> Option<Status> {
    if !c.validator_present {
        Some(Status::Skipped)
    } else if c.invocation is Some && bare_token(views(c.invocation->0.unresolved@)) is Some {
        Some(Status::Unknown)
    } else if c.invocation is None {
        Some(Status::Unknown)
    } else {
        match c.version {
            Some(v) => if release_at_least(v.major, v.minor, major, minor) {
                None
            } else {
                Some(Status::Skipped)
            },
            None => Some(Status::Unknown),
        }
    }
}

/// A client older than the release a requirement starts at is never warned
/// about it: the check reports Skipped, so a check sourced to an unreleased
/// changelog cannot reach a released client.
pub proof fn law_a_release_before_the_floor_is_skipped(c: Ctx, major: u64, minor: u64, inner: Status)
    requires
        c.validator_present,
        c.invocation is Some,
        bare_token(views(c.invocation->0.unresolved@)) is None,
        c.version matches Some(v) && !release_at_least(v.major, v.minor, major, minor),
    ensures
        gated(c, major, minor, inner) == Status::Skipped,
{
}

/// An invocation that could not be resolved is Unknown, never an empty flag
/// set read as "no flags set".
pub proof fn law_an_unresolved_invocation_is_unknown(c: Ctx, major: u64, minor: u64, inner: Status)
    requires
        c.validator_present,
        c.invocation is None,
    ensures
        gated(c, major, minor, inner) == Status::Unknown,
{
}

/// The status a guarded check reports: the guard's when it stops, else `inner`.
pub open spec fn gated(c: Ctx, major: u64, minor: u64, inner: Status) -> Status {
    match gate_status(c, major, minor) {
        Some(s) => s,
        None => inner,
    }
}

pub open spec fn args(c: Ctx) -> Seq<Seq<char>> {
    c.invocation->0.arg_views()
}

pub open spec fn edit_target(c: Ctx) -> Option<Seq<char>> {
    match c.invocation {
        Some(i) => opt_view(i.edit_target),
        None => None,
    }
}

pub open spec fn unit_name(c: Ctx) -> Option<Seq<char>> {
    match c.invocation {
        Some(i) => opt_view(i.unit_name),
        None => None,
    }
}

fn bare_token_of(u: &Vec<String>) -> (r: Option<String>)
    ensures
        opt_view(r) == bare_token(views(u@)),
{
    let mut i: usize = 0;
    assert(views(u@).skip(0) == views(u@));
    while i < u.len()
        invariant
            i <= u@.len(),
            bare_token(views(u@)) == bare_token(views(u@).skip(i as int)),
        decreases u.len() - i,
    {
        assert(views(u@).skip(i as int)[0] == u@[i as int]@);
        assert(views(u@).skip(i as int).drop_first() == views(u@).skip(i + 1));
        if !crate::text::str_starts(u[i].as_str(), "-") {
            return Some(u[i].clone());
        }
        i += 1;
    }
    assert(views(u@).skip(i as int) =~= Seq::<Seq<char>>::empty());
    None
}

/// Why the command line cannot be read: Skipped with no validator, Unknown
/// while a token that is not itself a flag is left unexpanded, Unknown when
/// nothing resolved.
pub open spec fn invocation_status(c: Ctx) -> Option<Status> {
    if !c.validator_present {
        Some(Status::Skipped)
    } else if c.invocation is Some && bare_token(views(c.invocation->0.unresolved@)) is Some {
        Some(Status::Unknown)
    } else if c.invocation is None {
        Some(Status::Unknown)
    } else {
        None
    }
}

/// Whether the release is in scope: Skipped before `major.minor`, Unknown
/// when no version was detected.
pub open spec fn version_status(c: Ctx, major: u64, minor: u64) -> Option<Status> {
    match c.version {
        Some(v) => if release_at_least(v.major, v.minor, major, minor) {
            None
        } else {
            Some(Status::Skipped)
        },
        None => Some(Status::Unknown),
    }
}

/// What a check of this layer reports when it stops before reading a flag,
/// as observed, expected, the confirming command and the fix commands.
pub open spec fn gate_report(c: Ctx, major: u64, minor: u64) -> (Seq<char>, Seq<char>, Option<Seq<char>>, Seq<
    Seq<char>,
>) {
    if !c.validator_present {
        ("no validator on this host"@, Seq::empty(), None, Seq::empty())
    } else if c.invocation is Some && bare_token(views(c.invocation->0.unresolved@)) is Some {
        (
            "the command line still contains "@ + bare_token(views(c.invocation->0.unresolved@))->0
                + ", so preflight never saw the real flags"@,
            "a command line with every token expanded"@,
            Some("tr '\\0' ' ' < /proc/$(pgrep -n agave-validator)/cmdline"@),
            Seq::empty(),
        )
    } else if c.invocation is None {
        (
            "could not resolve a validator invocation ("@ + join(views(c.invocation_trail@), " -> "@) + ")"@,
            "a resolvable command line"@,
            None,
            Seq::empty(),
        )
    } else {
        match c.version {
            Some(v) => (
                "client is "@ + crate::host::short_text(v.major, v.minor, v.patch)
                    + ", requirement starts at v"@ + dec(major as nat) + "."@ + dec(minor as nat),
                Seq::empty(),
                None,
                Seq::empty(),
            ),
            None => (
                "client version not detected"@,
                "a client version, so preflight knows which releases apply"@,
                None,
                seq!["preflight --client agave-validator@<version>"@],
            ),
        }
    }
}

/// The note beside the one fix a refusal carries, which says where the version comes from.
pub open spec fn gate_notes(c: Ctx, major: u64, minor: u64) -> Seq<Option<Seq<char>>> {
    if gate_report(c, major, minor).3.len() > 0 {
        seq![Some("get it with: agave-validator --version"@)]
    } else {
        Seq::empty()
    }
}

/// An unresolved invocation is Unknown with the trail printed, never an empty
/// flag set treated as "no flags set". A bare `$FLAGS` leaves no flags to
/// read, which is not the same as no flags set.
fn require_invocation(ctx: &Ctx) -> (r: Result<&Invocation, Outcome>)
    ensures
        match r {
            Ok(i) => invocation_status(*ctx) is None && ctx.invocation == Some(*i),
            Err(o) => invocation_status(*ctx) == Some(o.status) && (
            o.observed@,
            o.expected@,
            opt_view(o.verify),
            crate::model::commands(o.fix@),
            ) == gate_report(*ctx, 0, 0) && o.persistence is None && o.fix@.len() == 0,
        },
        r matches Err(o) ==> (o.status == Status::Unknown ==> o.observed@.len() > 0),
{
    if !ctx.validator_present {
        return Err(Outcome::skipped("no validator on this host"));
    }
    match ctx.inv() {
        Some(inv) => match bare_token_of(&inv.unresolved) {
            Some(tok) => {
                let mut obs = cat("the command line still contains ", tok.as_str());
                append(&mut obs, ", so preflight never saw the real flags");
                proof {
                    reveal_strlit("the command line still contains ");
                }
                return Err(
                    Outcome::unknown(obs.as_str()).expected(
                        "a command line with every token expanded",
                    ).verify("tr '\\0' ' ' < /proc/$(pgrep -n agave-validator)/cmdline"),
                );
            },
            None => {},
        },
        None => {},
    }
    match ctx.inv() {
        Some(i) => Ok(i),
        None => {
            let trail = join_strings(&ctx.invocation_trail, " -> ");
            let mut obs = cat("could not resolve a validator invocation (", trail.as_str());
            append(&mut obs, ")");
            proof {
                reveal_strlit("could not resolve a validator invocation (");
            }
            Err(Outcome::unknown(obs.as_str()).expected("a resolvable command line"))
        },
    }
}

/// Skipped when the client predates the release that introduced the
/// requirement, Unknown when no version was detected. Warning a stable
/// operator about an alpha-channel change is worse than saying nothing.
fn require_version(ctx: &Ctx, major: u64, minor: u64) -> (r: Result<(), Outcome>)
    ensures
        match r {
            Ok(_) => version_status(*ctx, major, minor) is None,
            Err(o) => version_status(*ctx, major, minor) == Some(o.status) && (invocation_status(*ctx) is None
                ==> (o.observed@, o.expected@, opt_view(o.verify), crate::model::commands(o.fix@))
                == gate_report(*ctx, major, minor)) && o.persistence is None && crate::model::notes(o.fix@)
                == if ctx.version is None {
                seq![Some("get it with: agave-validator --version"@)]
            } else {
                Seq::empty()
            },
        },
        r matches Err(o) ==> (o.status == Status::Unknown ==> o.observed@.len() > 0),
{
    match &ctx.version {
        Some(v) => if v.at_least(major, minor) {
            Ok(())
        } else {
            let short = v.short();
            let mut obs = cat("client is ", short.as_str());
            append(&mut obs, ", requirement starts at v");
            let ma = dec_string(major);
            let mi = dec_string(minor);
            append(&mut obs, ma.as_str());
            append(&mut obs, ".");
            append(&mut obs, mi.as_str());
            Err(Outcome::skipped(obs.as_str()))
        },
        None => {
            let mut fix: Vec<FixStep> = Vec::new();
            fix.push(
                FixStep::noted(
                    "preflight --client agave-validator@<version>",
                    "get it with: agave-validator --version",
                ),
            );
            proof {
                reveal_strlit("client version not detected");
            }
            Err(
                Outcome::unknown("client version not detected").expected(
                    "a client version, so preflight knows which releases apply",
                ).fix(fix),
            )
        },
    }
}

/// Every check in this layer opens the same way: resolve the command line,
/// then decide whether this release is even in scope. Either refusal carries
/// the check's own why.
fn gate<'a>(ctx: &'a Ctx, major: u64, minor: u64, why: &str) -> (r: Result<&'a Invocation, Outcome>)
    ensures
        match r {
            Ok(i) => gate_status(*ctx, major, minor) is None && ctx.invocation == Some(*i),
            Err(o) => gate_status(*ctx, major, minor) == Some(o.status) && o.why@ == why@ && (
            o.observed@,
            o.expected@,
            opt_view(o.verify),
            crate::model::commands(o.fix@),
            ) == gate_report(*ctx, major, minor) && o.persistence is None && crate::model::notes(o.fix@)
                == gate_notes(*ctx, major, minor),
        },
        r matches Err(o) ==> (o.status == Status::Unknown ==> o.observed@.len() > 0),
{
    match require_invocation(ctx) {
        Err(o) => Err(o.why(why)),
        Ok(inv) => match require_version(ctx, major, minor) {
            Err(o) => Err(o.why(why)),
            Ok(()) => Ok(inv),
        },
    }
}

/// The steps that open the file holding the command line, apply the changes
/// indented under it, and restart the unit when there is one.
pub open spec fn edit_steps_ok(c: Ctx, changes: Seq<FixStep>, r: Seq<FixStep>) -> bool {
    let extra: int = if unit_name(c) is Some {
        1
    } else {
        0
    };
    &&& r.len() == 1 + changes.len() + extra
    &&& r[0].command@ == match edit_target(c) {
        Some(f) => "edit "@ + f,
        None => "edit your validator command line"@,
    }
    &&& opt_view(r[0].note) == match edit_target(c) {
        Some(_) => None,
        None => Some("preflight could not resolve which file holds it; see the trail in the header"@),
    }
    &&& forall|k: int|
        0 <= k < changes.len() ==> (#[trigger] r[k + 1]).command@ == "  "@ + changes[k].command@
            && r[k + 1].note == changes[k].note
    &&& unit_name(c) matches Some(u) ==> r.last().command@ == "sudo systemctl restart "@ + u
        && r.last().note is None
}

/// The whole of an edit, as commands and notes: open the file, make each
/// change indented under it, restart the unit when there is one.
pub open spec fn edit_fix(c: Ctx, changes: Seq<(Seq<char>, Option<Seq<char>>)>) -> Seq<
    (Seq<char>, Option<Seq<char>>),
> {
    seq![
        match edit_target(c) {
            Some(f) => ("edit "@ + f, None),
            None => (
                "edit your validator command line"@,
                Some("preflight could not resolve which file holds it; see the trail in the header"@),
            ),
        },
    ] + changes.map_values(|ch: (Seq<char>, Option<Seq<char>>)| ("  "@ + ch.0, ch.1)) + match unit_name(c) {
        Some(u) => seq![("sudo systemctl restart "@ + u, None::<Seq<char>>)],
        None => Seq::empty(),
    }
}

proof fn lemma_edit_fix(c: Ctx, changes: Seq<FixStep>, r: Seq<FixStep>)
    requires
        edit_steps_ok(c, changes, r),
    ensures
        crate::model::steps(r) == edit_fix(c, crate::model::steps(changes)),
{
    let want = edit_fix(c, crate::model::steps(changes));
    let got = crate::model::steps(r);
    assert(got.len() == want.len());
    assert forall|i: int| 0 <= i < got.len() implies got[i] == want[i] by {
        if 1 <= i < 1 + changes.len() {
            assert(r[(i - 1) + 1] == r[i]);
        }
    }
    assert(got =~= want);
}

/// Fix steps that open the file holding the command line first and, when a
/// unit runs the validator, restart that unit last.
pub open spec fn edits_file(c: Ctx, r: Seq<FixStep>) -> bool {
    &&& r.len() >= 1
    &&& r[0].command@ == match edit_target(c) {
        Some(f) => "edit "@ + f,
        None => "edit your validator command line"@,
    }
    &&& unit_name(c) matches Some(u) ==> r.last().command@ == "sudo systemctl restart "@ + u
}

/// A failing command-line finding's fix opens the file that holds the
/// command line, applies the changes there, and restarts the unit that runs it.
pub open spec fn fix_edits(c: Ctx, o: Outcome) -> bool {
    o.status == Status::Fail ==> edits_file(c, o.fix@)
}

/// Every failing command-line finding names the file to edit, the one the
/// command line was resolved to, and ends by restarting the validator's own
/// unit when one runs it.
pub proof fn law_failing_arg_fixes_name_the_file(c: Ctx, o: Outcome)
    requires
        fix_edits(c, o),
        o.status == Status::Fail,
    ensures
        o.fix@.len() >= 1,
        o.fix@[0].command@ == match edit_target(c) {
            Some(f) => "edit "@ + f,
            None => "edit your validator command line"@,
        },
        unit_name(c) matches Some(u) ==> o.fix@.last().command@ == "sudo systemctl restart "@ + u,
{
}

/// Open the file that holds the command line, apply the change, restart the unit.
fn edit_steps(ctx: &Ctx, changes: Vec<FixStep>) -> (r: Vec<FixStep>)
    ensures
        edit_steps_ok(*ctx, changes@, r@),
        edits_file(*ctx, r@),
{
    let mut steps: Vec<FixStep> = Vec::new();
    let target = match ctx.inv() {
        Some(i) => match &i.edit_target {
            Some(f) => Some(f.clone()),
            None => None,
        },
        None => None,
    };
    match target {
        Some(f) => {
            let c = cat("edit ", f.as_str());
            steps.push(FixStep::cmd(c.as_str()));
        },
        None => steps.push(
            FixStep::noted(
                "edit your validator command line",
                "preflight could not resolve which file holds it; see the trail in the header",
            ),
        ),
    }
    let ghost all = changes@;
    let n = changes.len();
    let mut rest = changes;
    let mut k: usize = 0;
    while rest.len() > 0
        invariant
            all.len() == n,
            k + rest@.len() == all.len(),
            rest@ == all.skip(k as int),
            steps@.len() == 1 + k,
            steps@[0].command@ == match edit_target(*ctx) {
                Some(f) => "edit "@ + f,
                None => "edit your validator command line"@,
            },
            opt_view(steps@[0].note) == match edit_target(*ctx) {
                Some(_) => None,
                None => Some(
                    "preflight could not resolve which file holds it; see the trail in the header"@,
                ),
            },
            forall|j: int|
                0 <= j < k ==> (#[trigger] steps@[j + 1]).command@ == "  "@ + all[j].command@
                    && steps@[j + 1].note == all[j].note,
        decreases rest.len(),
    {
        assert(rest@[0] == all[k as int]);
        let c = rest.remove(0);
        assert(rest@ == all.skip(k + 1));
        let command = cat("  ", c.command.as_str());
        steps.push(FixStep { command, note: c.note });
        k += 1;
    }
    let unit = match ctx.inv() {
        Some(i) => match &i.unit_name {
            Some(u) => Some(u.clone()),
            None => None,
        },
        None => None,
    };
    match unit {
        Some(u) => {
            let c = cat("sudo systemctl restart ", u.as_str());
            steps.push(FixStep::cmd(c.as_str()));
        },
        None => {},
    }
    steps
}

/// The file a fix edits, or a placeholder for it.
pub open spec fn edit_target_text(c: Ctx) -> Seq<char> {
    match edit_target(c) {
        Some(f) => f,
        None => "<your validator command line>"@,
    }
}

/// The unit a fix restarts, or a placeholder for it.
pub open spec fn unit_text_of(c: Ctx) -> Seq<char> {
    match unit_name(c) {
        Some(u) => u,
        None => "<your-validator-unit>"@,
    }
}

fn edit_target_or(ctx: &Ctx) -> (r: String)
    ensures
        r@ == edit_target_text(*ctx),
{
    match ctx.inv() {
        Some(i) => match &i.edit_target {
            Some(f) => f.clone(),
            None => owned("<your validator command line>"),
        },
        None => owned("<your validator command line>"),
    }
}

/// Never print `sol.service` as a guess: it is only Anza's example unit name.
fn unit_or_placeholder(ctx: &Ctx) -> (r: String)
    ensures
        r@ == unit_text_of(*ctx),
{
    match ctx.inv() {
        Some(i) => match &i.unit_name {
            Some(u) => u.clone(),
            None => owned("<your-validator-unit>"),
        },
        None => owned("<your-validator-unit>"),
    }
}

/// The outcome for a family of deprecated flags: Pass with none present,
/// Fail naming them, with the edits that remove or rename them.
/// Changes that carry no note.
pub open spec fn plain_changes(cs: Seq<Seq<char>>) -> Seq<(Seq<char>, Option<Seq<char>>)> {
    cs.map_values(|c: Seq<char>| (c, None::<Seq<char>>))
}

fn deprecated(ctx: &Ctx, found: Vec<String>, expected: &str, why: &str, changes: Vec<String>) -> (o:
    Outcome)
    ensures
        o.status == if found@.len() == 0 {
            Status::Pass
        } else {
            Status::Fail
        },
        o.why@ == why@,
        o.expected@ == expected@,
        o.verify is None && o.persistence is None,
        found@.len() == 0 ==> o.observed@ == "none present"@ && o.fix@.len() == 0,
        found@.len() > 0 ==> edits_file(*ctx, o.fix@),
        found@.len() > 0 ==> o.observed@ == "present: "@ + join(views(found@), ", "@),
        found@.len() > 0 ==> crate::model::steps(o.fix@) == edit_fix(*ctx, plain_changes(views(changes@))),
{
    if found.len() == 0 {
        return Outcome::pass("none present", expected).why(why);
    }
    let mut steps: Vec<FixStep> = Vec::new();
    let mut i: usize = 0;
    while i < changes.len()
        invariant
            i <= changes@.len(),
            steps@.len() == i,
            forall|k: int|
                0 <= k < i ==> (#[trigger] steps@[k]).command@ == changes@[k]@ && steps@[k].note is None,
        decreases changes.len() - i,
    {
        steps.push(FixStep::cmd(changes[i].as_str()));
        i += 1;
    }
    let ghost sv = steps@;
    let fix = edit_steps(ctx, steps);
    let list = join_strings(&found, ", ");
    let obs = cat("present: ", list.as_str());
    let o = Outcome::fail(obs.as_str(), expected).why(why).fix(fix);
    proof {
        assert(crate::model::steps(sv) =~= plain_changes(views(changes@)));
        lemma_edit_fix(*ctx, sv, o.fix@);
    }
    o
}

// ---------------------------------------------------------------------------
// PF-ARG-0001: the port range
// ---------------------------------------------------------------------------

/// `start-end`, each side trimmed, both ports.
pub open spec fn port_pair(raw: Seq<char>) -> Option<(u32, u32)> {
    match split_once(raw, '-') {
        Some((a, b)) => match (parse_u32(trim(a)), parse_u32(trim(b))) {
            (Some(s), Some(e)) => Some((s, e)),
            _ => None,
        },
        None => None,
    }
}

/// The width agave checks: the range is half-open, `[start, end)`, so the end
/// port is not one of yours and the width is `end - start`. An inverted range
/// has none.
pub open spec fn port_width(start: u32, end: u32) -> nat {
    if end >= start {
        (end - start) as nat
    } else {
        0
    }
}

/// The range is half-open: a range passes exactly when its end is at least
/// 26 past its start, so 11000-11025 fails and 11000-11026 passes.
pub proof fn law_port_range_is_half_open(start: u32, end: u32)
    ensures
        port_width(start, end) >= PORT_RANGE_MIN_WIDTH <==> end >= start + 26,
{
}

pub open spec fn port_range_inner(a: Seq<Seq<char>>) -> Status {
    match flag_value(a, "--dynamic-port-range"@) {
        None => Status::Pass,
        Some(raw) => if contains_seq(raw, "$"@) {
            Status::Unknown
        } else {
            match port_pair(raw) {
                None => Status::Unknown,
                Some((s, e)) => if port_width(s, e) >= PORT_RANGE_MIN_WIDTH {
                    Status::Pass
                } else {
                    Status::Fail
                },
            }
        },
    }
}

/// Why port range matters, as the report gives it.
pub const PORT_RANGE_WHY: &'static str = "The range is half-open: [start, end), so the end port is not one of yours. 8000-8026 gives you 26 ports, not 27, and 8000-8020 gives 20. Since v4.1 the validator needs 26, and agave checks end - start against MINIMUM_VALIDATOR_PORT_RANGE_WIDTH at startup and refuses to run when it falls short, so the node does not start at all. The off-by-one is why this is worth checking: every widely copied example invocation, including the one in Anza's own validator-start guide, predates the change and is 20 wide.";

/// What `port_range` promises of its outcome.
pub open spec fn port_range_outcome(ctx: Ctx, o: Outcome) -> bool {
    &&& (fix_edits(ctx, o))
    &&& (o.status == gated(ctx, 4, 1, port_range_inner(args(ctx))))
    &&& (gate_status(ctx, 4, 1) is None ==> o.observed@ =~= match flag_value(
        args(ctx),
        "--dynamic-port-range"@,
    ) {
        None => "not set, agave default 8000-10000 is 2000 wide"@,
        Some(raw) => if contains_seq(raw, "$"@) {
            "--dynamic-port-range "@ + raw + " (unexpanded variable)"@
        } else {
            match port_pair(raw) {
                Some((s, e)) => "--dynamic-port-range "@ + raw + " ("@ + dec(port_width(s, e))
                    + " wide)"@,
                None => "--dynamic-port-range "@ + raw + " (unparseable)"@,
            }
        },
    })
    &&& (gate_status(ctx, 4, 1) is None && flag_value(args(ctx), "--dynamic-port-range"@) is Some
        ==> o.status == Status::Fail || o.status == Status::Pass ==> o.expected@
        =~= "a range at least 26 wide, or unset"@)
    &&& (o.why@ =~= PORT_RANGE_WHY@)
    &&& (gate_status(ctx, 4, 1) is Some ==> (
        o.observed@,
        o.expected@,
        opt_view(o.verify),
        crate::model::commands(o.fix@),
    ) =~~= gate_report(ctx, 4, 1))
    &&& (gate_status(ctx, 4, 1) is None ==> opt_view(o.verify) == if o.status == Status::Fail {
        Some("grep -- --dynamic-port-range "@ + edit_target_text(ctx))
    } else if o.status == Status::Pass && flag_value(args(ctx), "--dynamic-port-range"@) is Some {
        Some("ss -lntup | grep -c agave-validator"@)
    } else {
        None
    })
    &&& (o.persistence is None)
    &&& (o.status == Status::Unknown ==> o.observed@.len() > 0)
    &&& (gate_status(ctx, 4, 1) is None ==> o.expected@ =~= if o.status == Status::Unknown {
        Seq::<char>::empty()
    } else {
        "a range at least 26 wide, or unset"@
    })
    &&& (o.status == Status::Fail ==> {
        let raw = flag_value(args(ctx), "--dynamic-port-range"@)->0;
        let pair = port_pair(raw)->0;
        let start = pair.0;
        crate::model::steps(o.fix@) =~= edit_fix(
            ctx,
            seq![
                (
                    "--dynamic-port-range "@ + raw + "   ->   "@ + dec(start as nat) + "-"@ + dec(
                        (start + 30) as nat,
                    ),
                    Some("30 leaves headroom above the 26 required"@),
                ),
            ],
        )
    })
    &&& (gate_status(ctx, 4, 1) is Some ==> crate::model::notes(o.fix@) =~= gate_notes(ctx, 4, 1))
    &&& (gate_status(ctx, 4, 1) is None && o.status != Status::Fail ==> o.fix@.len() == 0)
}

/// PF-ARG-0001. Anza's own validator-start guide example is
/// `--dynamic-port-range 11000-11020`, 20 wide, under the 26 v4.1 needs.
///
/// The range is half-open, per agave's own comment in `port_range_validator`.
/// Computing `end - start + 1` would produce a false PASS at the boundary:
/// 11000-11025 would read as 26 while agave reads 25 and refuses to bind.
pub fn port_range(ctx: &Ctx) -> (o: Outcome)
    ensures
        port_range_outcome(*ctx, o),
{
    let why = PORT_RANGE_WHY;
    let expected = "a range at least 26 wide, or unset";
    let inv = match gate(ctx, 4, 1, why) {
        Ok(i) => i,
        Err(o) => return o,
    };
    let raw = match inv.value("--dynamic-port-range") {
        Some(r) => r,
        None => return Outcome::pass("not set, agave default 8000-10000 is 2000 wide", expected).why(
            why,
        ),
    };
    let mut shown = cat("--dynamic-port-range ", raw.as_str());
    if crate::text::str_contains(raw.as_str(), "$") {
        append(&mut shown, " (unexpanded variable)");
        proof {
            reveal_strlit("--dynamic-port-range ");
        }
        return Outcome::unknown(shown.as_str()).why(why);
    }
    let rv = chars_of(raw.as_str());
    let parsed: Option<(u32, u32)> = match crate::text::split_once_char(&rv, '-') {
        Some((a, b)) => {
            let at = crate::text::trim_vec(&a);
            let bt = crate::text::trim_vec(&b);
            match (crate::text::parse_u32_vec(&at), crate::text::parse_u32_vec(&bt)) {
                (Some(s), Some(e)) => Some((s, e)),
                _ => None,
            }
        },
        None => None,
    };
    let (start, end) = match parsed {
        Some(p) => p,
        None => {
            append(&mut shown, " (unparseable)");
            proof {
                reveal_strlit("--dynamic-port-range ");
            }
            return Outcome::unknown(shown.as_str()).why(why);
        },
    };
    let width: u32 = if end >= start {
        end - start
    } else {
        0
    };
    let ws = dec_string(width as u64);
    let mut observed = cat(shown.as_str(), " (");
    append(&mut observed, ws.as_str());
    append(&mut observed, " wide)");
    assert(observed@ == "--dynamic-port-range "@ + raw@ + " ("@ + dec(port_width(start, end))
        + " wide)"@);
    if width >= PORT_RANGE_MIN_WIDTH as u32 {
        return Outcome::pass(observed.as_str(), expected).why(why).verify(
            "ss -lntup | grep -c agave-validator",
        );
    }
    // 30 leaves headroom above the 26 required, so the next bump does not
    // break the operator again.
    let top = dec_string(start as u64 + 30);
    let st = dec_string(start as u64);
    let mut change = cat(shown.as_str(), "   ->   ");
    append(&mut change, st.as_str());
    append(&mut change, "-");
    append(&mut change, top.as_str());
    let mut changes: Vec<FixStep> = Vec::new();
    changes.push(FixStep::noted(change.as_str(), "30 leaves headroom above the 26 required"));
    let ghost ch = changes@;
    let fix = edit_steps(ctx, changes);
    proof {
        lemma_edit_fix(*ctx, ch, fix@);
    }
    let target = edit_target_or(ctx);
    let verify = cat("grep -- --dynamic-port-range ", target.as_str());
    Outcome::fail(observed.as_str(), expected).why(why).fix(fix).verify(verify.as_str())
}

// ---------------------------------------------------------------------------
// PF-ARG-0002 to PF-ARG-0013
// ---------------------------------------------------------------------------

pub open spec fn private_addr_inner(a: Seq<Seq<char>>) -> Status {
    if !has_flag(a, "--allow-private-addr"@) || has_flag(a, "--no-xdp"@) {
        Status::Pass
    } else {
        Status::Fail
    }
}

/// From release 4.2 on, PF-ARG-0002 fails exactly when `--allow-private-addr`
/// is given without `--no-xdp`.
pub proof fn law_private_addressing_needs_no_xdp(ctx: Ctx, o: Outcome)
    requires
        private_addr_xdp_outcome(ctx, o),
        judged_from(ctx, 4, 2),
    ensures
        o.status == Status::Fail <==> has_flag(args(ctx), "--allow-private-addr"@) && !has_flag(
            args(ctx),
            "--no-xdp"@,
        ),
        o.status != Status::Fail ==> o.status == Status::Pass,
{
    assert(gate_status(ctx, 4, 2) is None);
}

/// Why private addr xdp matters, as the report gives it.
pub const PRIVATE_ADDR_WHY: &'static str = "XDP transmit is on by default on Linux since v4.2, and gossip egress under XDP does not support private or loopback addresses. A node using private addressing must opt out of XDP explicitly or it will not gossip.";

/// What `private_addr_xdp` promises of its outcome.
pub open spec fn private_addr_xdp_outcome(ctx: Ctx, o: Outcome) -> bool {
    &&& (fix_edits(ctx, o))
    &&& (gate_status(ctx, 4, 2) is None ==> o.expected@ =~= "--no-xdp alongside --allow-private-addr"@
        && o.observed@ =~= if !has_flag(args(ctx), "--allow-private-addr"@) {
        "--allow-private-addr not in use"@
    } else if has_flag(args(ctx), "--no-xdp"@) {
        "--allow-private-addr paired with --no-xdp"@
    } else {
        "--allow-private-addr set, --no-xdp absent"@
    })
    &&& (o.status == gated(ctx, 4, 2, private_addr_inner(args(ctx))))
    &&& (o.status == Status::Fail ==> o.fix@.len() >= 2)
    &&& (o.why@ =~= PRIVATE_ADDR_WHY@)
    &&& (gate_status(ctx, 4, 2) is Some ==> (
        o.observed@,
        o.expected@,
        opt_view(o.verify),
        crate::model::commands(o.fix@),
    ) =~~= gate_report(ctx, 4, 2))
    &&& (gate_status(ctx, 4, 2) is None ==> o.verify is None)
    &&& (o.persistence is None)
    &&& (o.status == Status::Unknown ==> o.observed@.len() > 0)
    &&& (o.status == Status::Fail ==> crate::model::steps(o.fix@) =~= edit_fix(ctx, seq![("add --no-xdp"@, Some("alongside --allow-private-addr"@))]))
    &&& (gate_status(ctx, 4, 2) is Some ==> crate::model::notes(o.fix@) =~= gate_notes(ctx, 4, 2))
    &&& (gate_status(ctx, 4, 2) is None && o.status != Status::Fail ==> o.fix@.len() == 0)
}

/// PF-ARG-0002. Private addressing with XDP on: the configuration of a fresh
/// Lima VM.
pub fn private_addr_xdp(ctx: &Ctx) -> (o: Outcome)
    ensures
        private_addr_xdp_outcome(*ctx, o),
{
    let why = PRIVATE_ADDR_WHY;
    let expected = "--no-xdp alongside --allow-private-addr";
    let inv = match gate(ctx, 4, 2, why) {
        Ok(i) => i,
        Err(o) => return o,
    };
    if !inv.has("--allow-private-addr") {
        return Outcome::pass("--allow-private-addr not in use", expected).why(why);
    }
    if inv.has("--no-xdp") {
        return Outcome::pass("--allow-private-addr paired with --no-xdp", expected).why(why);
    }
    let mut changes: Vec<FixStep> = Vec::new();
    changes.push(FixStep::noted("add --no-xdp", "alongside --allow-private-addr"));
    let ghost ch = changes@;
    let fix = edit_steps(ctx, changes);
    proof {
        lemma_edit_fix(*ctx, ch, fix@);
    }
    Outcome::fail("--allow-private-addr set, --no-xdp absent", expected).why(why).fix(fix)
}

/// The eleven arguments removed under v4.0 Validator/Breaking.
pub open spec fn removed_in_40_list() -> Seq<Seq<char>> {
    seq![
        "--accounts-db-clean-threads"@,
        "--accounts-db-hash-threads"@,
        "--accounts-db-read-cache-limit-mb"@,
        "--accounts-hash-cache-path"@,
        "--cuda"@,
        "--disable-accounts-disk-index"@,
        "--dev-halt-at-slot"@,
        "--transaction-struct"@,
        "--tpu-coalesce-ms"@,
        "--tpu-disable-quic"@,
        "--tpu-enable-udp"@,
    ]
}

fn removed_in_40_flags() -> (r: Vec<&'static str>)
    ensures
        crate::argv::str_views(r@) == removed_in_40_list(),
{
    let mut v: Vec<&'static str> = Vec::new();
    v.push("--accounts-db-clean-threads");
    v.push("--accounts-db-hash-threads");
    v.push("--accounts-db-read-cache-limit-mb");
    v.push("--accounts-hash-cache-path");
    v.push("--cuda");
    v.push("--disable-accounts-disk-index");
    v.push("--dev-halt-at-slot");
    v.push("--transaction-struct");
    v.push("--tpu-coalesce-ms");
    v.push("--tpu-disable-quic");
    v.push("--tpu-enable-udp");
    assert(crate::argv::str_views(v@) =~= removed_in_40_list());
    v
}

/// What a family of flags looks like on the command line: the ones present,
/// or that none is.
pub open spec fn present_text(found: Seq<Seq<char>>) -> Seq<char> {
    if found.len() == 0 {
        "none present"@
    } else {
        "present: "@ + join(found, ", "@)
    }
}

pub open spec fn present_status(found: Seq<Seq<char>>) -> Status {
    if found.len() == 0 {
        Status::Pass
    } else {
        Status::Fail
    }
}

/// Why removed in 40 matters, as the report gives it.
pub const REMOVED_WHY: &'static str = "These arguments were removed in v4.0. They are not deprecated: they no longer parse, so the validator exits at startup rather than running with a different setting. An upgrade turns a working node into one that will not boot.";

/// What `removed_in_40` promises of its outcome.
pub open spec fn removed_in_40_outcome(ctx: Ctx, o: Outcome) -> bool {
    &&& (fix_edits(ctx, o))
    &&& (gate_status(ctx, 4, 0) is None ==> o.expected@ =~= "none of the arguments removed in v4.0"@
        && o.observed@ =~= present_text(present(args(ctx), removed_in_40_list())))
    &&& (o.status == gated(ctx, 4, 0, present_status(present(args(ctx), removed_in_40_list()))))
    &&& (gate_status(ctx, 4, 0) is None && present(args(ctx), removed_in_40_list()).len() > 0
        ==> o.observed@ =~= "present: "@ + join(
        present(args(ctx), removed_in_40_list()),
        ", "@,
    ))
    &&& (o.why@ =~= REMOVED_WHY@)
    &&& (gate_status(ctx, 4, 0) is Some ==> (
        o.observed@,
        o.expected@,
        opt_view(o.verify),
        crate::model::commands(o.fix@),
    ) =~~= gate_report(ctx, 4, 0))
    &&& (gate_status(ctx, 4, 0) is None ==> opt_view(o.verify) == Some(
        "grep -c -- "@ + (if present(args(ctx), removed_in_40_list()).len() > 0 {
            present(args(ctx), removed_in_40_list())[0]
        } else {
            "--cuda"@
        }) + " "@ + edit_target_text(ctx) + "   # expect 0"@,
    ))
    &&& (o.persistence is None)
    &&& (o.status == Status::Unknown ==> o.observed@.len() > 0)
    &&& (o.status == Status::Fail ==> crate::model::steps(o.fix@) =~= edit_fix(ctx, plain_changes(
        present(args(ctx), removed_in_40_list()).map_values(|f: Seq<char>| "remove "@ + f),
    )))
    &&& (gate_status(ctx, 4, 0) is Some ==> crate::model::notes(o.fix@) =~= gate_notes(ctx, 4, 0))
    &&& (gate_status(ctx, 4, 0) is None && o.status != Status::Fail ==> o.fix@.len() == 0)
}

/// PF-ARG-0003. The arguments removed in v4.0: they no longer parse, so the
/// validator exits at startup.
///
/// Deliberately excludes `--use-quic` and `--use-udp`, removed from the
/// `solana` binary rather than `agave-validator`.
pub fn removed_in_40(ctx: &Ctx) -> (o: Outcome)
    ensures
        removed_in_40_outcome(*ctx, o),
{
    let why = REMOVED_WHY;
    let expected = "none of the arguments removed in v4.0";
    let inv = match gate(ctx, 4, 0, why) {
        Ok(i) => i,
        Err(o) => return o,
    };
    let list = removed_in_40_flags();
    let removed = inv.present_from(list.as_slice());
    let mut changes: Vec<String> = Vec::new();
    let mut i: usize = 0;
    while i < removed.len()
        invariant
            i <= removed@.len(),
            views(changes@) == views(removed@).take(i as int).map_values(|f: Seq<char>| "remove "@ + f),
        decreases removed.len() - i,
    {
        let ghost before = views(changes@);
        changes.push(cat("remove ", removed[i].as_str()));
        assert(views(changes@) == before.push("remove "@ + removed@[i as int]@));
        assert(views(removed@).take(i + 1).map_values(|f: Seq<char>| "remove "@ + f) == views(
            removed@,
        ).take(i as int).map_values(|f: Seq<char>| "remove "@ + f).push("remove "@ + removed@[i as int]@));
        i += 1;
    }
    assert(views(removed@).take(removed@.len() as int) == views(removed@));
    let first = if removed.len() > 0 {
        removed[0].clone()
    } else {
        owned("--cuda")
    };
    let found = crate::argv::clone_strings(&removed);
    let out = deprecated(ctx, found, expected, why, changes);
    let target = edit_target_or(ctx);
    let mut verify = cat("grep -c -- ", first.as_str());
    append(&mut verify, " ");
    append(&mut verify, target.as_str());
    append(&mut verify, "   # expect 0");
    out.verify(verify.as_str())
}

pub open spec fn bvm_inner(a: Seq<Seq<char>>) -> Status {
    if flag_value(a, "--block-verification-method"@) == Some("blockstore-processor"@) {
        Status::Fail
    } else {
        Status::Pass
    }
}

/// From release 4.0 on, `--block-verification-method blockstore-processor`
/// fails PF-ARG-0004; any other method, or none, passes.
pub proof fn law_blockstore_processor_fails(ctx: Ctx, o: Outcome)
    requires
        block_verification_method_outcome(ctx, o),
        judged_from(ctx, 4, 0),
    ensures
        flag_value(args(ctx), "--block-verification-method"@) == Some("blockstore-processor"@) ==> o.status
            == Status::Fail,
        flag_value(args(ctx), "--block-verification-method"@) != Some("blockstore-processor"@) ==> o.status
            == Status::Pass,
{
    assert(gate_status(ctx, 4, 0) is None);
}

/// Why block verification method matters, as the report gives it.
pub const VERIFICATION_METHOD_WHY: &'static str = "blockstore-processor stopped being supported in v4.0. unified-scheduler is the replacement, and removing the argument entirely selects the current default.";

/// What `block_verification_method` promises of its outcome.
pub open spec fn block_verification_method_outcome(ctx: Ctx, o: Outcome) -> bool {
    &&& (fix_edits(ctx, o))
    &&& (gate_status(ctx, 4, 0) is None ==> o.expected@
        =~= "--block-verification-method unified-scheduler, or the argument removed"@
        && o.observed@ =~= match flag_value(args(ctx), "--block-verification-method"@) {
        Some(v) => if v == "blockstore-processor"@ {
            "--block-verification-method blockstore-processor"@
        } else {
            "--block-verification-method "@ + v
        },
        None => "not set, using the current default"@,
    })
    &&& (o.status == gated(ctx, 4, 0, bvm_inner(args(ctx))))
    &&& (o.why@ =~= VERIFICATION_METHOD_WHY@)
    &&& (gate_status(ctx, 4, 0) is Some ==> (
        o.observed@,
        o.expected@,
        opt_view(o.verify),
        crate::model::commands(o.fix@),
    ) =~~= gate_report(ctx, 4, 0))
    &&& (gate_status(ctx, 4, 0) is None ==> o.verify is None)
    &&& (o.persistence is None)
    &&& (o.status == Status::Unknown ==> o.observed@.len() > 0)
    &&& (o.status == Status::Fail ==> crate::model::steps(o.fix@) =~= edit_fix(ctx, seq![("--block-verification-method blockstore-processor   ->   unified-scheduler"@, None)]))
    &&& (gate_status(ctx, 4, 0) is Some ==> crate::model::notes(o.fix@) =~= gate_notes(ctx, 4, 0))
    &&& (gate_status(ctx, 4, 0) is None && o.status != Status::Fail ==> o.fix@.len() == 0)
}

/// PF-ARG-0004. blockstore-processor stopped being supported in v4.0.
pub fn block_verification_method(ctx: &Ctx) -> (o: Outcome)
    ensures
        block_verification_method_outcome(*ctx, o),
{
    let why = VERIFICATION_METHOD_WHY;
    let expected = "--block-verification-method unified-scheduler, or the argument removed";
    let inv = match gate(ctx, 4, 0, why) {
        Ok(i) => i,
        Err(o) => return o,
    };
    match inv.value("--block-verification-method") {
        Some(v) => if crate::text::eq_lit(v.as_str(), "blockstore-processor") {
            let mut changes: Vec<FixStep> = Vec::new();
            changes.push(
                FixStep::cmd(
                    "--block-verification-method blockstore-processor   ->   unified-scheduler",
                ),
            );
            let ghost ch = changes@;
            let fix = edit_steps(ctx, changes);
            proof {
                lemma_edit_fix(*ctx, ch, fix@);
            }
            Outcome::fail("--block-verification-method blockstore-processor", expected).why(
                why,
            ).fix(fix)
        } else {
            let obs = cat("--block-verification-method ", v.as_str());
            Outcome::pass(obs.as_str(), expected).why(why)
        },
        None => Outcome::pass("not set, using the current default", expected).why(why),
    }
}

pub open spec fn bpm_inner(a: Seq<Seq<char>>) -> Status {
    if flag_value(a, "--block-production-method"@) == Some("central-scheduler"@) {
        Status::Fail
    } else {
        Status::Pass
    }
}

/// From release 4.1 on, `--block-production-method central-scheduler` fails
/// PF-ARG-0005; any other method, or none, passes.
pub proof fn law_central_scheduler_fails(ctx: Ctx, o: Outcome)
    requires
        block_production_method_outcome(ctx, o),
        judged_from(ctx, 4, 1),
    ensures
        flag_value(args(ctx), "--block-production-method"@) == Some("central-scheduler"@) ==> o.status
            == Status::Fail,
        flag_value(args(ctx), "--block-production-method"@) != Some("central-scheduler"@) ==> o.status
            == Status::Pass,
{
    assert(gate_status(ctx, 4, 1) is None);
}

/// Why block production method matters, as the report gives it.
pub const PRODUCTION_METHOD_WHY: &'static str = "central-scheduler is no longer supported as of v4.1. If passed, a warning is emitted and behaviour defaults to the greedy scheduler. The node runs, so nothing looks broken, but the scheduler you selected is not the one producing your blocks.";

/// What `block_production_method` promises of its outcome.
pub open spec fn block_production_method_outcome(ctx: Ctx, o: Outcome) -> bool {
    &&& (fix_edits(ctx, o))
    &&& (gate_status(ctx, 4, 1) is None ==> o.expected@
        =~= "--block-production-method central-scheduler-greedy, or the argument removed"@
        && o.observed@ =~= match flag_value(args(ctx), "--block-production-method"@) {
        Some(v) => if v == "central-scheduler"@ {
            "--block-production-method central-scheduler"@
        } else {
            "--block-production-method "@ + v
        },
        None => "not set, greedy scheduler is the default"@,
    })
    &&& (o.status == gated(ctx, 4, 1, bpm_inner(args(ctx))))
    &&& (o.why@ =~= PRODUCTION_METHOD_WHY@)
    &&& (gate_status(ctx, 4, 1) is Some ==> (
        o.observed@,
        o.expected@,
        opt_view(o.verify),
        crate::model::commands(o.fix@),
    ) =~~= gate_report(ctx, 4, 1))
    &&& (gate_status(ctx, 4, 1) is None ==> opt_view(o.verify) == if o.status == Status::Fail {
        Some("journalctl -u "@ + unit_text_of(ctx) + " -n 200 | grep -i central-scheduler"@)
    } else {
        None
    })
    &&& (o.persistence is None)
    &&& (o.status == Status::Unknown ==> o.observed@.len() > 0)
    &&& (o.status == Status::Fail ==> crate::model::steps(o.fix@) =~= edit_fix(ctx, seq![("--block-production-method central-scheduler   ->   central-scheduler-greedy"@, None)]))
    &&& (gate_status(ctx, 4, 1) is Some ==> crate::model::notes(o.fix@) =~= gate_notes(ctx, 4, 1))
    &&& (gate_status(ctx, 4, 1) is None && o.status != Status::Fail ==> o.fix@.len() == 0)
}

/// PF-ARG-0005. central-scheduler silently falls back to greedy since v4.1.
pub fn block_production_method(ctx: &Ctx) -> (o: Outcome)
    ensures
        block_production_method_outcome(*ctx, o),
{
    let why = PRODUCTION_METHOD_WHY;
    let expected = "--block-production-method central-scheduler-greedy, or the argument removed";
    let inv = match gate(ctx, 4, 1, why) {
        Ok(i) => i,
        Err(o) => return o,
    };
    match inv.value("--block-production-method") {
        Some(v) => if crate::text::eq_lit(v.as_str(), "central-scheduler") {
            let mut changes: Vec<FixStep> = Vec::new();
            changes.push(
                FixStep::cmd(
                    "--block-production-method central-scheduler   ->   central-scheduler-greedy",
                ),
            );
            let ghost ch = changes@;
            let fix = edit_steps(ctx, changes);
            proof {
                lemma_edit_fix(*ctx, ch, fix@);
            }
            let unit = unit_or_placeholder(ctx);
            let mut verify = cat("journalctl -u ", unit.as_str());
            append(&mut verify, " -n 200 | grep -i central-scheduler");
            Outcome::fail("--block-production-method central-scheduler", expected).why(why).fix(
                fix,
            ).verify(verify.as_str())
        } else {
            let obs = cat("--block-production-method ", v.as_str());
            Outcome::pass(obs.as_str(), expected).why(why)
        },
        None => Outcome::pass("not set, greedy scheduler is the default", expected).why(why),
    }
}

pub open spec fn deprecated_xdp_list() -> Seq<Seq<char>> {
    seq![
        "--experimental-retransmit-xdp-interface"@,
        "--experimental-retransmit-xdp-cpu-cores"@,
        "--experimental-retransmit-xdp-zero-copy"@,
    ]
}

/// Why deprecated xdp flags matters, as the report gives it.
pub const XDP_FLAGS_WHY: &'static str = "XDP stopped being experimental in v4.1 and the --experimental-retransmit-xdp-* flags were deprecated in favour of --xdp-interface, --xdp-cpu-cores and --xdp-zero-copy. Behaviour is unchanged for now, but Anza's XDP setup guide still documents the old names, so units written from that post carry all three and will break when the aliases are removed.";

/// The current name of a deprecated XDP flag, as the change line writes it.
pub open spec fn xdp_rename(f: Seq<char>) -> Seq<char> {
    let prefix = "--experimental-retransmit-xdp-"@;
    f + "   ->   "@ + if prefix.is_prefix_of(f) {
        "--xdp-"@ + f.skip(prefix.len() as int)
    } else {
        f
    }
}

/// What `deprecated_xdp_flags` promises of its outcome.
pub open spec fn deprecated_xdp_flags_outcome(ctx: Ctx, o: Outcome) -> bool {
    &&& (fix_edits(ctx, o))
    &&& (gate_status(ctx, 4, 1) is None ==> o.expected@
        =~= "--xdp-interface, --xdp-cpu-cores, --xdp-zero-copy"@ && o.observed@ =~= present_text(
        present(args(ctx), deprecated_xdp_list()),
    ))
    &&& (o.status == gated(ctx, 4, 1, present_status(present(args(ctx), deprecated_xdp_list()))))
    &&& (o.why@ =~= XDP_FLAGS_WHY@)
    &&& (gate_status(ctx, 4, 1) is Some ==> (
        o.observed@,
        o.expected@,
        opt_view(o.verify),
        crate::model::commands(o.fix@),
    ) =~~= gate_report(ctx, 4, 1))
    &&& (gate_status(ctx, 4, 1) is None ==> o.verify is None)
    &&& (o.persistence is None)
    &&& (o.status == Status::Unknown ==> o.observed@.len() > 0)
    &&& (o.status == Status::Fail ==> crate::model::steps(o.fix@) =~= edit_fix(ctx, plain_changes(
        present(args(ctx), deprecated_xdp_list()).map_values(|f: Seq<char>| xdp_rename(f)),
    )))
    &&& (gate_status(ctx, 4, 1) is Some ==> crate::model::notes(o.fix@) =~= gate_notes(ctx, 4, 1))
    &&& (gate_status(ctx, 4, 1) is None && o.status != Status::Fail ==> o.fix@.len() == 0)
}

/// PF-ARG-0006. The experimental XDP flag names, deprecated in v4.1.
pub fn deprecated_xdp_flags(ctx: &Ctx) -> (o: Outcome)
    ensures
        deprecated_xdp_flags_outcome(*ctx, o),
{
    let why = XDP_FLAGS_WHY;
    let expected = "--xdp-interface, --xdp-cpu-cores, --xdp-zero-copy";
    let inv = match gate(ctx, 4, 1, why) {
        Ok(i) => i,
        Err(o) => return o,
    };
    let mut list: Vec<&'static str> = Vec::new();
    list.push("--experimental-retransmit-xdp-interface");
    list.push("--experimental-retransmit-xdp-cpu-cores");
    list.push("--experimental-retransmit-xdp-zero-copy");
    assert(crate::argv::str_views(list@) =~= deprecated_xdp_list());
    let found = inv.present_from(list.as_slice());
    let prefix = chars_of("--experimental-retransmit-xdp-");
    let mut changes: Vec<String> = Vec::new();
    let mut i: usize = 0;
    while i < found.len()
        invariant
            i <= found@.len(),
            prefix@ == "--experimental-retransmit-xdp-"@,
            views(changes@) == views(found@).take(i as int).map_values(|f: Seq<char>| xdp_rename(f)),
        decreases found.len() - i,
    {
        let f = chars_of(found[i].as_str());
        let mut line = cat(found[i].as_str(), "   ->   ");
        if crate::text::starts_with(&f, &prefix) {
            append(&mut line, "--xdp-");
            let rest = crate::text::subvec(&f, prefix.len(), f.len());
            let rs = crate::text::string_of(&rest);
            append(&mut line, rs.as_str());
            assert(rest@ == f@.skip(prefix@.len() as int));
        } else {
            append(&mut line, found[i].as_str());
        }
        assert(line@ == xdp_rename(found@[i as int]@));
        let ghost before = views(changes@);
        changes.push(line);
        assert(views(changes@) == before.push(xdp_rename(found@[i as int]@)));
        assert(views(found@).take(i + 1).map_values(|f: Seq<char>| xdp_rename(f)) == views(found@).take(
            i as int,
        ).map_values(|f: Seq<char>| xdp_rename(f)).push(xdp_rename(found@[i as int]@)));
        i += 1;
    }
    assert(views(found@).take(found@.len() as int) == views(found@));
    let found2 = crate::argv::clone_strings(&found);
    deprecated(ctx, found2, expected, why, changes)
}

/// Why deprecated poh flag matters, as the report gives it.
pub const POH_FLAG_WHY: &'static str = "Deprecated in v4.2 in favour of --poh-pinned-cpu-core. The experimental name still parses, so nothing breaks today, but it is on the same removal path the experimental XDP flags are on, and the two are usually set together by operators who followed the same guide.";

/// What `deprecated_poh_flag` promises of its outcome.
pub open spec fn deprecated_poh_flag_outcome(ctx: Ctx, o: Outcome) -> bool {
    &&& (fix_edits(ctx, o))
    &&& (gate_status(ctx, 4, 2) is None ==> o.expected@ =~= "--poh-pinned-cpu-core"@ && o.observed@
        =~= present_text(present(args(ctx), seq!["--experimental-poh-pinned-cpu-core"@])))
    &&& (o.status == gated(
        ctx,
        4,
        2,
        present_status(present(args(ctx), seq!["--experimental-poh-pinned-cpu-core"@])),
    ))
    &&& (o.why@ =~= POH_FLAG_WHY@)
    &&& (gate_status(ctx, 4, 2) is Some ==> (
        o.observed@,
        o.expected@,
        opt_view(o.verify),
        crate::model::commands(o.fix@),
    ) =~~= gate_report(ctx, 4, 2))
    &&& (gate_status(ctx, 4, 2) is None ==> o.verify is None)
    &&& (o.persistence is None)
    &&& (o.status == Status::Unknown ==> o.observed@.len() > 0)
    &&& (o.status == Status::Fail ==> crate::model::steps(o.fix@) =~= edit_fix(ctx, plain_changes(
        seq!["--experimental-poh-pinned-cpu-core   ->   --poh-pinned-cpu-core"@],
    )))
    &&& (gate_status(ctx, 4, 2) is Some ==> crate::model::notes(o.fix@) =~= gate_notes(ctx, 4, 2))
    &&& (gate_status(ctx, 4, 2) is None && o.status != Status::Fail ==> o.fix@.len() == 0)
}

/// PF-ARG-0007. The experimental PoH core flag, deprecated in v4.2.
pub fn deprecated_poh_flag(ctx: &Ctx) -> (o: Outcome)
    ensures
        deprecated_poh_flag_outcome(*ctx, o),
{
    let why = POH_FLAG_WHY;
    let expected = "--poh-pinned-cpu-core";
    let inv = match gate(ctx, 4, 2, why) {
        Ok(i) => i,
        Err(o) => return o,
    };
    let mut list: Vec<&'static str> = Vec::new();
    list.push("--experimental-poh-pinned-cpu-core");
    assert(crate::argv::str_views(list@) =~= seq!["--experimental-poh-pinned-cpu-core"@]);
    let found = inv.present_from(list.as_slice());
    let mut changes: Vec<String> = Vec::new();
    changes.push(owned("--experimental-poh-pinned-cpu-core   ->   --poh-pinned-cpu-core"));
    deprecated(ctx, found, expected, why, changes)
}

pub open spec fn deprecated_adb_list() -> Seq<Seq<char>> {
    seq![
        "--accounts-db-cache-limit-mb"@,
        "--accounts-db-access-storages-method"@,
        "--account-shrink-path"@,
    ]
}

/// The change line for each deprecated accounts-db argument present. The
/// cache limit gets a rename of its own, after these.
pub open spec fn adb_change_lines(found: Seq<Seq<char>>) -> Seq<Seq<char>>
    decreases found.len(),
{
    if found.len() == 0 {
        Seq::empty()
    } else {
        let rest = adb_change_lines(found.drop_last());
        let f = found.last();
        if f == "--accounts-db-cache-limit-mb"@ {
            rest
        } else if f == "--accounts-db-access-storages-method"@ {
            rest.push("remove --accounts-db-access-storages-method   (no-op since v4.2)"@)
        } else {
            rest.push("remove "@ + f)
        }
    }
}

/// Every change PF-ARG-0008 asks for, with the cache limit's rename last.
pub open spec fn adb_changes(c: Ctx) -> Seq<(Seq<char>, Option<Seq<char>>)> {
    plain_changes(adb_change_lines(present(args(c), deprecated_adb_list()))) + match flag_value(
        args(c),
        "--accounts-db-cache-limit-mb"@,
    ) {
        Some(v) => seq![
            (
                crate::model::rename_command(
                    "--accounts-db-cache-limit-mb"@,
                    "--accounts-db-write-cache-limit"@,
                    Some(v),
                    ValueCarry::Unverified,
                ),
                crate::model::rename_note(Some(v), ValueCarry::Unverified),
            ),
        ],
        None => Seq::empty(),
    }
}

/// A step added to an edit just before the restart, or at the end when there
/// is none, is one more change.
proof fn lemma_insert_before_restart(
    c: Ctx,
    before: Seq<FixStep>,
    p: Seq<(Seq<char>, Option<Seq<char>>)>,
    at: int,
    z: FixStep,
    y: (Seq<char>, Option<Seq<char>>),
)
    requires
        crate::model::steps(before) == edit_fix(c, p),
        0 <= at <= before.len(),
        forall|k: int|
            0 <= k < at ==> !"sudo systemctl restart"@.is_prefix_of(#[trigger] before[k].command@),
        at < before.len() ==> "sudo systemctl restart"@.is_prefix_of(before[at].command@),
        z.command@ == "  "@ + y.0,
        opt_view(z.note) == y.1,
    ensures
        crate::model::steps(before.insert(at, z)) == edit_fix(c, p.push(y)),
{
    reveal_strlit("sudo systemctl restart");
    reveal_strlit("  ");
    reveal_strlit("edit ");
    reveal_strlit("edit your validator command line");
    reveal_strlit("sudo systemctl restart ");
    let n: int = (p.len() + 1) as int;
    assert(crate::model::steps(before).len() == before.len());
    assert(edit_fix(c, p).len() == n + if unit_name(c) is Some {
        1int
    } else {
        0int
    });
    assert(before.len() == n + if unit_name(c) is Some {
        1int
    } else {
        0int
    });
    assert forall|k: int| 0 <= k < n implies !"sudo systemctl restart"@.is_prefix_of(
        #[trigger] before[k].command@,
    ) by {
        let cmd = before[k].command@;
        assert(crate::model::steps(before)[k].0 == cmd);
        if k == 0 {
            assert(cmd[0] == 'e');
        } else {
            assert(cmd == "  "@ + p[k - 1].0);
            assert(cmd[0] == ' ');
        }
        if "sudo systemctl restart"@.is_prefix_of(cmd) {
            assert(cmd[0] == "sudo systemctl restart"@[0]);
        }
    }
    if unit_name(c) is Some {
        let last = before[n].command@;
        assert(crate::model::steps(before)[n].0 == last);
        assert(last.subrange(0, 22) =~= "sudo systemctl restart"@);
        assert("sudo systemctl restart"@.is_prefix_of(last));
    }
    assert(at == n);
    let got = crate::model::steps(before.insert(at, z));
    let want = edit_fix(c, p.push(y));
    assert(got.len() == want.len());
    assert forall|k: int| 0 <= k < got.len() implies got[k] == want[k] by {
        if k < n {
            assert(before.insert(at, z)[k] == before[k]);
            assert(crate::model::steps(before)[k] == got[k]);
        } else if k == n {
            assert(before.insert(at, z)[k] == z);
        } else {
            assert(before.insert(at, z)[k] == before[k - 1]);
            assert(crate::model::steps(before)[k - 1] == got[k]);
        }
    }
    assert(got =~= want);
}

/// Why the deprecated accounts-db arguments matter.
pub const ADB_WHY: &'static str = "Deprecated across v4.1 and v4.2. They still parse, so the node starts and nothing looks wrong, but a deprecated flag no longer necessarily does what its name says.";

/// What the reason adds for the renamed cache limit.
pub const CACHE_LIMIT_NOTE: &'static str = " --accounts-db-cache-limit-mb is superseded by --accounts-db-write-cache-limit, so the size you set here is not the one in effect. The old name carries its unit and the new one does not, and preflight has not read the replacement's unit from your binary, so it will not tell you what number to put there.";

/// What the reason adds for the storage access method.
pub const STORAGES_NOTE: &'static str = " --accounts-db-access-storages-method is a no-op since v4.2, because mmap mode was removed entirely: whoever set it believes they chose a storage access mode and did not.";

/// The reason PF-ARG-0008 gives, with a sentence for each argument that
/// needs one.
pub open spec fn adb_why(c: Ctx) -> Seq<char> {
    let found = present(args(c), deprecated_adb_list());
    ADB_WHY@ + (if found.contains("--accounts-db-cache-limit-mb"@) {
        CACHE_LIMIT_NOTE@
    } else {
        Seq::empty()
    }) + (if found.contains("--accounts-db-access-storages-method"@) {
        STORAGES_NOTE@
    } else {
        Seq::empty()
    })
}

/// What `deprecated_accounts_db` promises of its outcome.
pub open spec fn deprecated_accounts_db_outcome(ctx: Ctx, o: Outcome) -> bool {
    &&& (fix_edits(ctx, o))
    &&& (gate_status(ctx, 4, 1) is None ==> o.expected@
        =~= "none of the deprecated accounts-db arguments"@ && o.observed@ =~= present_text(
        present(args(ctx), deprecated_adb_list()),
    ))
    &&& (o.status == gated(ctx, 4, 1, present_status(present(args(ctx), deprecated_adb_list()))))
    &&& (o.why@ =~= if gate_status(ctx, 4, 1) is None {
        adb_why(ctx)
    } else {
        ADB_WHY@
    })
    &&& (gate_status(ctx, 4, 1) is Some ==> (
        o.observed@,
        o.expected@,
        opt_view(o.verify),
        crate::model::commands(o.fix@),
    ) =~~= gate_report(ctx, 4, 1))
    &&& (gate_status(ctx, 4, 1) is None ==> o.verify is None)
    &&& (o.persistence is None)
    &&& (o.status == Status::Unknown ==> o.observed@.len() > 0)
    &&& (o.status == Status::Fail ==> crate::model::steps(o.fix@) =~= edit_fix(ctx, adb_changes(ctx)))
    &&& (gate_status(ctx, 4, 1) is Some ==> crate::model::notes(o.fix@) =~= gate_notes(ctx, 4, 1))
    &&& (gate_status(ctx, 4, 1) is None && o.status != Status::Fail ==> o.fix@.len() == 0)
}

/// PF-ARG-0008. Deprecated accounts-db arguments: they still parse, but no
/// longer necessarily do what their names say.
pub fn deprecated_accounts_db(ctx: &Ctx) -> (o: Outcome)
    ensures
        deprecated_accounts_db_outcome(*ctx, o),
{
    let why_base = ADB_WHY;
    let expected = "none of the deprecated accounts-db arguments";
    let inv = match gate(ctx, 4, 1, why_base) {
        Ok(i) => i,
        Err(o) => return o,
    };
    let mut list: Vec<&'static str> = Vec::new();
    list.push("--accounts-db-cache-limit-mb");
    list.push("--accounts-db-access-storages-method");
    list.push("--account-shrink-path");
    assert(crate::argv::str_views(list@) =~= deprecated_adb_list());
    let found = inv.present_from(list.as_slice());
    let mut changes: Vec<String> = Vec::new();
    let mut has_cache = false;
    let mut has_noop = false;
    let mut i: usize = 0;
    while i < found.len()
        invariant
            i <= found@.len(),
            has_cache == views(found@).take(i as int).contains("--accounts-db-cache-limit-mb"@),
            has_noop == views(found@).take(i as int).contains("--accounts-db-access-storages-method"@),
            views(changes@) == adb_change_lines(views(found@).take(i as int)),
        decreases found.len() - i,
    {
        assert(views(found@).take(i + 1) == views(found@).take(i as int).push(found@[i as int]@));
        proof {
            reveal_strlit("--accounts-db-cache-limit-mb");
            reveal_strlit("--accounts-db-access-storages-method");
            assert("--accounts-db-cache-limit-mb"@.len() != "--accounts-db-access-storages-method"@.len());
            let pre = views(found@).take(i as int);
            let x = found@[i as int]@;
            assert(pre.push(x).contains("--accounts-db-cache-limit-mb"@) == (pre.contains(
                "--accounts-db-cache-limit-mb"@,
            ) || x == "--accounts-db-cache-limit-mb"@)) by {
                if x == "--accounts-db-cache-limit-mb"@ {
                    assert(pre.push(x)[pre.len() as int] == x);
                }
                if pre.contains("--accounts-db-cache-limit-mb"@) {
                    let k = choose|k: int| 0 <= k < pre.len() && pre[k] == "--accounts-db-cache-limit-mb"@;
                    assert(pre.push(x)[k] == pre[k]);
                }
            }
            assert(pre.push(x).contains("--accounts-db-access-storages-method"@) == (pre.contains(
                "--accounts-db-access-storages-method"@,
            ) || x == "--accounts-db-access-storages-method"@)) by {
                if x == "--accounts-db-access-storages-method"@ {
                    assert(pre.push(x)[pre.len() as int] == x);
                }
                if pre.contains("--accounts-db-access-storages-method"@) {
                    let k = choose|k: int|
                        0 <= k < pre.len() && pre[k] == "--accounts-db-access-storages-method"@;
                    assert(pre.push(x)[k] == pre[k]);
                }
            }
        }
        let f = found[i].as_str();
        let ghost before = views(changes@);
        assert(views(found@).take(i + 1).drop_last() == views(found@).take(i as int));
        if crate::text::eq_lit(f, "--accounts-db-cache-limit-mb") {
            has_cache = true;
        } else if crate::text::eq_lit(f, "--accounts-db-access-storages-method") {
            has_noop = true;
            changes.push(owned("remove --accounts-db-access-storages-method   (no-op since v4.2)"));
            assert(views(changes@) == before.push(
                "remove --accounts-db-access-storages-method   (no-op since v4.2)"@,
            ));
        } else {
            changes.push(cat("remove ", f));
            assert(views(changes@) == before.push("remove "@ + f@));
        }
        i += 1;
    }
    // Explain the flags that actually fired, not the whole family.
    assert(views(found@).take(found@.len() as int) == views(found@));
    let mut why = owned(why_base);
    if has_cache {
        append(
            &mut why,
            CACHE_LIMIT_NOTE,
        );
    }
    if has_noop {
        append(
            &mut why,
            STORAGES_NOTE,
        );
    }
    let cache_value = inv.value("--accounts-db-cache-limit-mb");
    let ghost chv = views(changes@);
    let out = deprecated(ctx, found, expected, why.as_str(), changes);
    match cache_value {
        None => out,
        Some(v) => {
            // A value implies the flag is present, so the outcome is a failure;
            // the rename only ever joins a fix that exists.
            if !matches!(out.status, Status::Fail) {
                return out;
            }
            let step = FixStep::rename(
                "--accounts-db-cache-limit-mb",
                "--accounts-db-write-cache-limit",
                Some(v.as_str()),
                ValueCarry::Unverified,
            );
            let mut o = out;
            // Before the restart, or the block reads "restart, then edit".
            let mut at: usize = 0;
            let mut stop = false;
            while at < o.fix.len() && !stop
                invariant
                    at <= o.fix@.len(),
                    stop ==> at < o.fix@.len(),
                    stop ==> "sudo systemctl restart"@.is_prefix_of(o.fix@[at as int].command@),
                    forall|k: int|
                        0 <= k < at ==> !"sudo systemctl restart"@.is_prefix_of(
                            #[trigger] o.fix@[k].command@,
                        ),
                decreases (o.fix.len() - at) * 2 + if stop {
                    0int
                } else {
                    1int
                },
            {
                if crate::text::str_starts(o.fix[at].command.as_str(), "sudo systemctl restart") {
                    stop = true;
                } else {
                    at += 1;
                }
            }
            let ghost before = o.fix@;
            proof {
                if o.status == Status::Fail {
                    reveal_strlit("sudo systemctl restart");
                    reveal_strlit("sudo systemctl restart ");
                    reveal_strlit("edit ");
                    reveal_strlit("edit your validator command line");
                    assert(edits_file(*ctx, before));
                    let c0 = before[0].command@;
                    assert(c0[0] == 'e');
                    assert(!"sudo systemctl restart"@.is_prefix_of(c0)) by {
                        if "sudo systemctl restart"@.is_prefix_of(c0) {
                            assert(c0.subrange(0, 22)[0] == c0[0]);
                        }
                    }
                    if unit_name(*ctx) is Some {
                        let u = unit_name(*ctx)->0;
                        let cl = before.last().command@;
                        assert(cl == "sudo systemctl restart "@ + u);
                        assert(cl.subrange(0, 22) =~= "sudo systemctl restart"@);
                        assert("sudo systemctl restart"@.is_prefix_of(cl));
                    }
                }
            }
            let command = cat("  ", step.command.as_str());
            let ghost st = o.status;
            let z = FixStep { command, note: step.note };
            proof {
                if o.status == Status::Fail {
                    lemma_insert_before_restart(
                        *ctx,
                        before,
                        plain_changes(chv),
                        at as int,
                        z,
                        (step.command@, opt_view(step.note)),
                    );
                }
            }
            o.fix.insert(at, z);
            assert(o.status == st);
            proof {
                if o.status == Status::Fail {
                    assert(o.fix@ == before.insert(at as int, o.fix@[at as int]));
                    assert(o.fix@[0] == before[0]);
                    if unit_name(*ctx) is Some {
                        assert(o.fix@.last() == before.last());
                    }
                }
            }
            o
        },
    }
}

pub open spec fn index_limit_inner(a: Seq<Seq<char>>) -> Status {
    if flag_value(a, "--accounts-index-limit"@) == Some("minimal"@) {
        Status::Fail
    } else {
        Status::Pass
    }
}

/// A validator whose command line was resolved in full, with no unexpanded
/// token, running release `major.minor` or later: the command-line checks
/// that start at that release judge it.
pub open spec fn judged_from(c: Ctx, major: u64, minor: u64) -> bool {
    &&& c.validator_present
    &&& c.invocation is Some
    &&& bare_token(views(c.invocation->0.unresolved@)) is None
    &&& c.version matches Some(v) && (v.major > major || (v.major == major && v.minor >= minor))
}

/// From release 4.1 on, `--accounts-index-limit minimal` fails PF-ARG-0009 with
/// a step that replaces the word by a size, and any other value, or no value
/// at all, passes; on a validator whose command line was resolved in full.
pub proof fn law_minimal_index_limit_fails(ctx: Ctx, o: Outcome)
    requires
        accounts_index_limit_outcome(ctx, o),
        judged_from(ctx, 4, 1),
    ensures
        flag_value(args(ctx), "--accounts-index-limit"@) == Some("minimal"@) ==> o.status == Status::Fail
            && o.observed@ == "--accounts-index-limit minimal"@ && o.fix@.len() >= 2
            && o.fix@[1].command@ == "  --accounts-index-limit minimal   ->   --accounts-index-limit <size>"@,
        flag_value(args(ctx), "--accounts-index-limit"@) != Some("minimal"@) ==> o.status == Status::Pass
            && o.fix@.len() == 0,
        flag_value(args(ctx), "--accounts-index-limit"@) matches Some(w) ==> o.observed@
            == "--accounts-index-limit "@ + w,
        flag_value(args(ctx), "--accounts-index-limit"@) is None ==> o.observed@ == "not set"@,
        o.expected@ == "an explicit size, e.g. --accounts-index-limit 25GB"@,
{
    assert(gate_status(ctx, 4, 1) is None);
    reveal_strlit("--accounts-index-limit ");
    reveal_strlit("minimal");
    reveal_strlit("--accounts-index-limit minimal");
    if flag_value(args(ctx), "--accounts-index-limit"@) == Some("minimal"@) {
        assert("--accounts-index-limit minimal"@ =~= "--accounts-index-limit "@ + "minimal"@);
    }
    if o.status == Status::Fail {
        let want = edit_fix(ctx, seq![
            (
                "--accounts-index-limit minimal   ->   --accounts-index-limit <size>"@,
                Some("pick a size for your box; 'minimal' does not mean the same thing across releases"@),
            ),
        ]);
        assert(crate::model::steps(o.fix@) == want);
        assert(want[1].0 == "  "@ + "--accounts-index-limit minimal   ->   --accounts-index-limit <size>"@);
        assert(crate::model::steps(o.fix@)[1] == want[1]);
        reveal_strlit("  ");
        reveal_strlit("--accounts-index-limit minimal   ->   --accounts-index-limit <size>");
        reveal_strlit("  --accounts-index-limit minimal   ->   --accounts-index-limit <size>");
        assert(o.fix@[1].command@ =~= "  --accounts-index-limit minimal   ->   --accounts-index-limit <size>"@);
    }
}

/// Why accounts index limit matters, as the report gives it.
pub const INDEX_LIMIT_WHY: &'static str = "The value 'minimal' is deprecated as of v4.1. It is a relative word whose meaning is set by the release, not by you, so the allocation you get is not necessarily the allocation you chose. Set a size.";

/// What `accounts_index_limit` promises of its outcome.
pub open spec fn accounts_index_limit_outcome(ctx: Ctx, o: Outcome) -> bool {
    &&& (fix_edits(ctx, o))
    &&& (gate_status(ctx, 4, 1) is None ==> o.expected@
        =~= "an explicit size, e.g. --accounts-index-limit 25GB"@ && o.observed@ =~= match flag_value(
        args(ctx),
        "--accounts-index-limit"@,
    ) {
        Some(v) => if v == "minimal"@ {
            "--accounts-index-limit minimal"@
        } else {
            "--accounts-index-limit "@ + v
        },
        None => "not set"@,
    })
    &&& (o.status == gated(ctx, 4, 1, index_limit_inner(args(ctx))))
    &&& (o.why@ =~= INDEX_LIMIT_WHY@)
    &&& (gate_status(ctx, 4, 1) is Some ==> (
        o.observed@,
        o.expected@,
        opt_view(o.verify),
        crate::model::commands(o.fix@),
    ) =~~= gate_report(ctx, 4, 1))
    &&& (gate_status(ctx, 4, 1) is None ==> o.verify is None)
    &&& (o.persistence is None)
    &&& (o.status == Status::Unknown ==> o.observed@.len() > 0)
    &&& (o.status == Status::Fail ==> crate::model::steps(o.fix@) =~= edit_fix(ctx, seq![
        (
            "--accounts-index-limit minimal   ->   --accounts-index-limit <size>"@,
            Some("pick a size for your box; 'minimal' does not mean the same thing across releases"@),
        ),
    ]))
    &&& (gate_status(ctx, 4, 1) is Some ==> crate::model::notes(o.fix@) =~= gate_notes(ctx, 4, 1))
    &&& (gate_status(ctx, 4, 1) is None && o.status != Status::Fail ==> o.fix@.len() == 0)
}

/// PF-ARG-0009. 'minimal' is a relative word whose meaning the release sets.
pub fn accounts_index_limit(ctx: &Ctx) -> (o: Outcome)
    ensures
        accounts_index_limit_outcome(*ctx, o),
{
    let why = INDEX_LIMIT_WHY;
    let expected = "an explicit size, e.g. --accounts-index-limit 25GB";
    let inv = match gate(ctx, 4, 1, why) {
        Ok(i) => i,
        Err(o) => return o,
    };
    match inv.value("--accounts-index-limit") {
        Some(v) => if crate::text::eq_lit(v.as_str(), "minimal") {
            let mut changes: Vec<FixStep> = Vec::new();
            changes.push(
                FixStep::noted(
                    "--accounts-index-limit minimal   ->   --accounts-index-limit <size>",
                    "pick a size for your box; 'minimal' does not mean the same thing across releases",
                ),
            );
            let ghost ch = changes@;
            let fix = edit_steps(ctx, changes);
            proof {
                lemma_edit_fix(*ctx, ch, fix@);
            }
            Outcome::fail("--accounts-index-limit minimal", expected).why(why).fix(fix)
        } else {
            let obs = cat("--accounts-index-limit ", v.as_str());
            Outcome::pass(obs.as_str(), expected).why(why)
        },
        None => Outcome::pass("not set", expected).why(why),
    }
}

pub open spec fn direct_io_inner(c: Ctx) -> Status {
    let a = args(c);
    match flag_value(a, "--accounts"@) {
        None => Status::Unknown,
        Some(acc) => {
            let ms = crate::checks::fs::mounts_spec(c);
            if ms.len() == 0 {
                Status::Unknown
            } else {
                match crate::checks::fs::best_mount(ms, acc) {
                    None => Status::Unknown,
                    Some(i) => if crate::checks::fs::no_odirect(ms[i].2) && !has_flag(
                        a,
                        "--no-accounts-db-snapshots-direct-io"@,
                    ) {
                        Status::Fail
                    } else {
                        Status::Pass
                    },
                }
            }
        },
    }
}

/// What PF-ARG-0010 observes: the accounts path's filesystem, and whether the
/// opt-out matches it.
pub open spec fn direct_io_observed(c: Ctx) -> Seq<char> {
    let a = args(c);
    match flag_value(a, "--accounts"@) {
        None => "--accounts not set in the invocation, cannot resolve its filesystem"@,
        Some(acc) => {
            let ms = crate::checks::fs::mounts_spec(c);
            if ms.len() == 0 {
                "cannot read /proc/mounts: this check needs a Linux host, or --root pointed at one"@
            } else {
                match crate::checks::fs::best_mount(ms, acc) {
                    None => "no mount found for "@ + acc,
                    Some(i) => {
                        let (target, fst) = (ms[i].0, ms[i].2);
                        let opted_out = has_flag(a, "--no-accounts-db-snapshots-direct-io"@);
                        if crate::checks::fs::no_odirect(fst) && !opted_out {
                            acc + " is on "@ + target + " ("@ + fst + ")"@
                                + ", --no-accounts-db-snapshots-direct-io absent"@
                        } else if !crate::checks::fs::no_odirect(fst) && opted_out {
                            "opted out of direct I/O on "@ + target + " ("@ + fst + ")"@
                                + ", which does support O_DIRECT"@
                        } else {
                            target + " is "@ + fst + ", setting is consistent"@
                        }
                    },
                }
            }
        },
    }
}

/// Why direct io matters, as the report gives it.
pub const DIRECT_IO_FLAG_WHY: &'static str = "Snapshot archive unpacking uses direct I/O by default since v4.0 to bypass the page cache. On a filesystem without O_DIRECT the unpack fails, and the failure surfaces during a snapshot restore rather than at startup, which is the worst time to discover it.";

/// The flag's half and the filesystem's half of direct I/O agree: on a Linux
/// host whose command line is in scope, the flag check fails exactly when the
/// filesystem check does.
pub proof fn law_direct_io_halves_agree(c: Ctx)
    requires
        c.linux,
        c.invocation is Some,
    ensures
        (direct_io_inner(c) == Status::Fail) == (crate::checks::fs::direct_io_support_status(c)
            == Status::Fail),
{
    reveal_strlit("accounts");
    reveal_strlit("ledger");
    reveal_strlit("snapshots");
    let a = args(c);
    let ps = crate::checks::fs::paths_spec(c);
    match flag_value(a, "--accounts"@) {
        Some(v) => {
            assert(ps[0] == ("accounts"@, v));
        },
        None => {
            let rest = crate::checks::fs::path_entry(a, "ledger"@, "--ledger"@)
                + crate::checks::fs::path_entry(a, "snapshots"@, "--snapshots"@);
            assert(ps =~= rest);
            assert(forall|k: int| 0 <= k < rest.len() ==> (#[trigger] rest[k]).0 != "accounts"@) by {
                assert("ledger"@[0] != "accounts"@[0]);
                assert("snapshots"@[0] != "accounts"@[0]);
            }
            crate::text::lemma_lookup_absent(rest, "accounts"@);
        },
    }
}

/// What `direct_io` promises of its outcome.
pub open spec fn direct_io_outcome(ctx: Ctx, o: Outcome) -> bool {
    &&& (fix_edits(ctx, o))
    &&& (gate_status(ctx, 4, 0) is None ==> o.observed@ =~= direct_io_observed(ctx))
    &&& (o.status == gated(ctx, 4, 0, direct_io_inner(ctx)))
    &&& (o.why@ =~= DIRECT_IO_FLAG_WHY@)
    &&& (gate_status(ctx, 4, 0) is Some ==> (
        o.observed@,
        o.expected@,
        opt_view(o.verify),
        crate::model::commands(o.fix@),
    ) =~~= gate_report(ctx, 4, 0))
    &&& (gate_status(ctx, 4, 0) is None ==> o.verify is None)
    &&& (o.persistence is None)
    &&& (o.status == Status::Unknown ==> o.observed@.len() > 0)
    &&& (o.status == Status::Fail ==> crate::model::steps(o.fix@) =~= edit_fix(ctx, seq![("add --no-accounts-db-snapshots-direct-io"@, None)]))
    &&& (gate_status(ctx, 4, 0) is Some ==> crate::model::notes(o.fix@) =~= gate_notes(ctx, 4, 0))
    &&& (gate_status(ctx, 4, 0) is None && o.status != Status::Fail ==> o.fix@.len() == 0)
}

/// PF-ARG-0010. The one check in this layer that is not pure argv: it
/// cross-references the filesystem holding the accounts path, because the
/// remediation is a flag.
pub fn direct_io(ctx: &Ctx) -> (o: Outcome)
    ensures
        direct_io_outcome(*ctx, o),
{
    let why = DIRECT_IO_FLAG_WHY;
    let expected = "--no-accounts-db-snapshots-direct-io present only when the accounts filesystem lacks O_DIRECT";
    let inv = match gate(ctx, 4, 0, why) {
        Ok(i) => i,
        Err(o) => return o,
    };
    let opted_out = inv.has("--no-accounts-db-snapshots-direct-io");
    let accounts = match inv.value("--accounts") {
        Some(a) => a,
        None => {
            proof {
                reveal_strlit("--accounts not set in the invocation, cannot resolve its filesystem");
            }
            return Outcome::unknown(
                "--accounts not set in the invocation, cannot resolve its filesystem",
            ).why(why);
        },
    };
    let all = crate::checks::fs::mounts(ctx);
    if all.len() == 0 {
        proof {
            reveal_strlit("cannot read /proc/mounts: this check needs a Linux host, or --root pointed at one");
        }
        return Outcome::unknown(
            "cannot read /proc/mounts: this check needs a Linux host, or --root pointed at one",
        ).why(why);
    }
    let best = match crate::checks::fs::mount_for(all.as_slice(), accounts.as_str()) {
        Some(m) => m,
        None => {
            let obs = cat("no mount found for ", accounts.as_str());
            proof {
                reveal_strlit("no mount found for ");
            }
            return Outcome::unknown(obs.as_str()).why(why);
        },
    };
    let fst = best.fstype.as_str();
    let no_odirect = crate::text::eq_lit(fst, "tmpfs") || crate::text::eq_lit(fst, "zfs")
        || crate::text::eq_lit(fst, "nfs") || crate::text::eq_lit(fst, "nfs4")
        || crate::text::eq_lit(fst, "overlay") || crate::text::eq_lit(fst, "cifs")
        || crate::text::eq_lit(fst, "9p");
    let mut place = owned(best.target.as_str());
    append(&mut place, " (");
    append(&mut place, fst);
    append(&mut place, ")");
    if no_odirect && !opted_out {
        let mut obs = cat(accounts.as_str(), " is on ");
        append(&mut obs, place.as_str());
        append(&mut obs, ", --no-accounts-db-snapshots-direct-io absent");
        let mut changes: Vec<FixStep> = Vec::new();
        changes.push(FixStep::cmd("add --no-accounts-db-snapshots-direct-io"));
        let ghost ch = changes@;
        let fix = edit_steps(ctx, changes);
        proof {
            lemma_edit_fix(*ctx, ch, fix@);
        }
        return Outcome::fail(obs.as_str(), expected).why(why).fix(fix);
    }
    if !no_odirect && opted_out {
        let mut obs = cat("opted out of direct I/O on ", place.as_str());
        append(&mut obs, ", which does support O_DIRECT");
        return Outcome::pass(obs.as_str(), expected).why(why);
    }
    let mut obs = cat(best.target.as_str(), " is ");
    append(&mut obs, fst);
    append(&mut obs, ", setting is consistent");
    Outcome::pass(obs.as_str(), expected).why(why)
}

pub open spec fn has_inner(a: Seq<Seq<char>>, flag: Seq<char>) -> Status {
    if has_flag(a, flag) {
        Status::Fail
    } else {
        Status::Pass
    }
}

/// The value that keeps the same history under the flag that counts coding
/// shreds too: twice a number, or "twice that" when there is no number.
pub open spec fn doubled(n: Seq<char>) -> Seq<char> {
    match parse_u64(n) {
        Some(v) => if v * 2 <= u64::MAX {
            dec((v * 2) as nat)
        } else {
            "twice that"@
        },
        None => "twice that"@,
    }
}

/// What the renamed ledger limit's value needs.
pub const DOUBLING_NOTE: &'static str = "the new flag counts coding shreds too, so roughly double it; a starting point, not a conversion";

/// Why the ledger size flag matters.
pub const LEDGER_LIMIT_WHY: &'static str = "The two flags count different things. BlockstoreCleanupStrategy has one variant per flag: CountDataShreds for --limit-ledger-size, CountDataAndCodingShreds for --limit-blockstore-size. Turbine erasure-codes every block, so the store holds coding shreds alongside the data ones and both take real disk. The old flag counted only the data half, so the store held roughly twice whatever you set, and the multiple moved with the cluster's erasure ratio. The new one counts everything that is actually there, which is why disk use may read higher at steady state and yet stay steadier when the cluster gets strange.";

/// What the reason adds when the old flag carries no value.
pub const DEFAULT_RATIO_NOTE: &'static str = " You are on the default. The defaults already sit in that ratio: LEGACY_DEFAULT_MAX_LEDGER_SHREDS is 200,000,000 data shreds and DEFAULT_MAX_BLOCKSTORE_SHREDS is 400,000,000 data and coding shreds, so the rename keeps the same retention with nothing to convert.";

/// The reason PF-ARG-0011 gives: with a value, what doubling it comes to;
/// without one, that the defaults already sit in the ratio.
pub open spec fn ledger_limit_why(c: Ctx) -> Seq<char> {
    if gate_status(c, 4, 3) is Some || !has_flag(args(c), "--limit-ledger-size"@) {
        LEDGER_LIMIT_WHY@
    } else {
        match flag_value(args(c), "--limit-ledger-size"@) {
            Some(n) => LEDGER_LIMIT_WHY@ + " You set "@ + n + ", which counted data shreds only, so about "@
                + (match parse_u64(n) {
                Some(v) => if v <= u64::MAX / 2 {
                    dec((v * 2) as nat)
                } else {
                    "twice that"@
                },
                None => "twice that"@,
            }) + " keeps the same history under the flag that counts both."@,
            None => LEDGER_LIMIT_WHY@ + DEFAULT_RATIO_NOTE@,
        }
    }
}

/// What `limit_ledger_size` promises of its outcome.
pub open spec fn limit_ledger_size_outcome(ctx: Ctx, o: Outcome) -> bool {
    &&& (fix_edits(ctx, o))
    &&& (gate_status(ctx, 4, 3) is None ==> o.expected@ =~= "--limit-blockstore-size"@ && o.observed@
        =~= if !has_flag(args(ctx), "--limit-ledger-size"@) {
        "--limit-ledger-size not in use"@
    } else {
        match flag_value(args(ctx), "--limit-ledger-size"@) {
            Some(n) => "--limit-ledger-size "@ + n,
            None => "--limit-ledger-size, with no value"@,
        }
    })
    &&& (o.status == gated(ctx, 4, 3, has_inner(args(ctx), "--limit-ledger-size"@)))
    &&& (gate_status(ctx, 4, 3) is None && has_flag(args(ctx), "--limit-ledger-size"@) ==> {
        let extra: int = if unit_name(ctx) is Some {
            1
        } else {
            0
        };
        o.fix@.len() == 2 + extra
    })
    &&& (o.why@ =~= ledger_limit_why(ctx))
    &&& (gate_status(ctx, 4, 3) is Some ==> (
        o.observed@,
        o.expected@,
        opt_view(o.verify),
        crate::model::commands(o.fix@),
    ) =~~= gate_report(ctx, 4, 3))
    &&& (gate_status(ctx, 4, 3) is None ==> o.verify is None)
    &&& (o.persistence is None)
    &&& (o.status == Status::Unknown ==> o.observed@.len() > 0)
    &&& (o.status == Status::Fail ==> crate::model::steps(o.fix@) =~= edit_fix(
        ctx,
        match flag_value(args(ctx), "--limit-ledger-size"@) {
            Some(n) => seq![
                (
                    crate::model::rename_command(
                        "--limit-ledger-size"@,
                        "--limit-blockstore-size"@,
                        Some(n),
                        ValueCarry::DifferentSemantics(DOUBLING_NOTE),
                    ),
                    crate::model::rename_note(Some(n), ValueCarry::DifferentSemantics(DOUBLING_NOTE)),
                ),
            ],
            None => seq![
                (
                    crate::model::rename_command(
                        "--limit-ledger-size"@,
                        "--limit-blockstore-size"@,
                        None,
                        ValueCarry::NoValueSet,
                    ),
                    crate::model::rename_note(None, ValueCarry::NoValueSet),
                ),
            ],
        },
    ))
    &&& (gate_status(ctx, 4, 3) is Some ==> crate::model::notes(o.fix@) =~= gate_notes(ctx, 4, 3))
    &&& (gate_status(ctx, 4, 3) is None && o.status != Status::Fail ==> o.fix@.len() == 0)
}

/// PF-ARG-0011. --limit-ledger-size counts data shreds only;
/// --limit-blockstore-size counts data and coding shreds.
pub fn limit_ledger_size(ctx: &Ctx) -> (o: Outcome)
    ensures
        limit_ledger_size_outcome(*ctx, o),
{
    let why = LEDGER_LIMIT_WHY;
    let expected = "--limit-blockstore-size";
    let inv = match gate(ctx, 4, 3, why) {
        Ok(i) => i,
        Err(o) => return o,
    };
    if !inv.has("--limit-ledger-size") {
        return Outcome::pass("--limit-ledger-size not in use", expected).why(why);
    }
    // The doubling guidance only applies to a value someone chose.
    match inv.value("--limit-ledger-size") {
        Some(n) => {
            let twice = match parse_u64_str_of(n.as_str()) {
                Some(v) => if v <= u64::MAX / 2 {
                    dec_string(v * 2)
                } else {
                    owned("twice that")
                },
                None => owned("twice that"),
            };
            let mut w = owned(why);
            append(&mut w, " You set ");
            append(&mut w, n.as_str());
            append(&mut w, ", which counted data shreds only, so about ");
            append(&mut w, twice.as_str());
            append(&mut w, " keeps the same history under the flag that counts both.");
            let obs = cat("--limit-ledger-size ", n.as_str());
            let mut changes: Vec<FixStep> = Vec::new();
            changes.push(
                FixStep::rename(
                    "--limit-ledger-size",
                    "--limit-blockstore-size",
                    Some(n.as_str()),
                    ValueCarry::DifferentSemantics(DOUBLING_NOTE),
                ),
            );
            let ghost ch = changes@;
            let fix = edit_steps(ctx, changes);
            proof {
                lemma_edit_fix(*ctx, ch, fix@);
            }
            Outcome::fail(obs.as_str(), expected).why(w.as_str()).fix(fix)
        },
        None => {
            let mut w = owned(why);
            append(
                &mut w,
                DEFAULT_RATIO_NOTE,
            );
            let mut changes: Vec<FixStep> = Vec::new();
            changes.push(
                FixStep::rename(
                    "--limit-ledger-size",
                    "--limit-blockstore-size",
                    None,
                    ValueCarry::NoValueSet,
                ),
            );
            let ghost ch = changes@;
            let fix = edit_steps(ctx, changes);
            proof {
                lemma_edit_fix(*ctx, ch, fix@);
            }
            Outcome::fail("--limit-ledger-size, with no value", expected).why(w.as_str()).fix(fix)
        },
    }
}

fn parse_u64_str_of(s: &str) -> (r: Option<u64>)
    ensures
        r == parse_u64(s@),
{
    crate::text::parse_u64_str(s)
}

/// Why disable banking trace matters, as the report gives it.
pub const BANKING_TRACE_WHY: &'static str = "Banking trace is disabled by default and this flag is a no-op, accepted only for compatibility. Nothing breaks, but the flag no longer expresses anything, and an operator reading their own command line would conclude they had turned something off that was already off.";

/// What `disable_banking_trace` promises of its outcome.
pub open spec fn disable_banking_trace_outcome(ctx: Ctx, o: Outcome) -> bool {
    &&& (fix_edits(ctx, o))
    &&& (gate_status(ctx, 4, 3) is None ==> o.expected@ =~= "the argument removed"@ && o.observed@
        =~= if has_flag(args(ctx), "--disable-banking-trace"@) {
        "--disable-banking-trace present"@
    } else {
        "--disable-banking-trace not in use"@
    })
    &&& (o.status == gated(ctx, 4, 3, has_inner(args(ctx), "--disable-banking-trace"@)))
    &&& (o.why@ =~= BANKING_TRACE_WHY@)
    &&& (gate_status(ctx, 4, 3) is Some ==> (
        o.observed@,
        o.expected@,
        opt_view(o.verify),
        crate::model::commands(o.fix@),
    ) =~~= gate_report(ctx, 4, 3))
    &&& (gate_status(ctx, 4, 3) is None ==> o.verify is None)
    &&& (o.persistence is None)
    &&& (o.status == Status::Unknown ==> o.observed@.len() > 0)
    &&& (o.status == Status::Fail ==> crate::model::steps(o.fix@) =~= edit_fix(ctx, seq![
        (
            "remove --disable-banking-trace"@,
            Some("to enable tracing instead, pass --enable-banking-trace <max bytes>"@),
        ),
    ]))
    &&& (gate_status(ctx, 4, 3) is Some ==> crate::model::notes(o.fix@) =~= gate_notes(ctx, 4, 3))
    &&& (gate_status(ctx, 4, 3) is None && o.status != Status::Fail ==> o.fix@.len() == 0)
}

/// PF-ARG-0012. A no-op kept only for compatibility. Still provisional:
/// `--help` cannot settle it, since a deprecated no-op is hidden from help
/// while still being accepted.
pub fn disable_banking_trace(ctx: &Ctx) -> (o: Outcome)
    ensures
        disable_banking_trace_outcome(*ctx, o),
{
    let why = BANKING_TRACE_WHY;
    let expected = "the argument removed";
    let inv = match gate(ctx, 4, 3, why) {
        Ok(i) => i,
        Err(o) => return o,
    };
    if !inv.has("--disable-banking-trace") {
        return Outcome::pass("--disable-banking-trace not in use", expected).why(why);
    }
    let mut changes: Vec<FixStep> = Vec::new();
    changes.push(
        FixStep::noted(
            "remove --disable-banking-trace",
            "to enable tracing instead, pass --enable-banking-trace <max bytes>",
        ),
    );
    let ghost ch = changes@;
    let fix = edit_steps(ctx, changes);
    proof {
        lemma_edit_fix(*ctx, ch, fix@);
    }
    Outcome::fail("--disable-banking-trace present", expected).why(why).fix(fix)
}

/// Why tpu connection pool size matters, as the report gives it.
pub const POOL_SIZE_WHY: &'static str = "Removed. The connection pool size is fixed at 1, the previous default. Like every removal this is a startup failure rather than a behaviour change.";

/// What `tpu_connection_pool_size` promises of its outcome.
pub open spec fn tpu_connection_pool_size_outcome(ctx: Ctx, o: Outcome) -> bool {
    &&& (fix_edits(ctx, o))
    &&& (gate_status(ctx, 4, 3) is None ==> o.expected@ =~= "the argument removed"@ && o.observed@
        =~= if has_flag(args(ctx), "--tpu-connection-pool-size"@) {
        "--tpu-connection-pool-size present"@
    } else {
        "--tpu-connection-pool-size not in use"@
    })
    &&& (o.status == gated(ctx, 4, 3, has_inner(args(ctx), "--tpu-connection-pool-size"@)))
    &&& (o.why@ =~= POOL_SIZE_WHY@)
    &&& (gate_status(ctx, 4, 3) is Some ==> (
        o.observed@,
        o.expected@,
        opt_view(o.verify),
        crate::model::commands(o.fix@),
    ) =~~= gate_report(ctx, 4, 3))
    &&& (gate_status(ctx, 4, 3) is None ==> o.verify is None)
    &&& (o.persistence is None)
    &&& (o.status == Status::Unknown ==> o.observed@.len() > 0)
    &&& (o.status == Status::Fail ==> crate::model::steps(o.fix@) =~= edit_fix(ctx, seq![("remove --tpu-connection-pool-size"@, None)]))
    &&& (gate_status(ctx, 4, 3) is Some ==> crate::model::notes(o.fix@) =~= gate_notes(ctx, 4, 3))
    &&& (gate_status(ctx, 4, 3) is None && o.status != Status::Fail ==> o.fix@.len() == 0)
}

/// PF-ARG-0013. Removed: the pool size is fixed at 1, and a removed flag stops
/// the validator starting.
pub fn tpu_connection_pool_size(ctx: &Ctx) -> (o: Outcome)
    ensures
        tpu_connection_pool_size_outcome(*ctx, o),
{
    let why = POOL_SIZE_WHY;
    let expected = "the argument removed";
    let inv = match gate(ctx, 4, 3, why) {
        Ok(i) => i,
        Err(o) => return o,
    };
    if !inv.has("--tpu-connection-pool-size") {
        return Outcome::pass("--tpu-connection-pool-size not in use", expected).why(why);
    }
    let mut changes: Vec<FixStep> = Vec::new();
    changes.push(FixStep::cmd("remove --tpu-connection-pool-size"));
    let ghost ch = changes@;
    let fix = edit_steps(ctx, changes);
    proof {
        lemma_edit_fix(*ctx, ch, fix@);
    }
    Outcome::fail("--tpu-connection-pool-size present", expected).why(why).fix(fix)
}


// ---------------------------------------------------------------------------
// PF-ARG-0014: a flag that lost its value
// ---------------------------------------------------------------------------

/// Flags that agave-validator 4.3.0-beta.0's `--help` prints with a value
/// placeholder, for when the binary's own help could not be read.
pub open spec fn value_flag_list() -> Seq<Seq<char>> {
    seq![
        "--identity"@,
        "--vote-account"@,
        "--authorized-voter"@,
        "--ledger"@,
        "--accounts"@,
        "--snapshots"@,
        "--entrypoint"@,
        "--known-validator"@,
        "--expected-genesis-hash"@,
        "--expected-shred-version"@,
        "--rpc-port"@,
        "--rpc-bind-address"@,
        "--gossip-port"@,
        "--gossip-host"@,
        "--bind-address"@,
        "--dynamic-port-range"@,
        "--log"@,
        "--limit-blockstore-size"@,
        "--wal-recovery-mode"@,
        "--block-verification-method"@,
        "--block-production-method"@,
        "--xdp-interface"@,
        "--xdp-cpu-cores"@,
        "--poh-pinned-cpu-core"@,
        "--full-snapshot-interval-slots"@,
        "--snapshot-interval-slots"@,
        "--maximum-full-snapshots-to-retain"@,
        "--maximum-incremental-snapshots-to-retain"@,
    ]
}

fn value_flags() -> (r: Vec<&'static str>)
    ensures
        crate::argv::str_views(r@) == value_flag_list(),
{
    let mut v: Vec<&'static str> = Vec::new();
    v.push("--identity");
    v.push("--vote-account");
    v.push("--authorized-voter");
    v.push("--ledger");
    v.push("--accounts");
    v.push("--snapshots");
    v.push("--entrypoint");
    v.push("--known-validator");
    v.push("--expected-genesis-hash");
    v.push("--expected-shred-version");
    v.push("--rpc-port");
    v.push("--rpc-bind-address");
    v.push("--gossip-port");
    v.push("--gossip-host");
    v.push("--bind-address");
    v.push("--dynamic-port-range");
    v.push("--log");
    v.push("--limit-blockstore-size");
    v.push("--wal-recovery-mode");
    v.push("--block-verification-method");
    v.push("--block-production-method");
    v.push("--xdp-interface");
    v.push("--xdp-cpu-cores");
    v.push("--poh-pinned-cpu-core");
    v.push("--full-snapshot-interval-slots");
    v.push("--snapshot-interval-slots");
    v.push("--maximum-full-snapshots-to-retain");
    v.push("--maximum-incremental-snapshots-to-retain");
    assert(crate::argv::str_views(v@) =~= value_flag_list());
    v
}

/// Whether a flag takes a value. The binary's help says so with a placeholder
/// right after the flag, as in `--ledger <DIR>`; without that help, the list
/// above decides. An optional value prints as `[<N>]` and does not count.
pub open spec fn takes_value(help: Option<Seq<char>>, flag: Seq<char>) -> bool {
    match help {
        Some(h) => contains_seq(h, flag + " <"@),
        None => value_flag_list().contains(flag),
    }
}

/// The token at `i` is a flag that takes a value, and nothing follows it but
/// another flag or the end of the line.
pub open spec fn lacks_value(a: Seq<Seq<char>>, help: Option<Seq<char>>, i: int) -> bool {
    &&& 0 <= i < a.len()
    &&& "--"@.is_prefix_of(a[i])
    &&& takes_value(help, a[i])
    &&& (i + 1 >= a.len() || "--"@.is_prefix_of(a[i + 1]))
}

/// The flags among the first `n` tokens that lack their value, in order.
pub open spec fn valueless(a: Seq<Seq<char>>, help: Option<Seq<char>>, n: int) -> Seq<Seq<char>>
    decreases n,
{
    if n <= 0 {
        Seq::empty()
    } else {
        let r = valueless(a, help, n - 1);
        if lacks_value(a, help, n - 1) {
            r.push(a[n - 1])
        } else {
            r
        }
    }
}

/// Every flag on the validator's command line that lacks its value.
pub open spec fn valueless_flags(c: Ctx) -> Seq<Seq<char>> {
    valueless(args(c), opt_view(c.files.help_text), args(c).len() as int)
}

pub open spec fn flag_values_status(c: Ctx) -> Status {
    match invocation_status(c) {
        Some(s) => s,
        None => present_status(valueless_flags(c)),
    }
}

/// What the observation says of the flags that lost their value.
pub open spec fn valueless_text(found: Seq<Seq<char>>) -> Seq<char> {
    if found.len() == 0 {
        "every flag that takes a value has one"@
    } else {
        join(found, ", "@) + " given without a value"@
    }
}

/// Why a flag without its value matters, as the report gives it.
pub const FLAG_VALUE_WHY: &'static str = "A flag that takes a value reads the next token as that value. When the value goes missing, usually a line lost in an edit of the launch script, the flag swallows the flag after it or ends the line empty: the validator either refuses to start or runs with a setting nobody chose. The running command line still shows both flags, so every check that only asks whether a flag is present passes.";

/// What `flag_values` promises of its outcome.
pub open spec fn flag_values_outcome(ctx: Ctx, o: Outcome) -> bool {
    &&& fix_edits(ctx, o)
    &&& o.status == flag_values_status(ctx)
    &&& o.why@ =~= FLAG_VALUE_WHY@
    &&& (invocation_status(ctx) is Some ==> (
        o.observed@,
        o.expected@,
        opt_view(o.verify),
        crate::model::commands(o.fix@),
    ) =~~= gate_report(ctx, 0, 0) && o.fix@.len() == 0)
    &&& (invocation_status(ctx) is None ==> o.observed@ =~= valueless_text(valueless_flags(ctx))
        && o.expected@ =~= "a value after every flag that takes one"@ && o.verify is None)
    &&& (o.status == Status::Fail ==> crate::model::steps(o.fix@) =~= edit_fix(ctx, plain_changes(
        valueless_flags(ctx).map_values(|f: Seq<char>| "give "@ + f + " its value"@),
    )))
    &&& (o.status != Status::Fail ==> o.fix@.len() == 0)
    &&& o.persistence is None
    &&& (o.status == Status::Unknown ==> o.observed@.len() > 0)
}

/// Whether the token after `i` is missing or is another flag.
fn next_is_flag(a: &Vec<String>, i: usize) -> (r: bool)
    requires
        i < a@.len(),
    ensures
        r == (i + 1 >= a@.len() || "--"@.is_prefix_of(a@[i + 1]@)),
{
    if i >= a.len() - 1 {
        true
    } else {
        crate::text::str_starts(a[i + 1].as_str(), "--")
    }
}

/// Whether `flag` takes a value, by the help text or the list.
fn takes_value_of(help: &Option<String>, list: &Vec<&'static str>, flag: &str) -> (r: bool)
    requires
        crate::argv::str_views(list@) == value_flag_list(),
    ensures
        r == takes_value(opt_view(*help), flag@),
{
    match help {
        Some(h) => {
            let pat = cat(flag, " <");
            crate::text::str_contains(h.as_str(), pat.as_str())
        },
        None => {
            assert(opt_view(*help) is None);
            let mut k: usize = 0;
            while k < list.len()
                invariant
                    k <= list@.len(),
                    crate::argv::str_views(list@) == value_flag_list(),
                    forall|j: int| 0 <= j < k ==> value_flag_list()[j] != flag@,
                    opt_view(*help) is None,
                decreases list.len() - k,
            {
                assert(crate::argv::str_views(list@)[k as int] == list@[k as int]@);
                if crate::text::eq_lit(flag, list[k]) {
                    assert(value_flag_list()[k as int] == flag@);
                    assert(value_flag_list().contains(flag@));
                    return true;
                }
                k += 1;
            }
            assert(value_flag_list().len() == list@.len());
            false
        },
    }
}

/// PF-ARG-0014. Every flag that takes a value has one.
pub fn flag_values(ctx: &Ctx) -> (o: Outcome)
    ensures
        flag_values_outcome(*ctx, o),
{
    let why = FLAG_VALUE_WHY;
    let expected = "a value after every flag that takes one";
    let inv = match require_invocation(ctx) {
        Ok(i) => i,
        Err(o) => return o.why(why),
    };
    let a = &inv.args;
    let help = &ctx.files.help_text;
    let list = value_flags();
    let ghost av = views(a@);
    let ghost h = opt_view(*help);
    let mut found: Vec<String> = Vec::new();
    let mut i: usize = 0;
    while i < a.len()
        invariant
            i <= a@.len(),
            av == views(a@),
            h == opt_view(*help),
            crate::argv::str_views(list@) == value_flag_list(),
            views(found@) == valueless(av, h, i as int),
        decreases a.len() - i,
    {
        let t = a[i].as_str();
        if crate::text::str_starts(t, "--") && takes_value_of(help, &list, t) && next_is_flag(a, i) {
            found.push(owned(t));
        }
        i += 1;
    }
    let ghost fv = views(found@);
    if found.len() == 0 {
        return Outcome::pass("every flag that takes a value has one", expected).why(why);
    }
    let mut steps: Vec<FixStep> = Vec::new();
    let mut k: usize = 0;
    while k < found.len()
        invariant
            k <= found@.len(),
            crate::model::steps(steps@) == plain_changes(
                views(found@).take(k as int).map_values(|f: Seq<char>| "give "@ + f + " its value"@),
            ),
        decreases found.len() - k,
    {
        let mut c = cat("give ", found[k].as_str());
        append(&mut c, " its value");
        let ghost before = crate::model::steps(steps@);
        let ghost step = ("give "@ + found@[k as int]@ + " its value"@, None::<Seq<char>>);
        steps.push(FixStep::cmd(c.as_str()));
        assert(crate::model::steps(steps@) =~= before.push(step));
        assert(views(found@).take(k + 1) == views(found@).take(k as int).push(found@[k as int]@));
        assert(views(found@).take(k + 1).map_values(|f: Seq<char>| "give "@ + f + " its value"@)
            =~= views(found@).take(k as int).map_values(|f: Seq<char>| "give "@ + f + " its value"@).push(
            "give "@ + found@[k as int]@ + " its value"@,
        ));
        assert(crate::model::steps(steps@) =~= plain_changes(
            views(found@).take(k + 1).map_values(|f: Seq<char>| "give "@ + f + " its value"@),
        ));
        k += 1;
    }
    assert(views(found@).take(found@.len() as int) == views(found@));
    let ghost sv = steps@;
    let fix = edit_steps(ctx, steps);
    let list_text = join_strings(&found, ", ");
    let obs = cat(list_text.as_str(), " given without a value");
    let o = Outcome::fail(obs.as_str(), expected).why(why).fix(fix);
    proof {
        lemma_edit_fix(*ctx, sv, o.fix@);
    }
    o
}

} // verus!
