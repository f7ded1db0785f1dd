//! KRN layer. Kernel settings a validator needs, whether or not one is
//! installed yet. Each value is checked twice: the running value, and the file
//! that would restore it after a reboot. Correct-but-unsaved is `Ephemeral`.

use vstd::prelude::*;
use vstd::string::*;
use crate::argv::{has_flag, Invocation};
use crate::ctx::{ctx_at_least, Ctx};
use crate::model::{opt_view, ClientKind, FixStep, Outcome, Persistence, Status};
use crate::text::{
    append, cat, chars_of, dec, dec_string, idec, idec_string, lines, lookup, lookup_of, owned,
    pair_views, parse_i64, parse_u32, split_on, split_ws, str_lines, str_words, trim, views,
};

verus! {

/// The file preflight tells operators to keep their kernel settings in.
pub open spec fn sysctl_file() -> Seq<char> {
    "/etc/sysctl.d/21-agave-validator.conf"@
}

pub open spec fn why_gated() -> Seq<char> {
    "agave calls check_os_network_limits() before it opens the ledger and returns an error if this value is below its recommendation, so the validator refuses to start. It is not a tuning preference. The value preflight adds is catching it before a multi-hour snapshot download rather than after."@
}

/// The /proc/sys file behind a key: dots become slashes.
pub open spec fn sysctl_path(key: Seq<char>) -> Seq<char> {
    "/proc/sys/"@ + key.map_values(|c: char| if c == '.' { '/' } else { c })
}

/// The keys this layer reads, so the caller knows which /proc/sys files to
/// hand in.
pub fn sysctl_keys() -> (r: Vec<&'static str>)
    ensures
        r@.len() == 4,
        r@[0]@ == "net.core.rmem_max"@,
        r@[1]@ == "net.core.wmem_max"@,
        r@[2]@ == "vm.max_map_count"@,
        r@[3]@ == "fs.nr_open"@,
{
    let mut v: Vec<&'static str> = Vec::new();
    v.push("net.core.rmem_max");
    v.push("net.core.wmem_max");
    v.push("vm.max_map_count");
    v.push("fs.nr_open");
    v
}

pub fn sysctl_path_of(key: &str) -> (r: String)
    ensures
        r@ == sysctl_path(key@),
{
    let k = chars_of(key);
    let mut out: Vec<char> = Vec::new();
    let mut i: usize = 0;
    while i < k.len()
        invariant
            i <= k@.len(),
            out@ == k@.take(i as int).map_values(|c: char| if c == '.' { '/' } else { c }),
        decreases k.len() - i,
    {
        let c = if k[i] == '.' {
            '/'
        } else {
            k[i]
        };
        out.push(c);
        assert(k@.take(i + 1).map_values(|c: char| if c == '.' { '/' } else { c }) == k@.take(
            i as int,
        ).map_values(|c: char| if c == '.' { '/' } else { c }).push(c));
        i += 1;
    }
    assert(k@.take(k@.len() as int) == k@);
    let s = string_of_chars(&out);
    cat("/proc/sys/", s.as_str())
}

fn string_of_chars(v: &Vec<char>) -> (r: String)
    ensures
        r@ == v@,
{
    crate::text::string_of(v)
}

/// The running value of a key: the first word of its /proc/sys file.
pub open spec fn sysctl_of(files: Seq<(Seq<char>, Seq<char>)>, key: Seq<char>) -> Option<i64> {
    match lookup(files, key) {
        Some(t) => {
            let ws = split_ws(trim(t));
            if ws.len() > 0 {
                parse_i64(ws[0])
            } else {
                None
            }
        },
        None => None,
    }
}

/// A line of a sysctl file that sets `key`: not a comment, and `key` before
/// the first `=`.
pub open spec fn sets_key(line: Seq<char>, key: Seq<char>) -> bool {
    let t = trim(line);
    !(t.len() > 0 && t[0] == '#') && trim(split_on(t, '=')[0]) == key
}

pub open spec fn any_sets(ls: Seq<Seq<char>>, key: Seq<char>) -> bool {
    exists|i: int| 0 <= i < ls.len() && sets_key(#[trigger] ls[i], key)
}

/// The first file that would restore the key after a reboot.
pub open spec fn persisted_spec(files: Seq<(Seq<char>, Seq<char>)>, key: Seq<char>) -> Option<
    Seq<char>,
>
    decreases files.len(),
{
    if files.len() == 0 {
        None
    } else if any_sets(lines(files[0].1), key) {
        Some(files[0].0)
    } else {
        persisted_spec(files.drop_first(), key)
    }
}

fn sysctl(ctx: &Ctx, key: &str) -> (r: Option<i64>)
    ensures
        r == sysctl_of(pair_views(ctx.files.sysctl@), key@),
{
    let t = match lookup_of(&ctx.files.sysctl, key) {
        Some(t) => t,
        None => return None,
    };
    let v = chars_of(t.as_str());
    let tv = crate::text::trim_vec(&v);
    let ws = crate::text::words_of(&tv);
    if ws.len() > 0 {
        let w = chars_of(ws[0].as_str());
        crate::text::parse_i64_vec(&w)
    } else {
        None
    }
}

fn sets_key_of(line: &str, key: &str) -> (r: bool)
    ensures
        r == sets_key(line@, key@),
{
    let v = chars_of(line);
    let t = crate::text::trim_vec(&v);
    if t.len() > 0 && t[0] == '#' {
        return false;
    }
    let parts = crate::text::split_char(&t, '=');
    proof {
        crate::text::lemma_split_on_nonempty(t@, '=');
    }
    let p0 = chars_of(parts[0].as_str());
    let p0t = crate::text::trim_vec(&p0);
    let k = chars_of(key);
    crate::text::same(&p0t, &k)
}

fn any_sets_of(text: &str, key: &str) -> (r: bool)
    ensures
        r == any_sets(lines(text@), key@),
{
    let ls = str_lines(text);
    let mut i: usize = 0;
    while i < ls.len()
        invariant
            i <= ls@.len(),
            views(ls@) == lines(text@),
            forall|k: int| 0 <= k < i ==> !sets_key(#[trigger] views(ls@)[k], key@),
        decreases ls.len() - i,
    {
        if sets_key_of(ls[i].as_str(), key) {
            assert(sets_key(views(ls@)[i as int], key@));
            return true;
        }
        i += 1;
    }
    false
}

/// Look for a file that would restore the value after a reboot.
fn persisted_in(ctx: &Ctx, key: &str) -> (r: Option<String>)
    ensures
        opt_view(r) == persisted_spec(pair_views(ctx.files.sysctl_files@), key@),
{
    let files = &ctx.files.sysctl_files;
    let mut i: usize = 0;
    assert(pair_views(files@).skip(0) == pair_views(files@));
    while i < files.len()
        invariant
            i <= files@.len(),
            files@ == ctx.files.sysctl_files@,
            persisted_spec(pair_views(files@), key@) == persisted_spec(
                pair_views(files@).skip(i as int),
                key@,
            ),
        decreases files.len() - i,
    {
        assert(pair_views(files@).skip(i as int)[0] == (files@[i as int].0@, files@[i as int].1@));
        assert(pair_views(files@).skip(i as int).drop_first() == pair_views(files@).skip(i + 1));
        if any_sets_of(files[i].1.as_str(), key) {
            return Some(files[i].0.clone());
        }
        i += 1;
    }
    assert(pair_views(files@).skip(i as int) =~= Seq::<(Seq<char>, Seq<char>)>::empty());
    None
}

/// The outcome on one kernel value: Unknown when it cannot be read, Fail below
/// the floor, Pass when a file restores it or when it is the kernel's own
/// default, and Ephemeral when it is right now but nothing on disk keeps it.
pub open spec fn value_status(actual: Option<i64>, want: i64, kernel_default: i64, persisted: bool) -> Status {
    match actual {
        None => Status::Unknown,
        Some(a) => if a < want {
            Status::Fail
        } else if persisted {
            Status::Pass
        } else if a == kernel_default {
            Status::Pass
        } else {
            Status::Ephemeral
        },
    }
}

/// A value at the kernel's own default is never Ephemeral: a default is not
/// going anywhere at the next reboot.
pub proof fn law_kernel_default_is_never_ephemeral(want: i64, kernel_default: i64, persisted: bool)
    ensures
        value_status(Some(kernel_default), want, kernel_default, persisted) != Status::Ephemeral,
{
}

/// Ephemeral means correct now and lost at the next reboot: the running value
/// meets the floor, and no file restores it.
pub proof fn law_ephemeral_is_correct_now(actual: Option<i64>, want: i64, kernel_default: i64, persisted: bool)
    requires
        value_status(actual, want, kernel_default, persisted) == Status::Ephemeral,
    ensures
        actual matches Some(a) && a >= want && a != kernel_default,
        !persisted,
{
}

/// What a kernel check says about one key, given what the host holds.
pub open spec fn value_outcome(c: Ctx, key: Seq<char>, want: i64, kernel_default: i64, o: Outcome) -> bool {
    let actual = sysctl_of(pair_views(c.files.sysctl@), key);
    let persisted = persisted_spec(pair_views(c.files.sysctl_files@), key);
    &&& o.status == value_status(actual, want, kernel_default, persisted is Some)
    &&& o.expected@ == key + " at or above "@ + idec(want as int)
    &&& o.observed@ == match actual {
        None => "cannot read "@ + sysctl_path(key),
        Some(a) => key + " = "@ + idec(a as int) + if a < want {
            Seq::empty()
        } else {
            match persisted {
                Some(f) => ", set by "@ + f,
                None => if a == kernel_default {
                    ", the stock value, which is already adequate and survives a reboot"@
                } else {
                    ", but no file under /etc/sysctl.d sets it"@
                },
            }
        },
    }
    &&& (o.status == Status::Fail || o.status == Status::Ephemeral) ==> {
        &&& o.fix@.len() == 2
        &&& o.fix@[0].command@ == "echo '"@ + key + " = "@ + idec(want as int) + "' | sudo tee -a "@
            + sysctl_file()
        &&& o.persistence matches Some(p) && p.expected@ == sysctl_file() && opt_view(p.found)
            == persisted
    }
    &&& o.status == Status::Unknown ==> o.fix@.len() == 1
}

/// Why a kernel value matters: the check's own reason, with its note when the
/// value is short, and what a reboot does to it when nothing on disk sets it.
pub open spec fn value_why(c: Ctx, key: Seq<char>, want: i64, kernel_default: i64, why: Seq<char>, note: Seq<char>) -> Seq<char> {
    let persisted = persisted_spec(pair_views(c.files.sysctl_files@), key);
    match sysctl_of(pair_views(c.files.sysctl@), key) {
        None => why,
        Some(a) => if a < want {
            why + " "@ + note
        } else if persisted is Some || a == kernel_default {
            why
        } else {
            why + EPHEMERAL_VALUE@
        },
    }
}

/// How to confirm a kernel value: read it when it is short, look for the file
/// that sets it when nothing does.
pub open spec fn value_verify(c: Ctx, key: Seq<char>, want: i64, kernel_default: i64) -> Option<Seq<char>> {
    let persisted = persisted_spec(pair_views(c.files.sysctl_files@), key);
    match sysctl_of(pair_views(c.files.sysctl@), key) {
        None => None,
        Some(a) => if a < want {
            Some("cat "@ + sysctl_path(key))
        } else if persisted is Some || a == kernel_default {
            None
        } else {
            Some("grep -r "@ + key + " /etc/sysctl.conf /etc/sysctl.d/"@)
        },
    }
}

/// The commands for a kernel value: run where /proc/sys exists when it cannot
/// be read; write the file and apply it when it is short or not persisted.
pub open spec fn value_fix(c: Ctx, key: Seq<char>, want: i64, kernel_default: i64) -> Seq<Seq<char>> {
    let persisted = persisted_spec(pair_views(c.files.sysctl_files@), key);
    match sysctl_of(pair_views(c.files.sysctl@), key) {
        None => seq!["run preflight on the prospective validator host"@],
        Some(a) => if a >= want && (persisted is Some || a == kernel_default) {
            Seq::empty()
        } else {
            seq![
                "echo '"@ + key + " = "@ + idec(want as int) + "' | sudo tee -a "@ + sysctl_file(),
                "sudo sysctl -p /etc/sysctl.d/21-agave-validator.conf"@,
            ]
        },
    }
}

/// The notes beside a kernel value's commands.
pub open spec fn value_notes(c: Ctx, key: Seq<char>, want: i64, kernel_default: i64) -> Seq<Option<Seq<char>>> {
    let persisted = persisted_spec(pair_views(c.files.sysctl_files@), key);
    match sysctl_of(pair_views(c.files.sysctl@), key) {
        None => seq![Some("kernel settings live in /proc/sys, which only exists on Linux"@)],
        Some(a) => if a >= want && (persisted is Some || a == kernel_default) {
            Seq::empty()
        } else {
            seq![None, Some("applies it now; the file is what makes it survive a reboot"@)]
        },
    }
}

/// What an adequate value that nothing persists adds to its reason.
pub const EPHEMERAL_VALUE: &'static str = " The running value is correct, so nothing is wrong today. Nothing on disk restores it, so the next reboot returns it to the kernel default and the validator stops starting for a reason that looks unrelated to the reboot.";

/// Why agave refuses to start on a short kernel limit.
pub const LIMITS_WHY: &'static str = "agave calls check_os_network_limits() before it opens the ledger and returns an error if this value is below its recommendation, so the validator refuses to start. It is not a tuning preference. The value preflight adds is catching it before a multi-hour snapshot download rather than after.";

pub const RMEM_NOTE: &'static str = "This is the receive buffer for the UDP paths the validator ingests on.";

pub const WMEM_NOTE: &'static str = "This is the send buffer counterpart.";

pub const MAP_COUNT_NOTE: &'static str = "The accounts database uses a large number of memory mappings; the kernel default is far below what it needs.";

pub const NR_OPEN_WHY: &'static str = "agave does not check this one, but fs.nr_open is the ceiling for any process's open-file limit. Setting LimitNOFILE=1000000 on a host whose fs.nr_open is lower is silently clamped, and the failure then appears to be about file descriptors rather than about this.";

/// `kernel_default` is what this value is on an untouched Linux box. It
/// matters because Ephemeral means "correct now, gone after a reboot", and a
/// kernel default is not going anywhere.
fn check_value(
    ctx: &Ctx,
    key: &str,
    want: i64,
    kernel_default: i64,
    why: &str,
    source_note: &str,
) -> (o: Outcome)
    ensures
        value_outcome(*ctx, key@, want, kernel_default, o),
        o.why@ == value_why(*ctx, key@, want, kernel_default, why@, source_note@),
        opt_view(o.verify) == value_verify(*ctx, key@, want, kernel_default),
        crate::model::commands(o.fix@) == value_fix(*ctx, key@, want, kernel_default),
        crate::model::notes(o.fix@) == value_notes(*ctx, key@, want, kernel_default),
        o.status == Status::Unknown ==> o.observed@.len() > 0,
        o.status == Status::Pass || o.status == Status::Unknown ==> match o.persistence {
            Some(p) => o.status == Status::Pass && p.expected@ == sysctl_file() && opt_view(p.found)
                == persisted_spec(pair_views(ctx.files.sysctl_files@), key@) && p.found is Some,
            None => o.status == Status::Unknown || persisted_spec(pair_views(ctx.files.sysctl_files@), key@)
                is None,
        },
{
    let path = sysctl_path_of(key);
    let wants = idec_string(want);
    let mut expected = cat(key, " at or above ");
    append(&mut expected, wants.as_str());
    let actual = match sysctl(ctx, key) {
        Some(a) => a,
        None => {
            let obs = cat("cannot read ", path.as_str());
            let mut fix: Vec<FixStep> = Vec::new();
            fix.push(
                FixStep::noted(
                    "run preflight on the prospective validator host",
                    "kernel settings live in /proc/sys, which only exists on Linux",
                ),
            );
            proof {
                reveal_strlit("cannot read ");
            }
            return Outcome::unknown(obs.as_str()).expected(expected.as_str()).why(why).fix(fix);
        },
    };
    let persisted = persisted_in(ctx, key);
    let mut set_line = cat("echo '", key);
    append(&mut set_line, " = ");
    append(&mut set_line, wants.as_str());
    append(&mut set_line, "' | sudo tee -a ");
    append(&mut set_line, "/etc/sysctl.d/21-agave-validator.conf");
    let mut fix: Vec<FixStep> = Vec::new();
    fix.push(FixStep::cmd(set_line.as_str()));
    fix.push(
        FixStep::noted(
            "sudo sysctl -p /etc/sysctl.d/21-agave-validator.conf",
            "applies it now; the file is what makes it survive a reboot",
        ),
    );
    let acts = idec_string(actual);
    let mut observed = cat(key, " = ");
    append(&mut observed, acts.as_str());
    let ghost head = observed@;
    assert(head.is_prefix_of(head));
    if actual < want {
        let mut w = cat(why, " ");
        append(&mut w, source_note);
        let verify = cat("cat ", path.as_str());
        return Outcome::fail(observed.as_str(), expected.as_str()).why(w.as_str()).fix(fix).verify(
            verify.as_str(),
        ).persists(
            Persistence { found: persisted, expected: owned("/etc/sysctl.d/21-agave-validator.conf") },
        );
    }
    match persisted {
        Some(f) => {
            append(&mut observed, ", set by ");
            append(&mut observed, f.as_str());
            assert(observed@ == head + (", set by "@ + f@));
            Outcome::pass(observed.as_str(), expected.as_str()).why(why).persists(
                Persistence {
                    found: Some(f),
                    expected: owned("/etc/sysctl.d/21-agave-validator.conf"),
                },
            )
        },
        None => if actual == kernel_default {
            append(&mut observed, ", the stock value, which is already adequate and survives a reboot");
            assert(observed@ == head + ", the stock value, which is already adequate and survives a reboot"@);
            Outcome::pass(observed.as_str(), expected.as_str()).why(why)
        } else {
            append(&mut observed, ", but no file under /etc/sysctl.d sets it");
            assert(observed@ == head + ", but no file under /etc/sysctl.d sets it"@);
            let mut w = owned(why);
            append(&mut w, EPHEMERAL_VALUE);
            let mut verify = cat("grep -r ", key);
            append(&mut verify, " /etc/sysctl.conf /etc/sysctl.d/");
            Outcome::ephemeral(observed.as_str(), expected.as_str()).why(w.as_str()).fix(
                fix,
            ).verify(verify.as_str()).persists(
                Persistence { found: None, expected: owned("/etc/sysctl.d/21-agave-validator.conf") },
            )
        },
    }
}

/// What `rmem_max` promises of its outcome.
pub open spec fn rmem_max_outcome(ctx: Ctx, o: Outcome) -> bool {
    &&& (value_outcome(ctx, "net.core.rmem_max"@, 134_217_728, 212_992, o))
    &&& (o.why@ =~= value_why(ctx, "net.core.rmem_max"@, 134_217_728, 212_992, LIMITS_WHY@, RMEM_NOTE@))
    &&& (opt_view(o.verify) == value_verify(ctx, "net.core.rmem_max"@, 134_217_728, 212_992))
    &&& (crate::model::commands(o.fix@) =~= value_fix(ctx, "net.core.rmem_max"@, 134_217_728, 212_992))
    &&& (crate::model::notes(o.fix@) =~= value_notes(ctx, "net.core.rmem_max"@, 134_217_728, 212_992))
    &&& (o.status == Status::Unknown ==> o.observed@.len() > 0)
    &&& (o.status == Status::Pass || o.status == Status::Unknown ==> match o.persistence {
        Some(p) => o.status == Status::Pass && p.expected@ == sysctl_file() && opt_view(p.found)
            == persisted_spec(pair_views(ctx.files.sysctl_files@), "net.core.rmem_max"@) && p.found is Some,
        None => o.status == Status::Unknown || persisted_spec(pair_views(ctx.files.sysctl_files@), "net.core.rmem_max"@)
            is None,
    })
}

/// PF-KRN-0001. The receive buffer for the UDP paths the validator ingests on.
pub fn rmem_max(ctx: &Ctx) -> (o: Outcome)
    ensures
        rmem_max_outcome(*ctx, o),
{
    check_value(
        ctx,
        "net.core.rmem_max",
        134_217_728,
        212_992,
        LIMITS_WHY,
        RMEM_NOTE,
    )
}

/// What `wmem_max` promises of its outcome.
pub open spec fn wmem_max_outcome(ctx: Ctx, o: Outcome) -> bool {
    &&& (value_outcome(ctx, "net.core.wmem_max"@, 134_217_728, 212_992, o))
    &&& (o.why@ =~= value_why(ctx, "net.core.wmem_max"@, 134_217_728, 212_992, LIMITS_WHY@, WMEM_NOTE@))
    &&& (opt_view(o.verify) == value_verify(ctx, "net.core.wmem_max"@, 134_217_728, 212_992))
    &&& (crate::model::commands(o.fix@) =~= value_fix(ctx, "net.core.wmem_max"@, 134_217_728, 212_992))
    &&& (crate::model::notes(o.fix@) =~= value_notes(ctx, "net.core.wmem_max"@, 134_217_728, 212_992))
    &&& (o.status == Status::Unknown ==> o.observed@.len() > 0)
    &&& (o.status == Status::Pass || o.status == Status::Unknown ==> match o.persistence {
        Some(p) => o.status == Status::Pass && p.expected@ == sysctl_file() && opt_view(p.found)
            == persisted_spec(pair_views(ctx.files.sysctl_files@), "net.core.wmem_max"@) && p.found is Some,
        None => o.status == Status::Unknown || persisted_spec(pair_views(ctx.files.sysctl_files@), "net.core.wmem_max"@)
            is None,
    })
}

/// PF-KRN-0002. The send buffer.
pub fn wmem_max(ctx: &Ctx) -> (o: Outcome)
    ensures
        wmem_max_outcome(*ctx, o),
{
    check_value(
        ctx,
        "net.core.wmem_max",
        134_217_728,
        212_992,
        LIMITS_WHY,
        WMEM_NOTE,
    )
}

/// What `max_map_count` promises of its outcome.
pub open spec fn max_map_count_outcome(ctx: Ctx, o: Outcome) -> bool {
    &&& (value_outcome(ctx, "vm.max_map_count"@, 1_000_000, 65_530, o))
    &&& (o.why@ =~= value_why(ctx, "vm.max_map_count"@, 1_000_000, 65_530, LIMITS_WHY@, MAP_COUNT_NOTE@))
    &&& (opt_view(o.verify) == value_verify(ctx, "vm.max_map_count"@, 1_000_000, 65_530))
    &&& (crate::model::commands(o.fix@) =~= value_fix(ctx, "vm.max_map_count"@, 1_000_000, 65_530))
    &&& (crate::model::notes(o.fix@) =~= value_notes(ctx, "vm.max_map_count"@, 1_000_000, 65_530))
    &&& (o.status == Status::Unknown ==> o.observed@.len() > 0)
    &&& (o.status == Status::Pass || o.status == Status::Unknown ==> match o.persistence {
        Some(p) => o.status == Status::Pass && p.expected@ == sysctl_file() && opt_view(p.found)
            == persisted_spec(pair_views(ctx.files.sysctl_files@), "vm.max_map_count"@) && p.found is Some,
        None => o.status == Status::Unknown || persisted_spec(pair_views(ctx.files.sysctl_files@), "vm.max_map_count"@)
            is None,
    })
}

/// PF-KRN-0003. Memory mappings for the accounts database.
pub fn max_map_count(ctx: &Ctx) -> (o: Outcome)
    ensures
        max_map_count_outcome(*ctx, o),
{
    check_value(
        ctx,
        "vm.max_map_count",
        1_000_000,
        65_530,
        LIMITS_WHY,
        MAP_COUNT_NOTE,
    )
}

/// What `nr_open` promises of its outcome.
pub open spec fn nr_open_outcome(ctx: Ctx, o: Outcome) -> bool {
    &&& (value_outcome(ctx, "fs.nr_open"@, 1_000_000, 1_048_576, o))
    &&& (o.why@ =~= value_why(ctx, "fs.nr_open"@, 1_000_000, 1_048_576, NR_OPEN_WHY@, ""@))
    &&& (opt_view(o.verify) == value_verify(ctx, "fs.nr_open"@, 1_000_000, 1_048_576))
    &&& (crate::model::commands(o.fix@) =~= value_fix(ctx, "fs.nr_open"@, 1_000_000, 1_048_576))
    &&& (crate::model::notes(o.fix@) =~= value_notes(ctx, "fs.nr_open"@, 1_000_000, 1_048_576))
    &&& (o.status == Status::Unknown ==> o.observed@.len() > 0)
    &&& (o.status == Status::Pass || o.status == Status::Unknown ==> match o.persistence {
        Some(p) => o.status == Status::Pass && p.expected@ == sysctl_file() && opt_view(p.found)
            == persisted_spec(pair_views(ctx.files.sysctl_files@), "fs.nr_open"@) && p.found is Some,
        None => o.status == Status::Unknown || persisted_spec(pair_views(ctx.files.sysctl_files@), "fs.nr_open"@)
            is None,
    })
}

/// PF-KRN-0004. The ceiling for any process's open-file limit.
pub fn nr_open(ctx: &Ctx) -> (o: Outcome)
    ensures
        nr_open_outcome(*ctx, o),
{
    check_value(
        ctx,
        "fs.nr_open",
        1_000_000,
        1_048_576,
        NR_OPEN_WHY,
        "",
    )
}

/// The kernel release's numbers, split at dots and dashes.
pub open spec fn kernel_parts(k: Seq<char>) -> Seq<Seq<char>> {
    split_on(k.map_values(|c: char| if c == '-' { '.' } else { c }), '.')
}

/// The major and minor kernel version.
pub open spec fn kernel_version_of(k: Option<Seq<char>>) -> Option<(u32, u32)> {
    match k {
        Some(t) => {
            let ps = kernel_parts(t);
            if ps.len() >= 2 {
                match (parse_u32(ps[0]), parse_u32(ps[1])) {
                    (Some(a), Some(b)) => Some((a, b)),
                    _ => None,
                }
            } else {
                None
            }
        },
        None => None,
    }
}

fn kernel_version(ctx: &Ctx) -> (r: Option<(u32, u32)>)
    ensures
        r == kernel_version_of(opt_view(ctx.kernel)),
{
    let raw = match &ctx.kernel {
        Some(k) => k,
        None => return None,
    };
    let v = chars_of(raw.as_str());
    let mut m: Vec<char> = Vec::new();
    let mut i: usize = 0;
    while i < v.len()
        invariant
            i <= v@.len(),
            m@ == v@.take(i as int).map_values(|c: char| if c == '-' { '.' } else { c }),
        decreases v.len() - i,
    {
        let c = if v[i] == '-' {
            '.'
        } else {
            v[i]
        };
        m.push(c);
        assert(v@.take(i + 1).map_values(|c: char| if c == '-' { '.' } else { c }) == v@.take(
            i as int,
        ).map_values(|c: char| if c == '-' { '.' } else { c }).push(c));
        i += 1;
    }
    assert(v@.take(v@.len() as int) == v@);
    let ps = crate::text::split_char(&m, '.');
    if ps.len() < 2 {
        return None;
    }
    let a = chars_of(ps[0].as_str());
    let b = chars_of(ps[1].as_str());
    match (crate::text::parse_u32_vec(&a), crate::text::parse_u32_vec(&b)) {
        (Some(x), Some(y)) => Some((x, y)),
        _ => None,
    }
}

pub open spec fn has(c: Ctx, flag: Seq<char>) -> bool {
    match c.invocation {
        Some(i) => has_flag(i.arg_views(), flag),
        None => false,
    }
}

/// XDP asked for by name on the command line.
pub open spec fn floor_explicit(c: Ctx) -> bool {
    has(c, "--xdp-interface"@) || has(c, "--xdp-cpu-cores"@) || has(c, "--xdp-zero-copy"@)
}

/// Anza's kernel floor for the XDP transmit path, by driver.
pub open spec fn kernel_floor(c: Ctx) -> (u32, u32) {
    if crate::checks::net::driver_spec(c) == Some("igb"@) {
        (6, 14)
    } else {
        (6, 8)
    }
}

/// PF-XDP-0002's outcome: Skipped when there is no XDP path to judge, Unknown
/// when the kernel version cannot be read. Anza's floors are zero copy
/// numbers: with --xdp-zero-copy, Pass at or above the floor and Fail below
/// it; in copy mode, agave's default, the floor is only recommended and the
/// kernel never fails.
pub open spec fn xdp_floor_status(c: Ctx) -> Status {
    if c.client == ClientKind::Firedancer || c.invocation is None || has(c, "--no-xdp"@) || !(
    floor_explicit(c) || ctx_at_least(c, 4, 2)) {
        Status::Skipped
    } else {
        match kernel_version_of(opt_view(c.kernel)) {
            None => Status::Unknown,
            Some((ma, mi)) => {
                let (fa, fb) = kernel_floor(c);
                if ma > fa || (ma == fa && mi >= fb) || has(c, "--xdp-zero-copy"@) == false {
                    Status::Pass
                } else {
                    Status::Fail
                }
            },
        }
    }
}

/// Why the kernel floor matters.
pub const FLOOR_WHY: &'static str = "Anza's XDP setup guide gives kernel floors for zero copy, 6.14 when the driver is igb and 6.8 otherwise, and recommends them for XDP in general. agave's default is XDP in copy mode, which works below them. With --xdp-zero-copy below the floor the path is unavailable or unreliable, and the node quietly falls back or misbehaves rather than refusing to start, so nothing tells you.";

/// The kernel release a fix asks for.
pub open spec fn floor_release(c: Ctx) -> Seq<char> {
    if crate::checks::net::driver_spec(c) == Some("igb"@) {
        "6.14"@
    } else {
        "6.8"@
    }
}

/// What `xdp_floor` promises of its outcome.
pub open spec fn xdp_floor_outcome(ctx: Ctx, o: Outcome) -> bool {
    &&& (o.status == xdp_floor_status(ctx))
    &&& (o.status != Status::Skipped ==> match kernel_version_of(opt_view(ctx.kernel)) {
        None => o.observed@ =~= "cannot read the kernel version"@,
        Some((ma, mi)) => {
            let igb = crate::checks::net::driver_spec(ctx) == Some("igb"@);
            let zc = has(ctx, "--xdp-zero-copy"@);
            &&& o.observed@ =~= "kernel "@ + dec(ma as nat) + "."@ + dec(mi as nat) + if zc {
                ", with --xdp-zero-copy"@
            } else {
                ", copy mode (no --xdp-zero-copy)"@
            }
            &&& o.expected@ =~= "kernel "@ + floor_release(ctx) + (if zc {
                " or newer for zero copy"@
            } else {
                " or newer recommended; copy mode has no floor"@
            }) + (if igb {
                " because the driver is igb"@
            } else {
                Seq::empty()
            })
        },
    })
    &&& (o.status != Status::Skipped ==> o.why@ =~= FLOOR_WHY@)
    &&& (crate::model::steps(o.fix@) =~= if o.status == Status::Fail {
        seq![
            ("drop --xdp-zero-copy"@, Some("the cheap way out: copy mode needs no kernel floor"@)),
            (
                "or upgrade the kernel to "@ + floor_release(ctx) + " or newer"@,
                Some("on an older distribution that may mean a release upgrade"@),
            ),
        ]
    } else {
        Seq::empty()
    })
    &&& (o.verify is None && o.persistence is None)
    &&& (o.status == Status::Unknown ==> o.observed@.len() > 0)
}

/// PF-XDP-0002. Whether the kernel is new enough for the XDP mode in use. The
/// floor binds zero copy and is only recommended for copy mode, agave's
/// default; it depends on the driver, so this reads the card before deciding.
pub fn xdp_floor(ctx: &Ctx) -> (o: Outcome)
    ensures
        xdp_floor_outcome(*ctx, o),
{
    let why_base = FLOOR_WHY;
    if ctx.client == ClientKind::Firedancer {
        return Outcome::skipped("Firedancer manages its own AF_XDP setup");
    }
    let inv = match ctx.inv() {
        Some(i) => i,
        None => return Outcome::skipped(
            "no validator yet, so no XDP path to judge the kernel against",
        ),
    };
    let disabled = inv.has("--no-xdp");
    let zero_copy = inv.has("--xdp-zero-copy");
    let explicit = inv.has("--xdp-interface") || inv.has("--xdp-cpu-cores") || zero_copy;
    let default_on = ctx.at_least(4, 2);
    if disabled || !(explicit || default_on) {
        return Outcome::skipped("XDP not in use, so no kernel floor applies");
    }
    let (major, minor) = match kernel_version(ctx) {
        Some(v) => v,
        None => {
            proof {
                reveal_strlit("cannot read the kernel version");
            }
            return Outcome::unknown("cannot read the kernel version").why(why_base);
        },
    };
    let driver = match crate::checks::net::primary_interface(ctx) {
        Some(iface) => crate::checks::net::driver_of(ctx, iface.as_str()),
        None => None,
    };
    let igb = match &driver {
        Some(d) => crate::text::eq_lit(d.as_str(), "igb"),
        None => false,
    };
    let (fa, fb): (u32, u32) = if igb {
        (6, 14)
    } else {
        (6, 8)
    };
    let floor_text = if igb {
        "6.14"
    } else {
        "6.8"
    };
    assert(floor_text@ == floor_release(*ctx));
    let mut expected = cat("kernel ", floor_text);
    if zero_copy {
        append(&mut expected, " or newer for zero copy");
    } else {
        append(&mut expected, " or newer recommended; copy mode has no floor");
    }
    if igb {
        append(&mut expected, " because the driver is igb");
    }
    let ma = dec_string(major as u64);
    let mi = dec_string(minor as u64);
    let mut observed = cat("kernel ", ma.as_str());
    append(&mut observed, ".");
    append(&mut observed, mi.as_str());
    if zero_copy {
        append(&mut observed, ", with --xdp-zero-copy");
    } else {
        append(&mut observed, ", copy mode (no --xdp-zero-copy)");
    }
    if major > fa || (major == fa && minor >= fb) || !zero_copy {
        return Outcome::pass(observed.as_str(), expected.as_str()).why(why_base);
    }
    let mut fix: Vec<FixStep> = Vec::new();
    fix.push(
        FixStep::noted("drop --xdp-zero-copy", "the cheap way out: copy mode needs no kernel floor"),
    );
    let mut upgrade = cat("or upgrade the kernel to ", floor_text);
    append(&mut upgrade, " or newer");
    fix.push(
        FixStep::noted(upgrade.as_str(), "on an older distribution that may mean a release upgrade"),
    );
    assert(crate::model::steps(fix@) =~= seq![
        ("drop --xdp-zero-copy"@, Some("the cheap way out: copy mode needs no kernel floor"@)),
        (
            "or upgrade the kernel to "@ + floor_release(*ctx) + " or newer"@,
            Some("on an older distribution that may mean a release upgrade"@),
        ),
    ]);
    Outcome::fail(observed.as_str(), expected.as_str()).why(why_base).fix(fix)
}

} // verus!
