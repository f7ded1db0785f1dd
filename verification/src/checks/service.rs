//! SVC layer. The systemd unit itself, rather than the command line it runs.
//!
//! A unit can be correct about what to start and wrong about when, and systemd
//! reports neither.

use vstd::prelude::*;
use vstd::string::*;
use crate::argv::flag_value;
use crate::checks::fs::{best_mount, mount_for, mounts, mounts_spec};
use crate::checks::{directive_values, needs_linux, off_linux_status, off_linux_text, unit_directive_all};
use crate::ctx::Ctx;
use crate::model::{opt_view, FixStep, Outcome, Status};
use crate::text::{append, cat, chars_of, join, join_strings, owned, split_ws, strip_char_end, views};

verus! {

/// The validator paths that sit on a mount of their own, not the root
/// filesystem: only those can be lost when a mount fails.
pub open spec fn separate_paths(c: Ctx, a: Seq<Seq<char>>) -> Seq<Seq<char>> {
    let ms = mounts_spec(c);
    let one = |f: Seq<char>|
        match flag_value(a, f) {
            Some(p) => match best_mount(ms, p) {
                Some(i) => if ms[i].0 != "/"@ {
                    seq![p]
                } else {
                    Seq::<Seq<char>>::empty()
                },
                None => Seq::<Seq<char>>::empty(),
            },
            None => Seq::<Seq<char>>::empty(),
        };
    one("--accounts"@) + one("--ledger"@) + one("--snapshots"@)
}

/// Every word of every RequiresMountsFor= and WantsMountsFor= the unit and
/// its drop-ins declare.
pub open spec fn declared_mounts(texts: Seq<Seq<char>>) -> Seq<Seq<char>> {
    words_all(directive_values(texts, "RequiresMountsFor"@)) + words_all(
        directive_values(texts, "WantsMountsFor"@),
    )
}

pub open spec fn words_all(vs: Seq<Seq<char>>) -> Seq<Seq<char>>
    decreases vs.len(),
{
    if vs.len() == 0 {
        Seq::empty()
    } else {
        words_all(vs.drop_last()) + split_ws(vs.last())
    }
}

/// A declared path covers a path at or under it.
pub open spec fn declared_covers(d: Seq<char>, path: Seq<char>) -> bool {
    path == d || (strip_char_end(d, '/') + "/"@).is_prefix_of(path)
}

pub open spec fn covered(ds: Seq<Seq<char>>, path: Seq<char>) -> bool {
    exists|k: int| 0 <= k < ds.len() && declared_covers(#[trigger] ds[k], path)
}

/// PF-SVC-0001's outcome: Skipped when there is no unit or no path on a mount
/// of its own; Fail when such a path is not covered by the unit's
/// RequiresMountsFor= or WantsMountsFor=; Pass otherwise.
pub open spec fn mounts_status(c: Ctx) -> Status {
    match off_linux_status(c) {
        Some(s) => s,
        None => match c.invocation {
            None => Status::Skipped,
            Some(inv) => if inv.unit_path is None {
                Status::Skipped
            } else {
                let sep = separate_paths(c, inv.arg_views());
                let ds = declared_mounts(views(c.files.unit_texts@));
                if sep.len() == 0 {
                    Status::Skipped
                } else if exists|k: int| 0 <= k < sep.len() && !covered(ds, #[trigger] sep[k]) {
                    Status::Fail
                } else {
                    Status::Pass
                }
            },
        },
    }
}

fn separate_one(
    ctx: &Ctx,
    inv: &crate::argv::Invocation,
    all: &Vec<crate::checks::fs::MountInfo>,
    flag: &str,
    out: &mut Vec<String>,
)
    requires
        crate::checks::fs::mount_views(all@) == mounts_spec(*ctx),
    ensures
        views(final(out)@) == views(old(out)@) + match flag_value(inv.arg_views(), flag@) {
            Some(p) => match best_mount(mounts_spec(*ctx), p) {
                Some(i) => if mounts_spec(*ctx)[i].0 != "/"@ {
                    seq![p]
                } else {
                    Seq::<Seq<char>>::empty()
                },
                None => Seq::<Seq<char>>::empty(),
            },
            None => Seq::<Seq<char>>::empty(),
        },
{
    let ghost before = views(out@);
    match inv.value(flag) {
        Some(p) => match mount_for(all.as_slice(), p.as_str()) {
            Some(m) => {
                proof {
                    crate::checks::fs::lemma_best_mount_in_range(mounts_spec(*ctx), p@);
                }
                if !crate::text::eq_lit(m.target.as_str(), "/") {
                    out.push(p);
                    assert(views(out@) == before + seq![views(out@).last()]);
                } else {
                    assert(views(out@) == before + Seq::<Seq<char>>::empty());
                }
            },
            None => {
                assert(views(out@) == before + Seq::<Seq<char>>::empty());
            },
        },
        None => {
            assert(views(out@) == before + Seq::<Seq<char>>::empty());
        },
    }
}

fn words_into(vs: &Vec<String>, out: &mut Vec<String>)
    ensures
        views(final(out)@) == views(old(out)@) + words_all(views(vs@)),
{
    let ghost start = views(out@);
    let mut i: usize = 0;
    assert(views(vs@).take(0) =~= Seq::<Seq<char>>::empty());
    assert(start + words_all(Seq::empty()) == start);
    while i < vs.len()
        invariant
            i <= vs@.len(),
            views(out@) == start + words_all(views(vs@).take(i as int)),
        decreases vs.len() - i,
    {
        assert(views(vs@).take(i + 1).drop_last() == views(vs@).take(i as int));
        assert(views(vs@).take(i + 1).last() == vs@[i as int]@);
        let ws = crate::text::str_words(vs[i].as_str());
        let mut k: usize = 0;
        let ghost mid = views(out@);
        while k < ws.len()
            invariant
                k <= ws@.len(),
                views(out@) == mid + views(ws@).take(k as int),
            decreases ws.len() - k,
        {
            let ghost before = views(out@);
            out.push(ws[k].clone());
            assert(views(out@) == before.push(ws@[k as int]@));
            assert(views(ws@).take(k + 1) == views(ws@).take(k as int).push(ws@[k as int]@));
            k += 1;
        }
        assert(views(ws@).take(ws@.len() as int) == views(ws@));
        i += 1;
    }
    assert(views(vs@).take(vs@.len() as int) == views(vs@));
}

fn is_covered(declared: &Vec<String>, path: &str) -> (r: bool)
    ensures
        r == covered(views(declared@), path@),
{
    let pv = chars_of(path);
    let mut k: usize = 0;
    while k < declared.len()
        invariant
            k <= declared@.len(),
            pv@ == path@,
            forall|j: int| 0 <= j < k ==> !declared_covers(#[trigger] views(declared@)[j], path@),
        decreases declared.len() - k,
    {
        let dv = chars_of(declared[k].as_str());
        let hit = if crate::text::same(&pv, &dv) {
            true
        } else {
            let mut base = crate::text::strip_char_end_vec(&dv, '/');
            base.push('/');
            proof {
                reveal_strlit("/");
            }
            assert(base@ == strip_char_end(dv@, '/') + "/"@);
            crate::text::starts_with(&pv, &base)
        };
        if hit {
            assert(declared_covers(views(declared@)[k as int], path@));
            return true;
        }
        k += 1;
    }
    false
}

/// The paths no declared mount covers, in order.
pub open spec fn uncovered_in(sep: Seq<Seq<char>>, ds: Seq<Seq<char>>) -> Seq<Seq<char>>
    decreases sep.len(),
{
    if sep.len() == 0 {
        Seq::empty()
    } else if covered(ds, sep.last()) {
        uncovered_in(sep.drop_last(), ds)
    } else {
        uncovered_in(sep.drop_last(), ds).push(sep.last())
    }
}

/// The unit a fix names: the validator's own, or a placeholder.
pub open spec fn unit_named(c: Ctx) -> Seq<char> {
    match c.invocation {
        Some(i) => match opt_view(i.unit_name) {
            Some(u) => u,
            None => "<your-validator-unit>"@,
        },
        None => "<your-validator-unit>"@,
    }
}

/// What PF-SVC-0001 observes, and what it expects.
pub open spec fn mounts_text(c: Ctx) -> (Seq<char>, Seq<char>) {
    let expected = "the unit depends on every mount it writes to"@;
    match off_linux_status(c) {
        Some(_) => off_linux_text(c),
        None => match c.invocation {
            None => ("no validator invocation to read paths from"@, Seq::empty()),
            Some(inv) => if inv.unit_path is None {
                ("this invocation did not come from a systemd unit"@, Seq::empty())
            } else {
                let sep = separate_paths(c, inv.arg_views());
                let ds = declared_mounts(views(c.files.unit_texts@));
                let unc = uncovered_in(sep, ds);
                if sep.len() == 0 {
                    ("no validator path sits on its own mount"@, Seq::empty())
                } else if unc.len() == 0 {
                    ("the unit declares "@ + join(ds, " "@), expected)
                } else {
                    (
                        join(unc, ", "@) + " "@ + if unc.len() == 1 {
                            "sits on its own mount, and the unit does not depend on it"@
                        } else {
                            "sit on their own mounts, and the unit depends on none of them"@
                        },
                        expected,
                    )
                }
            },
        },
    }
}

/// The fix: a drop-in that requires every uncovered mount, then a reload.
pub open spec fn mounts_fix_ok(c: Ctx, fix: Seq<FixStep>) -> bool {
    let inv = c.invocation->0;
    let unc = uncovered_in(
        separate_paths(c, inv.arg_views()),
        declared_mounts(views(c.files.unit_texts@)),
    );
    let unit = unit_named(c);
    &&& fix.len() == 3
    &&& fix[0].command@ == "sudo mkdir -p /etc/systemd/system/"@ + unit + ".d"@
    &&& fix[1].command@ == "printf '[Unit]\\nRequiresMountsFor="@ + join(unc, " "@)
        + "\\n' | sudo tee /etc/systemd/system/"@ + unit + ".d/10-mounts.conf"@
    &&& fix[2].command@ == "sudo systemctl daemon-reload"@
}

/// Why requires its mounts matters, as the report gives it.
pub const MOUNTS_WHY: &'static str = "systemd.unit(5) says RequiresMountsFor= adds dependencies of type Requires= and After= for the mount units a path needs. Without it a service is only ordered after local-fs.target, which is not the same as depending on it: a mount that fails, or one marked nofail, leaves boot to continue and the validator starts anyway. It then writes into the empty mountpoint on the root filesystem instead of the device, which nothing reports. The node runs, the accounts directory looks right, and the root filesystem fills up over days.";

/// What `requires_its_mounts` promises of its outcome.
pub open spec fn requires_its_mounts_outcome(ctx: Ctx, o: Outcome) -> bool {
    &&& (o.status == mounts_status(ctx))
    &&& (o.status == Status::Fail ==> o.fix@.len() == 3)
    &&& ((o.observed@, o.expected@) =~~= mounts_text(ctx))
    &&& (o.status == Status::Fail ==> mounts_fix_ok(ctx, o.fix@))
    &&& (o.status != Status::Skipped ==> o.why@ =~= MOUNTS_WHY@)
    &&& (opt_view(o.verify) == if o.status == Status::Fail {
        Some("systemctl show "@ + unit_named(ctx) + " -p RequiresMountsFor"@)
    } else {
        None
    })
    &&& (o.persistence is None)
    &&& (o.status == Status::Unknown ==> o.observed@.len() > 0)
    &&& (crate::model::notes(o.fix@) =~= if o.status == Status::Fail {
        seq![
            None,
            Some("a drop-in, so the packaged unit stays as it is"@),
            Some(
                "this changes only what systemd does at the next start, so the running validator is untouched"@,
            ),
        ]
    } else {
        Seq::empty()
    })
}

/// PF-SVC-0001. The unit does not depend on the mounts it writes to.
pub fn requires_its_mounts(ctx: &Ctx) -> (o: Outcome)
    ensures
        requires_its_mounts_outcome(*ctx, o),
{
    let why = MOUNTS_WHY;
    let expected = "the unit depends on every mount it writes to";
    match needs_linux(ctx, why) {
        Some(o) => return o,
        None => {},
    }
    let inv = match ctx.inv() {
        Some(i) => i,
        None => return Outcome::skipped("no validator invocation to read paths from"),
    };
    if inv.unit_path.is_none() {
        return Outcome::skipped("this invocation did not come from a systemd unit");
    }
    let all = mounts(ctx);
    // Only a path on its own mount can be lost this way.
    let mut separate: Vec<String> = Vec::new();
    assert(views(separate@) =~= Seq::<Seq<char>>::empty());
    separate_one(ctx, inv, &all, "--accounts", &mut separate);
    separate_one(ctx, inv, &all, "--ledger", &mut separate);
    separate_one(ctx, inv, &all, "--snapshots", &mut separate);
    assert(views(separate@) =~= separate_paths(*ctx, inv.arg_views()));
    if separate.len() == 0 {
        return Outcome::skipped("no validator path sits on its own mount");
    }
    let mut declared: Vec<String> = Vec::new();
    assert(views(declared@) =~= Seq::<Seq<char>>::empty());
    let req = unit_directive_all(ctx, "RequiresMountsFor");
    words_into(&req, &mut declared);
    let wants = unit_directive_all(ctx, "WantsMountsFor");
    words_into(&wants, &mut declared);
    assert(views(declared@) =~= declared_mounts(views(ctx.files.unit_texts@)));
    let ghost sep = views(separate@);
    let mut uncovered: Vec<String> = Vec::new();
    let mut i: usize = 0;
    while i < separate.len()
        invariant
            i <= separate@.len(),
            sep == views(separate@),
            (uncovered@.len() > 0) == exists|k: int|
                0 <= k < i && !covered(views(declared@), #[trigger] sep[k]),
            views(uncovered@) == uncovered_in(sep.take(i as int), views(declared@)),
        decreases separate.len() - i,
    {
        assert(sep[i as int] == separate@[i as int]@);
        assert(sep.take(i + 1).drop_last() == sep.take(i as int));
        assert(sep.take(i + 1).last() == sep[i as int]);
        if !is_covered(&declared, separate[i].as_str()) {
            let ghost before = views(uncovered@);
            uncovered.push(separate[i].clone());
            assert(views(uncovered@) == before.push(sep[i as int]));
            assert(!covered(views(declared@), sep[i as int]));
        }
        i += 1;
    }
    assert(sep.take(sep.len() as int) == sep);
    if uncovered.len() == 0 {
        let list = join_strings(&declared, " ");
        let obs = cat("the unit declares ", list.as_str());
        return Outcome::pass(obs.as_str(), expected).why(why);
    }
    let unit = match &inv.unit_name {
        Some(u) => u.clone(),
        None => owned("<your-validator-unit>"),
    };
    let phrasing = if uncovered.len() == 1 {
        "sits on its own mount, and the unit does not depend on it"
    } else {
        "sit on their own mounts, and the unit depends on none of them"
    };
    let paths = join_strings(&uncovered, ", ");
    let mut obs = cat(paths.as_str(), " ");
    append(&mut obs, phrasing);
    let spaced = join_strings(&uncovered, " ");
    let mut fix: Vec<FixStep> = Vec::new();
    let mut mkdir = cat("sudo mkdir -p /etc/systemd/system/", unit.as_str());
    append(&mut mkdir, ".d");
    fix.push(FixStep::cmd(mkdir.as_str()));
    let mut printf = cat("printf '[Unit]\\nRequiresMountsFor=", spaced.as_str());
    append(&mut printf, "\\n' | sudo tee /etc/systemd/system/");
    append(&mut printf, unit.as_str());
    append(&mut printf, ".d/10-mounts.conf");
    fix.push(FixStep::noted(printf.as_str(), "a drop-in, so the packaged unit stays as it is"));
    fix.push(
        FixStep::noted(
            "sudo systemctl daemon-reload",
            "this changes only what systemd does at the next start, so the running validator is untouched",
        ),
    );
    let mut verify = cat("systemctl show ", unit.as_str());
    append(&mut verify, " -p RequiresMountsFor");
    Outcome::fail(obs.as_str(), expected).why(why).fix(fix).verify(verify.as_str())
}

} // verus!
