//! FS layer. Disks and filesystems.
//!
//! The only layer that answers "can this machine run a validator" in full
//! before anything is installed. With a validator present it checks the paths
//! that validator actually uses; without one it asks whether this box has
//! enough suitable storage to be worth installing on at all.

use vstd::prelude::*;
use vstd::string::*;
use crate::argv::{flag_value, has_flag, Invocation};
use crate::checks::{gate_matches, needs_linux, off_linux_status, off_linux_text};
use crate::ctx::Ctx;
use crate::model::{opt_view, FixStep, Outcome, Status};
use crate::text::{
    join, append, cat, chars_of, dec, dec_string, lines, owned, split_ws, str_lines, str_starts,
    str_words, strip_char_end, views,
};

verus! {

/// A line of /proc/mounts.
#[derive(Debug, Clone)]
pub struct MountInfo {
    pub target: String,
    pub source: String,
    pub fstype: String,
    pub options: String,
}

pub open spec fn mount_view(m: MountInfo) -> (Seq<char>, Seq<char>, Seq<char>, Seq<char>) {
    (m.target@, m.source@, m.fstype@, m.options@)
}

pub open spec fn mount_views(ms: Seq<MountInfo>) -> Seq<(Seq<char>, Seq<char>, Seq<char>, Seq<char>)> {
    ms.map_values(|m: MountInfo| mount_view(m))
}

/// The lines of /proc/mounts with at least four fields, as (target, source,
/// fstype, options).
pub open spec fn mounts_of(ls: Seq<Seq<char>>) -> Seq<(Seq<char>, Seq<char>, Seq<char>, Seq<char>)>
    decreases ls.len(),
{
    if ls.len() == 0 {
        Seq::empty()
    } else {
        let rest = mounts_of(ls.drop_last());
        let p = split_ws(ls.last());
        if p.len() >= 4 {
            rest.push((p[1], p[0], p[2], p[3]))
        } else {
            rest
        }
    }
}

pub open spec fn mounts_spec(c: Ctx) -> Seq<(Seq<char>, Seq<char>, Seq<char>, Seq<char>)> {
    match opt_view(c.files.mounts) {
        Some(t) => mounts_of(lines(t)),
        None => Seq::empty(),
    }
}

/// Every mount the host lists.
pub fn mounts(ctx: &Ctx) -> (r: Vec<MountInfo>)
    ensures
        mount_views(r@) == mounts_spec(*ctx),
{
    let t = match &ctx.files.mounts {
        Some(t) => t,
        None => return Vec::new(),
    };
    let ls = str_lines(t.as_str());
    let mut out: Vec<MountInfo> = Vec::new();
    let mut i: usize = 0;
    while i < ls.len()
        invariant
            i <= ls@.len(),
            views(ls@) == lines(t@),
            mount_views(out@) == mounts_of(views(ls@).take(i as int)),
        decreases ls.len() - i,
    {
        assert(views(ls@).take(i + 1).drop_last() == views(ls@).take(i as int));
        assert(views(ls@).take(i + 1).last() == ls@[i as int]@);
        let p = str_words(ls[i].as_str());
        if p.len() >= 4 {
            let m = MountInfo {
                target: p[1].clone(),
                source: p[0].clone(),
                fstype: p[2].clone(),
                options: p[3].clone(),
            };
            let ghost before = mount_views(out@);
            out.push(m);
            assert(mount_views(out@) == before.push((p@[1]@, p@[0]@, p@[2]@, p@[3]@)));
        }
        i += 1;
    }
    assert(views(ls@).take(ls@.len() as int) == views(ls@));
    out
}

/// A mount holds a path when the path is its target or lies under it on a
/// slash boundary, so /mnt/accounts-old never matches /mnt/accounts. The root
/// holds everything.
pub open spec fn covers(target: Seq<char>, path: Seq<char>) -> bool {
    path == target || (strip_char_end(target, '/') + "/"@).is_prefix_of(path) || target == "/"@
}

/// The index of the mount that holds a path: the longest target that covers
/// it, the last of equally long ones.
pub open spec fn best_mount(ms: Seq<(Seq<char>, Seq<char>, Seq<char>, Seq<char>)>, path: Seq<char>) -> Option<int>
    decreases ms.len(),
{
    if ms.len() == 0 {
        None
    } else {
        let b = best_mount(ms.drop_last(), path);
        let t = ms.last().0;
        if covers(t, path) && (b is None || t.len() >= ms[b->0].0.len()) {
            Some(ms.len() - 1)
        } else {
            b
        }
    }
}

pub proof fn lemma_best_mount_in_range(ms: Seq<(Seq<char>, Seq<char>, Seq<char>, Seq<char>)>, path: Seq<char>)
    ensures
        best_mount(ms, path) matches Some(i) ==> 0 <= i < ms.len() && covers(ms[i].0, path),
    decreases ms.len(),
{
    if ms.len() > 0 {
        lemma_best_mount_in_range(ms.drop_last(), path);
    }
}

fn covers_exec(target: &str, path: &Vec<char>) -> (r: bool)
    ensures
        r == covers(target@, path@),
{
    let t = chars_of(target);
    if crate::text::same(path, &t) {
        return true;
    }
    let s = crate::text::strip_char_end_vec(&t, '/');
    let mut p = s;
    p.push('/');
    proof {
        reveal_strlit("/");
    }
    assert(p@ == strip_char_end(target@, '/') + "/"@);
    if crate::text::starts_with(path, &p) {
        return true;
    }
    crate::text::eq_lit(target, "/")
}

/// The mount that actually holds a path: the longest matching mount point.
pub fn mount_for<'a>(all: &'a [MountInfo], path: &str) -> (r: Option<&'a MountInfo>)
    ensures
        match best_mount(mount_views(all@), path@) {
            Some(i) => r is Some && mount_view(*r->0) == mount_views(all@)[i],
            None => r is None,
        },
{
    let pv = chars_of(path);
    let mut best: Option<usize> = None;
    let mut i: usize = 0;
    while i < all.len()
        invariant
            i <= all@.len(),
            pv@ == path@,
            best_mount(mount_views(all@).take(i as int), path@) == match best {
                Some(b) => Some(b as int),
                None => None::<int>,
            },
            best matches Some(b) ==> b < i,
        decreases all.len() - i,
    {
        let ghost pre = mount_views(all@).take(i as int);
        assert(mount_views(all@).take(i + 1).drop_last() == pre);
        assert(mount_views(all@).take(i + 1).last() == mount_view(all@[i as int]));
        if covers_exec(all[i].target.as_str(), &pv) {
            let take = match best {
                None => true,
                Some(b) => {
                    assert(mount_views(all@).take(i + 1)[b as int] == mount_view(all@[b as int]));
                    let ti = chars_of(all[i].target.as_str());
                    let tb = chars_of(all[b].target.as_str());
                    ti.len() >= tb.len()
                },
            };
            if take {
                best = Some(i);
            }
        } else {
            proof {
                if let Some(b) = best {
                    assert(mount_views(all@).take(i + 1)[b as int] == mount_view(all@[b as int]));
                }
            }
        }
        i += 1;
    }
    assert(mount_views(all@).take(all@.len() as int) == mount_views(all@));
    match best {
        Some(b) => Some(&all[b]),
        None => None,
    }
}

// ---------------------------------------------------------------------------
// The validator's paths
// ---------------------------------------------------------------------------

pub open spec fn path_entry(a: Seq<Seq<char>>, label: Seq<char>, flag: Seq<char>) -> Seq<(Seq<char>, Seq<char>)> {
    match flag_value(a, flag) {
        Some(v) => seq![(label, v)],
        None => Seq::empty(),
    }
}

/// The paths this validator uses, labelled, in the order accounts, ledger,
/// snapshots; a path the invocation does not set is left out.
pub open spec fn paths_spec(c: Ctx) -> Seq<(Seq<char>, Seq<char>)> {
    match c.invocation {
        None => Seq::empty(),
        Some(i) => path_entry(i.arg_views(), "accounts"@, "--accounts"@) + path_entry(
            i.arg_views(),
            "ledger"@,
            "--ledger"@,
        ) + path_entry(i.arg_views(), "snapshots"@, "--snapshots"@),
    }
}

pub open spec fn label_views(v: Seq<(String, String)>) -> Seq<(Seq<char>, Seq<char>)> {
    v.map_values(|p: (String, String)| (p.0@, p.1@))
}

fn push_path(inv: &Invocation, label: &str, flag: &str, out: &mut Vec<(String, String)>)
    ensures
        label_views(final(out)@) == label_views(old(out)@) + path_entry(inv.arg_views(), label@, flag@),
{
    match inv.value(flag) {
        Some(v) => {
            let ghost before = label_views(out@);
            let ghost e = (label@, v@);
            out.push((owned(label), v));
            assert(label_views(out@) == before.push(e));
            assert(before.push(e) == before + seq![e]);
        },
        None => {
            assert(label_views(out@) == label_views(out@) + Seq::<(Seq<char>, Seq<char>)>::empty());
        },
    }
}

/// The paths this validator uses, when there is one.
fn validator_paths(ctx: &Ctx) -> (r: Vec<(String, String)>)
    ensures
        label_views(r@) == paths_spec(*ctx),
{
    let mut out: Vec<(String, String)> = Vec::new();
    match ctx.inv() {
        None => {
            assert(label_views(out@) =~= Seq::<(Seq<char>, Seq<char>)>::empty());
        },
        Some(inv) => {
            assert(label_views(out@) =~= Seq::<(Seq<char>, Seq<char>)>::empty());
            push_path(inv, "accounts", "--accounts", &mut out);
            push_path(inv, "ledger", "--ledger", &mut out);
            push_path(inv, "snapshots", "--snapshots", &mut out);
            assert(label_views(out@) =~= paths_spec(*ctx));
        },
    }
    out
}

/// The measured figures of the mount whose target is `target`.
pub open spec fn fact_mount(ms: Seq<crate::host::Mount>, target: Seq<char>) -> Option<crate::host::Mount>
    decreases ms.len(),
{
    if ms.len() == 0 {
        None
    } else if ms[0].target@ == target {
        Some(ms[0])
    } else {
        fact_mount(ms.drop_first(), target)
    }
}

fn fact_mount_of(ms: &Vec<crate::host::Mount>, target: &str) -> (r: Option<(Option<u64>, Option<u64>)>)
    ensures
        match fact_mount(ms@, target@) {
            Some(m) => r == Some((m.free_bytes, m.total_bytes)),
            None => r is None,
        },
{
    let t = chars_of(target);
    let mut i: usize = 0;
    assert(ms@.skip(0) == ms@);
    while i < ms.len()
        invariant
            i <= ms@.len(),
            t@ == target@,
            fact_mount(ms@, target@) == fact_mount(ms@.skip(i as int), target@),
        decreases ms.len() - i,
    {
        assert(ms@.skip(i as int)[0] == ms@[i as int]);
        assert(ms@.skip(i as int).drop_first() == ms@.skip(i + 1));
        let mt = chars_of(ms[i].target.as_str());
        if crate::text::same(&mt, &t) {
            return Some((ms[i].free_bytes, ms[i].total_bytes));
        }
        i += 1;
    }
    assert(ms@.skip(i as int) =~= Seq::<crate::host::Mount>::empty());
    None
}

/// Bytes as whole gigabytes, the nearest one.
pub open spec fn gb(b: nat) -> nat {
    (b + 500_000_000) / 1_000_000_000
}

fn gb_text(b: u128) -> (r: String)
    requires
        b <= 0x1_0000_0000_0000_0000_0000,
    ensures
        r@ == dec(gb(b as nat)),
{
    let g: u128 = (b + 500_000_000) / 1_000_000_000;
    assert(g <= 0x1_0000_0000_0000_0000_0000u128 / 1_000_000_000 + 1);
    dec_string(g as u64)
}

// ---------------------------------------------------------------------------
// PF-FS-0001: capacity
// ---------------------------------------------------------------------------

/// Anza's stated total, used as the mainnet baseline.
pub open spec fn need_total_bytes() -> nat {
    2_500_000_000_000
}

/// What the profile wants of the filesystem holding a path, in gigabytes:
/// Anza's figure where there is one, the operator floor for the ledger where
/// there is not.
pub open spec fn want_gb(t: crate::model::Thresholds, label: Seq<char>) -> Option<u64> {
    if label == "accounts"@ {
        t.accounts_gb
    } else if label == "ledger"@ {
        match t.ledger_gb {
            Some(x) => Some(x),
            None => t.disk_gb,
        }
    } else {
        t.snapshots_gb
    }
}

/// A path comes up short when no mount holds it, when its filesystem is
/// smaller than the profile's figure for it, or when less than the profile's
/// share of it is free. A path whose free space was not measured is not
/// judged. The figure is a device size, not a level: comparing it against
/// free space would fail a disk for holding a ledger, which is its job.
pub open spec fn path_short(c: Ctx, t: crate::model::Thresholds, label: Seq<char>, path: Seq<char>) -> bool {
    let ms = mounts_spec(c);
    match best_mount(ms, path) {
        None => true,
        Some(i) => match fact_mount(c.facts.mounts@, ms[i].0) {
            None => false,
            Some(fm) => match fm.free_bytes {
                None => false,
                Some(free) => {
                    let total: nat = match fm.total_bytes {
                        Some(x) => x as nat,
                        None => 0,
                    };
                    (match want_gb(t, label) {
                        Some(need) => total > 0 && total < need * 1_000_000_000,
                        None => false,
                    }) || (total > 0 && free * 100 < t.min_free_pct * total)
                },
            },
        },
    }
}

pub open spec fn any_short(c: Ctx, t: crate::model::Thresholds, ps: Seq<(Seq<char>, Seq<char>)>) -> bool {
    exists|k: int| 0 <= k < ps.len() && path_short(c, t, (#[trigger] ps[k]).0, ps[k].1)
}

/// The solid-state bytes a bare box offers: disks that do not spin and are not
/// views of other devices.
pub open spec fn ssd_bytes(ds: Seq<crate::host::Disk>) -> nat
    decreases ds.len(),
{
    if ds.len() == 0 {
        0
    } else {
        ssd_bytes(ds.drop_last()) + if !ds.last().rotational && !ds.last().mapped {
            ds.last().size_bytes as nat
        } else {
            0nat
        }
    }
}

pub open spec fn bare_status(c: Ctx, sized: bool) -> Status {
    if c.facts.disks@.len() == 0 {
        Status::Unknown
    } else if sized && ssd_bytes(c.facts.disks@) < need_total_bytes() {
        Status::Fail
    } else {
        Status::Pass
    }
}

/// PF-FS-0001's outcome.
pub open spec fn capacity_status(c: Ctx) -> Status {
    let t = crate::model::thresholds_of(c.profile);
    match off_linux_status(c) {
        Some(s) => s,
        None => if paths_spec(c).len() == 0 {
            bare_status(c, t.accounts_gb is Some)
        } else if any_short(c, t, paths_spec(c)) {
            Status::Fail
        } else if t.accounts_gb is Some {
            Status::Pass
        } else {
            Status::Reported
        },
    }
}

proof fn lemma_ssd_bytes_bound(ds: Seq<crate::host::Disk>)
    ensures
        ssd_bytes(ds) <= ds.len() * 0xFFFF_FFFF_FFFF_FFFF,
    decreases ds.len(),
{
    if ds.len() > 0 {
        lemma_ssd_bytes_bound(ds.drop_last());
    }
}

/// No validator yet, so judge the devices rather than any path.
/// What a box with no validator is held to: Anza's total where it publishes
/// one, and nothing where it does not.
pub open spec fn bare_expected(sized: bool) -> Seq<char> {
    if sized {
        "about 2500 GB, Anza's figures for a production node"@
    } else {
        "no published figure for this cluster; reported for your judgement"@
    }
}

fn bare_box_capacity(ctx: &Ctx, sized: bool, why_sized: &str, why_headroom: &str) -> (o: Outcome)
    ensures
        o.status == bare_status(*ctx, sized),
        o.observed@ == bare_observed(ctx.facts.disks@),
        o.expected@ == bare_expected(sized),
        crate::model::commands(o.fix@) == if o.status == Status::Fail {
            seq!["accounts 1000 GB, ledger 1000 GB, snapshots 500 GB"@]
        } else {
            Seq::empty()
        },
        o.why@ == if sized {
            why_sized@
        } else {
            why_headroom@
        },
        o.verify is None,
        o.persistence is None,
        o.status == Status::Unknown ==> o.observed@.len() > 0,
        crate::model::notes(o.fix@) == if o.status == Status::Fail {
            seq![Some("high write endurance matters as much as size; validators write constantly"@)]
        } else {
            Seq::empty()
        },
{
    let why = if sized {
        why_sized
    } else {
        why_headroom
    };
    let expected = if sized {
        "about 2500 GB, Anza's figures for a production node"
    } else {
        "no published figure for this cluster; reported for your judgement"
    };
    let ds = &ctx.facts.disks;
    if ds.len() == 0 {
        proof {
            reveal_strlit("no block devices detected");
        }
        return Outcome::unknown("no block devices detected").expected(expected).why(why);
    }
    let mut usable: u128 = 0;
    let mut count: u64 = 0;
    let mut i: usize = 0;
    while i < ds.len()
        invariant
            i <= ds@.len(),
            ds@ == ctx.facts.disks@,
            usable == ssd_bytes(ds@.take(i as int)),
            usable <= i * 0xFFFF_FFFF_FFFF_FFFF,
            count == ssd_count(ds@.take(i as int)),
            count <= i,
        decreases ds.len() - i,
    {
        assert(ds@.take(i + 1).drop_last() == ds@.take(i as int));
        if !ds[i].rotational && !ds[i].mapped {
            usable = usable + ds[i].size_bytes as u128;
            count = count + 1;
        }
        i += 1;
    }
    assert(ds@.take(ds@.len() as int) == ds@);
    proof {
        lemma_ssd_bytes_bound(ds@);
    }
    let total = if usable <= 0x1_0000_0000_0000_0000_0000 {
        gb_text(usable)
    } else {
        owned("more than a zettabyte of")
    };
    let mut observed = owned(total.as_str());
    append(&mut observed, " GB across ");
    let n = dec_string(count);
    append(&mut observed, n.as_str());
    append(&mut observed, " solid-state device(s)");
    if sized && usable < 2_500_000_000_000 {
        let mut fix: Vec<FixStep> = Vec::new();
        fix.push(
            FixStep::noted(
                "accounts 1000 GB, ledger 1000 GB, snapshots 500 GB",
                "high write endurance matters as much as size; validators write constantly",
            ),
        );
        return Outcome::fail(observed.as_str(), expected).why(why).fix(fix);
    }
    Outcome::pass(observed.as_str(), expected).why(why)
}

fn want_of(t: &crate::model::Thresholds, label: &str) -> (r: Option<u64>)
    ensures
        r == want_gb(*t, label@),
{
    if crate::text::eq_lit(label, "accounts") {
        t.accounts_gb
    } else if crate::text::eq_lit(label, "ledger") {
        match t.ledger_gb {
            Some(x) => Some(x),
            None => t.disk_gb,
        }
    } else {
        t.snapshots_gb
    }
}

/// One path's line in the capacity report: what is short about it, or how
/// much of it is free.
pub open spec fn cap_line(c: Ctx, t: crate::model::Thresholds, label: Seq<char>, path: Seq<char>) -> Seq<char> {
    let ms = mounts_spec(c);
    match best_mount(ms, path) {
        None => label + " "@ + path + ": no mount found"@,
        Some(i) => match fact_mount(c.facts.mounts@, ms[i].0) {
            Some(fm) if fm.free_bytes is Some => {
                let free = fm.free_bytes->0 as nat;
                let total: nat = match fm.total_bytes {
                    Some(x) => x as nat,
                    None => 0,
                };
                match want_gb(t, label) {
                    Some(need) if total > 0 && total < need * 1_000_000_000 => label + " "@ + path + ": "@
                        + dec(gb(total)) + " GB filesystem, wants "@ + dec(need as nat) + " GB"@,
                    _ => if total > 0 && free * 100 < t.min_free_pct * total {
                        label + " "@ + path + ": "@ + dec(gb(free)) + " GB free of "@ + dec(gb(total))
                            + " GB, under "@ + dec(t.min_free_pct as nat) + "% headroom"@
                    } else {
                        label + " "@ + dec(gb(free)) + " GB free"@
                    },
                }
            },
            _ => label + " free space not measured"@,
        },
    }
}

/// The lines of the paths that come up short, or of those that do not.
pub open spec fn cap_lines(c: Ctx, t: crate::model::Thresholds, ps: Seq<(Seq<char>, Seq<char>)>, short: bool) -> Seq<
    Seq<char>,
>
    decreases ps.len(),
{
    if ps.len() == 0 {
        Seq::empty()
    } else {
        let rest = cap_lines(c, t, ps.drop_last(), short);
        if path_short(c, t, ps.last().0, ps.last().1) == short {
            rest.push(cap_line(c, t, ps.last().0, ps.last().1))
        } else {
            rest
        }
    }
}

/// What PF-FS-0001 expects of a profile.
pub open spec fn cap_expected(t: crate::model::Thresholds) -> Seq<char> {
    match (t.accounts_gb, t.disk_gb) {
        (Some(_), _) => "about 2500 GB across the validator's paths, per Anza"@,
        (None, Some(d)) => "no published figure; a "@ + dec(d as nat) + " GB ledger filesystem and "@
            + dec(t.min_free_pct as nat) + "% of each still free"@,
        (None, None) => "no published figure; preflight looks for "@ + dec(t.min_free_pct as nat)
            + "% free on each path"@,
    }
}

/// The solid-state devices a bare box offers.
pub open spec fn ssd_count(ds: Seq<crate::host::Disk>) -> nat
    decreases ds.len(),
{
    if ds.len() == 0 {
        0
    } else {
        ssd_count(ds.drop_last()) + if !ds.last().rotational && !ds.last().mapped {
            1nat
        } else {
            0nat
        }
    }
}

/// What PF-FS-0001 observes on a box with no validator paths.
pub open spec fn bare_observed(ds: Seq<crate::host::Disk>) -> Seq<char> {
    if ds.len() == 0 {
        "no block devices detected"@
    } else {
        (if ssd_bytes(ds) <= 0x1_0000_0000_0000_0000_0000 {
            dec(gb(ssd_bytes(ds)))
        } else {
            "more than a zettabyte of"@
        }) + " GB across "@ + dec(ssd_count(ds)) + " solid-state device(s)"@
    }
}

/// One path's line in the capacity report, and whether it comes up short.
fn capacity_line(
    ctx: &Ctx,
    t: &crate::model::Thresholds,
    all: &Vec<MountInfo>,
    label: &str,
    path: &str,
) -> (r: (bool, String))
    requires
        mount_views(all@) == mounts_spec(*ctx),
        t.min_free_pct <= 100,
    ensures
        r.0 == path_short(*ctx, *t, label@, path@),
        r.1@ == cap_line(*ctx, *t, label@, path@),
{
    let m = match mount_for(all.as_slice(), path) {
        Some(m) => m,
        None => {
            let mut l = cat(label, " ");
            append(&mut l, path);
            append(&mut l, ": no mount found");
            return (true, l);
        },
    };
    proof {
        lemma_best_mount_in_range(mounts_spec(*ctx), path@);
    }
    let (free, total) = match fact_mount_of(&ctx.facts.mounts, m.target.as_str()) {
        Some((Some(f), tot)) => (
            f,
            match tot {
                Some(x) => x,
                None => 0,
            },
        ),
        _ => {
            let l = cat(label, " free space not measured");
            return (false, l);
        },
    };
    let need = want_of(t, label);
    let short_size = match need {
        Some(n) => total > 0 && (total as u128) < (n as u128) * 1_000_000_000,
        None => false,
    };
    let pct = t.min_free_pct as u128;
    let tot128 = total as u128;
    assert(pct * tot128 <= 100 * 0xFFFF_FFFF_FFFF_FFFFu128) by (nonlinear_arith)
        requires
            pct <= 100,
            tot128 <= 0xFFFF_FFFF_FFFF_FFFFu128,
    ;
    let short_free = total > 0 && (free as u128) * 100 < pct * tot128;
    let tot = gb_text(total as u128);
    let fr = gb_text(free as u128);
    if short_size {
        let n = match need {
            Some(n) => n,
            None => 0,
        };
        let mut l = cat(label, " ");
        append(&mut l, path);
        append(&mut l, ": ");
        append(&mut l, tot.as_str());
        append(&mut l, " GB filesystem, wants ");
        let ns = dec_string(n);
        append(&mut l, ns.as_str());
        append(&mut l, " GB");
        return (true, l);
    }
    if short_free {
        let mut l = cat(label, " ");
        append(&mut l, path);
        append(&mut l, ": ");
        append(&mut l, fr.as_str());
        append(&mut l, " GB free of ");
        append(&mut l, tot.as_str());
        append(&mut l, " GB, under ");
        let p = dec_string(t.min_free_pct);
        append(&mut l, p.as_str());
        append(&mut l, "% headroom");
        return (true, l);
    }
    let mut l = cat(label, " ");
    append(&mut l, fr.as_str());
    append(&mut l, " GB free");
    (false, l)
}

/// Why capacity matters where Anza publishes figures.
pub const CAPACITY_SIZED_WHY: &'static str = "Anza gives one set of figures without saying which cluster they are for: accounts 1 TB, ledger 1 TB, snapshots 500 GB, all high write endurance. They describe a production node, so preflight applies them to mainnet.";

/// Why capacity matters where nobody publishes figures.
pub const CAPACITY_HEADROOM_WHY: &'static str = "Anza publishes no storage figures for this cluster, so the ledger floor below is an operator one from running it, not anybody's published requirement: 250 GB carries testnet where mainnet wants Anza's 1 TB. What takes a node down is running out, either partway through a snapshot download or weeks later as the ledger grows, and a one-shot check sees a level rather than a rate, so treat the headroom line as a prompt to look at your own trend.";

/// What `capacity` promises of its outcome.
pub open spec fn capacity_outcome(ctx: Ctx, o: Outcome) -> bool {
    &&& (o.status == capacity_status(ctx))
    &&& (off_linux_status(ctx) is Some ==> (o.observed@, o.expected@) =~~= off_linux_text(ctx))
    &&& (off_linux_status(ctx) is None ==> {
        let t = crate::model::thresholds_of(ctx.profile);
        let ps = paths_spec(ctx);
        if ps.len() == 0 {
            &&& o.observed@ =~= bare_observed(ctx.facts.disks@)
            &&& o.expected@ =~= bare_expected(t.accounts_gb is Some)
            &&& crate::model::commands(o.fix@) =~= if o.status == Status::Fail {
                seq!["accounts 1000 GB, ledger 1000 GB, snapshots 500 GB"@]
            } else {
                Seq::empty()
            }
        } else {
            &&& o.fix@.len() == 0
            &&& o.expected@ =~= cap_expected(t)
            &&& o.observed@ =~= if any_short(ctx, t, ps) {
                join(cap_lines(ctx, t, ps, true), "; "@)
            } else {
                join(cap_lines(ctx, t, ps, false), ", "@)
            }
        }
    })
    &&& (o.why@ =~= if off_linux_status(ctx) is None && crate::model::thresholds_of(ctx.profile).accounts_gb is Some {
        CAPACITY_SIZED_WHY@
    } else {
        CAPACITY_HEADROOM_WHY@
    })
    &&& (o.verify is None)
    &&& (o.persistence is None)
    &&& (o.status == Status::Unknown ==> o.observed@.len() > 0)
    &&& (off_linux_status(ctx) is None && paths_spec(ctx).len() == 0 ==> crate::model::notes(o.fix@) =~= if o.status
        == Status::Fail {
        seq![Some("high write endurance matters as much as size; validators write constantly"@)]
    } else {
        Seq::empty()
    })
}

/// PF-FS-0001. Storage, judged against the active profile.
///
/// mainnet gets Anza's figures. testnet and local have no published figures, so
/// they are judged on free headroom instead, which is the thing that actually
/// takes a node down.
pub fn capacity(ctx: &Ctx) -> (o: Outcome)
    ensures
        capacity_outcome(*ctx, o),
{
    let why_sized = CAPACITY_SIZED_WHY;
    let why_headroom = CAPACITY_HEADROOM_WHY;
    match needs_linux(ctx, why_headroom) {
        Some(o) => return o,
        None => {},
    }
    let t = ctx.profile.thresholds();
    let all = mounts(ctx);
    let paths = validator_paths(ctx);
    if paths.len() == 0 {
        return bare_box_capacity(ctx, t.accounts_gb.is_some(), why_sized, why_headroom);
    }
    let ghost ps = label_views(paths@);
    let mut short: Vec<String> = Vec::new();
    let mut seen: Vec<String> = Vec::new();
    let mut any = false;
    let mut i: usize = 0;
    while i < paths.len()
        invariant
            i <= paths@.len(),
            ps == label_views(paths@),
            ps == paths_spec(*ctx),
            mount_views(all@) == mounts_spec(*ctx),
            t == crate::model::thresholds_of(ctx.profile),
            any == exists|k: int| 0 <= k < i && path_short(*ctx, t, (#[trigger] ps[k]).0, ps[k].1),
            views(short@) == cap_lines(*ctx, t, ps.take(i as int), true),
            views(seen@) == cap_lines(*ctx, t, ps.take(i as int), false),
        decreases paths.len() - i,
    {
        let (is_short, line) = capacity_line(ctx, &t, &all, paths[i].0.as_str(), paths[i].1.as_str());
        assert(ps[i as int] == (paths@[i as int].0@, paths@[i as int].1@));
        assert(ps.take(i + 1).drop_last() == ps.take(i as int));
        assert(ps.take(i + 1).last() == ps[i as int]);
        if is_short {
            short.push(line);
            any = true;
        } else {
            seen.push(line);
        }
        i += 1;
    }
    assert(ps.take(ps.len() as int) == ps);
    let why = if t.accounts_gb.is_some() {
        why_sized
    } else {
        why_headroom
    };
    let pct = dec_string(t.min_free_pct);
    let expected = match (t.accounts_gb, t.disk_gb) {
        (Some(_), _) => owned("about 2500 GB across the validator's paths, per Anza"),
        (None, Some(d)) => {
            let mut e = owned("no published figure; a ");
            let ds = dec_string(d);
            append(&mut e, ds.as_str());
            append(&mut e, " GB ledger filesystem and ");
            append(&mut e, pct.as_str());
            append(&mut e, "% of each still free");
            e
        },
        (None, None) => {
            let mut e = owned("no published figure; preflight looks for ");
            append(&mut e, pct.as_str());
            append(&mut e, "% free on each path");
            e
        },
    };
    if !any {
        // A pass implies a threshold was met. On a cluster nobody publishes
        // figures for there is no threshold, so this reports like cores and
        // memory do rather than claiming a bar was cleared.
        let obs = crate::text::join_strings(&seen, ", ");
        return if t.accounts_gb.is_some() {
            Outcome::pass(obs.as_str(), expected.as_str()).why(why)
        } else {
            Outcome::reported(obs.as_str(), expected.as_str()).why(why)
        };
    }
    let obs = crate::text::join_strings(&short, "; ");
    Outcome::fail(obs.as_str(), expected.as_str()).why(why)
}

// ---------------------------------------------------------------------------
// Devices
// ---------------------------------------------------------------------------

pub open spec fn strip_digits_end(s: Seq<char>) -> Seq<char>
    decreases s.len(),
{
    if s.len() > 0 && crate::text::is_digit(s.last()) {
        strip_digits_end(s.drop_last())
    } else {
        s
    }
}

/// The device a partition lives on, so nvme0n1p2 and nvme0n1 read as one
/// device: two paths on the same base device share the same queue.
pub open spec fn base_device_of(source: Seq<char>) -> Option<Seq<char>> {
    if !"/dev/"@.is_prefix_of(source) {
        None
    } else {
        let name = source.skip(5);
        let trimmed = if "nvme"@.is_prefix_of(name) {
            crate::text::split_on(name, 'p')[0]
        } else {
            strip_digits_end(name)
        };
        if trimmed.len() > 0 {
            Some(trimmed)
        } else {
            None
        }
    }
}

fn base_device(source: &str) -> (r: Option<String>)
    ensures
        opt_view(r) == base_device_of(source@),
{
    if !str_starts(source, "/dev/") {
        return None;
    }
    let v = chars_of(source);
    proof {
        reveal_strlit("/dev/");
    }
    let name = crate::text::subvec(&v, 5, v.len());
    let trimmed = if str_starts(crate::text::string_of(&name).as_str(), "nvme") {
        let ps = crate::text::split_char(&name, 'p');
        proof {
            crate::text::lemma_split_on_nonempty(name@, 'p');
        }
        chars_of(ps[0].as_str())
    } else {
        let mut j: usize = name.len();
        assert(name@.take(name@.len() as int) == name@);
        while j > 0 && '0' <= name[j - 1] && name[j - 1] <= '9'
            invariant
                j <= name@.len(),
                strip_digits_end(name@) == strip_digits_end(name@.take(j as int)),
            decreases j,
        {
            assert(name@.take(j as int).drop_last() == name@.take(j - 1));
            j -= 1;
        }
        crate::text::subvec(&name, 0, j)
    };
    if trimmed.len() > 0 {
        Some(crate::text::string_of(&trimmed))
    } else {
        None
    }
}

pub open spec fn count_ssd(ds: Seq<crate::host::Disk>) -> nat
    decreases ds.len(),
{
    if ds.len() == 0 {
        0
    } else {
        count_ssd(ds.drop_last()) + if !ds.last().rotational {
            1nat
        } else {
            0nat
        }
    }
}

/// The base device behind each path that has one, labelled.
pub open spec fn devices_of(c: Ctx, ps: Seq<(Seq<char>, Seq<char>)>) -> Seq<(Seq<char>, Seq<char>)>
    decreases ps.len(),
{
    if ps.len() == 0 {
        Seq::empty()
    } else {
        let rest = devices_of(c, ps.drop_last());
        let ms = mounts_spec(c);
        match best_mount(ms, ps.last().1) {
            Some(i) => match base_device_of(ms[i].1) {
                Some(d) => rest.push((ps.last().0, d)),
                None => rest,
            },
            None => rest,
        }
    }
}

/// PF-FS-0002's outcome. With no validator yet, fewer than three solid-state
/// devices is a finding; with one, accounts and ledger on one device is.
pub open spec fn separate_status(c: Ctx) -> Status {
    match off_linux_status(c) {
        Some(s) => s,
        None => if paths_spec(c).len() == 0 {
            let n = count_ssd(c.facts.disks@);
            if n == 0 {
                Status::Unknown
            } else if n <= 2 {
                Status::Fail
            } else {
                Status::Pass
            }
        } else {
            let ds = devices_of(c, paths_spec(c));
            if ds.len() < 2 {
                Status::Unknown
            } else {
                match (crate::text::lookup(ds, "accounts"@), crate::text::lookup(ds, "ledger"@)) {
                    (Some(a), Some(l)) => if a == l {
                        Status::Fail
                    } else {
                        Status::Pass
                    },
                    _ => Status::Pass,
                }
            }
        },
    }
}

/// Each labelled device as `label on device`.
pub open spec fn device_listing(ds: Seq<(Seq<char>, Seq<char>)>) -> Seq<Seq<char>> {
    ds.map_values(|d: (Seq<char>, Seq<char>)| d.0 + " on "@ + d.1)
}

/// What PF-FS-0002 observes, and what it expects.
pub open spec fn separate_text(c: Ctx) -> (Seq<char>, Seq<char>) {
    let expected = "accounts and ledger on separate block devices"@;
    match off_linux_status(c) {
        Some(_) => off_linux_text(c),
        None => if paths_spec(c).len() == 0 {
            (
                dec(count_ssd(c.facts.disks@)) + " solid-state device(s) available, no validator paths to place yet"@,
                expected,
            )
        } else {
            let ds = devices_of(c, paths_spec(c));
            if ds.len() < 2 {
                ("could not resolve the block devices behind these paths"@, expected)
            } else {
                match (crate::text::lookup(ds, "accounts"@), crate::text::lookup(ds, "ledger"@)) {
                    (Some(a), Some(l)) => if a == l {
                        ("accounts and ledger both on "@ + a, expected)
                    } else {
                        (join(device_listing(ds), ", "@), expected)
                    },
                    _ => (join(device_listing(ds), ", "@), expected),
                }
            }
        },
    }
}

/// Why separate devices matters, as the report gives it.
pub const SEPARATE_WHY: &'static str = "Anza says accounts and ledger can share a disk but that it is not recommended, because both are IOPS-heavy and contend. It says nothing about snapshots, which are written in bursts and are commonly kept alongside the ledger on purpose. preflight only reports the pairing Anza actually cautions about.";

/// What `separate_devices` promises of its outcome.
pub open spec fn separate_devices_outcome(ctx: Ctx, o: Outcome) -> bool {
    &&& (o.status == separate_status(ctx))
    &&& ((o.observed@, o.expected@) =~~= separate_text(ctx))
    &&& (crate::model::commands(o.fix@) =~= if o.status != Status::Fail {
        Seq::empty()
    } else if paths_spec(ctx).len() == 0 {
        seq!["plan for three devices: accounts, ledger, snapshots"@]
    } else {
        seq!["move accounts or ledger to its own device"@]
    })
    &&& (o.why@ =~= SEPARATE_WHY@)
    &&& (o.verify is None)
    &&& (o.persistence is None)
    &&& (o.status == Status::Unknown ==> o.observed@.len() > 0)
    &&& (crate::model::notes(o.fix@) =~= if o.status != Status::Fail {
        Seq::empty()
    } else if paths_spec(ctx).len() == 0 {
        seq![Some("sharing is permitted and the node will run; it has less headroom under load"@)]
    } else {
        seq![Some("the node still runs either way; expect less headroom when the cluster is busy"@)]
    })
}

/// PF-FS-0002. Separate devices. Degraded, never Fatal: Anza permits sharing.
pub fn separate_devices(ctx: &Ctx) -> (o: Outcome)
    ensures
        separate_devices_outcome(*ctx, o),
{
    let why = SEPARATE_WHY;
    let expected = "accounts and ledger on separate block devices";
    match needs_linux(ctx, why) {
        Some(o) => return o,
        None => {},
    }
    let paths = validator_paths(ctx);
    if paths.len() == 0 {
        let ds = &ctx.facts.disks;
        let mut n: u64 = 0;
        let mut i: usize = 0;
        while i < ds.len()
            invariant
                i <= ds@.len(),
                ds@ == ctx.facts.disks@,
                n == count_ssd(ds@.take(i as int)),
                n <= i,
            decreases ds.len() - i,
        {
            assert(ds@.take(i + 1).drop_last() == ds@.take(i as int));
            if !ds[i].rotational {
                n = n + 1;
            }
            i += 1;
        }
        assert(ds@.take(ds@.len() as int) == ds@);
        let ns = dec_string(n);
        let mut observed = cat(ns.as_str(), " solid-state device(s) available, no validator paths to place yet");
        // Severity carries "how bad"; status carries "is it wrong". Fewer than
        // three devices is a real finding, at Degraded severity in the registry.
        if n == 0 {
            proof {
                reveal_strlit(" solid-state device(s) available, no validator paths to place yet");
            }
            return Outcome::unknown(observed.as_str()).expected(expected).why(why);
        }
        if n <= 2 {
            let mut fix: Vec<FixStep> = Vec::new();
            fix.push(
                FixStep::noted(
                    "plan for three devices: accounts, ledger, snapshots",
                    "sharing is permitted and the node will run; it has less headroom under load",
                ),
            );
            return Outcome::fail(observed.as_str(), expected).why(why).fix(fix);
        }
        return Outcome::pass(observed.as_str(), expected).why(why);
    }
    let all = mounts(ctx);
    let ghost ps = label_views(paths@);
    let mut devices: Vec<(String, String)> = Vec::new();
    let mut i: usize = 0;
    while i < paths.len()
        invariant
            i <= paths@.len(),
            ps == label_views(paths@),
            ps == paths_spec(*ctx),
            mount_views(all@) == mounts_spec(*ctx),
            crate::text::pair_views(devices@) == devices_of(*ctx, ps.take(i as int)),
        decreases paths.len() - i,
    {
        assert(ps.take(i + 1).drop_last() == ps.take(i as int));
        assert(ps.take(i + 1).last() == (paths@[i as int].0@, paths@[i as int].1@));
        match mount_for(all.as_slice(), paths[i].1.as_str()) {
            Some(m) => match base_device(m.source.as_str()) {
                Some(dev) => {
                    let ghost before = crate::text::pair_views(devices@);
                    let ghost e = (paths@[i as int].0@, dev@);
                    devices.push((paths[i].0.clone(), dev));
                    assert(crate::text::pair_views(devices@) == before.push(e));
                },
                None => {},
            },
            None => {},
        }
        i += 1;
    }
    assert(ps.take(ps.len() as int) == ps);
    if devices.len() < 2 {
        proof {
            reveal_strlit("could not resolve the block devices behind these paths");
        }
        return Outcome::unknown("could not resolve the block devices behind these paths").expected(
            expected,
        ).why(why);
    }
    let a = crate::text::lookup_of(&devices, "accounts");
    let l = crate::text::lookup_of(&devices, "ledger");
    match (a, l) {
        (Some(a), Some(l)) => {
            let av = chars_of(a.as_str());
            let lv = chars_of(l.as_str());
            if crate::text::same(&av, &lv) {
                let obs = cat("accounts and ledger both on ", a.as_str());
                let mut fix: Vec<FixStep> = Vec::new();
                fix.push(
                    FixStep::noted(
                        "move accounts or ledger to its own device",
                        "the node still runs either way; expect less headroom when the cluster is busy",
                    ),
                );
                return Outcome::fail(obs.as_str(), expected).why(why).fix(fix);
            }
        },
        _ => {},
    }
    let ghost dv = crate::text::pair_views(devices@);
    let mut listing: Vec<String> = Vec::new();
    let mut k: usize = 0;
    while k < devices.len()
        invariant
            k <= devices@.len(),
            dv == crate::text::pair_views(devices@),
            views(listing@) == device_listing(dv.take(k as int)),
        decreases devices.len() - k,
    {
        let mut e = cat(devices[k].0.as_str(), " on ");
        append(&mut e, devices[k].1.as_str());
        let ghost before = views(listing@);
        listing.push(e);
        assert(views(listing@) == before.push(dv[k as int].0 + " on "@ + dv[k as int].1));
        assert(device_listing(dv.take(k + 1)) == device_listing(dv.take(k as int)).push(
            dv[k as int].0 + " on "@ + dv[k as int].1,
        ));
        k += 1;
    }
    assert(dv.take(dv.len() as int) == dv);
    let obs = crate::text::join_strings(&listing, ", ");
    Outcome::pass(obs.as_str(), expected).why(why)
}

// ---------------------------------------------------------------------------
// PF-FS-0003 to PF-FS-0005: one test per path
// ---------------------------------------------------------------------------

/// The three checks that test each validator path the same way.
#[derive(Debug, Clone, Copy, PartialEq, Eq, Structural)]
pub enum PathTest {
    Media,
    Noatime,
    FsType,
}

pub open spec fn network_fs(t: Seq<char>) -> bool {
    t == "nfs"@ || t == "nfs4"@ || t == "cifs"@ || t == "smb3"@ || t == "ceph"@ || t
        == "glusterfs"@ || t == "9p"@
}

/// The first disk of a name.
pub open spec fn find_disk(ds: Seq<crate::host::Disk>, name: Seq<char>) -> Option<crate::host::Disk>
    decreases ds.len(),
{
    if ds.len() == 0 {
        None
    } else if ds[0].name@ == name {
        Some(ds[0])
    } else {
        find_disk(ds.drop_first(), name)
    }
}

/// Whether the mount holding a path passes the test: local and not spinning;
/// mounted noatime; ext4 or xfs.
pub open spec fn path_ok(c: Ctx, which: PathTest, m: (Seq<char>, Seq<char>, Seq<char>, Seq<char>)) -> bool {
    match which {
        PathTest::Media => !network_fs(m.2) && match base_device_of(m.1) {
            Some(d) => match find_disk(c.facts.disks@, d) {
                Some(disk) => !disk.rotational,
                None => true,
            },
            None => true,
        },
        PathTest::Noatime => crate::text::split_on(m.3, ',').contains("noatime"@),
        PathTest::FsType => m.2 == "ext4"@ || m.2 == "xfs"@,
    }
}

/// A path whose mount fails the test; a path no mount holds is not judged.
pub open spec fn path_fails(c: Ctx, which: PathTest, path: Seq<char>) -> bool {
    let ms = mounts_spec(c);
    match best_mount(ms, path) {
        Some(i) => !path_ok(c, which, ms[i]),
        None => false,
    }
}

/// The outcome the three per-path checks share: Skipped with no paths, Fail
/// when any path's mount fails, Pass otherwise.
pub open spec fn per_path_status(c: Ctx, which: PathTest) -> Status {
    let ps = paths_spec(c);
    if ps.len() == 0 {
        Status::Skipped
    } else if exists|k: int| 0 <= k < ps.len() && path_fails(c, which, (#[trigger] ps[k]).1) {
        Status::Fail
    } else {
        Status::Pass
    }
}

/// The line the report gives one path, pass or fail: the path as the operator
/// wrote it, then what its mount shows for the test.
pub open spec fn path_line(
    c: Ctx,
    which: PathTest,
    m: (Seq<char>, Seq<char>, Seq<char>, Seq<char>),
    named: Seq<char>,
) -> Seq<char> {
    match which {
        PathTest::Media => if network_fs(m.2) {
            named + " on "@ + m.2 + " ("@ + m.1 + ")"@
        } else {
            match base_device_of(m.1) {
                Some(d) => match find_disk(c.facts.disks@, d) {
                    Some(disk) => if disk.rotational {
                        named + " on spinning disk "@ + disk.name@
                    } else {
                        named + " on "@ + disk.name@
                    },
                    None => named + " on "@ + m.1,
                },
                None => named + " on "@ + m.1,
            }
        },
        PathTest::Noatime => if path_ok(c, which, m) {
            named
        } else {
            named + ", mounted at "@ + m.0 + ", has no noatime"@
        },
        PathTest::FsType => if path_ok(c, which, m) {
            named + " "@ + m.2
        } else {
            named + " on "@ + m.2
        },
    }
}

/// The lines of the paths whose mounts pass the test (`ok`) or fail it, in
/// path order; a path no mount holds gives none.
pub open spec fn path_lines(c: Ctx, which: PathTest, ps: Seq<(Seq<char>, Seq<char>)>, ok: bool) -> Seq<
    Seq<char>,
>
    decreases ps.len(),
{
    if ps.len() == 0 {
        Seq::empty()
    } else {
        let rest = path_lines(c, which, ps.drop_last(), ok);
        let p = ps.last();
        let ms = mounts_spec(c);
        match best_mount(ms, p.1) {
            Some(i) => if path_ok(c, which, ms[i]) == ok {
                rest.push(path_line(c, which, ms[i], p.0 + " "@ + p.1))
            } else {
                rest
            },
            None => rest,
        }
    }
}

/// What a per-path check observes, and what it expects.
pub open spec fn per_path_text(c: Ctx, which: PathTest, expected: Seq<char>) -> (Seq<char>, Seq<char>) {
    let ps = paths_spec(c);
    if ps.len() == 0 {
        ("no validator paths to check yet"@, Seq::empty())
    } else if path_lines(c, which, ps, false).len() == 0 {
        (join(path_lines(c, which, ps, true), ", "@), expected)
    } else {
        (join(path_lines(c, which, ps, false), "; "@), expected)
    }
}

fn find_disk_of(ds: &Vec<crate::host::Disk>, name: &str) -> (r: Option<(String, bool)>)
    ensures
        match find_disk(ds@, name@) {
            Some(d) => r matches Some((n, rot)) && n@ == d.name@ && rot == d.rotational,
            None => r is None,
        },
{
    let nv = chars_of(name);
    let mut i: usize = 0;
    assert(ds@.skip(0) == ds@);
    while i < ds.len()
        invariant
            i <= ds@.len(),
            nv@ == name@,
            find_disk(ds@, name@) == find_disk(ds@.skip(i as int), name@),
        decreases ds.len() - i,
    {
        assert(ds@.skip(i as int)[0] == ds@[i as int]);
        assert(ds@.skip(i as int).drop_first() == ds@.skip(i + 1));
        let dn = chars_of(ds[i].name.as_str());
        if crate::text::same(&dn, &nv) {
            return Some((ds[i].name.clone(), ds[i].rotational));
        }
        i += 1;
    }
    assert(ds@.skip(i as int) =~= Seq::<crate::host::Disk>::empty());
    None
}

fn has_option(options: &str, opt: &str) -> (r: bool)
    ensures
        r == crate::text::split_on(options@, ',').contains(opt@),
{
    let v = chars_of(options);
    let ps = crate::text::split_char(&v, ',');
    let ov = chars_of(opt);
    let mut i: usize = 0;
    while i < ps.len()
        invariant
            i <= ps@.len(),
            ov@ == opt@,
            views(ps@) == crate::text::split_on(options@, ','),
            forall|k: int| 0 <= k < i ==> views(ps@)[k] != opt@,
        decreases ps.len() - i,
    {
        let p = chars_of(ps[i].as_str());
        if crate::text::same(&p, &ov) {
            assert(views(ps@)[i as int] == opt@);
            return true;
        }
        i += 1;
    }
    false
}

/// One path's test, with the line the report gives it.
fn test_path(ctx: &Ctx, which: PathTest, m: &MountInfo, named: &str) -> (r: Result<String, String>)
    ensures
        r is Ok == path_ok(*ctx, which, mount_view(*m)),
        match r {
            Ok(l) => l@ == path_line(*ctx, which, mount_view(*m), named@),
            Err(l) => l@ == path_line(*ctx, which, mount_view(*m), named@),
        },
{
    match which {
        PathTest::Media => {
            let f = m.fstype.as_str();
            let network = crate::text::eq_lit(f, "nfs") || crate::text::eq_lit(f, "nfs4")
                || crate::text::eq_lit(f, "cifs") || crate::text::eq_lit(f, "smb3")
                || crate::text::eq_lit(f, "ceph") || crate::text::eq_lit(f, "glusterfs")
                || crate::text::eq_lit(f, "9p");
            if network {
                let mut e = cat(named, " on ");
                append(&mut e, f);
                append(&mut e, " (");
                append(&mut e, m.source.as_str());
                append(&mut e, ")");
                return Err(e);
            }
            let disk = match base_device(m.source.as_str()) {
                Some(d) => find_disk_of(&ctx.facts.disks, d.as_str()),
                None => None,
            };
            match disk {
                Some((name, true)) => {
                    let mut e = cat(named, " on spinning disk ");
                    append(&mut e, name.as_str());
                    Err(e)
                },
                Some((name, false)) => {
                    let mut e = cat(named, " on ");
                    append(&mut e, name.as_str());
                    Ok(e)
                },
                None => {
                    let mut e = cat(named, " on ");
                    append(&mut e, m.source.as_str());
                    Ok(e)
                },
            }
        },
        PathTest::Noatime => if has_option(m.options.as_str(), "noatime") {
            Ok(owned(named))
        } else {
            // The mount carries the option, not the path, so name both.
            let mut e = cat(named, ", mounted at ");
            append(&mut e, m.target.as_str());
            append(&mut e, ", has no noatime");
            Err(e)
        },
        PathTest::FsType => {
            let f = m.fstype.as_str();
            if crate::text::eq_lit(f, "ext4") || crate::text::eq_lit(f, "xfs") {
                let mut e = cat(named, " ");
                append(&mut e, f);
                Ok(e)
            } else {
                let mut e = cat(named, " on ");
                append(&mut e, f);
                Err(e)
            }
        },
    }
}

/// Three checks share one shape: test each validator path, then report the
/// failures if there are any and the successes if there are not.
fn per_path(ctx: &Ctx, expected: &str, why: &str, which: PathTest) -> (o: Outcome)
    ensures
        o.status == per_path_status(*ctx, which),
        (o.observed@, o.expected@) == per_path_text(*ctx, which, expected@),
        o.status != Status::Skipped ==> o.why@ == why@,
        o.fix@.len() == 0 && o.verify is None,
        o.persistence is None,
{
    let paths = validator_paths(ctx);
    if paths.len() == 0 {
        return Outcome::skipped("no validator paths to check yet");
    }
    let all = mounts(ctx);
    let ghost ps = label_views(paths@);
    let mut good: Vec<String> = Vec::new();
    let mut bad: Vec<String> = Vec::new();
    let mut i: usize = 0;
    while i < paths.len()
        invariant
            i <= paths@.len(),
            ps == label_views(paths@),
            ps == paths_spec(*ctx),
            mount_views(all@) == mounts_spec(*ctx),
            (bad@.len() > 0) == exists|k: int| 0 <= k < i && path_fails(*ctx, which, (#[trigger] ps[k]).1),
            views(good@) == path_lines(*ctx, which, ps.take(i as int), true),
            views(bad@) == path_lines(*ctx, which, ps.take(i as int), false),
        decreases paths.len() - i,
    {
        assert(ps[i as int] == (paths@[i as int].0@, paths@[i as int].1@));
        assert(ps.take(i + 1).drop_last() == ps.take(i as int));
        assert(ps.take(i + 1).last() == ps[i as int]);
        // The path the operator gave, not just "ledger", since a check that
        // says "ledger at /" leaves them guessing which one it means.
        let mut named = cat(paths[i].0.as_str(), " ");
        append(&mut named, paths[i].1.as_str());
        match mount_for(all.as_slice(), paths[i].1.as_str()) {
            Some(m) => {
                proof {
                    lemma_best_mount_in_range(mounts_spec(*ctx), paths@[i as int].1@);
                }
                match test_path(ctx, which, m, named.as_str()) {
                    Ok(l) => {
                        let ghost before = views(good@);
                        good.push(l);
                        assert(views(good@) == before.push(l@));
                    },
                    Err(l) => {
                        let ghost before = views(bad@);
                        bad.push(l);
                        assert(views(bad@) == before.push(l@));
                    },
                }
            },
            None => {},
        }
        i += 1;
    }
    assert(ps.take(ps.len() as int) == ps);
    if bad.len() == 0 {
        let obs = crate::text::join_strings(&good, ", ");
        Outcome::pass(obs.as_str(), expected).why(why)
    } else {
        let obs = crate::text::join_strings(&bad, "; ");
        Outcome::fail(obs.as_str(), expected).why(why)
    }
}

pub open spec fn rotational_names(ds: Seq<crate::host::Disk>) -> Seq<Seq<char>>
    decreases ds.len(),
{
    if ds.len() == 0 {
        Seq::empty()
    } else if ds.last().rotational {
        rotational_names(ds.drop_last()).push(ds.last().name@)
    } else {
        rotational_names(ds.drop_last())
    }
}

/// The disks named as spinning are exactly the rotational ones: every
/// rotational disk is named, every name belongs to a rotational disk, and a
/// list with no rotational disk names none.
pub proof fn law_spinning_disks_are_the_rotational_ones(ds: Seq<crate::host::Disk>)
    ensures
        forall|i: int| 0 <= i < ds.len() && (#[trigger] ds[i]).rotational ==> rotational_names(ds).contains(
            ds[i].name@,
        ),
        forall|n: Seq<char>|
            #[trigger] rotational_names(ds).contains(n) ==> exists|i: int|
                0 <= i < ds.len() && (#[trigger] ds[i]).rotational && ds[i].name@ == n,
        rotational_names(ds).len() == 0 <==> forall|i: int| 0 <= i < ds.len() ==> !(#[trigger] ds[i]).rotational,
    decreases ds.len(),
{
    if ds.len() > 0 {
        let init = ds.drop_last();
        law_spinning_disks_are_the_rotational_ones(init);
        let r0 = rotational_names(init);
        let r = rotational_names(ds);
        assert forall|i: int| 0 <= i < ds.len() && (#[trigger] ds[i]).rotational implies r.contains(ds[i].name@) by {
            if i < ds.len() - 1 {
                assert(ds[i] == init[i]);
                let j = choose|j: int| 0 <= j < r0.len() && r0[j] == init[i].name@;
                assert(r[j] == r0[j]);
            } else {
                assert(r[r.len() - 1] == ds.last().name@);
            }
        }
        assert forall|n: Seq<char>| #[trigger] r.contains(n) implies exists|i: int|
            0 <= i < ds.len() && (#[trigger] ds[i]).rotational && ds[i].name@ == n by {
            let k = choose|k: int| 0 <= k < r.len() && r[k] == n;
            if k < r0.len() {
                assert(r[k] == r0[k]);
                assert(r0.contains(n));
                let i = choose|i: int| 0 <= i < init.len() && (#[trigger] init[i]).rotational && init[i].name@ == n;
                assert(ds[i] == init[i]);
            } else {
                assert(ds[ds.len() - 1].rotational);
            }
        }
        if r.len() == 0 {
            assert(!ds.last().rotational);
            assert forall|i: int| 0 <= i < ds.len() implies !(#[trigger] ds[i]).rotational by {
                if i < ds.len() - 1 {
                    assert(ds[i] == init[i]);
                }
            }
        } else {
            if ds.last().rotational {
                assert(ds[ds.len() - 1].rotational);
            } else {
                let i = choose|i: int| 0 <= i < init.len() && !(!(#[trigger] init[i]).rotational);
                assert(ds[i] == init[i]);
            }
        }
    }
}

/// With no validator paths yet, PF-FS-0003 judges the devices: it passes when
/// none of them is rotational, saying how many there are, and fails naming
/// the rotational ones otherwise; with no device detected it is Unknown.
pub proof fn law_solid_state_disks_pass(ctx: Ctx, o: Outcome)
    requires
        storage_media_outcome(ctx, o),
        ctx.linux,
        paths_spec(ctx).len() == 0,
    ensures
        ctx.facts.disks@.len() == 0 ==> o.status == Status::Unknown && o.observed@ == "no block devices detected"@,
        ctx.facts.disks@.len() > 0 && (forall|i: int|
            0 <= i < ctx.facts.disks@.len() ==> !(#[trigger] ctx.facts.disks@[i]).rotational) ==> o.status
            == Status::Pass && o.observed@ == dec(ctx.facts.disks@.len()) + " device(s), none spinning"@,
        (exists|i: int| 0 <= i < ctx.facts.disks@.len() && (#[trigger] ctx.facts.disks@[i]).rotational) ==> o.status
            == Status::Fail && o.observed@ == "spinning disk(s): "@ + join(rotational_names(ctx.facts.disks@), ", "@),
        o.expected@ == "local NVMe or SSD"@,
{
    law_spinning_disks_are_the_rotational_ones(ctx.facts.disks@);
}

/// PF-FS-0003's outcome: with no validator yet the devices themselves are
/// judged, Fail when any spins; with one, each path's device.
pub open spec fn media_status(c: Ctx) -> Status {
    match off_linux_status(c) {
        Some(s) => s,
        None => if paths_spec(c).len() == 0 {
            if c.facts.disks@.len() == 0 {
                Status::Unknown
            } else if rotational_names(c.facts.disks@).len() > 0 {
                Status::Fail
            } else {
                Status::Pass
            }
        } else {
            per_path_status(c, PathTest::Media)
        },
    }
}

/// What PF-FS-0003 observes, and what it expects.
pub open spec fn media_text(c: Ctx) -> (Seq<char>, Seq<char>) {
    let expected = "local NVMe or SSD"@;
    match off_linux_status(c) {
        Some(_) => off_linux_text(c),
        None => if paths_spec(c).len() == 0 {
            if c.facts.disks@.len() == 0 {
                ("no block devices detected"@, expected)
            } else if rotational_names(c.facts.disks@).len() > 0 {
                ("spinning disk(s): "@ + join(rotational_names(c.facts.disks@), ", "@), expected)
            } else {
                (dec(c.facts.disks@.len()) + " device(s), none spinning"@, expected)
            }
        } else {
            per_path_text(c, PathTest::Media, expected)
        },
    }
}

/// Why storage media matters, as the report gives it.
pub const MEDIA_WHY: &'static str = "Anza specifies NVMe. A validator's write pattern destroys consumer drives and starves spinning disks, and network-attached storage adds latency to every account read on a path that has none to spare.";

/// What `storage_media` promises of its outcome.
pub open spec fn storage_media_outcome(ctx: Ctx, o: Outcome) -> bool {
    &&& (o.status == media_status(ctx))
    &&& ((o.observed@, o.expected@) =~~= media_text(ctx))
    &&& (o.status != Status::Skipped ==> o.why@ =~= MEDIA_WHY@)
    &&& (o.fix@.len() == 0 && o.verify is None)
    &&& (o.persistence is None)
    &&& (o.status == Status::Unknown ==> o.observed@.len() > 0)
}

/// PF-FS-0003. Solid-state, and not somebody else's disk over a network.
pub fn storage_media(ctx: &Ctx) -> (o: Outcome)
    ensures
        storage_media_outcome(*ctx, o),
{
    let why = MEDIA_WHY;
    let expected = "local NVMe or SSD";
    match needs_linux(ctx, why) {
        Some(o) => return o,
        None => {},
    }
    let paths = validator_paths(ctx);
    if paths.len() == 0 {
        let ds = &ctx.facts.disks;
        if ds.len() == 0 {
            proof {
                reveal_strlit("no block devices detected");
            }
            return Outcome::unknown("no block devices detected").expected(expected).why(why);
        }
        let mut spinning: Vec<String> = Vec::new();
        let mut i: usize = 0;
        while i < ds.len()
            invariant
                i <= ds@.len(),
                ds@ == ctx.facts.disks@,
                views(spinning@) == rotational_names(ds@.take(i as int)),
            decreases ds.len() - i,
        {
            assert(ds@.take(i + 1).drop_last() == ds@.take(i as int));
            if ds[i].rotational {
                let ghost before = views(spinning@);
                spinning.push(ds[i].name.clone());
                assert(views(spinning@) == before.push(ds@[i as int].name@));
            }
            i += 1;
        }
        assert(ds@.take(ds@.len() as int) == ds@);
        if spinning.len() == 0 {
            let n = dec_string(ds.len() as u64);
            let obs = cat(n.as_str(), " device(s), none spinning");
            return Outcome::pass(obs.as_str(), expected).why(why);
        }
        let list = crate::text::join_strings(&spinning, ", ");
        let obs = cat("spinning disk(s): ", list.as_str());
        return Outcome::fail(obs.as_str(), expected).why(why);
    }
    per_path(ctx, expected, why, PathTest::Media)
}

/// Why noatime matters, as the report gives it.
pub const NOATIME_WHY: &'static str = "Anza does not publish this one. It is common operator practice: without noatime the kernel writes an access timestamp every time the validator reads a file, which on an accounts database means a metadata write behind a large share of reads. It costs write endurance for information nothing uses. Worth doing, not required.";

/// What `noatime` promises of its outcome.
pub open spec fn noatime_outcome(ctx: Ctx, o: Outcome) -> bool {
    &&& (o.status == match off_linux_status(ctx) {
        Some(s) => s,
        None => per_path_status(ctx, PathTest::Noatime),
    })
    &&& ((o.observed@, o.expected@) =~~= match off_linux_status(ctx) {
        Some(_) => off_linux_text(ctx),
        None => per_path_text(ctx, PathTest::Noatime, "noatime on the validator's filesystems"@),
    })
    &&& (o.status != Status::Skipped ==> o.why@ =~= NOATIME_WHY@)
    &&& (crate::model::steps(o.fix@) =~= if o.status == Status::Fail {
        noatime_steps(noatime_targets(ctx, paths_spec(ctx)))
    } else {
        Seq::empty()
    })
    &&& (o.verify is None)
    &&& (o.persistence is None)
    &&& (o.status == Status::Unknown ==> o.observed@.len() > 0)
}

/// On Linux, PF-FS-0004 fails exactly when some validator path sits on a
/// mount whose comma-separated options lack `noatime`, and passes otherwise;
/// with no validator paths there is nothing to judge.
pub proof fn law_noatime_is_a_mount_option(ctx: Ctx, o: Outcome)
    requires
        noatime_outcome(ctx, o),
        ctx.linux,
    ensures
        paths_spec(ctx).len() == 0 ==> o.status == Status::Skipped,
        paths_spec(ctx).len() > 0 ==> (o.status == Status::Fail <==> exists|k: int, i: int|
            #![trigger paths_spec(ctx)[k], mounts_spec(ctx)[i]]
            0 <= k < paths_spec(ctx).len() && best_mount(mounts_spec(ctx), paths_spec(ctx)[k].1)
                == Some(i) && !crate::text::split_on(mounts_spec(ctx)[i].3, ',').contains("noatime"@)),
        paths_spec(ctx).len() > 0 && o.status != Status::Fail ==> o.status == Status::Pass,
{
    let ps = paths_spec(ctx);
    let ms = mounts_spec(ctx);
    if ps.len() > 0 {
        if exists|k: int| 0 <= k < ps.len() && path_fails(ctx, PathTest::Noatime, (#[trigger] ps[k]).1) {
            let k = choose|k: int| 0 <= k < ps.len() && path_fails(ctx, PathTest::Noatime, (#[trigger] ps[k]).1);
            let i = best_mount(ms, ps[k].1)->0;
            assert(0 <= k < ps.len() && best_mount(ms, ps[k].1) == Some(i) && !crate::text::split_on(
                ms[i].3,
                ',',
            ).contains("noatime"@));
        } else {
            assert forall|k: int, i: int|
                #![trigger ps[k], ms[i]]
                0 <= k < ps.len() && best_mount(ms, ps[k].1) == Some(i) implies crate::text::split_on(
                ms[i].3,
                ',',
            ).contains("noatime"@) by {
                assert(!path_fails(ctx, PathTest::Noatime, ps[k].1));
            }
        }
    }
}

/// PF-FS-0004. noatime.
pub fn noatime(ctx: &Ctx) -> (o: Outcome)
    ensures
        noatime_outcome(*ctx, o),
{
    let why = NOATIME_WHY;
    match needs_linux(ctx, why) {
        Some(o) => return o,
        None => {},
    }
    let o = per_path(ctx, "noatime on the validator's filesystems", why, PathTest::Noatime);
    if matches!(o.status, Status::Fail) {
        let fix = noatime_fix(ctx);
        o.fix(fix)
    } else {
        o
    }
}

/// The mount points that lack noatime, each once, in the order the validator's
/// paths reach them.
pub open spec fn noatime_targets(c: Ctx, ps: Seq<(Seq<char>, Seq<char>)>) -> Seq<Seq<char>>
    decreases ps.len(),
{
    if ps.len() == 0 {
        Seq::empty()
    } else {
        let rest = noatime_targets(c, ps.drop_last());
        let ms = mounts_spec(c);
        match best_mount(ms, ps.last().1) {
            Some(i) => if !path_ok(c, PathTest::Noatime, ms[i]) && !rest.contains(ms[i].0) {
                rest.push(ms[i].0)
            } else {
                rest
            },
            None => rest,
        }
    }
}

/// The note beside a remount: remounting / is safe, but not unwatched.
pub open spec fn remount_note(target: Seq<char>) -> Seq<char> {
    if target == "/"@ {
        "applies it now. Remounting / on a running system is safe, but watch the node while it happens"@
    } else {
        "applies it now, without unmounting"@
    }
}

/// For each mount point: the line to change in /etc/fstab, then the remount
/// that applies it without a reboot.
pub open spec fn noatime_steps(ts: Seq<Seq<char>>) -> Seq<(Seq<char>, Option<Seq<char>>)>
    decreases ts.len(),
{
    if ts.len() == 0 {
        Seq::empty()
    } else {
        let t = ts.last();
        noatime_steps(ts.drop_last()) + seq![
            (
                "add noatime to the options of "@ + t + " in /etc/fstab"@,
                Some("the file is what makes it survive a reboot"@),
            ),
            ("sudo mount -o remount,noatime "@ + t, Some(remount_note(t))),
        ]
    }
}

fn has_string(v: &Vec<String>, s: &str) -> (r: bool)
    ensures
        r == views(v@).contains(s@),
{
    let sv = chars_of(s);
    let mut i: usize = 0;
    while i < v.len()
        invariant
            i <= v@.len(),
            sv@ == s@,
            forall|k: int| 0 <= k < i ==> views(v@)[k] != s@,
        decreases v.len() - i,
    {
        let e = chars_of(v[i].as_str());
        if crate::text::same(&e, &sv) {
            assert(views(v@)[i as int] == s@);
            return true;
        }
        i += 1;
    }
    false
}

fn noatime_fix(ctx: &Ctx) -> (r: Vec<FixStep>)
    ensures
        crate::model::steps(r@) == noatime_steps(noatime_targets(*ctx, paths_spec(*ctx))),
{
    let paths = validator_paths(ctx);
    let all = mounts(ctx);
    let ghost ps = label_views(paths@);
    let mut targets: Vec<String> = Vec::new();
    let mut i: usize = 0;
    while i < paths.len()
        invariant
            i <= paths@.len(),
            ps == label_views(paths@),
            ps == paths_spec(*ctx),
            mount_views(all@) == mounts_spec(*ctx),
            views(targets@) == noatime_targets(*ctx, ps.take(i as int)),
        decreases paths.len() - i,
    {
        assert(ps.take(i + 1).drop_last() == ps.take(i as int));
        assert(ps.take(i + 1).last() == (paths@[i as int].0@, paths@[i as int].1@));
        match mount_for(all.as_slice(), paths[i].1.as_str()) {
            Some(m) => {
                if !has_option(m.options.as_str(), "noatime") && !has_string(&targets, m.target.as_str()) {
                    let ghost before = views(targets@);
                    targets.push(m.target.clone());
                    assert(views(targets@) == before.push(m.target@));
                }
            },
            None => {},
        }
        i += 1;
    }
    assert(ps.take(ps.len() as int) == ps);
    let ghost ts = views(targets@);
    let mut steps: Vec<FixStep> = Vec::new();
    let mut k: usize = 0;
    while k < targets.len()
        invariant
            k <= targets@.len(),
            ts == views(targets@),
            crate::model::steps(steps@) == noatime_steps(ts.take(k as int)),
        decreases targets.len() - k,
    {
        assert(ts.take(k + 1).drop_last() == ts.take(k as int));
        assert(ts.take(k + 1).last() == targets@[k as int]@);
        let t = targets[k].as_str();
        let mut edit = cat("add noatime to the options of ", t);
        append(&mut edit, " in /etc/fstab");
        let ghost before = crate::model::steps(steps@);
        steps.push(FixStep::noted(edit.as_str(), "the file is what makes it survive a reboot"));
        let remount = cat("sudo mount -o remount,noatime ", t);
        let note = if crate::text::eq_lit(t, "/") {
            "applies it now. Remounting / on a running system is safe, but watch the node while it happens"
        } else {
            "applies it now, without unmounting"
        };
        steps.push(FixStep::noted(remount.as_str(), note));
        assert(crate::model::steps(steps@) =~= before + seq![
            (
                "add noatime to the options of "@ + t@ + " in /etc/fstab"@,
                Some("the file is what makes it survive a reboot"@),
            ),
            ("sudo mount -o remount,noatime "@ + t@, Some(remount_note(t@))),
        ]);
        k += 1;
    }
    assert(ts.take(ts.len() as int) == ts);
    steps
}

/// Why filesystem type matters, as the report gives it.
pub const FSTYPE_WHY: &'static str = "ext4 and xfs are what validator operators run and what Anza's guidance assumes. Others are not forbidden, but they are untested at this write volume and some, like zfs and overlay, do not support the direct I/O agave uses to unpack snapshots.";

/// What `filesystem_type` promises of its outcome.
pub open spec fn filesystem_type_outcome(ctx: Ctx, o: Outcome) -> bool {
    &&& (o.status == match off_linux_status(ctx) {
        Some(s) => s,
        None => per_path_status(ctx, PathTest::FsType),
    })
    &&& ((o.observed@, o.expected@) =~~= match off_linux_status(ctx) {
        Some(_) => off_linux_text(ctx),
        None => per_path_text(ctx, PathTest::FsType, "ext4 or xfs"@),
    })
    &&& (o.status != Status::Skipped ==> o.why@ =~= FSTYPE_WHY@)
    &&& (o.fix@.len() == 0 && o.verify is None)
    &&& (o.persistence is None)
    &&& (o.status == Status::Unknown ==> o.observed@.len() > 0)
}

/// On Linux, PF-FS-0005 fails exactly when some validator path sits on a
/// mount whose filesystem is neither ext4 nor xfs, and passes otherwise;
/// with no validator paths there is nothing to judge.
pub proof fn law_only_ext4_and_xfs_pass(ctx: Ctx, o: Outcome)
    requires
        filesystem_type_outcome(ctx, o),
        ctx.linux,
    ensures
        paths_spec(ctx).len() == 0 ==> o.status == Status::Skipped,
        paths_spec(ctx).len() > 0 ==> (o.status == Status::Fail <==> exists|k: int, i: int|
            #![trigger paths_spec(ctx)[k], mounts_spec(ctx)[i]]
            0 <= k < paths_spec(ctx).len() && best_mount(mounts_spec(ctx), paths_spec(ctx)[k].1)
                == Some(i) && mounts_spec(ctx)[i].2 != "ext4"@ && mounts_spec(ctx)[i].2 != "xfs"@),
        paths_spec(ctx).len() > 0 && o.status != Status::Fail ==> o.status == Status::Pass,
{
    let ps = paths_spec(ctx);
    let ms = mounts_spec(ctx);
    if ps.len() > 0 {
        if exists|k: int| 0 <= k < ps.len() && path_fails(ctx, PathTest::FsType, (#[trigger] ps[k]).1) {
            let k = choose|k: int| 0 <= k < ps.len() && path_fails(ctx, PathTest::FsType, (#[trigger] ps[k]).1);
            let i = best_mount(ms, ps[k].1)->0;
            assert(0 <= k < ps.len() && best_mount(ms, ps[k].1) == Some(i) && ms[i].2 != "ext4"@ && ms[i].2
                != "xfs"@);
        } else {
            assert forall|k: int, i: int|
                #![trigger ps[k], ms[i]]
                0 <= k < ps.len() && best_mount(ms, ps[k].1) == Some(i) implies !(ms[i].2 != "ext4"@
                && ms[i].2 != "xfs"@) by {
                assert(!path_fails(ctx, PathTest::FsType, ps[k].1));
            }
        }
    }
}

/// PF-FS-0005. Filesystem type.
pub fn filesystem_type(ctx: &Ctx) -> (o: Outcome)
    ensures
        filesystem_type_outcome(*ctx, o),
{
    let why = FSTYPE_WHY;
    match needs_linux(ctx, why) {
        Some(o) => return o,
        None => {},
    }
    per_path(ctx, "ext4 or xfs", why, PathTest::FsType)
}

// ---------------------------------------------------------------------------
// PF-FS-0006: O_DIRECT
// ---------------------------------------------------------------------------

/// Filesystems without O_DIRECT. Both halves of the question, this layer's
/// PF-FS-0006 and the command line's PF-ARG-0010, judge by this one list.
pub open spec fn no_odirect(t: Seq<char>) -> bool {
    t == "tmpfs"@ || t == "zfs"@ || t == "overlay"@ || t == "nfs"@ || t == "nfs4"@ || t == "cifs"@
        || t == "9p"@
}

pub open spec fn accounts_path(c: Ctx) -> Option<Seq<char>> {
    crate::text::lookup(paths_spec(c), "accounts"@)
}

pub open spec fn opted_out(c: Ctx) -> bool {
    match c.invocation {
        Some(i) => has_flag(i.arg_views(), "--no-accounts-db-snapshots-direct-io"@),
        None => false,
    }
}

/// PF-FS-0006's outcome: Skipped with no accounts path, Unknown when no mount
/// holds it, Fail on a filesystem without O_DIRECT unless the opt-out is set.
pub open spec fn direct_io_support_status(c: Ctx) -> Status {
    match off_linux_status(c) {
        Some(s) => s,
        None => match accounts_path(c) {
            None => Status::Skipped,
            Some(p) => {
                let ms = mounts_spec(c);
                match best_mount(ms, p) {
                    None => Status::Unknown,
                    Some(i) => if !no_odirect(ms[i].2) || opted_out(c) {
                        Status::Pass
                    } else {
                        Status::Fail
                    },
                }
            },
        },
    }
}

/// What PF-FS-0006 observes, and what it expects.
pub open spec fn direct_io_text(c: Ctx) -> (Seq<char>, Seq<char>) {
    let expected = "a filesystem supporting O_DIRECT, or the opt-out flag set"@;
    match off_linux_status(c) {
        Some(_) => off_linux_text(c),
        None => match accounts_path(c) {
            None => ("no accounts path to check yet"@, Seq::empty()),
            Some(p) => {
                let ms = mounts_spec(c);
                match best_mount(ms, p) {
                    None => ("no mount found for "@ + p, expected),
                    Some(i) => {
                        let head = ms[i].0 + " is "@ + ms[i].2;
                        if !no_odirect(ms[i].2) {
                            (head + ", which supports O_DIRECT"@, expected)
                        } else if opted_out(c) {
                            (head + ", and --no-accounts-db-snapshots-direct-io is set"@, expected)
                        } else {
                            (
                                head + ", which does not support O_DIRECT, and the opt-out is not set"@,
                                expected,
                            )
                        }
                    },
                }
            },
        },
    }
}

/// Why direct io support matters, as the report gives it.
pub const DIRECT_IO_WHY: &'static str = "Since v4.0 agave unpacks snapshot archives with direct I/O to bypass the page cache. A filesystem without O_DIRECT cannot serve that, and the failure appears during a snapshot restore rather than at startup. The opt-out flag is checked separately as PF-ARG-0010; this half checks whether you need it.";

/// What `direct_io_support` promises of its outcome.
pub open spec fn direct_io_support_outcome(ctx: Ctx, o: Outcome) -> bool {
    &&& (o.status == direct_io_support_status(ctx))
    &&& ((o.observed@, o.expected@) =~~= direct_io_text(ctx))
    &&& (o.status == Status::Fail ==> o.fix@.len() == 1 && o.fix@[0].command@
        == "--no-accounts-db-snapshots-direct-io"@)
    &&& (o.status != Status::Skipped ==> o.why@ =~= DIRECT_IO_WHY@)
    &&& (o.verify is None)
    &&& (o.persistence is None)
    &&& (o.status == Status::Unknown ==> o.observed@.len() > 0)
    &&& (crate::model::notes(o.fix@) =~= if o.status == Status::Fail {
        seq![Some("or move the accounts path to ext4 or xfs, which is the better answer"@)]
    } else {
        Seq::empty()
    })
}

/// PF-FS-0006. O_DIRECT. The filesystem half of PF-ARG-0010.
pub fn direct_io_support(ctx: &Ctx) -> (o: Outcome)
    ensures
        direct_io_support_outcome(*ctx, o),
{
    let why = DIRECT_IO_WHY;
    let expected = "a filesystem supporting O_DIRECT, or the opt-out flag set";
    match needs_linux(ctx, why) {
        Some(o) => return o,
        None => {},
    }
    let all = mounts(ctx);
    let paths = validator_paths(ctx);
    let path = match crate::text::lookup_of(&paths, "accounts") {
        Some(p) => p,
        None => return Outcome::skipped("no accounts path to check yet"),
    };
    let m = match mount_for(all.as_slice(), path.as_str()) {
        Some(m) => m,
        None => {
            let obs = cat("no mount found for ", path.as_str());
            proof {
                reveal_strlit("no mount found for ");
            }
            return Outcome::unknown(obs.as_str()).expected(expected).why(why);
        },
    };
    proof {
        lemma_best_mount_in_range(mounts_spec(*ctx), path@);
    }
    let opted = match ctx.inv() {
        Some(i) => i.has("--no-accounts-db-snapshots-direct-io"),
        None => false,
    };
    let f = m.fstype.as_str();
    let lacks = crate::text::eq_lit(f, "tmpfs") || crate::text::eq_lit(f, "zfs")
        || crate::text::eq_lit(f, "overlay") || crate::text::eq_lit(f, "nfs")
        || crate::text::eq_lit(f, "nfs4") || crate::text::eq_lit(f, "cifs")
        || crate::text::eq_lit(f, "9p");
    let mut head = cat(m.target.as_str(), " is ");
    append(&mut head, f);
    if !lacks {
        append(&mut head, ", which supports O_DIRECT");
        return Outcome::pass(head.as_str(), expected).why(why);
    }
    if opted {
        append(&mut head, ", and --no-accounts-db-snapshots-direct-io is set");
        return Outcome::pass(head.as_str(), expected).why(why);
    }
    append(&mut head, ", which does not support O_DIRECT, and the opt-out is not set");
    let mut fix: Vec<FixStep> = Vec::new();
    fix.push(
        FixStep::noted(
            "--no-accounts-db-snapshots-direct-io",
            "or move the accounts path to ext4 or xfs, which is the better answer",
        ),
    );
    Outcome::fail(head.as_str(), expected).why(why).fix(fix)
}

// ---------------------------------------------------------------------------
// PF-FS-0007: retention against the disk
// ---------------------------------------------------------------------------

/// Agave's own sizing, from the comment block above DEFAULT_MAX_BLOCKSTORE_SHREDS.
pub const BYTES_PER_SHRED: u64 = 1250;

pub const DEFAULT_BLOCKSTORE_SHREDS: u64 = 400_000_000;

pub const LEGACY_DEFAULT_LEDGER_SHREDS: u64 = 200_000_000;

/// The retention target in shreds, where it came from, and whether it bounds
/// the store. Under the legacy flag the budget counts data shreds only, so it
/// is doubled for coding shreds and is an estimate rather than a bound.
/// Either value may be written as a float is (`4e8`, `400000000.0`); one that
/// does not read as a count leaves the default in force.
pub open spec fn shreds_plan(a: Seq<Seq<char>>) -> (nat, Seq<char>, bool) {
    match flag_value(a, "--limit-blockstore-size"@) {
        Some(v) => (
            match crate::text::parse_count(v) {
                Some(n) => n as nat,
                None => DEFAULT_BLOCKSTORE_SHREDS as nat,
            },
            "your --limit-blockstore-size value"@,
            true,
        ),
        None => if has_flag(a, "--limit-ledger-size"@) {
            match flag_value(a, "--limit-ledger-size"@) {
                Some(v) => (
                    match crate::text::parse_count(v) {
                        Some(n) => n as nat,
                        None => LEGACY_DEFAULT_LEDGER_SHREDS as nat,
                    } * 2,
                    "your --limit-ledger-size value, doubled for coding shreds"@,
                    false,
                ),
                None => (
                    LEGACY_DEFAULT_LEDGER_SHREDS as nat * 2,
                    "LEGACY_DEFAULT_MAX_LEDGER_SHREDS, doubled for coding shreds"@,
                    false,
                ),
            }
        } else {
            (DEFAULT_BLOCKSTORE_SHREDS as nat, "DEFAULT_MAX_BLOCKSTORE_SHREDS"@, true)
        },
    }
}

pub open spec fn ledger_path(c: Ctx) -> Option<Seq<char>> {
    match c.invocation {
        Some(i) => flag_value(i.arg_views(), "--ledger"@),
        None => None,
    }
}

/// The ledger's filesystem figures: free and total bytes, when both were
/// measured.
pub open spec fn ledger_space(c: Ctx, ledger: Seq<char>) -> Option<(nat, nat)> {
    let ms = mounts_spec(c);
    match best_mount(ms, ledger) {
        None => None,
        Some(i) => match fact_mount(c.facts.mounts@, ms[i].0) {
            Some(fm) => match (fm.free_bytes, fm.total_bytes) {
                (Some(f), Some(t)) => Some((f as nat, t as nat)),
                _ => None,
            },
            None => None,
        },
    }
}

/// PF-FS-0007's outcome. A store at 475 GB of a 500 GB target needs 25 GB
/// more, not 500, so free space alone never decides: Fail when the target is
/// larger than the whole filesystem, or when the distance still to grow is
/// more than the free space; Pass otherwise. Under a captured root the sizes
/// cannot be read and the check is Skipped; on the live host it is Unknown.
pub open spec fn retention_status(c: Ctx) -> Status {
    match off_linux_status(c) {
        Some(s) => s,
        None => match (c.invocation, ledger_path(c)) {
            (None, _) => Status::Skipped,
            (_, None) => Status::Skipped,
            (Some(inv), Some(ledger)) => {
                let target = shreds_plan(inv.arg_views()).0 * BYTES_PER_SHRED;
                if best_mount(mounts_spec(c), ledger) is None {
                    Status::Unknown
                } else if c.fs.root@ != "/"@ {
                    Status::Skipped
                } else {
                    match (ledger_space(c, ledger), c.files.rocksdb_bytes) {
                        (None, _) | (_, None) => Status::Unknown,
                        (Some((free, total)), Some(store)) => if target > total {
                            Status::Fail
                        } else if target - store > free {
                            Status::Fail
                        } else {
                            Status::Pass
                        },
                    }
                }
            },
        },
    }
}

/// The shreds a `room` of free bytes supports at 80%, rounded hard to tens of
/// millions: the inputs are a 1250-byte approximation and an 80% rule of
/// thumb, and nine significant figures would imply a measurement nobody made.
pub open spec fn sized_shreds_spec(room: nat) -> nat {
    ((room * 2 + 15_625_000_000) / 31_250_000_000) * 10_000_000
}

/// More free room never supports fewer shreds.
pub proof fn law_sizing_is_monotone(a: nat, b: nat)
    requires
        a <= b,
    ensures
        sized_shreds_spec(a) <= sized_shreds_spec(b),
{
    vstd::arithmetic::div_mod::lemma_div_is_ordered(
        (a * 2 + 15_625_000_000) as int,
        (b * 2 + 15_625_000_000) as int,
        31_250_000_000,
    );
}

pub fn sized_shreds(room_bytes: u128) -> (r: u128)
    requires
        room_bytes <= 0x1_0000_0000_0000_0000_0000_0000,
    ensures
        r == sized_shreds_spec(room_bytes as nat),
{
    ((room_bytes * 2 + 15_625_000_000) / 31_250_000_000) * 10_000_000
}

fn u128_text(n: u128) -> (r: String)
    requires
        n <= 0xFFFF_FFFF_FFFF_FFFF,
    ensures
        r@ == dec(n as nat),
{
    dec_string(n as u64)
}

/// The steps that bring the target within the room there is, and, when an
/// idle solid-state device sits next door, the better answer of moving there.
/// A mount too full to take the room needed, on a device of this name.
pub open spec fn busy_on(ms: Seq<crate::host::Mount>, name: Seq<char>, room: nat) -> bool {
    exists|k: int|
        0 <= k < ms.len() && (match (#[trigger] ms[k]).free_bytes {
            Some(f) => f as nat,
            None => 0nat,
        }) < room + 1_000_000_000 && crate::text::contains_seq(ms[k].target@, name)
}

/// The solid-state devices with room to spare, each as `name holds N GB`.
pub open spec fn idle_devices(ds: Seq<crate::host::Disk>, ms: Seq<crate::host::Mount>, room: nat) -> Seq<
    Seq<char>,
>
    decreases ds.len(),
{
    if ds.len() == 0 {
        Seq::empty()
    } else {
        let rest = idle_devices(ds.drop_last(), ms, room);
        let d = ds.last();
        if !d.rotational && !busy_on(ms, d.name@, room) {
            rest.push(d.name@ + " holds "@ + dec(gb(d.size_bytes as nat)) + " GB"@)
        } else {
            rest
        }
    }
}

/// The commands for a retention target the disk cannot hold: a smaller
/// target sized to the room there is, and another device where one is idle.
pub open spec fn retention_commands(c: Ctx, room: nat, bounded: bool) -> Seq<Seq<char>> {
    let shreds = sized_shreds_spec(room);
    let lead = (if bounded {
        "if you shrink it: "@
    } else {
        "if you shrink it, on the flag PF-ARG-0011 renames to: "@
    }) + "--limit-blockstore-size "@ + if shreds <= 0xFFFF_FFFF_FFFF_FFFF {
        dec(shreds)
    } else {
        "more than can be counted"@
    };
    seq![lead] + if idle_devices(c.facts.disks@, c.facts.mounts@, room).len() > 0 {
        seq!["or move the ledger or snapshots onto another device"@]
    } else {
        Seq::empty()
    }
}

/// The notes beside those commands: what the smaller target leaves, and which
/// devices are idle.
pub open spec fn retention_notes(c: Ctx, target: nat, room: nat) -> Seq<Option<Seq<char>>> {
    let idle = idle_devices(c.facts.disks@, c.facts.mounts@, room);
    seq![
        Some(
            "about 80% of the "@ + dec(gb(room)) + " GB free, against a "@ + dec(gb(target))
                + " GB target. Subtract what du reports before trusting it"@,
        ),
    ] + if idle.len() > 0 {
        seq![
            Some(
                "this host has "@ + join(idle, ", "@)
                    + ". Splitting them is what Anza's separate-device layout is for"@,
            ),
        ]
    } else {
        Seq::empty()
    }
}

fn retention_fix(ctx: &Ctx, target: u128, room: u128, bounded: bool) -> (r: Vec<FixStep>)
    requires
        target <= 0x1_0000_0000_0000_0000_0000,
        room <= 0x1_0000_0000_0000_0000_0000,
    ensures
        r@.len() >= 1,
        crate::model::commands(r@) == retention_commands(*ctx, room as nat, bounded),
        crate::model::notes(r@) == retention_notes(*ctx, target as nat, room as nat),
{
    let shreds = sized_shreds(room);
    // Both this and PF-ARG-0011 edit the same line. Working the list top to
    // bottom must not leave an operator holding both flags at once.
    let mut lead = if bounded {
        owned("if you shrink it: ")
    } else {
        owned("if you shrink it, on the flag PF-ARG-0011 renames to: ")
    };
    append(&mut lead, "--limit-blockstore-size ");
    let sh = if shreds <= 0xFFFF_FFFF_FFFF_FFFF {
        u128_text(shreds)
    } else {
        owned("more than can be counted")
    };
    append(&mut lead, sh.as_str());
    let mut note = owned("about 80% of the ");
    let rs = gb_text(room);
    append(&mut note, rs.as_str());
    append(&mut note, " GB free, against a ");
    let ts = gb_text(target);
    append(&mut note, ts.as_str());
    append(&mut note, " GB target. Subtract what du reports before trusting it");
    let mut steps: Vec<FixStep> = Vec::new();
    steps.push(FixStep::noted(lead.as_str(), note.as_str()));
    // An idle device next door is the better answer than shrinking history.
    let ds = &ctx.facts.disks;
    let ms = &ctx.facts.mounts;
    let mut idle: Vec<String> = Vec::new();
    let mut i: usize = 0;
    while i < ds.len()
        invariant
            i <= ds@.len(),
            ds@ == ctx.facts.disks@,
            ms@ == ctx.facts.mounts@,
            room <= 0x1_0000_0000_0000_0000_0000,
            views(idle@) == idle_devices(ds@.take(i as int), ms@, room as nat),
        decreases ds.len() - i,
    {
        assert(ds@.take(i + 1).drop_last() == ds@.take(i as int));
        assert(ds@.take(i + 1).last() == ds@[i as int]);
        if !ds[i].rotational {
            let dn = chars_of(ds[i].name.as_str());
            let mut busy = false;
            let mut k: usize = 0;
            while k < ms.len()
                invariant
                    k <= ms@.len(),
                    room <= 0x1_0000_0000_0000_0000_0000,
                    dn@ == ds@[i as int].name@,
                    busy == exists|j: int|
                        0 <= j < k && (match (#[trigger] ms@[j]).free_bytes {
                            Some(f) => f as nat,
                            None => 0nat,
                        }) < room + 1_000_000_000 && crate::text::contains_seq(ms@[j].target@, dn@),
                decreases ms.len() - k,
            {
                let free: u128 = match ms[k].free_bytes {
                    Some(f) => f as u128,
                    None => 0,
                };
                let tv = chars_of(ms[k].target.as_str());
                if free < room + 1_000_000_000 && crate::text::contains(&tv, &dn) {
                    busy = true;
                }
                k += 1;
            }
            if !busy {
                let mut e = cat(ds[i].name.as_str(), " holds ");
                let g = gb_text(ds[i].size_bytes as u128);
                append(&mut e, g.as_str());
                append(&mut e, " GB");
                let ghost before = views(idle@);
                idle.push(e);
                assert(views(idle@) == before.push(e@));
            }
        }
        i += 1;
    }
    assert(ds@.take(ds@.len() as int) == ds@);
    if idle.len() > 0 {
        let list = crate::text::join_strings(&idle, ", ");
        let mut n = cat("this host has ", list.as_str());
        append(&mut n, ". Splitting them is what Anza's separate-device layout is for");
        steps.push(
            FixStep::noted("or move the ledger or snapshots onto another device", n.as_str()),
        );
    }
    steps
}

fn shreds_of(inv: &Invocation) -> (r: (u128, &'static str, bool))
    ensures
        r.0 == shreds_plan(inv.arg_views()).0,
        r.1@ == shreds_plan(inv.arg_views()).1,
        r.2 == shreds_plan(inv.arg_views()).2,
        r.0 <= 2 * 0xFFFF_FFFF_FFFF_FFFF,
{
    match inv.value("--limit-blockstore-size") {
        Some(v) => {
            let n: u128 = match crate::text::parse_count_str(v.as_str()) {
                Some(n) => n as u128,
                None => DEFAULT_BLOCKSTORE_SHREDS as u128,
            };
            (n, "your --limit-blockstore-size value", true)
        },
        None => if inv.has("--limit-ledger-size") {
            match inv.value("--limit-ledger-size") {
                Some(v) => {
                    let n: u128 = match crate::text::parse_count_str(v.as_str()) {
                        Some(n) => n as u128,
                        None => LEGACY_DEFAULT_LEDGER_SHREDS as u128,
                    };
                    (n * 2, "your --limit-ledger-size value, doubled for coding shreds", false)
                },
                None => (
                    LEGACY_DEFAULT_LEDGER_SHREDS as u128 * 2,
                    "LEGACY_DEFAULT_MAX_LEDGER_SHREDS, doubled for coding shreds",
                    false,
                ),
            }
        } else {
            (DEFAULT_BLOCKSTORE_SHREDS as u128, "DEFAULT_MAX_BLOCKSTORE_SHREDS", true)
        },
    }
}

/// The snapshots directory's size, when it shares the ledger's filesystem
/// and could be measured: only then does it compete for the same free space.
pub open spec fn snaps_on(c: Ctx, a: Seq<Seq<char>>, mt: Seq<char>) -> Option<nat> {
    match flag_value(a, "--snapshots"@) {
        Some(p) => match best_mount(mounts_spec(c), p) {
            Some(j) => if mounts_spec(c)[j].0 == mt {
                match c.files.snapshots_bytes {
                    Some(b) => Some(b as nat),
                    None => None,
                }
            } else {
                None
            },
            None => None,
        },
        None => None,
    }
}

/// How the ledger's filesystem is spent: the blockstore, snapshots when they
/// share it, everything else, and what is free.
pub open spec fn ledger_line(mt: Seq<char>, total: nat, store: nat, snaps: Option<nat>, free: nat) -> Seq<
    char,
> {
    let used = free + store + match snaps {
        Some(v) => v,
        None => 0,
    };
    let other: nat = if total > used {
        (total - used) as nat
    } else {
        0
    };
    mt + " holds "@ + dec(gb(total)) + " GB: blockstore "@ + dec(gb(store)) + ", "@ + (match snaps {
        Some(v) => "snapshots "@ + dec(gb(v)) + ", "@,
        None => Seq::empty(),
    }) + "other "@ + dec(gb(other)) + ", free "@ + dec(gb(free))
}

/// What PF-FS-0007 observes once every figure is measured: the target
/// against the filesystem, and the distance still to grow against the room.
pub open spec fn judged_observed(
    target: nat,
    total: nat,
    store: nat,
    free: nat,
    constant: Seq<char>,
    line: Seq<char>,
) -> Seq<char> {
    let head = "retention targets "@ + dec(gb(target)) + " GB from "@ + constant + "; "@ + line;
    if target > total {
        head
    } else if target > store && target - store > free {
        head + "; "@ + dec(gb((target - store) as nat)) + " GB still to grow, "@ + dec(gb(free))
            + " GB left"@
    } else if target <= store {
        line + "; already at the "@ + dec(gb(target)) + " GB target"@
    } else {
        line + "; "@ + dec(gb((target - store) as nat)) + " GB still to grow"@
    }
}

/// What PF-FS-0007 observes, once the ledger's filesystem is found.
pub open spec fn retention_measured(c: Ctx, inv: crate::argv::Invocation, ledger: Seq<char>, mt: Seq<char>) -> Seq<
    char,
> {
    let a = inv.arg_views();
    if c.fs.root@ != "/"@ {
        "free space cannot be read from a captured tree"@
    } else {
    match fact_mount(c.facts.mounts@, mt) {
        Some(fm) if fm.free_bytes is Some && fm.total_bytes is Some => match c.files.rocksdb_bytes {
            Some(st) => {
                let (free, total, store) = (
                    fm.free_bytes->0 as nat,
                    fm.total_bytes->0 as nat,
                    st as nat,
                );
                let plan = shreds_plan(a);
                judged_observed(
                    plan.0 * BYTES_PER_SHRED as nat,
                    total,
                    store,
                    free,
                    plan.1,
                    ledger_line(mt, total, store, snaps_on(c, a, mt), free),
                )
            },
            None => ledger + "/rocksdb could not be measured"@,
        },
        _ => "free space on "@ + mt + " not measured"@,
    }
    }
}

/// Why the retention target matters.
pub const RETENTION_WHY: &'static str = "Agave sizes the blockstore in shreds and approximates a shred at 1250 bytes, so a retention target converts to a disk footprint. What decides the question is not the target but the distance left to it: a store at 475 GB of a 500 GB target needs 25 GB more, not 500. preflight measures the blockstore rather than asking you to, so the numbers below account for the whole filesystem and sum.";

/// What a legacy target adds: it is an estimate, not a bound.
pub const ESTIMATE_NOTE: &'static str = ", which counts data shreds only, so it is an estimate at a 1:1 erasure ratio and not a ceiling. Moving to --limit-blockstore-size is what makes it one.";

/// What a target beyond the whole filesystem adds.
pub const BEYOND_DISK: &'static str = " This target is larger than the entire filesystem, so the node fills the disk on its way to a size it can never reach.";

/// How a store that outgrows its room ends.
pub const FILLS_FIRST: &'static str = " GB to grow into. It fills the disk first, weeks from now, with nothing at the time to connect the failure to this setting.";

/// Why an unmeasured store leaves the question open.
pub const UNMEASURED_NOTE: &'static str = " Without the current size the distance to the target is unknowable, and free space alone would call a store near its cap a shortfall.";

/// What the reason adds when the target comes from the legacy flag.
pub open spec fn bound_note_of(plan: (nat, Seq<char>, bool)) -> Seq<char> {
    if plan.2 {
        Seq::empty()
    } else {
        " That target comes from "@ + plan.1 + ESTIMATE_NOTE@
    }
}

pub open spec fn judged_expected(target: nat, total: nat, store: nat, free: nat) -> Seq<char> {
    if target > total {
        "a target under "@ + dec(gb(total)) + " GB"@
    } else if target > store && target - store > free {
        "room on the ledger's filesystem for the distance still to grow"@
    } else if target <= store {
        "cleanup holds the store flat from here, so free space stops falling to it"@
    } else {
        dec(gb(free)) + " GB free, which is more than the "@ + dec(gb((target - store) as nat))
            + " GB left to grow"@
    }
}

pub open spec fn judged_why(why: Seq<char>, note: Seq<char>, target: nat, total: nat, store: nat, free: nat) -> Seq<char> {
    if target > total {
        why + note + BEYOND_DISK@
    } else if target > store && target - store > free {
        why + note + " The store has "@ + dec(gb((target - store) as nat))
            + " GB left to grow before cleanup holds it flat, and only "@ + dec(gb(free)) + FILLS_FIRST@
    } else {
        Seq::empty()
    }
}

pub open spec fn judged_notes(c: Ctx, target: nat, total: nat, store: nat, free: nat) -> Seq<Option<Seq<char>>> {
    if target > total {
        retention_notes(c, target, total)
    } else if target > store && target - store > free {
        retention_notes(c, target, free + store)
    } else {
        Seq::empty()
    }
}

pub open spec fn judged_commands(c: Ctx, target: nat, total: nat, store: nat, free: nat, bounded: bool) -> Seq<Seq<char>> {
    if target > total {
        retention_commands(c, total, bounded)
    } else if target > store && target - store > free {
        retention_commands(c, free + store, bounded)
    } else {
        Seq::empty()
    }
}

/// What PF-FS-0007 reports off the observed line: expected, reason, how to
/// confirm it, and the commands, once the ledger's mount is known.
pub open spec fn retention_rest(c: Ctx, inv: crate::argv::Invocation, ledger: Seq<char>, mt: Seq<char>) -> (
    Seq<char>,
    Seq<char>,
    Option<Seq<char>>,
    Seq<Seq<char>>,
) {
    let a = inv.arg_views();
    let expected = "room on the ledger's filesystem for the distance still to grow"@;
    if c.fs.root@ != "/"@ {
        (Seq::empty(), Seq::empty(), None, Seq::empty())
    } else {
    match fact_mount(c.facts.mounts@, mt) {
        Some(fm) if fm.free_bytes is Some && fm.total_bytes is Some => match c.files.rocksdb_bytes {
            Some(st) => {
                let (free, total, store) = (
                    fm.free_bytes->0 as nat,
                    fm.total_bytes->0 as nat,
                    st as nat,
                );
                let plan = shreds_plan(a);
                let target = plan.0 * BYTES_PER_SHRED as nat;
                let fails = target > total || (target > store && target - store > free);
                (
                    judged_expected(target, total, store, free),
                    judged_why(RETENTION_WHY@, bound_note_of(plan), target, total, store, free),
                    if fails {
                        Some("du -sh "@ + ledger + "/rocksdb"@)
                    } else {
                        None
                    },
                    judged_commands(c, target, total, store, free, plan.2),
                )
            },
            None => (
                expected,
                RETENTION_WHY@ + UNMEASURED_NOTE@,
                Some("sudo du -sh "@ + ledger + "/rocksdb"@),
                Seq::empty(),
            ),
        },
        _ => (expected, RETENTION_WHY@, None, Seq::empty()),
    }
    }
}

pub open spec fn retention_report(c: Ctx) -> (Seq<char>, Seq<char>, Option<Seq<char>>, Seq<Seq<char>>) {
    let expected = "room on the ledger's filesystem for the distance still to grow"@;
    match c.invocation {
        None => (Seq::empty(), Seq::empty(), None, Seq::empty()),
        Some(inv) => match flag_value(inv.arg_views(), "--ledger"@) {
            None => (Seq::empty(), Seq::empty(), None, Seq::empty()),
            Some(ledger) => match best_mount(mounts_spec(c), ledger) {
                None => (expected, RETENTION_WHY@, None, Seq::empty()),
                Some(i) => retention_rest(c, inv, ledger, mounts_spec(c)[i].0),
            },
        },
    }
}

/// The notes beside PF-FS-0007's commands.
pub open spec fn retention_fix_notes(c: Ctx) -> Seq<Option<Seq<char>>> {
    match c.invocation {
        None => Seq::empty(),
        Some(inv) => match flag_value(inv.arg_views(), "--ledger"@) {
            None => Seq::empty(),
            Some(ledger) => match best_mount(mounts_spec(c), ledger) {
                None => Seq::empty(),
                Some(i) => if c.fs.root@ != "/"@ {
                    Seq::empty()
                } else {
                    match fact_mount(c.facts.mounts@, mounts_spec(c)[i].0) {
                    Some(fm) if fm.free_bytes is Some && fm.total_bytes is Some => match c.files.rocksdb_bytes {
                        Some(st) => judged_notes(
                            c,
                            shreds_plan(inv.arg_views()).0 * BYTES_PER_SHRED as nat,
                            fm.total_bytes->0 as nat,
                            st as nat,
                            fm.free_bytes->0 as nat,
                        ),
                        None => Seq::empty(),
                    },
                    _ => Seq::empty(),
                }
                },
            },
        },
    }
}

pub open spec fn retention_observed(c: Ctx) -> Seq<char> {
    match c.invocation {
        None => "no validator yet, so no retention target"@,
        Some(inv) => match flag_value(inv.arg_views(), "--ledger"@) {
            None => "no --ledger path in the invocation"@,
            Some(ledger) => match best_mount(mounts_spec(c), ledger) {
                None => "no mount found for "@ + ledger,
                Some(i) => retention_measured(c, inv, ledger, mounts_spec(c)[i].0),
            },
        },
    }
}

fn snaps_of(ctx: &Ctx, inv: &Invocation, all: &Vec<MountInfo>, mt: &str) -> (r: Option<u128>)
    requires
        mount_views(all@) == mounts_spec(*ctx),
    ensures
        match snaps_on(*ctx, inv.arg_views(), mt@) {
            Some(v) => r == Some(v as u128),
            None => r is None,
        },
        r matches Some(v) ==> v <= 0xFFFF_FFFF_FFFF_FFFF,
{
    match inv.value("--snapshots") {
        Some(p) => match mount_for(all.as_slice(), p.as_str()) {
            Some(sm) => if crate::text::eq_lit(sm.target.as_str(), mt) {
                match ctx.files.snapshots_bytes {
                    Some(b) => Some(b as u128),
                    None => None,
                }
            } else {
                None
            },
            None => None,
        },
        None => None,
    }
}

fn ledger_line_of(mt: &str, total: u128, store: u128, snaps: Option<u128>, free: u128) -> (r: String)
    requires
        total <= 0xFFFF_FFFF_FFFF_FFFF,
        store <= 0xFFFF_FFFF_FFFF_FFFF,
        free <= 0xFFFF_FFFF_FFFF_FFFF,
        snaps matches Some(v) ==> v <= 0xFFFF_FFFF_FFFF_FFFF,
    ensures
        r@ == ledger_line(
            mt@,
            total as nat,
            store as nat,
            match snaps {
                Some(v) => Some(v as nat),
                None => None,
            },
            free as nat,
        ),
{
    let used: u128 = free + store + match snaps {
        Some(v) => v,
        None => 0,
    };
    let other: u128 = if total > used {
        total - used
    } else {
        0
    };
    let mut line = cat(mt, " holds ");
    append(&mut line, gb_text(total).as_str());
    append(&mut line, " GB: blockstore ");
    append(&mut line, gb_text(store).as_str());
    append(&mut line, ", ");
    let ghost before = line@;
    match snaps {
        Some(v) => {
            append(&mut line, "snapshots ");
            append(&mut line, gb_text(v).as_str());
            append(&mut line, ", ");
        },
        None => {},
    }
    append(&mut line, "other ");
    append(&mut line, gb_text(other).as_str());
    append(&mut line, ", free ");
    append(&mut line, gb_text(free).as_str());
    line
}

/// The judgement once every figure is measured: a target larger than the
/// whole filesystem, or a distance still to grow larger than the room left,
/// fails; anything else passes.
#[verifier::rlimit(30)]
fn retention_judged(
    ctx: &Ctx,
    ledger: &str,
    mt: &str,
    free: u128,
    total: u128,
    store: u128,
    snaps: Option<u128>,
    why: &str,
    bound_note: &str,
    constant: &'static str,
    target: u128,
    bounded: bool,
) -> (o: Outcome)
    requires
        total <= 0xFFFF_FFFF_FFFF_FFFF,
        store <= 0xFFFF_FFFF_FFFF_FFFF,
        free <= 0xFFFF_FFFF_FFFF_FFFF,
        snaps matches Some(v) ==> v <= 0xFFFF_FFFF_FFFF_FFFF,
        target <= 2 * 0xFFFF_FFFF_FFFF_FFFF * 1250,
    ensures
        o.observed@ == judged_observed(
            target as nat,
            total as nat,
            store as nat,
            free as nat,
            constant@,
            ledger_line(
                mt@,
                total as nat,
                store as nat,
                match snaps {
                    Some(v) => Some(v as nat),
                    None => None,
                },
                free as nat,
            ),
        ),
        o.status == if target > total {
            Status::Fail
        } else if target - store > free {
            Status::Fail
        } else {
            Status::Pass
        },
        o.status == Status::Fail ==> o.fix@.len() >= 1,
        o.expected@ == judged_expected(target as nat, total as nat, store as nat, free as nat),
        o.why@ == judged_why(why@, bound_note@, target as nat, total as nat, store as nat, free as nat),
        opt_view(o.verify) == if o.status == Status::Fail {
            Some("du -sh "@ + ledger@ + "/rocksdb"@)
        } else {
            None
        },
        crate::model::commands(o.fix@) == judged_commands(
            *ctx,
            target as nat,
            total as nat,
            store as nat,
            free as nat,
            bounded,
        ),
        crate::model::notes(o.fix@) == judged_notes(*ctx, target as nat, total as nat, store as nat, free as nat),
        o.persistence is None,
{
    let expected = "room on the ledger's filesystem for the distance still to grow";
    let ledger_line = ledger_line_of(mt, total, store, snaps, free);
    let ts = gb_text(total);
    let fs_text = gb_text(free);
    let tg = gb_text(target);
    let mut observed = cat("retention targets ", tg.as_str());
    append(&mut observed, " GB from ");
    append(&mut observed, constant);
    append(&mut observed, "; ");
    append(&mut observed, ledger_line.as_str());
    let mut verify = cat("du -sh ", ledger);
    append(&mut verify, "/rocksdb");
    // Larger than the whole filesystem can never be met, whatever cleanup does.
    if target > total {
        let mut exp = cat("a target under ", ts.as_str());
        append(&mut exp, " GB");
        let mut w = owned(why);
        append(&mut w, bound_note);
        append(
            &mut w,
            BEYOND_DISK,
        );
        let fix = retention_fix(ctx, target, total, bounded);
        return Outcome::fail(observed.as_str(), exp.as_str()).why(w.as_str()).fix(fix).verify(
            verify.as_str(),
        );
    }
    // The case one run genuinely can decide: distance still to grow against
    // room left.
    if target > store && target - store > free {
        let need = target - store;
        let ns = gb_text(need);
        append(&mut observed, "; ");
        append(&mut observed, ns.as_str());
        append(&mut observed, " GB still to grow, ");
        append(&mut observed, fs_text.as_str());
        append(&mut observed, " GB left");
        let mut w = owned(why);
        append(&mut w, bound_note);
        append(&mut w, " The store has ");
        append(&mut w, ns.as_str());
        append(&mut w, " GB left to grow before cleanup holds it flat, and only ");
        append(&mut w, fs_text.as_str());
        append(
            &mut w,
            FILLS_FIRST,
        );
        let fix = retention_fix(ctx, target, free + store, bounded);
        return Outcome::fail(observed.as_str(), expected).why(w.as_str()).fix(fix).verify(
            verify.as_str(),
        );
    }
    // At or past the cap already: cleanup is what holds it, not free space.
    if target <= store {
        let mut obs = ledger_line;
        append(&mut obs, "; already at the ");
        append(&mut obs, tg.as_str());
        append(&mut obs, " GB target");
        return Outcome::pass(
            obs.as_str(),
            "cleanup holds the store flat from here, so free space stops falling to it",
        );
    }
    let need = target - store;
    let ns = gb_text(need);
    let mut obs = ledger_line;
    append(&mut obs, "; ");
    append(&mut obs, ns.as_str());
    append(&mut obs, " GB still to grow");
    let mut exp = owned(fs_text.as_str());
    append(&mut exp, " GB free, which is more than the ");
    append(&mut exp, ns.as_str());
    append(&mut exp, " GB left to grow");
    Outcome::pass(obs.as_str(), exp.as_str())
}

/// What `retention_fits_disk` promises of its outcome.
pub open spec fn retention_fits_disk_outcome(ctx: Ctx, o: Outcome) -> bool {
    &&& (o.status == retention_status(ctx))
    &&& (off_linux_status(ctx) is None ==> o.observed@ =~= retention_observed(ctx))
    &&& (off_linux_status(ctx) is None ==> (o.expected@, o.why@, opt_view(o.verify), crate::model::commands(
        o.fix@,
    )) =~~= retention_report(ctx))
    &&& (off_linux_status(ctx) is Some ==> (o.observed@, o.expected@) =~~= off_linux_text(ctx))
    &&& (o.status == Status::Fail ==> o.fix@.len() >= 1)
    &&& (o.persistence is None)
    &&& (o.status == Status::Unknown ==> o.observed@.len() > 0)
    &&& (off_linux_status(ctx) is None ==> crate::model::notes(o.fix@) =~= retention_fix_notes(ctx))
}

/// PF-FS-0007. Does the ledger's retention target fit the disk holding it?
///
/// Two checks each hold half of this: one knows free space, the other the
/// retention setting, and neither says the thing that matters: a blockstore
/// aimed at more disk than exists is a future outage with a stated mechanism.
pub fn retention_fits_disk(ctx: &Ctx) -> (o: Outcome)
    ensures
        retention_fits_disk_outcome(*ctx, o),
{
    let why = RETENTION_WHY;
    let expected = "room on the ledger's filesystem for the distance still to grow";
    match needs_linux(ctx, why) {
        Some(o) => return o,
        None => {},
    }
    let inv = match ctx.inv() {
        Some(i) => i,
        None => return Outcome::skipped("no validator yet, so no retention target"),
    };
    let ledger = match inv.value("--ledger") {
        Some(l) => l,
        None => return Outcome::skipped("no --ledger path in the invocation"),
    };
    let (shreds, constant, bounded) = shreds_of(inv);
    let target: u128 = shreds * 1250;
    let mut bound_note = String::new();
    if !bounded {
        append(&mut bound_note, " That target comes from ");
        append(&mut bound_note, constant);
        append(
            &mut bound_note,
            ESTIMATE_NOTE,
        );
    }
    let all = mounts(ctx);
    let m = match mount_for(all.as_slice(), ledger.as_str()) {
        Some(m) => m,
        None => {
            let obs = cat("no mount found for ", ledger.as_str());
            proof {
                reveal_strlit("no mount found for ");
            }
            return Outcome::unknown(obs.as_str()).expected(expected).why(why);
        },
    };
    proof {
        lemma_best_mount_in_range(mounts_spec(*ctx), ledger@);
    }
    // Free space and directory sizes describe the machine preflight runs on,
    // never a captured tree.
    if ctx.fs.is_prefixed() {
        return Outcome::skipped("free space cannot be read from a captured tree");
    }
    let (free, total) = match fact_mount_of(&ctx.facts.mounts, m.target.as_str()) {
        Some((Some(f), Some(t))) => (f as u128, t as u128),
        _ => {
            let mut obs = cat("free space on ", m.target.as_str());
            append(&mut obs, " not measured");
            proof {
                reveal_strlit("free space on ");
            }
            return Outcome::unknown(obs.as_str()).expected(expected).why(why);
        },
    };
    let store: u128 = match ctx.files.rocksdb_bytes {
        Some(b) => b as u128,
        None => {
            let mut obs = cat(ledger.as_str(), "/rocksdb could not be measured");
            let mut w = owned(why);
            append(
                &mut w,
                UNMEASURED_NOTE,
            );
            let mut verify = cat("sudo du -sh ", ledger.as_str());
            append(&mut verify, "/rocksdb");
            proof {
                reveal_strlit("/rocksdb could not be measured");
            }
            return Outcome::unknown(obs.as_str()).expected(expected).why(w.as_str()).verify(
                verify.as_str(),
            );
        },
    };
    let snaps = snaps_of(ctx, inv, &all, m.target.as_str());
    retention_judged(
        ctx,
        ledger.as_str(),
        m.target.as_str(),
        free,
        total,
        store,
        snaps,
        why,
        bound_note.as_str(),
        constant,
        shreds * 1250,
        bounded,
    )
}

} // verus!
