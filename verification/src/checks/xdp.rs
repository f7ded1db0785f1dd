//! XDP layer. Guarded by the detected binary, not the profile:
//! solana-test-validator has no XDP transmit path at all, while a non-voting
//! agave-validator on Linux hits the v4.2 capability requirement like any other node.

use vstd::prelude::*;
use vstd::string::*;
use crate::argv::{has_flag, Invocation};
use crate::checks::{directive, unit_directive};
use crate::ctx::{ctx_at_least, Ctx};
use crate::model::{opt_view, ClientKind, FixStep, Outcome, Persistence, Status};
use crate::text::{
    all_digits, append, cat, chars_of, first_prefixed, join, lines, nth_word, owned, parse_hex,
    split_ws, upper_seq, views,
};

verus! {

pub open spec fn why_caps() -> Seq<char> {
    "CapabilityBoundingSet caps what a process may ever hold; it grants nothing. On a unit with User= set to a non-root account the bounding set alone leaves the permitted set empty. Agave's changelog pairs it with AmbientCapabilities, which is the directive that grants; the Anza XDP blog post shows only the bounding set, so unit files written from that post end up this way. Agave refuses to start over this only when the invocation asks for XDP explicitly. On the default path it starts, reports XDP as configured, and runs without it: attaching an XDP program needs CAP_NET_ADMIN and an AF_XDP socket needs CAP_NET_RAW, so with an empty permitted set the kernel allows neither and nothing says so."@
}

/// XDP asked for by name on the command line, under either generation of
/// flag names.
pub open spec fn xdp_explicit(a: Seq<Seq<char>>) -> bool {
    has_flag(a, "--xdp-interface"@) || has_flag(a, "--xdp-cpu-cores"@) || has_flag(
        a,
        "--xdp-zero-copy"@,
    ) || has_flag(a, "--experimental-retransmit-xdp-cpu-cores"@) || has_flag(
        a,
        "--experimental-retransmit-xdp-interface"@,
    )
}

pub open spec fn xdp_zero_copy(a: Seq<Seq<char>>) -> bool {
    has_flag(a, "--xdp-zero-copy"@) || has_flag(a, "--experimental-retransmit-xdp-zero-copy"@)
}

/// The capabilities XDP needs: CAP_NET_ADMIN and CAP_NET_RAW, and with zero
/// copy CAP_BPF and CAP_PERFMON too. Demanding all four unconditionally would
/// fail a correctly configured node that does not use zero copy.
pub open spec fn required_caps(zero_copy: bool) -> Seq<Seq<char>> {
    if zero_copy {
        seq!["CAP_NET_ADMIN"@, "CAP_NET_RAW"@, "CAP_BPF"@, "CAP_PERFMON"@]
    } else {
        seq!["CAP_NET_ADMIN"@, "CAP_NET_RAW"@]
    }
}

/// What the invocation makes of XDP: whether it is on, whether zero copy is
/// in use, and the capabilities that follow.
pub struct XdpState {
    pub enabled: bool,
    pub zero_copy: bool,
    pub required: Vec<&'static str>,
}

/// XDP is on unless --no-xdp says otherwise, when the invocation asks for it
/// or when the client is v4.2 or newer, where it is the default.
pub open spec fn xdp_enabled(c: Ctx, a: Seq<Seq<char>>) -> bool {
    !has_flag(a, "--no-xdp"@) && (xdp_explicit(a) || ctx_at_least(c, 4, 2))
}

fn xdp_state(ctx: &Ctx) -> (r: Option<XdpState>)
    ensures
        match ctx.invocation {
            None => r is None,
            Some(i) => r matches Some(s) && s.enabled == xdp_enabled(*ctx, i.arg_views())
                && s.zero_copy == xdp_zero_copy(i.arg_views()) && crate::argv::str_views(
                s.required@,
            ) == required_caps(s.zero_copy),
        },
{
    let inv = match ctx.inv() {
        Some(i) => i,
        None => return None,
    };
    let explicit = inv.has("--xdp-interface") || inv.has("--xdp-cpu-cores") || inv.has(
        "--xdp-zero-copy",
    ) || inv.has("--experimental-retransmit-xdp-cpu-cores") || inv.has(
        "--experimental-retransmit-xdp-interface",
    );
    let default_on = ctx.at_least(4, 2);
    let disabled = inv.has("--no-xdp");
    let zero_copy = inv.has("--xdp-zero-copy") || inv.has("--experimental-retransmit-xdp-zero-copy");
    let mut required: Vec<&'static str> = Vec::new();
    required.push("CAP_NET_ADMIN");
    required.push("CAP_NET_RAW");
    if zero_copy {
        required.push("CAP_BPF");
        required.push("CAP_PERFMON");
    }
    assert(crate::argv::str_views(required@) =~= required_caps(zero_copy));
    Some(XdpState { enabled: !disabled && (explicit || default_on), zero_copy, required })
}

/// Clients with no XDP path of their own to judge.
pub open spec fn client_gated(c: Ctx) -> bool {
    c.client == ClientKind::TestValidator || c.client == ClientKind::Firedancer
}

fn client_gate(ctx: &Ctx) -> (r: Option<Outcome>)
    ensures
        r is Some == client_gated(*ctx),
        r matches Some(o) ==> o.verify is None && o.fix@.len() == 0 && o.persistence is None
            && o.why@ == Seq::<char>::empty(),
        r matches Some(o) ==> o.status == Status::Skipped && o.expected@ == Seq::<char>::empty()
            && o.observed@ == if ctx.client == ClientKind::TestValidator {
            "solana-test-validator has no XDP transmit path"@
        } else {
            "Firedancer manages its own AF_XDP setup"@
        },
{
    match ctx.client {
        ClientKind::TestValidator => Some(
            Outcome::skipped("solana-test-validator has no XDP transmit path"),
        ),
        ClientKind::Firedancer => Some(Outcome::skipped("Firedancer manages its own AF_XDP setup")),
        _ => None,
    }
}

/// The bit of a capability in the permitted mask.
pub open spec fn cap_bit(name: Seq<char>) -> Option<u64> {
    if name == "CAP_NET_ADMIN"@ {
        Some(12)
    } else if name == "CAP_NET_RAW"@ {
        Some(13)
    } else if name == "CAP_PERFMON"@ {
        Some(38)
    } else if name == "CAP_BPF"@ {
        Some(39)
    } else {
        None
    }
}

pub open spec fn held(mask: u64, name: Seq<char>) -> bool {
    match cap_bit(name) {
        Some(b) => mask & (1u64 << b) != 0,
        None => false,
    }
}

/// The required capabilities the mask does not hold, in order.
pub open spec fn missing_of(mask: u64, req: Seq<Seq<char>>) -> Seq<Seq<char>>
    decreases req.len(),
{
    if req.len() == 0 {
        Seq::empty()
    } else if held(mask, req.last()) {
        missing_of(mask, req.drop_last())
    } else {
        missing_of(mask, req.drop_last()).push(req.last())
    }
}

fn held_exec(mask: u64, name: &str) -> (r: bool)
    ensures
        r == held(mask, name@),
{
    let b: u64 = if crate::text::eq_lit(name, "CAP_NET_ADMIN") {
        12
    } else if crate::text::eq_lit(name, "CAP_NET_RAW") {
        13
    } else if crate::text::eq_lit(name, "CAP_PERFMON") {
        38
    } else if crate::text::eq_lit(name, "CAP_BPF") {
        39
    } else {
        return false;
    };
    mask & (1u64 << b) != 0
}

fn cap_missing(mask: u64, required: &Vec<&'static str>) -> (r: Vec<String>)
    ensures
        views(r@) == missing_of(mask, crate::argv::str_views(required@)),
{
    let ghost req = crate::argv::str_views(required@);
    let mut out: Vec<String> = Vec::new();
    let mut i: usize = 0;
    while i < required.len()
        invariant
            i <= required@.len(),
            req == crate::argv::str_views(required@),
            views(out@) == missing_of(mask, req.take(i as int)),
        decreases required.len() - i,
    {
        assert(req.take(i + 1).drop_last() == req.take(i as int));
        assert(req.take(i + 1).last() == required@[i as int]@);
        if !held_exec(mask, required[i]) {
            let ghost before = views(out@);
            out.push(owned(required[i]));
            assert(views(out@) == before.push(required@[i as int]@));
        }
        i += 1;
    }
    assert(req.take(req.len() as int) == req);
    out
}

/// The capabilities of interest the mask holds, in bit order.
pub open spec fn held_names(mask: u64) -> Seq<Seq<char>> {
    (if mask & (1u64 << 12u64) != 0 {
        seq!["CAP_NET_ADMIN"@]
    } else {
        Seq::empty()
    }) + (if mask & (1u64 << 13u64) != 0 {
        seq!["CAP_NET_RAW"@]
    } else {
        Seq::empty()
    }) + (if mask & (1u64 << 38u64) != 0 {
        seq!["CAP_PERFMON"@]
    } else {
        Seq::empty()
    }) + (if mask & (1u64 << 39u64) != 0 {
        seq!["CAP_BPF"@]
    } else {
        Seq::empty()
    })
}

fn cap_held(mask: u64) -> (r: Vec<&'static str>)
    ensures
        crate::argv::str_views(r@) == held_names(mask),
{
    let mut v: Vec<&'static str> = Vec::new();
    if mask & (1u64 << 12u64) != 0 {
        v.push("CAP_NET_ADMIN");
    }
    if mask & (1u64 << 13u64) != 0 {
        v.push("CAP_NET_RAW");
    }
    if mask & (1u64 << 38u64) != 0 {
        v.push("CAP_PERFMON");
    }
    if mask & (1u64 << 39u64) != 0 {
        v.push("CAP_BPF");
    }
    assert(crate::argv::str_views(v@) =~= held_names(mask));
    v
}

/// The permitted set a /proc status text names on its CapPrm line.
pub open spec fn status_capprm(st: Seq<char>) -> Option<u64> {
    match first_prefixed(lines(st), "CapPrm:"@) {
        Some(l) => match nth_word(l, 1) {
            Some(w) => parse_hex(w),
            None => None,
        },
        None => None,
    }
}

/// What the validator's threads hold between them: the union of each
/// task's CapPrm, a status that cannot be read counting as nothing held.
pub open spec fn tasks_capprm(ts: Seq<Seq<char>>) -> u64
    decreases ts.len(),
{
    if ts.len() == 0 {
        0
    } else {
        tasks_capprm(ts.drop_last()) | match status_capprm(ts.last()) {
            Some(m) => m,
            None => 0,
        }
    }
}

/// The permitted set of the running validator, its threads included: read
/// only when its pid is all digits and its own status names a CapPrm.
pub open spec fn capprm(c: Ctx) -> Option<u64> {
    match (opt_view(c.validator_pid), opt_view(c.files.proc_status)) {
        (Some(pid), Some(st)) => if pid.len() > 0 && all_digits(pid) {
            match status_capprm(st) {
                Some(m) => Some(m | tasks_capprm(views(c.files.task_status@))),
                None => None,
            }
        } else {
            None
        },
        _ => None,
    }
}

fn status_capprm_of(status: &str) -> (r: Option<u64>)
    ensures
        r == status_capprm(status@),
{
    let ls = crate::text::str_lines(status);
    let line = match crate::text::find_prefixed(&ls, "CapPrm:") {
        Some(l) => l,
        None => return None,
    };
    match crate::text::nth_word_of(line.as_str(), 1) {
        Some(w) => crate::text::parse_hex_str(w.as_str()),
        None => None,
    }
}

fn runtime_capprm(ctx: &Ctx) -> (r: Option<u64>)
    ensures
        r == capprm(*ctx),
{
    let pid = match &ctx.validator_pid {
        Some(p) => p,
        None => return None,
    };
    let status = match &ctx.files.proc_status {
        Some(s) => s,
        None => return None,
    };
    if !crate::privilege::valid_pid(pid.as_str(), true) {
        return None;
    }
    let main = match status_capprm_of(status.as_str()) {
        Some(m) => m,
        None => return None,
    };
    let ts = &ctx.files.task_status;
    let mut acc: u64 = 0;
    let mut i: usize = 0;
    while i < ts.len()
        invariant
            i <= ts@.len(),
            ts@ == ctx.files.task_status@,
            acc == tasks_capprm(views(ts@).take(i as int)),
        decreases ts.len() - i,
    {
        assert(views(ts@).take(i + 1).drop_last() == views(ts@).take(i as int));
        assert(views(ts@).take(i + 1).last() == ts@[i as int]@);
        let t: u64 = match status_capprm_of(ts[i].as_str()) {
            Some(m) => m,
            None => 0,
        };
        acc = acc | t;
        i += 1;
    }
    assert(views(ts@).take(ts@.len() as int) == views(ts@));
    Some(main | acc)
}

/// The words of an AmbientCapabilities= value, upper-cased.
pub open spec fn granted(ambient: Option<Seq<char>>) -> Seq<Seq<char>> {
    match ambient {
        Some(v) => split_ws(v).map_values(|w: Seq<char>| upper_seq(w)),
        None => Seq::empty(),
    }
}

pub open spec fn all_in(req: Seq<Seq<char>>, have: Seq<Seq<char>>) -> bool {
    forall|i: int| 0 <= i < req.len() ==> have.contains(#[trigger] req[i])
}

/// Whether the running process shows the grant arrived: some thread holds a
/// required capability.
pub open spec fn confirmed(c: Ctx, req: Seq<Seq<char>>) -> bool {
    match capprm(c) {
        Some(mask) => missing_of(mask, req).len() < req.len(),
        None => false,
    }
}

/// PF-XDP-0001's outcome. A running process can confirm a grant but never
/// refute one, since agave drops what it does not need after startup: a
/// thread holding a required capability passes. Otherwise a unit's
/// AmbientCapabilities= decides, and with no unit there is nothing to judge.
pub open spec fn caps_status(c: Ctx) -> Status {
    if client_gated(c) || !c.validator_present {
        Status::Skipped
    } else {
        match c.invocation {
            None => Status::Unknown,
            Some(inv) => {
                let a = inv.arg_views();
                let req = required_caps(xdp_zero_copy(a));
                if has_flag(a, "--no-xdp"@) {
                    Status::Pass
                } else if !xdp_enabled(c, a) {
                    Status::Skipped
                } else if confirmed(c, req) {
                    Status::Pass
                } else if inv.unit_path is None {
                    Status::Unknown
                } else if all_in(
                    req,
                    granted(directive(views(c.files.unit_texts@), "AmbientCapabilities"@)),
                ) {
                    Status::Pass
                } else {
                    Status::Fail
                }
            },
        }
    }
}

fn unit_or(inv: &Invocation) -> (r: String)
    ensures
        r@ == match opt_view(inv.unit_name) {
            Some(u) => u,
            None => "<your-validator-unit>"@,
        },
{
    match &inv.unit_name {
        Some(u) => u.clone(),
        None => owned("<your-validator-unit>"),
    }
}

fn upper_words(v: &str) -> (r: Vec<String>)
    ensures
        views(r@) == split_ws(v@).map_values(|w: Seq<char>| upper_seq(w)),
{
    let ws = crate::text::str_words(v);
    let mut out: Vec<String> = Vec::new();
    let mut i: usize = 0;
    while i < ws.len()
        invariant
            i <= ws@.len(),
            views(ws@) == split_ws(v@),
            views(out@) == views(ws@).take(i as int).map_values(|w: Seq<char>| upper_seq(w)),
        decreases ws.len() - i,
    {
        let wv = chars_of(ws[i].as_str());
        let u = crate::text::to_upper(&wv);
        let ghost before = views(out@);
        out.push(crate::text::string_of(&u));
        assert(views(out@) == before.push(upper_seq(ws@[i as int]@)));
        assert(views(ws@).take(i + 1).map_values(|w: Seq<char>| upper_seq(w)) == views(ws@).take(
            i as int,
        ).map_values(|w: Seq<char>| upper_seq(w)).push(upper_seq(ws@[i as int]@)));
        i += 1;
    }
    assert(views(ws@).take(ws@.len() as int) == views(ws@));
    out
}

fn contains_word(have: &Vec<String>, w: &str) -> (r: bool)
    ensures
        r == views(have@).contains(w@),
{
    let wv = chars_of(w);
    let mut i: usize = 0;
    while i < have.len()
        invariant
            i <= have@.len(),
            wv@ == w@,
            forall|k: int| 0 <= k < i ==> views(have@)[k] != w@,
        decreases have.len() - i,
    {
        let hv = chars_of(have[i].as_str());
        if crate::text::same(&hv, &wv) {
            assert(views(have@)[i as int] == w@);
            return true;
        }
        i += 1;
    }
    false
}

/// A drop-in CapabilityBoundingSet= replaces the unit's value rather than
/// adding to it, so only write it when the unit does not already permit what
/// is needed.
/// The unit a fix names: the validator's own, or a placeholder.
pub open spec fn unit_text(c: Ctx) -> Seq<char> {
    match c.invocation {
        Some(i) => match opt_view(i.unit_name) {
            Some(u) => u,
            None => "<your-validator-unit>"@,
        },
        None => "<your-validator-unit>"@,
    }
}

/// Whether the unit's own bounding set already permits every capability.
pub open spec fn bounding_covers(req: Seq<Seq<char>>, bounding: Option<Seq<char>>) -> bool {
    match bounding {
        Some(b) => all_in(req, split_ws(b).map_values(|w: Seq<char>| upper_seq(w))),
        None => false,
    }
}

/// The drop-in's body: the ambient grant, and a bounding set too unless the
/// unit's own already permits every capability.
pub open spec fn dropin_body(req: Seq<Seq<char>>, bounding: Option<Seq<char>>) -> Seq<char> {
    let caps = join(req, " "@);
    if bounding_covers(req, bounding) {
        "AmbientCapabilities="@ + caps
    } else {
        "AmbientCapabilities="@ + caps + "\\nCapabilityBoundingSet="@ + caps
    }
}

/// A drop-in that grants the capabilities, then a reload and a restart.
pub open spec fn capability_fix_ok(c: Ctx, req: Seq<Seq<char>>, bounding: Option<Seq<char>>, r: Seq<FixStep>) -> bool {
    let unit = unit_text(c);
    &&& r.len() == 4
    &&& r[0].command@ == "sudo mkdir -p /etc/systemd/system/"@ + unit + ".d"@
    &&& r[1].command@ == "printf '[Service]\\n"@ + dropin_body(req, bounding) + "\\n' | sudo tee /etc/systemd/system/"@
        + unit + ".d/20-xdp-caps.conf"@
    &&& r[2].command@ == "sudo systemctl daemon-reload"@
    &&& r[3].command@ == "sudo systemctl restart "@ + unit
    &&& crate::model::notes(r) == seq![
        None,
        Some(
            if bounding_covers(req, bounding) {
                "Your CapabilityBoundingSet already permits these, so it is left alone. Ambient is the directive that grants them, and it is the one the blog post omits."@
            } else {
                "Ambient grants, BoundingSet restricts. You need both, and Ambient is the one the blog post omits."@
            },
        ),
        None,
        None,
    ]
}

fn capability_fix(ctx: &Ctx, required: &Vec<&'static str>, bounding: &Option<String>) -> (r: Vec<
    FixStep,
>)
    ensures
        r@.len() == 4,
        capability_fix_ok(*ctx, crate::argv::str_views(required@), opt_view(*bounding), r@),
{
    let unit = match ctx.inv() {
        Some(i) => unit_or(i),
        None => owned("<your-validator-unit>"),
    };
    let ghost req = crate::argv::str_views(required@);
    let caps_list = join_static(required, " ");
    let covers = match bounding {
        Some(b) => {
            let have = upper_words(b.as_str());
            let mut all = true;
            let mut i: usize = 0;
            while i < required.len()
                invariant
                    i <= required@.len(),
                    req == crate::argv::str_views(required@),
                    all == forall|k: int| 0 <= k < i ==> views(have@).contains(#[trigger] req[k]),
                decreases required.len() - i,
            {
                assert(req[i as int] == required@[i as int]@);
                if !contains_word(&have, required[i]) {
                    all = false;
                }
                i += 1;
            }
            all
        },
        None => false,
    };
    let (body, note) = if covers {
        (
            cat("AmbientCapabilities=", caps_list.as_str()),
            "Your CapabilityBoundingSet already permits these, so it is left alone. Ambient is the directive that grants them, and it is the one the blog post omits.",
        )
    } else {
        let mut b = cat("AmbientCapabilities=", caps_list.as_str());
        append(&mut b, "\\nCapabilityBoundingSet=");
        append(&mut b, caps_list.as_str());
        (
            b,
            "Ambient grants, BoundingSet restricts. You need both, and Ambient is the one the blog post omits.",
        )
    };
    let mut steps: Vec<FixStep> = Vec::new();
    let mut mk = cat("sudo mkdir -p /etc/systemd/system/", unit.as_str());
    append(&mut mk, ".d");
    steps.push(FixStep::cmd(mk.as_str()));
    let mut pf = cat("printf '[Service]\\n", body.as_str());
    append(&mut pf, "\\n' | sudo tee /etc/systemd/system/");
    append(&mut pf, unit.as_str());
    append(&mut pf, ".d/20-xdp-caps.conf");
    steps.push(FixStep::noted(pf.as_str(), note));
    steps.push(FixStep::cmd("sudo systemctl daemon-reload"));
    let rs = cat("sudo systemctl restart ", unit.as_str());
    steps.push(FixStep::cmd(rs.as_str()));
    assert(covers == bounding_covers(req, opt_view(*bounding)));
    assert(crate::model::notes(steps@) =~= seq![None, Some(note@), None, None]);
    steps
}

fn join_static(v: &Vec<&'static str>, sep: &str) -> (r: String)
    ensures
        r@ == join(crate::argv::str_views(v@), sep@),
{
    let mut strings: Vec<String> = Vec::new();
    let mut i: usize = 0;
    while i < v.len()
        invariant
            i <= v@.len(),
            views(strings@) == crate::argv::str_views(v@).take(i as int),
        decreases v.len() - i,
    {
        let ghost before = views(strings@);
        strings.push(owned(v[i]));
        assert(views(strings@) == before.push(v@[i as int]@));
        assert(crate::argv::str_views(v@).take(i + 1) == crate::argv::str_views(v@).take(
            i as int,
        ).push(v@[i as int]@));
        i += 1;
    }
    assert(crate::argv::str_views(v@).take(v@.len() as int) == crate::argv::str_views(v@));
    crate::text::join_strings(&strings, sep)
}

/// The required capabilities not among the granted words, in order.
pub open spec fn missing_in(req: Seq<Seq<char>>, have: Seq<Seq<char>>) -> Seq<Seq<char>>
    decreases req.len(),
{
    if req.len() == 0 {
        Seq::empty()
    } else if have.contains(req.last()) {
        missing_in(req.drop_last(), have)
    } else {
        missing_in(req.drop_last(), have).push(req.last())
    }
}

pub open spec fn caps_expected(zero_copy: bool) -> Seq<char> {
    join(required_caps(zero_copy), " and "@) + " in the permitted set"@ + if zero_copy {
        " (--xdp-zero-copy is in use)"@
    } else {
        Seq::empty()
    }
}

pub open spec fn unit_key(c: Ctx, key: Seq<char>) -> Option<Seq<char>> {
    directive(views(c.files.unit_texts@), key)
}

/// What a permitted set that confirms the grant says.
pub open spec fn mask_observed(mask: u64) -> Seq<char> {
    "a validator thread's CapPrm holds "@ + join(held_names(mask), " "@)
        + ", so the grant reached the process"@
}

/// What the unit grants, when no running process could be read.
pub open spec fn unit_observed(c: Ctx, req: Seq<Seq<char>>) -> Seq<char> {
    let ambient = unit_key(c, "AmbientCapabilities"@);
    let bounding = unit_key(c, "CapabilityBoundingSet"@);
    let user = unit_key(c, "User"@);
    let have = granted(ambient);
    if all_in(req, have) {
        "AmbientCapabilities="@ + join(have, " "@)
    } else {
        match (bounding, ambient, user) {
            (Some(b), None, Some(u)) => "unit sets CapabilityBoundingSet="@ + b
                + " with no AmbientCapabilities, and User="@ + u,
            (Some(b), None, None) => "unit sets CapabilityBoundingSet="@ + b + " with no AmbientCapabilities"@,
            (None, None, _) => "no AmbientCapabilities and no CapabilityBoundingSet in the unit"@,
            (_, Some(a), _) => "AmbientCapabilities="@ + a + ", missing "@ + join(missing_in(req, have), " "@),
        }
    }
}

/// What PF-XDP-0001 observes, and what it expects.
pub open spec fn caps_text(c: Ctx) -> (Seq<char>, Seq<char>) {
    if c.client == ClientKind::TestValidator {
        ("solana-test-validator has no XDP transmit path"@, Seq::empty())
    } else if c.client == ClientKind::Firedancer {
        ("Firedancer manages its own AF_XDP setup"@, Seq::empty())
    } else if !c.validator_present {
        ("no validator on this host"@, Seq::empty())
    } else {
        match c.invocation {
            None => (
                "could not resolve a validator invocation ("@ + join(views(c.invocation_trail@), " -> "@)
                    + ")"@,
                Seq::empty(),
            ),
            Some(inv) => {
                let a = inv.arg_views();
                let req = required_caps(xdp_zero_copy(a));
                if has_flag(a, "--no-xdp"@) {
                    (
                        "--no-xdp passed, XDP transmit disabled"@,
                        "capabilities granted, or XDP disabled"@,
                    )
                } else if !xdp_enabled(c, a) {
                    ("XDP not enabled in the invocation and not default before v4.2"@, Seq::empty())
                } else {
                    if confirmed(c, req) {
                        (mask_observed(capprm(c)->0), caps_expected(xdp_zero_copy(a)))
                    } else if inv.unit_path is None {
                        (
                            if capprm(c) is Some {
                                "the running validator's threads hold none of the capabilities, as a node that dropped them after startup also shows, and invocation did not come from a systemd unit"@
                            } else {
                                "no running validator whose CapPrm could be read, and invocation did not come from a systemd unit"@
                            },
                            Seq::empty(),
                        )
                    } else {
                        (unit_observed(c, req), caps_expected(xdp_zero_copy(a)))
                    }
                }
            },
        }
    }
}

/// The fix when the unit does not grant a capability: the drop-in that does.
pub open spec fn caps_fix_ok(c: Ctx, o: Outcome) -> bool {
    let inv = c.invocation->0;
    let req = required_caps(xdp_zero_copy(inv.arg_views()));
    capability_fix_ok(c, req, unit_key(c, "CapabilityBoundingSet"@), o.fix@)
}

/// How PF-XDP-0001 is confirmed: every thread's permitted set once a running
/// process is in view, else the main one's.
pub open spec fn caps_verify(c: Ctx) -> Option<Seq<char>> {
    let capprm_line = "grep CapPrm /proc/$(pgrep -f agave-validator)/status"@;
    if client_gated(c) || !c.validator_present {
        None
    } else {
        match c.invocation {
            None => None,
            Some(inv) => {
                let a = inv.arg_views();
                if has_flag(a, "--no-xdp"@) || !xdp_enabled(c, a) {
                    None
                } else {
                    if confirmed(c, required_caps(xdp_zero_copy(a))) || (inv.unit_path is None
                        && capprm(c) is Some) {
                        Some("grep CapPrm /proc/$(pgrep -f agave-validator)/task/*/status"@)
                    } else {
                        Some(capprm_line)
                    }
                }
            },
        }
    }
}

/// Why capabilities matters, as the report gives it.
pub const CAPS_WHY: &'static str = "CapabilityBoundingSet caps what a process may ever hold; it grants nothing. On a unit with User= set to a non-root account the bounding set alone leaves the permitted set empty. Agave's changelog pairs it with AmbientCapabilities, which is the directive that grants; the Anza XDP blog post shows only the bounding set, so unit files written from that post end up this way. Agave refuses to start over this only when the invocation asks for XDP explicitly. On the default path it starts, reports XDP as configured, and runs without it: attaching an XDP program needs CAP_NET_ADMIN and an AF_XDP socket needs CAP_NET_RAW, so with an empty permitted set the kernel allows neither and nothing says so.";

/// What `capabilities` promises of its outcome.
pub open spec fn capabilities_outcome(ctx: Ctx, o: Outcome) -> bool {
    &&& (o.status == caps_status(ctx))
    &&& (o.status == Status::Fail ==> o.fix@.len() >= 1 && o.persistence is Some)
    &&& ((o.observed@, o.expected@) =~~= caps_text(ctx))
    &&& (o.status == Status::Fail ==> caps_fix_ok(ctx, o))
    &&& (o.status == Status::Fail ==> (o.persistence matches Some(p) && p.expected@
        == crate::model::dropin_path(unit_text(ctx)) && opt_view(p.found) == unit_key(
        ctx,
        "AmbientCapabilities"@,
    )))
    &&& (o.status != Status::Skipped ==> o.why@ =~= CAPS_WHY@)
    &&& (opt_view(o.verify) == caps_verify(ctx))
    &&& (o.status == Status::Unknown ==> o.observed@.len() > 0)
    &&& (o.status != Status::Fail ==> o.persistence is None)
    &&& (o.status != Status::Fail ==> o.fix@.len() == 0)
}

/// PF-XDP-0001. Invocation-aware, and that is the whole check: `--xdp-*`
/// needs CAP_NET_ADMIN and CAP_NET_RAW; `--xdp-zero-copy` additionally needs
/// CAP_BPF and CAP_PERFMON.
pub fn capabilities(ctx: &Ctx) -> (o: Outcome)
    ensures
        capabilities_outcome(*ctx, o),
{
    match client_gate(ctx) {
        Some(o) => return o,
        None => {},
    }
    if !ctx.validator_present {
        return Outcome::skipped("no validator on this host");
    }
    let why = CAPS_WHY;
    let inv = match ctx.inv() {
        Some(i) => i,
        None => {
            let trail = crate::text::join_strings(&ctx.invocation_trail, " -> ");
            let mut obs = cat("could not resolve a validator invocation (", trail.as_str());
            append(&mut obs, ")");
            proof {
                reveal_strlit("could not resolve a validator invocation (");
            }
            return Outcome::unknown(obs.as_str()).why(why);
        },
    };
    let state = match xdp_state(ctx) {
        Some(s) => s,
        None => {
            proof {
                reveal_strlit("could not determine XDP state");
            }
            proof {
                reveal_strlit("could not determine XDP state");
            }
            return Outcome::unknown("could not determine XDP state").why(why);
        },
    };
    if inv.has("--no-xdp") {
        return Outcome::pass(
            "--no-xdp passed, XDP transmit disabled",
            "capabilities granted, or XDP disabled",
        ).why(why);
    }
    if !state.enabled {
        return Outcome::skipped("XDP not enabled in the invocation and not default before v4.2");
    }
    let req_text = join_static(&state.required, " and ");
    let mut expected = cat(req_text.as_str(), " in the permitted set");
    if state.zero_copy {
        append(&mut expected, " (--xdp-zero-copy is in use)");
    }
    let ambient = unit_directive(ctx, "AmbientCapabilities");
    let bounding = unit_directive(ctx, "CapabilityBoundingSet");
    let user = unit_directive(ctx, "User");
    let unit = unit_or(inv);
    // Agave drops what it does not need after startup, so an empty permitted
    // set is what a healthy node looks like: the running process can confirm a
    // grant, never refute one. Any thread holding a required capability shows
    // the grant arrived.
    let runtime = runtime_capprm(ctx);
    match runtime {
        Some(mask) => {
            let missing = cap_missing(mask, &state.required);
            if missing.len() < state.required.len() {
                let held = cap_held(mask);
                let list = join_static(&held, " ");
                let mut obs = cat("a validator thread's CapPrm holds ", list.as_str());
                append(&mut obs, ", so the grant reached the process");
                return Outcome::pass(obs.as_str(), expected.as_str()).why(why).verify(
                    "grep CapPrm /proc/$(pgrep -f agave-validator)/task/*/status",
                );
            }
        },
        None => {},
    }
    if inv.unit_path.is_none() {
        if runtime.is_some() {
            proof {
                reveal_strlit("the running validator's threads hold none of the capabilities, as a node that dropped them after startup also shows, and invocation did not come from a systemd unit");
            }
            return Outcome::unknown(
                "the running validator's threads hold none of the capabilities, as a node that dropped them after startup also shows, and invocation did not come from a systemd unit",
            ).why(why).verify(
                "grep CapPrm /proc/$(pgrep -f agave-validator)/task/*/status",
            );
        }
        proof {
            reveal_strlit("no running validator whose CapPrm could be read, and invocation did not come from a systemd unit");
        }
        return Outcome::unknown(
            "no running validator whose CapPrm could be read, and invocation did not come from a systemd unit",
        ).why(why).verify("grep CapPrm /proc/$(pgrep -f agave-validator)/status");
    }
    let granted_words: Vec<String> = match &ambient {
        Some(a) => upper_words(a.as_str()),
        None => Vec::new(),
    };
    assert(views(granted_words@) =~= granted(
        directive(views(ctx.files.unit_texts@), "AmbientCapabilities"@),
    ));
    let ghost req = crate::argv::str_views(state.required@);
    let mut missing: Vec<&'static str> = Vec::new();
    let mut i: usize = 0;
    while i < state.required.len()
        invariant
            i <= state.required@.len(),
            req == crate::argv::str_views(state.required@),
            (missing@.len() == 0) == forall|k: int|
                0 <= k < i ==> views(granted_words@).contains(#[trigger] req[k]),
            crate::argv::str_views(missing@) == missing_in(req.take(i as int), views(granted_words@)),
        decreases state.required.len() - i,
    {
        assert(req[i as int] == state.required@[i as int]@);
        assert(req.take(i + 1).drop_last() == req.take(i as int));
        assert(req.take(i + 1).last() == req[i as int]);
        if !contains_word(&granted_words, state.required[i]) {
            let ghost before = crate::argv::str_views(missing@);
            missing.push(state.required[i]);
            assert(crate::argv::str_views(missing@) == before.push(req[i as int]));
        }
        i += 1;
    }
    assert(req.take(req.len() as int) == req);
    if missing.len() == 0 {
        let list = crate::text::join_strings(&granted_words, " ");
        let obs = cat("AmbientCapabilities=", list.as_str());
        return Outcome::pass(obs.as_str(), expected.as_str()).why(why).verify(
            "grep CapPrm /proc/$(pgrep -f agave-validator)/status",
        );
    }
    let missing_text = join_static(&missing, " ");
    let observed = match (&bounding, &ambient, &user) {
        (Some(b), None, Some(u)) => {
            let mut s = cat("unit sets CapabilityBoundingSet=", b.as_str());
            append(&mut s, " with no AmbientCapabilities, and User=");
            append(&mut s, u.as_str());
            s
        },
        (Some(b), None, None) => {
            let mut s = cat("unit sets CapabilityBoundingSet=", b.as_str());
            append(&mut s, " with no AmbientCapabilities");
            s
        },
        (None, None, _) => owned("no AmbientCapabilities and no CapabilityBoundingSet in the unit"),
        (_, Some(a), _) => {
            let mut s = cat("AmbientCapabilities=", a.as_str());
            append(&mut s, ", missing ");
            append(&mut s, missing_text.as_str());
            s
        },
    };
    let fix = capability_fix(ctx, &state.required, &bounding);
    Outcome::fail(observed.as_str(), expected.as_str()).why(why).fix(fix).verify(
        "grep CapPrm /proc/$(pgrep -f agave-validator)/status",
    ).persists(Persistence::unit_dropin(ambient, unit.as_str()))
}

/// PF-XDP-0007's outcome. With a unit grant the capabilities survive binary
/// replacement; without one, a running validator that holds capabilities got
/// them from setcap on the binary, which the next upgrade erases.
pub open spec fn persistence_status(c: Ctx) -> Status {
    if client_gated(c) || !c.validator_present {
        Status::Skipped
    } else {
        match c.invocation {
            None => Status::Unknown,
            Some(inv) => if !xdp_enabled(c, inv.arg_views()) {
                Status::Skipped
            } else if directive(views(c.files.unit_texts@), "AmbientCapabilities"@) is Some {
                Status::Pass
            } else {
                match capprm(c) {
                    None => Status::Unknown,
                    Some(m) => if m == 0 {
                        Status::Fail
                    } else {
                        Status::Ephemeral
                    },
                }
            },
        }
    }
}

/// What PF-XDP-0007 observes, and what it expects.
pub open spec fn persistence_text(c: Ctx) -> (Seq<char>, Seq<char>) {
    if c.client == ClientKind::TestValidator {
        ("solana-test-validator has no XDP transmit path"@, Seq::empty())
    } else if c.client == ClientKind::Firedancer {
        ("Firedancer manages its own AF_XDP setup"@, Seq::empty())
    } else if !c.validator_present {
        ("no validator on this host"@, Seq::empty())
    } else {
        match c.invocation {
            None => ("could not resolve a validator invocation"@, Seq::empty()),
            Some(inv) => if !xdp_enabled(c, inv.arg_views()) {
                ("XDP not enabled, so no capability grant to persist"@, Seq::empty())
            } else if unit_key(c, "AmbientCapabilities"@) is Some {
                (
                    "AmbientCapabilities set in the systemd unit"@,
                    "capabilities granted by the unit, not by setcap on the binary"@,
                )
            } else {
                match capprm(c) {
                    None => (
                        "no AmbientCapabilities in the unit, and no running validator whose permitted set could be read"@,
                        Seq::empty(),
                    ),
                    Some(m) => if m == 0 {
                        (
                            "no AmbientCapabilities in the unit and the running validator holds no permitted capabilities"@,
                            "capabilities granted by an AmbientCapabilities drop-in"@,
                        )
                    } else {
                        (
                            "validator holds permitted capabilities, but the unit grants none, so they come from setcap on the binary"@,
                            "capabilities granted by an AmbientCapabilities drop-in"@,
                        )
                    },
                }
            },
        }
    }
}

/// Why a unit grant is the durable one.
pub const PERSIST_UNIT_WHY: &'static str = "A unit drop-in survives binary replacement. A setcap grant does not.";

/// Why nothing to compare is reported as unknown.
pub const PERSIST_UNREAD_WHY: &'static str = "Whether a grant is ephemeral depends on capabilities the process actually holds. With no unit directive and no running process there is nothing to compare, so preflight reports that rather than assuming setcap.";

/// Why no grant at all is not this check's failure.
pub const PERSIST_NONE_WHY: &'static str = "This is not an ephemeral grant, it is no grant. See PF-XDP-0001.";

/// Why a setcap grant does not last.
pub const PERSIST_SETCAP_WHY: &'static str = "setcap writes to the binary's extended attributes, and agave-install replaces the binary on every upgrade. Agave's own changelog says the command must be repeated every time the binary is replaced. The node works for weeks, then fails to start after a routine upgrade, and the two events look unrelated.";

/// The reason and the confirming command PF-XDP-0007 gives.
pub open spec fn persistence_words(c: Ctx) -> (Seq<char>, Option<Seq<char>>) {
    match persistence_status(c) {
        Status::Pass => (PERSIST_UNIT_WHY@, None),
        Status::Unknown => if c.invocation is None {
            (Seq::empty(), None)
        } else {
            (PERSIST_UNREAD_WHY@, Some("getcap $(which agave-validator)"@))
        },
        Status::Fail => (PERSIST_NONE_WHY@, Some("grep CapPrm /proc/$(pgrep -f agave-validator)/status"@)),
        Status::Ephemeral => (PERSIST_SETCAP_WHY@, Some("getcap $(which agave-validator)"@)),
        _ => (Seq::empty(), None),
    }
}

/// What `capability_persistence` promises of its outcome.
pub open spec fn capability_persistence_outcome(ctx: Ctx, o: Outcome) -> bool {
    &&& (o.status == persistence_status(ctx))
    &&& (o.status == Status::Ephemeral ==> o.fix@.len() == 1 && o.persistence is Some)
    &&& ((o.observed@, o.expected@) =~~= persistence_text(ctx))
    &&& (o.status == Status::Ephemeral ==> o.fix@[0].command@
        == "move the grant into /etc/systemd/system/"@ + unit_text(ctx)
        + ".d/20-xdp-caps.conf as AmbientCapabilities="@)
    &&& ((o.why@, opt_view(o.verify)) =~~= persistence_words(ctx))
    &&& (o.status == Status::Unknown ==> o.observed@.len() > 0)
    &&& (crate::model::notes(o.fix@) =~= if o.status == Status::Ephemeral {
        seq![Some("or re-run setcap after every agave-install, which nobody remembers to do"@)]
    } else {
        Seq::empty()
    })
    &&& (match o.persistence {
        Some(p) => (o.status == Status::Pass || o.status == Status::Ephemeral) && p.expected@
            == crate::model::dropin_path(unit_text(ctx)) && opt_view(p.found) == if o.status
            == Status::Pass {
            unit_key(ctx, "AmbientCapabilities"@)
        } else {
            None
        },
        None => o.status != Status::Pass && o.status != Status::Ephemeral,
    })
}

/// PF-XDP-0007. `Ephemeral` applied to capabilities: setcap writes to the
/// binary's extended attributes and agave-install replaces the binary.
///
/// The distinction only exists when capabilities are actually held right now.
/// Absent both a unit grant and a running process, preflight cannot tell an
/// ephemeral grant from no grant at all, and says so instead of guessing.
pub fn capability_persistence(ctx: &Ctx) -> (o: Outcome)
    ensures
        capability_persistence_outcome(*ctx, o),
{
    match client_gate(ctx) {
        Some(o) => return o,
        None => {},
    }
    if !ctx.validator_present {
        return Outcome::skipped("no validator on this host");
    }
    let state = match xdp_state(ctx) {
        Some(s) => s,
        None => {
            proof {
                reveal_strlit("could not resolve a validator invocation");
            }
            proof {
                reveal_strlit("could not resolve a validator invocation");
            }
            return Outcome::unknown("could not resolve a validator invocation");
        },
    };
    if !state.enabled {
        return Outcome::skipped("XDP not enabled, so no capability grant to persist");
    }
    let unit = match ctx.inv() {
        Some(i) => unit_or(i),
        None => owned("<your-validator-unit>"),
    };
    let ambient = unit_directive(ctx, "AmbientCapabilities");
    if ambient.is_some() {
        return Outcome::pass(
            "AmbientCapabilities set in the systemd unit",
            "capabilities granted by the unit, not by setcap on the binary",
        ).why(PERSIST_UNIT_WHY).persists(
            Persistence::unit_dropin(ambient, unit.as_str()),
        );
    }
    match runtime_capprm(ctx) {
        None => {
            proof {
                reveal_strlit("no AmbientCapabilities in the unit, and no running validator whose permitted set could be read");
            }
            Outcome::unknown(
                "no AmbientCapabilities in the unit, and no running validator whose permitted set could be read",
            ).why(PERSIST_UNREAD_WHY).verify("getcap $(which agave-validator)")
        },
        Some(0) => Outcome::fail(
            "no AmbientCapabilities in the unit and the running validator holds no permitted capabilities",
            "capabilities granted by an AmbientCapabilities drop-in",
        ).why(PERSIST_NONE_WHY).verify(
            "grep CapPrm /proc/$(pgrep -f agave-validator)/status",
        ),
        Some(_) => {
            let mut step = cat("move the grant into /etc/systemd/system/", unit.as_str());
            append(&mut step, ".d/20-xdp-caps.conf as AmbientCapabilities=");
            let mut fix: Vec<FixStep> = Vec::new();
            fix.push(
                FixStep::noted(
                    step.as_str(),
                    "or re-run setcap after every agave-install, which nobody remembers to do",
                ),
            );
            Outcome::ephemeral(
                "validator holds permitted capabilities, but the unit grants none, so they come from setcap on the binary",
                "capabilities granted by an AmbientCapabilities drop-in",
            ).why(
                PERSIST_SETCAP_WHY,
            ).fix(fix).verify("getcap $(which agave-validator)").persists(
                Persistence::unit_dropin(None, unit.as_str()),
            )
        },
    }
}

} // verus!
