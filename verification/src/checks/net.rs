//! NET layer. The network card and its driver.
//!
//! Whether AF_XDP works, and whether zero copy works, is decided by the driver
//! more than anything else. The community hardware list records which families
//! operators have actually got working, which is the only evidence there is.

use vstd::prelude::*;
use vstd::string::*;
use crate::argv::has_flag;
use crate::checks::{gate_matches, needs_linux, off_linux_status, off_linux_text};
use crate::ctx::Ctx;
use crate::model::{opt_view, FixStep, Outcome, Status};
use crate::text::{
    all_digits, append, cat, chars_of, dec, dec_string, join, lines, lookup, lookup_of, owned,
    pair_views, parse_u32, split_once, split_ws, str_lines, str_words, trim, views,
};

verus! {

/// How a driver behaves under AF_XDP, from the community list.
#[derive(Debug, Clone, Copy, PartialEq, Eq, Structural)]
pub enum Xdp {
    Works,
    Caveat,
    Unstable,
    No,
}

/// The community list: driver, card family, plain XDP, zero copy, and the
/// note that explains the entry.
pub open spec fn driver_table(d: Seq<char>) -> Option<(Seq<char>, Xdp, Xdp, Seq<char>)> {
    if d == "mlx5_core"@ {
        Some(("NVIDIA/Mellanox ConnectX-5 or ConnectX-6 Lx"@, Xdp::Works, Xdp::Works, "The highest confidence family on the list. Works with zero copy on kernel 6.8."@))
    } else if d == "i40e"@ {
        Some(("Intel 700 series"@, Xdp::Works, Xdp::Works, "Reported working with zero copy on kernel 6.8."@))
    } else if d == "ice"@ {
        Some(("Intel E800 series"@, Xdp::Works, Xdp::No, "Anza's XDP guide: do not pass --xdp-zero-copy with ice (or bnxt_en). Plain XDP still works. The community table lists zero copy; the guide wins."@))
    } else if d == "igb"@ {
        Some(("Intel I210"@, Xdp::Works, Xdp::Caveat, "Zero copy needs kernel 6.14 or newer. One operator saw severe degradation and high skips on 6.17 with zero copy on, and fell back to plain XDP."@))
    } else if d == "ixgbe"@ {
        Some(("Intel X540 or X550"@, Xdp::Works, Xdp::Unstable, "Zero copy is mixed and unstable here. Guidance for freezes and link flaps is to start without it."@))
    } else if d == "bnxt_en"@ {
        Some(("Broadcom"@, Xdp::Works, Xdp::No, "Works with XDP but never accepts the zero copy flag. Non zero copy is still reasonably fast. Prefer a different card when you can."@))
    } else if d == "tg3"@ {
        Some(("Broadcom BCM5720"@, Xdp::No, Xdp::No, "No native XDP and no zero copy. Treated as unsupported for validator work."@))
    } else if d == "r8169"@ {
        Some(("Realtek"@, Xdp::No, Xdp::No, "No native XDP and no zero copy. Treated as unsupported for validator work."@))
    } else if d == "mlx4_en"@ {
        Some(("NVIDIA/Mellanox ConnectX-3"@, Xdp::No, Xdp::No, "The driver is no longer supported and zero copy does not work. Do not use."@))
    } else {
        None
    }
}

fn driver_entry(d: &str) -> (r: Option<(&'static str, Xdp, Xdp, &'static str)>)
    ensures
        match r {
            Some((f, p, z, n)) => driver_table(d@) == Some((f@, p, z, n@)),
            None => driver_table(d@) is None,
        },
{
    if crate::text::eq_lit(d, "mlx5_core") {
        Some(("NVIDIA/Mellanox ConnectX-5 or ConnectX-6 Lx", Xdp::Works, Xdp::Works, "The highest confidence family on the list. Works with zero copy on kernel 6.8."))
    } else if crate::text::eq_lit(d, "i40e") {
        Some(("Intel 700 series", Xdp::Works, Xdp::Works, "Reported working with zero copy on kernel 6.8."))
    } else if crate::text::eq_lit(d, "ice") {
        Some(("Intel E800 series", Xdp::Works, Xdp::No, "Anza's XDP guide: do not pass --xdp-zero-copy with ice (or bnxt_en). Plain XDP still works. The community table lists zero copy; the guide wins."))
    } else if crate::text::eq_lit(d, "igb") {
        Some(("Intel I210", Xdp::Works, Xdp::Caveat, "Zero copy needs kernel 6.14 or newer. One operator saw severe degradation and high skips on 6.17 with zero copy on, and fell back to plain XDP."))
    } else if crate::text::eq_lit(d, "ixgbe") {
        Some(("Intel X540 or X550", Xdp::Works, Xdp::Unstable, "Zero copy is mixed and unstable here. Guidance for freezes and link flaps is to start without it."))
    } else if crate::text::eq_lit(d, "bnxt_en") {
        Some(("Broadcom", Xdp::Works, Xdp::No, "Works with XDP but never accepts the zero copy flag. Non zero copy is still reasonably fast. Prefer a different card when you can."))
    } else if crate::text::eq_lit(d, "tg3") {
        Some(("Broadcom BCM5720", Xdp::No, Xdp::No, "No native XDP and no zero copy. Treated as unsupported for validator work."))
    } else if crate::text::eq_lit(d, "r8169") {
        Some(("Realtek", Xdp::No, Xdp::No, "No native XDP and no zero copy. Treated as unsupported for validator work."))
    } else if crate::text::eq_lit(d, "mlx4_en") {
        Some(("NVIDIA/Mellanox ConnectX-3", Xdp::No, Xdp::No, "The driver is no longer supported and zero copy does not work. Do not use."))
    } else {
        None
    }
}

/// The first route line whose destination is 00000000: the default route.
pub open spec fn route_iface(ls: Seq<Seq<char>>) -> Option<Seq<char>>
    decreases ls.len(),
{
    if ls.len() == 0 {
        None
    } else {
        let f = split_ws(ls[0]);
        if f.len() > 2 && f[1] == "00000000"@ {
            Some(f[0])
        } else {
            route_iface(ls.drop_first())
        }
    }
}

/// The default route's interface, from /proc/net/route past its header line.
pub open spec fn primary_spec(route: Option<Seq<char>>) -> Option<Seq<char>> {
    match route {
        None => None,
        Some(t) => {
            let ls = lines(t);
            if ls.len() == 0 {
                None
            } else {
                route_iface(ls.drop_first())
            }
        },
    }
}

/// The default route's interface, which is the one the validator gossips over.
pub fn primary_interface(ctx: &Ctx) -> (r: Option<String>)
    ensures
        opt_view(r) == primary_spec(opt_view(ctx.files.route)),
{
    let t = match &ctx.files.route {
        Some(t) => t,
        None => return None,
    };
    let ls = str_lines(t.as_str());
    if ls.len() == 0 {
        return None;
    }
    let mut i: usize = 1;
    assert(views(ls@).drop_first() == views(ls@).skip(1));
    while i < ls.len()
        invariant
            1 <= i <= ls@.len(),
            views(ls@) == lines(t@),
            opt_view(ctx.files.route) == Some(t@),
            route_iface(views(ls@).drop_first()) == route_iface(views(ls@).skip(i as int)),
        decreases ls.len() - i,
    {
        assert(views(ls@).skip(i as int)[0] == ls@[i as int]@);
        assert(views(ls@).skip(i as int).drop_first() == views(ls@).skip(i + 1));
        let f = str_words(ls[i].as_str());
        if f.len() > 2 && crate::text::eq_lit(f[1].as_str(), "00000000") {
            return Some(f[0].clone());
        }
        i += 1;
    }
    assert(views(ls@).skip(i as int) =~= Seq::<Seq<char>>::empty());
    None
}

/// The driver name the interface's sysfs link points at.
pub fn driver_of(ctx: &Ctx, iface: &str) -> (r: Option<String>)
    ensures
        opt_view(r) == lookup(pair_views(ctx.files.drivers@), iface@),
{
    lookup_of(&ctx.files.drivers, iface)
}

pub open spec fn zero_copy_wanted(c: Ctx) -> bool {
    match c.invocation {
        Some(i) => has_flag(i.arg_views(), "--xdp-zero-copy"@) || has_flag(
            i.arg_views(),
            "--experimental-retransmit-xdp-zero-copy"@,
        ),
        None => false,
    }
}

pub open spec fn driver_spec(c: Ctx) -> Option<Seq<char>> {
    match primary_spec(opt_view(c.files.route)) {
        Some(i) => lookup(pair_views(c.files.drivers@), i),
        None => None,
    }
}

/// PF-NET-0001's outcome: Unknown when the card or its driver cannot be
/// named or nobody has reported on the driver; Fail when it has no native
/// XDP, or when zero copy is asked of a driver that does not carry it; Pass
/// otherwise.
pub open spec fn xdp_driver_status(c: Ctx) -> Status {
    match off_linux_status(c) {
        Some(s) => s,
        None => match primary_spec(opt_view(c.files.route)) {
            None => Status::Unknown,
            Some(iface) => match lookup(pair_views(c.files.drivers@), iface) {
                None => Status::Unknown,
                Some(d) => match driver_table(d) {
                    None => Status::Unknown,
                    Some((_, plain, zc, _)) => if plain == Xdp::No {
                        Status::Fail
                    } else if zero_copy_wanted(c) && zc != Xdp::Works {
                        Status::Fail
                    } else {
                        Status::Pass
                    },
                },
            },
        },
    }
}

/// What PF-NET-0001 observes, and what it expects.
pub open spec fn driver_text(c: Ctx) -> (Seq<char>, Seq<char>) {
    let expected = "a driver that carries AF_XDP"@;
    match off_linux_status(c) {
        Some(_) => off_linux_text(c),
        None => match primary_spec(opt_view(c.files.route)) {
            None => ("no default route, so no interface to check"@, expected),
            Some(iface) => match lookup(pair_views(c.files.drivers@), iface) {
                None => ("cannot read the driver for "@ + iface, expected),
                Some(d) => match driver_table(d) {
                    None => (iface + " uses "@ + d + ", which is not on the list"@, expected),
                    Some((family, plain, zc, _)) => {
                        let base = iface + " uses "@ + d + " ("@ + family + ")"@;
                        if plain == Xdp::No {
                            (base, "a driver with native XDP support"@)
                        } else if zero_copy_wanted(c) && (zc == Xdp::No || zc == Xdp::Unstable) {
                            (base + ", and --xdp-zero-copy is set"@, "zero copy off on this driver"@)
                        } else if zero_copy_wanted(c) && zc == Xdp::Caveat {
                            (
                                base + ", and --xdp-zero-copy is set"@,
                                "kernel 6.14 or newer for zero copy on this driver"@,
                            )
                        } else {
                            (base, expected)
                        }
                    },
                },
            },
        },
    }
}

/// Why the network driver matters.
pub const DRIVER_WHY: &'static str = "Since v4.2 agave sends over XDP by default on Linux, and whether that works at all, and whether zero copy works, is decided by the network driver. Anza does not publish a compatibility list. The community one records what operators have actually got running, including which cards silently fall back to a slow path.";

/// The reason PF-NET-0001 gives: the list's own note follows once the driver
/// is found on it.
pub open spec fn driver_why(c: Ctx) -> Seq<char> {
    match driver_spec(c) {
        Some(d) => match driver_table(d) {
            Some((_, _, _, note)) => if off_linux_status(c) is None {
                DRIVER_WHY@ + " "@ + note
            } else {
                DRIVER_WHY@
            },
            None => DRIVER_WHY@,
        },
        None => DRIVER_WHY@,
    }
}

/// The notes beside PF-NET-0001's commands.
pub open spec fn driver_notes(c: Ctx) -> Seq<Option<Seq<char>>> {
    match off_linux_status(c) {
        Some(_) => Seq::empty(),
        None => match primary_spec(opt_view(c.files.route)) {
            None => Seq::empty(),
            Some(iface) => match lookup(pair_views(c.files.drivers@), iface) {
                None => Seq::empty(),
                Some(d) => match driver_table(d) {
                    None => seq![Some("an absent driver means nobody has reported on it, not that it fails"@)],
                    Some((_, plain, zc, _)) => if plain == Xdp::No {
                        seq![Some("without native XDP the node falls back to a slower path rather than failing"@)]
                    } else if zero_copy_wanted(c) && (zc == Xdp::No || zc == Xdp::Unstable) {
                        seq![None]
                    } else {
                        Seq::empty()
                    },
                },
            },
        },
    }
}

/// What PF-NET-0001 tells the operator to do: report a driver nobody has,
/// drop XDP or the card when it has no native support, and drop zero copy
/// where the driver does not carry it.
pub open spec fn driver_fix(c: Ctx) -> Seq<Seq<char>> {
    match off_linux_status(c) {
        Some(_) => Seq::empty(),
        None => match primary_spec(opt_view(c.files.route)) {
            None => Seq::empty(),
            Some(iface) => match lookup(pair_views(c.files.drivers@), iface) {
                None => Seq::empty(),
                Some(d) => match driver_table(d) {
                    None => seq!["check solanahcl.org, or report what you find"@],
                    Some((_, plain, zc, _)) => if plain == Xdp::No {
                        seq!["use --no-xdp, or fit a card on the supported list"@]
                    } else if zero_copy_wanted(c) && (zc == Xdp::No || zc == Xdp::Unstable) {
                        seq!["remove --xdp-zero-copy"@]
                    } else {
                        Seq::empty()
                    },
                },
            },
        },
    }
}

/// What `xdp_driver_support` promises of its outcome.
pub open spec fn xdp_driver_support_outcome(ctx: Ctx, o: Outcome) -> bool {
    &&& (o.status == xdp_driver_status(ctx))
    &&& ((o.observed@, o.expected@) =~~= driver_text(ctx))
    &&& (crate::model::commands(o.fix@) =~= driver_fix(ctx))
    &&& (o.why@ =~= driver_why(ctx))
    &&& (o.verify is None && o.persistence is None)
    &&& (o.status == Status::Unknown ==> o.observed@.len() > 0)
    &&& (crate::model::notes(o.fix@) =~= driver_notes(ctx))
}

/// PF-NET-0001. Whether this card can carry the XDP transmit path.
pub fn xdp_driver_support(ctx: &Ctx) -> (o: Outcome)
    ensures
        xdp_driver_support_outcome(*ctx, o),
{
    let why_base = DRIVER_WHY;
    let expected = "a driver that carries AF_XDP";
    match needs_linux(ctx, why_base) {
        Some(o) => return o,
        None => {},
    }
    let iface = match primary_interface(ctx) {
        Some(i) => i,
        None => {
            proof {
                reveal_strlit("no default route, so no interface to check");
            }
            return Outcome::unknown("no default route, so no interface to check").expected(
                expected,
            ).why(why_base)
        },
    };
    let driver = match driver_of(ctx, iface.as_str()) {
        Some(d) => d,
        None => {
            let obs = cat("cannot read the driver for ", iface.as_str());
            proof {
                reveal_strlit("cannot read the driver for ");
            }
            return Outcome::unknown(obs.as_str()).expected(expected).why(why_base);
        },
    };
    let (family, plain, zero_copy, note) = match driver_entry(driver.as_str()) {
        Some(e) => e,
        None => {
            let mut obs = cat(iface.as_str(), " uses ");
            append(&mut obs, driver.as_str());
            append(&mut obs, ", which is not on the list");
            proof {
                reveal_strlit(" uses ");
            }

            let mut fix: Vec<FixStep> = Vec::new();
            fix.push(
                FixStep::noted(
                    "check solanahcl.org, or report what you find",
                    "an absent driver means nobody has reported on it, not that it fails",
                ),
            );
            return Outcome::unknown(obs.as_str()).expected(expected).why(why_base).fix(fix);
        },
    };
    let wanted = match ctx.inv() {
        Some(i) => i.has("--xdp-zero-copy") || i.has("--experimental-retransmit-xdp-zero-copy"),
        None => false,
    };
    let mut observed = cat(iface.as_str(), " uses ");
    append(&mut observed, driver.as_str());
    append(&mut observed, " (");
    append(&mut observed, family);
    append(&mut observed, ")");
    let mut why = cat(why_base, " ");
    append(&mut why, note);
    if plain == Xdp::No {
        let mut fix: Vec<FixStep> = Vec::new();
        fix.push(
            FixStep::noted(
                "use --no-xdp, or fit a card on the supported list",
                "without native XDP the node falls back to a slower path rather than failing",
            ),
        );
        return Outcome::fail(observed.as_str(), "a driver with native XDP support").why(
            why.as_str(),
        ).fix(fix);
    }
    if wanted && (zero_copy == Xdp::No || zero_copy == Xdp::Unstable) {
        append(&mut observed, ", and --xdp-zero-copy is set");
        let mut fix: Vec<FixStep> = Vec::new();
        fix.push(FixStep::cmd("remove --xdp-zero-copy"));
        return Outcome::fail(observed.as_str(), "zero copy off on this driver").why(
            why.as_str(),
        ).fix(fix);
    }
    if wanted && zero_copy == Xdp::Caveat {
        append(&mut observed, ", and --xdp-zero-copy is set");
        return Outcome::fail(
            observed.as_str(),
            "kernel 6.14 or newer for zero copy on this driver",
        ).why(why.as_str());
    }
    Outcome::pass(observed.as_str(), expected).why(why.as_str())
}

/// The part of `s` before the first `a` or `b`.
pub open spec fn before_either(s: Seq<char>, a: char, b: char) -> Seq<char>
    decreases s.len(),
{
    if s.len() == 0 || s[0] == a || s[0] == b {
        Seq::empty()
    } else {
        seq![s[0]] + before_either(s.drop_first(), a, b)
    }
}

fn before_either_of(s: &Vec<char>, a: char, b: char) -> (r: Vec<char>)
    ensures
        r@ == before_either(s@, a, b),
{
    let mut i: usize = 0;
    assert(s@.skip(0) == s@);
    assert(s@.take(0) + before_either(s@, a, b) == before_either(s@, a, b));
    while i < s.len() && s[i] != a && s[i] != b
        invariant
            i <= s@.len(),
            before_either(s@, a, b) == s@.take(i as int) + before_either(s@.skip(i as int), a, b),
        decreases s.len() - i,
    {
        assert(s@.skip(i as int).drop_first() == s@.skip(i + 1));
        assert(s@.take(i + 1) == s@.take(i as int) + seq![s@[i as int]]);
        i += 1;
    }
    assert(before_either(s@.skip(i as int), a, b) == Seq::<char>::empty());
    crate::text::subvec(s, 0, i)
}

/// The first CPU of an smp_affinity_list such as `4` or `4-7,12`.
pub open spec fn affinity_cpu(text: Seq<char>) -> Option<u32> {
    parse_u32(before_either(trim(text), ',', '-'))
}

/// A /proc/interrupts line that is one of this card's queues, as its label
/// and the CPU it interrupts. Matched by name because irq numbers move across
/// reboots: mlx5 writes iface-0, intel iface-TxRx-0.
pub open spec fn queue_line(
    line: Seq<char>,
    iface: Seq<char>,
    aff: Seq<(Seq<char>, Seq<char>)>,
) -> Option<(Seq<char>, u32)> {
    match split_once(line, ':') {
        None => None,
        Some((num, rest)) => {
            let irq = trim(num);
            let ws = split_ws(rest);
            let label = if ws.len() > 0 {
                ws.last()
            } else {
                Seq::<char>::empty()
            };
            if irq.len() == 0 || !all_digits(irq) {
                None
            } else if !iface.is_prefix_of(label) || !(label.len() > 0 && crate::text::is_digit(
                label.last(),
            )) {
                None
            } else {
                match lookup(aff, irq) {
                    None => None,
                    Some(t) => match affinity_cpu(t) {
                        None => None,
                        Some(c) => Some((label, c)),
                    },
                }
            }
        },
    }
}

pub open spec fn queues_of(
    ls: Seq<Seq<char>>,
    iface: Seq<char>,
    aff: Seq<(Seq<char>, Seq<char>)>,
) -> Seq<(Seq<char>, u32)>
    decreases ls.len(),
{
    if ls.len() == 0 {
        Seq::empty()
    } else {
        let rest = queues_of(ls.drop_last(), iface, aff);
        match queue_line(ls.last(), iface, aff) {
            Some(q) => rest.push(q),
            None => rest,
        }
    }
}

pub open spec fn queue_views(v: Seq<(String, u32)>) -> Seq<(Seq<char>, u32)> {
    v.map_values(|p: (String, u32)| (p.0@, p.1))
}

fn queue_line_of(line: &str, iface: &str, aff: &Vec<(String, String)>) -> (r: Option<(String, u32)>)
    ensures
        match r {
            Some((l, c)) => queue_line(line@, iface@, pair_views(aff@)) == Some((l@, c)),
            None => queue_line(line@, iface@, pair_views(aff@)) is None,
        },
{
    let v = chars_of(line);
    let (num, rest) = match crate::text::split_once_char(&v, ':') {
        Some(p) => p,
        None => return None,
    };
    let irq = crate::text::trim_vec(&num);
    let ws = crate::text::words_of(&rest);
    let label: Vec<char> = if ws.len() > 0 {
        chars_of(ws[ws.len() - 1].as_str())
    } else {
        Vec::new()
    };
    assert(label@ == (if split_ws(rest@).len() > 0 {
        split_ws(rest@).last()
    } else {
        Seq::<char>::empty()
    }));
    if irq.len() == 0 || !crate::text::all_digits_of(&irq) {
        return None;
    }
    let ifv = chars_of(iface);
    if !crate::text::starts_with(&label, &ifv) || !(label.len() > 0 && '0' <= label[label.len()
        - 1] && label[label.len() - 1] <= '9') {
        return None;
    }
    let irqs = crate::text::string_of(&irq);
    let t = match lookup_of(aff, irqs.as_str()) {
        Some(t) => t,
        None => return None,
    };
    let tv = chars_of(t.as_str());
    let tt = crate::text::trim_vec(&tv);
    let first = before_either_of(&tt, ',', '-');
    match crate::text::parse_u32_vec(&first) {
        Some(c) => Some((crate::text::string_of(&label), c)),
        None => None,
    }
}

/// This card's queue interrupts, as (label, cpu), in /proc/interrupts order.
fn queue_irqs(ctx: &Ctx, iface: &str) -> (r: Vec<(String, u32)>)
    ensures
        queue_views(r@) == match opt_view(ctx.files.interrupts) {
            Some(t) => queues_of(lines(t), iface@, pair_views(ctx.files.irq_affinity@)),
            None => Seq::empty(),
        },
{
    let t = match &ctx.files.interrupts {
        Some(t) => t,
        None => return Vec::new(),
    };
    let ls = str_lines(t.as_str());
    let mut out: Vec<(String, u32)> = Vec::new();
    let mut i: usize = 0;
    while i < ls.len()
        invariant
            i <= ls@.len(),
            views(ls@) == lines(t@),
            queue_views(out@) == queues_of(
                views(ls@).take(i as int),
                iface@,
                pair_views(ctx.files.irq_affinity@),
            ),
        decreases ls.len() - i,
    {
        assert(views(ls@).take(i + 1).drop_last() == views(ls@).take(i as int));
        assert(views(ls@).take(i + 1).last() == ls@[i as int]@);
        match queue_line_of(ls[i].as_str(), iface, &ctx.files.irq_affinity) {
            Some(q) => {
                let ghost before = queue_views(out@);
                let ghost qv = (q.0@, q.1);
                out.push(q);
                assert(queue_views(out@) == before.push(qv));
            },
            None => {},
        }
        i += 1;
    }
    assert(views(ls@).take(ls@.len() as int) == views(ls@));
    out
}

pub open spec fn sibling_text(ps: Seq<(u32, String)>, cpu: u32) -> Option<Seq<char>>
    decreases ps.len(),
{
    if ps.len() == 0 {
        None
    } else if ps[0].0 == cpu {
        Some(ps[0].1@)
    } else {
        sibling_text(ps.drop_first(), cpu)
    }
}

/// A CPU's physical core, named by its sibling list: two SMT threads share it.
pub open spec fn core_of(c: Ctx, cpu: u32) -> Seq<char> {
    match sibling_text(c.files.siblings@, cpu) {
        Some(t) => trim(t),
        None => dec(cpu as nat),
    }
}

fn physical_core(ctx: &Ctx, cpu: u32) -> (r: String)
    ensures
        r@ == core_of(*ctx, cpu),
{
    let ps = &ctx.files.siblings;
    let mut i: usize = 0;
    assert(ps@.skip(0) == ps@);
    while i < ps.len()
        invariant
            i <= ps@.len(),
            ps@ == ctx.files.siblings@,
            sibling_text(ps@, cpu) == sibling_text(ps@.skip(i as int), cpu),
        decreases ps.len() - i,
    {
        assert(ps@.skip(i as int)[0] == ps@[i as int]);
        assert(ps@.skip(i as int).drop_first() == ps@.skip(i + 1));
        if ps[i].0 == cpu {
            let v = chars_of(ps[i].1.as_str());
            let t = crate::text::trim_vec(&v);
            return crate::text::string_of(&t);
        }
        i += 1;
    }
    assert(ps@.skip(i as int) =~= Seq::<(u32, String)>::empty());
    dec_string(cpu as u64)
}

/// Two queues whose CPUs are threads of one physical core.
pub open spec fn stacked(c: Ctx, qs: Seq<(Seq<char>, u32)>) -> bool {
    exists|i: int, j: int|
        0 <= i < j < qs.len() && core_of(c, #[trigger] qs[i].1) == core_of(c, #[trigger] qs[j].1)
}

pub open spec fn card_queues(c: Ctx) -> Seq<(Seq<char>, u32)> {
    match (primary_spec(opt_view(c.files.route)), opt_view(c.files.interrupts)) {
        (Some(iface), Some(t)) => queues_of(lines(t), iface, pair_views(c.files.irq_affinity@)),
        _ => Seq::empty(),
    }
}

/// PF-NET-0002's outcome: Skipped with no interface or no queue interrupts,
/// Fail when two queues land on one physical core, Pass otherwise.
pub open spec fn irq_status(c: Ctx) -> Status {
    match off_linux_status(c) {
        Some(s) => s,
        None => if primary_spec(opt_view(c.files.route)) is None || card_queues(c).len() == 0 {
            Status::Skipped
        } else if stacked(c, card_queues(c)) {
            Status::Fail
        } else {
            Status::Pass
        },
    }
}

/// Each CPU number in decimal.
pub open spec fn dec_all(v: Seq<u32>) -> Seq<Seq<char>> {
    v.map_values(|x: u32| dec(x as nat))
}

fn join_u32(v: &Vec<u32>, sep: &str) -> (r: String)
    ensures
        r@ == join(dec_all(v@), sep@),
{
    let mut out = String::new();
    let mut i: usize = 0;
    while i < v.len()
        invariant
            i <= v@.len(),
            out@ == join(dec_all(v@.take(i as int)), sep@),
        decreases v.len() - i,
    {
        assert(dec_all(v@.take(i + 1)).drop_last() == dec_all(v@.take(i as int)));
        assert(dec_all(v@.take(i + 1)).last() == dec(v@[i as int] as nat));
        if i > 0 {
            append(&mut out, sep);
        } else {
            assert(dec_all(v@.take(1)) == seq![dec(v@[0] as nat)]);
        }
        let d = dec_string(v[i] as u64);
        append(&mut out, d.as_str());
        i += 1;
    }
    assert(v@.take(v@.len() as int) == v@);
    out
}

/// The CPUs in ascending order.
pub open spec fn ascending(v: Seq<u32>) -> Seq<u32> {
    v.sort_by(|a: u32, b: u32| a <= b)
}

fn sorted_u32(v: &Vec<u32>) -> (r: Vec<u32>)
    ensures
        r@ == ascending(v@),
{
    let mut out: Vec<u32> = Vec::new();
    let mut i: usize = 0;
    assert(out@ == v@.take(0));
    while i < v.len()
        invariant
            i <= v@.len(),
            out@.len() == i,
            forall|a: int, b: int| 0 <= a < b < out@.len() ==> out@[a] <= out@[b],
            out@.to_multiset() == v@.take(i as int).to_multiset(),
        decreases v.len() - i,
    {
        assert(v@.take(i + 1) == v@.take(i as int).push(v@[i as int]));
        proof {
            vstd::seq_lib::to_multiset_build(v@.take(i as int), v@[i as int]);
        }
        let x = v[i];
        let mut k: usize = 0;
        while k < out.len() && out[k] <= x
            invariant
                k <= out@.len(),
                forall|j: int| 0 <= j < k ==> out@[j] <= x,
            decreases out.len() - k,
        {
            k += 1;
        }
        let ghost before = out@;
        out.insert(k, x);
        proof {
            vstd::seq_lib::to_multiset_insert(before, k as int, x);
        }
        assert(forall|a: int| 0 <= a < k ==> out@[a] == before[a]);
        assert(forall|a: int| k < a < out@.len() ==> out@[a] == before[a - 1]);
        i += 1;
    }
    let ghost leq = |a: u32, b: u32| a <= b;
    proof {
        assert(v@.take(v@.len() as int) == v@);
        assert(vstd::relations::total_ordering(leq));
        v@.lemma_sort_by_ensures(leq);
        assert(vstd::relations::sorted_by(out@, leq)) by {
            assert forall|a: int, b: int| 0 <= a < b < out@.len() implies #[trigger] leq(
                out@[a],
                out@[b],
            ) by {}
        }
        vstd::seq_lib::lemma_sorted_unique(out@, v@.sort_by(leq), leq);
    }
    out
}

/// Whether two of the cores are the same, with the proof of which.
fn has_stack(cores: &Vec<String>, qs: Ghost<Seq<(Seq<char>, u32)>>, c: Ghost<Ctx>) -> (r: bool)
    requires
        cores@.len() == qs@.len(),
        forall|i: int| 0 <= i < cores@.len() ==> (#[trigger] cores@[i])@ == core_of(c@, qs@[i].1),
    ensures
        r == stacked(c@, qs@),
{
    let mut i: usize = 0;
    while i < cores.len()
        invariant
            i <= cores@.len(),
            cores@.len() == qs@.len(),
            forall|k: int| 0 <= k < cores@.len() ==> (#[trigger] cores@[k])@ == core_of(c@, qs@[k].1),
            forall|a: int, b: int|
                0 <= a < i && a < b < qs@.len() ==> core_of(c@, #[trigger] qs@[a].1) != core_of(
                    c@,
                    #[trigger] qs@[b].1,
                ),
        decreases cores.len() - i,
    {
        let ci = chars_of(cores[i].as_str());
        let mut j: usize = i + 1;
        while j < cores.len()
            invariant
                i < cores@.len(),
                i + 1 <= j <= cores@.len(),
                cores@.len() == qs@.len(),
                ci@ == cores@[i as int]@,
                forall|k: int| 0 <= k < cores@.len() ==> (#[trigger] cores@[k])@ == core_of(c@, qs@[k].1),
                forall|b: int| i < b < j ==> core_of(c@, qs@[i as int].1) != core_of(c@, #[trigger] qs@[b].1),
            decreases cores.len() - j,
        {
            let cj = chars_of(cores[j].as_str());
            if crate::text::same(&ci, &cj) {
                assert(cores@[i as int]@ == core_of(c@, qs@[i as int].1));
                assert(cores@[j as int]@ == core_of(c@, qs@[j as int].1));
                return true;
            }
            j += 1;
        }
        i += 1;
    }
    false
}

/// The queues grouped by physical core, cores in name order, each with its
/// CPUs in the order the queues came.
/// The first group at or after `k` named `core`.
pub open spec fn first_named(gs: Seq<(Seq<char>, Seq<u32>)>, core: Seq<char>, k: int) -> Option<int>
    decreases gs.len() - k,
{
    if k < 0 || k >= gs.len() {
        None
    } else if gs[k].0 == core {
        Some(k)
    } else {
        first_named(gs, core, k + 1)
    }
}

/// Where a new group named `core` goes, searching from `k`: before the first
/// group whose name sorts after it, else at the end.
pub open spec fn slot_for(gs: Seq<(Seq<char>, Seq<u32>)>, core: Seq<char>, k: int) -> int
    decreases gs.len() - k,
{
    if k < 0 || k >= gs.len() {
        gs.len() as int
    } else if crate::host::name_lt(core, gs[k].0) {
        k
    } else {
        slot_for(gs, core, k + 1)
    }
}

/// One more queue on `core`: its CPU joins that core's group, or starts a
/// group of its own in name order.
pub open spec fn add_cpu(gs: Seq<(Seq<char>, Seq<u32>)>, core: Seq<char>, cpu: u32) -> Seq<
    (Seq<char>, Seq<u32>),
> {
    match first_named(gs, core, 0) {
        Some(k) => gs.update(k, (gs[k].0, gs[k].1.push(cpu))),
        None => gs.insert(slot_for(gs, core, 0), (core, seq![cpu])),
    }
}

/// The queues grouped by physical core: cores in name order, each with its
/// CPUs in queue order.
pub open spec fn core_groups(cores: Seq<Seq<char>>, cpus: Seq<u32>) -> Seq<(Seq<char>, Seq<u32>)>
    decreases cores.len(),
{
    if cores.len() == 0 || cpus.len() == 0 {
        Seq::empty()
    } else {
        add_cpu(core_groups(cores.drop_last(), cpus.drop_last()), cores.last(), cpus.last())
    }
}

pub open spec fn group_views(gs: Seq<(String, Vec<u32>)>) -> Seq<(Seq<char>, Seq<u32>)> {
    gs.map_values(|g: (String, Vec<u32>)| (g.0@, g.1@))
}

/// Each core that carries more than one queue, named with its CPUs.
pub open spec fn shared_text(gs: Seq<(Seq<char>, Seq<u32>)>) -> Seq<char>
    decreases gs.len(),
{
    if gs.len() == 0 {
        Seq::empty()
    } else {
        let g = gs.last();
        shared_text(gs.drop_last()) + if g.1.len() > 1 {
            "; CPUs "@ + join(dec_all(g.1), " and "@) + " are one core ("@ + g.0 + ")"@
        } else {
            Seq::empty()
        }
    }
}

fn group_by_core(cores: &Vec<String>, qs: &Vec<(String, u32)>) -> (r: Vec<(String, Vec<u32>)>)
    requires
        cores@.len() == qs@.len(),
    ensures
        group_views(r@) == core_groups(views(cores@), queue_cpus(queue_views(qs@))),
{
    let ghost cs = views(cores@);
    let ghost ps = queue_cpus(queue_views(qs@));
    let mut groups: Vec<(String, Vec<u32>)> = Vec::new();
    let mut i: usize = 0;
    assert(cs.take(0).len() == 0);
    while i < qs.len()
        invariant
            i <= qs@.len(),
            cores@.len() == qs@.len(),
            cs == views(cores@),
            ps == queue_cpus(queue_views(qs@)),
            group_views(groups@) == core_groups(cs.take(i as int), ps.take(i as int)),
        decreases qs.len() - i,
    {
        let ghost gs = group_views(groups@);
        let cv = chars_of(cores[i].as_str());
        let mut k: usize = 0;
        let mut found = false;
        while k < groups.len() && !found
            invariant
                k <= groups@.len(),
                gs == group_views(groups@),
                cv@ == cores@[i as int]@,
                found ==> k < groups@.len() && gs[k as int].0 == cv@,
                first_named(gs, cv@, 0) == if found {
                    Some(k as int)
                } else {
                    first_named(gs, cv@, k as int)
                },
            decreases (groups.len() - k) * 2 + if found {
                0int
            } else {
                1int
            },
        {
            let gv = chars_of(groups[k].0.as_str());
            assert(gs[k as int].0 == groups@[k as int].0@);
            if crate::text::same(&gv, &cv) {
                found = true;
            } else {
                k += 1;
            }
        }
        assert(cs.take(i + 1).drop_last() == cs.take(i as int));
        assert(ps.take(i + 1).drop_last() == ps.take(i as int));
        assert(cs.take(i + 1).last() == cv@);
        assert(ps.take(i + 1).last() == qs@[i as int].1);
        if found {
            let mut g = groups.remove(k);
            g.1.push(qs[i].1);
            groups.insert(k, g);
            assert(group_views(groups@) =~= gs.update(k as int, (gs[k as int].0, gs[k as int].1.push(qs@[i as int].1))));
        } else {
            let mut at: usize = 0;
            let mut stop = false;
            while at < groups.len() && !stop
                invariant
                    at <= groups@.len(),
                    gs == group_views(groups@),
                    cv@ == cores@[i as int]@,
                    stop ==> at < groups@.len(),
                    slot_for(gs, cv@, 0) == if stop {
                        at as int
                    } else {
                        slot_for(gs, cv@, at as int)
                    },
                decreases (groups.len() - at) * 2 + if stop {
                    0int
                } else {
                    1int
                },
            {
                let gv = chars_of(groups[at].0.as_str());
                assert(gs[at as int].0 == groups@[at as int].0@);
                if crate::host::lt_exec(&cv, &gv) {
                    stop = true;
                } else {
                    at += 1;
                }
            }
            let mut cpus: Vec<u32> = Vec::new();
            cpus.push(qs[i].1);
            groups.insert(at, (cores[i].clone(), cpus));
            assert(group_views(groups@) =~= gs.insert(at as int, (cv@, seq![qs@[i as int].1])));
        }
        i += 1;
    }
    assert(cs.take(qs@.len() as int) == cs);
    assert(ps.take(qs@.len() as int) == ps);
    groups
}

/// The CPUs this card's queue interrupts land on, in /proc/interrupts order.
pub open spec fn queue_cpus(qs: Seq<(Seq<char>, u32)>) -> Seq<u32> {
    qs.map_values(|q: (Seq<char>, u32)| q.1)
}

/// The physical core of each queue's CPU, in queue order.
pub open spec fn queue_cores(c: Ctx, qs: Seq<(Seq<char>, u32)>) -> Seq<Seq<char>> {
    qs.map_values(|q: (Seq<char>, u32)| core_of(c, q.1))
}

/// How many queues there are and the CPUs they land on, ascending.
pub open spec fn irq_layout(c: Ctx) -> Seq<char> {
    let qs = card_queues(c);
    dec(qs.len()) + " queues on CPUs "@ + join(dec_all(ascending(queue_cpus(qs))), " "@)
}

/// What PF-NET-0002 observes, and what it expects. A stacked layout goes on
/// to name each shared core, which `irq_affinity` states as a prefix.
pub open spec fn irq_text(c: Ctx) -> (Seq<char>, Seq<char>) {
    match off_linux_status(c) {
        Some(_) => off_linux_text(c),
        None => match primary_spec(opt_view(c.files.route)) {
            None => ("no primary interface to read queue interrupts for"@, Seq::empty()),
            Some(iface) => if card_queues(c).len() == 0 {
                (iface + " raises no per-queue interrupts to place"@, Seq::empty())
            } else if !stacked(c, card_queues(c)) {
                (irq_layout(c) + ", one physical core each"@, "each queue interrupt on a core of its own"@)
            } else {
                (irq_layout(c), "each queue interrupt on a core of its own"@)
            },
        },
    }
}

/// Why queue interrupt placement matters.
pub const IRQ_WHY: &'static str = "The card sorts incoming packets into hardware queues, each drained by the CPU it interrupts. If a queue fills faster than its CPU empties it, the card discards packets, and what is discarded is shreds, votes and gossip the validator never sees. Two queues landing on the two SMT threads of one physical core give those queues one core's worth of capacity between them while other cores carry none. Anza publishes nothing here; the vendor guides do, and they disagree with Red Hat about whether to disable irqbalance, so preflight reports the layout and fails only on the stacking itself.";

/// What the reason adds while irqbalance runs.
pub const IRQBALANCE_NOTE: &'static str = " irqbalance is enabled, so whatever is set here it will move again on its own.";

/// What `irq_affinity` promises of its outcome.
pub open spec fn irq_affinity_outcome(ctx: Ctx, o: Outcome) -> bool {
    &&& (o.status == irq_status(ctx))
    &&& (o.status == Status::Fail ==> o.fix@.len() == 3)
    &&& (crate::model::commands(o.fix@) =~= if o.status == Status::Fail {
        seq![
            "cat /sys/devices/system/cpu/cpu*/cache/index3/shared_cpu_list | sort -u"@,
            "echo <cpu> | sudo tee /proc/irq/<irq>/smp_affinity_list   for each "@
                + primary_spec(opt_view(ctx.files.route))->0 + " queue"@,
            "then decide about irqbalance"@,
        ]
    } else {
        Seq::empty()
    })
    &&& (o.status != Status::Fail ==> (o.observed@, o.expected@) =~~= irq_text(ctx))
    &&& (o.status != Status::Skipped ==> o.why@ =~= if off_linux_status(ctx) is None
        && ctx.files.irqbalance_enabled {
        IRQ_WHY@ + IRQBALANCE_NOTE@
    } else {
        IRQ_WHY@
    })
    &&& (opt_view(o.verify) == if o.status == Status::Fail {
        Some(
            "grep '"@ + primary_spec(opt_view(ctx.files.route))->0
                + "-' /proc/interrupts | cut -d: -f1 | xargs -I{} cat /proc/irq/{}/smp_affinity_list"@,
        )
    } else {
        None
    })
    &&& (o.status == Status::Fail ==> o.observed@ =~= irq_text(ctx).0 + shared_text(
        core_groups(queue_cores(ctx, card_queues(ctx)), queue_cpus(card_queues(ctx))),
    ) && o.expected@ =~= irq_text(ctx).1)
    &&& (o.persistence is None)
    &&& (o.status == Status::Unknown ==> o.observed@.len() > 0)
    &&& (crate::model::notes(o.fix@) =~= if o.status == Status::Fail {
        seq![
            Some(
                "read the real cache topology first, then spread the queues evenly across it rather than onto the first N cores"@,
            ),
            Some(
                "one queue per physical core. Look the interrupts up by name, since irq numbers change across reboots"@,
            ),
            Some(
                "the vendor guides say disable it because it overrides manual affinity; Red Hat says not to unless every interrupt source is pinned by hand, or they all land on CPU 0. Pin them all, or leave it running and accept the drift"@,
            ),
        ]
    } else {
        Seq::empty()
    })
}

/// PF-NET-0002. Queue interrupts stacked on one core while others sit idle.
pub fn irq_affinity(ctx: &Ctx) -> (o: Outcome)
    ensures
        irq_affinity_outcome(*ctx, o),
{
    let why_base = IRQ_WHY;
    let expected = "each queue interrupt on a core of its own";
    match needs_linux(ctx, why_base) {
        Some(o) => return o,
        None => {},
    }
    let iface = match primary_interface(ctx) {
        Some(i) => i,
        None => return Outcome::skipped("no primary interface to read queue interrupts for"),
    };
    let irqs = queue_irqs(ctx, iface.as_str());
    assert(queue_views(irqs@) == card_queues(*ctx));
    if irqs.len() == 0 {
        let obs = cat(iface.as_str(), " raises no per-queue interrupts to place");
        return Outcome::skipped(obs.as_str());
    }
    let ghost qs = queue_views(irqs@);
    let mut cores: Vec<String> = Vec::new();
    let mut cpus: Vec<u32> = Vec::new();
    let mut i: usize = 0;
    while i < irqs.len()
        invariant
            i <= irqs@.len(),
            qs == queue_views(irqs@),
            cores@.len() == i,
            cpus@.len() == i,
            forall|k: int| 0 <= k < i ==> (#[trigger] cores@[k])@ == core_of(*ctx, qs[k].1),
            cpus@ == queue_cpus(qs).take(i as int),
        decreases irqs.len() - i,
    {
        let c = physical_core(ctx, irqs[i].1);
        cores.push(c);
        cpus.push(irqs[i].1);
        assert(queue_cpus(qs).take(i + 1) == queue_cpus(qs).take(i as int).push(qs[i as int].1));
        i += 1;
    }
    assert(queue_cpus(qs).take(qs.len() as int) == queue_cpus(qs));
    let is_stacked = has_stack(&cores, Ghost(qs), Ghost(*ctx));
    let sorted = sorted_u32(&cpus);
    let n = dec_string(irqs.len() as u64);
    let mut layout = cat(n.as_str(), " queues on CPUs ");
    let list = join_u32(&sorted, " ");
    append(&mut layout, list.as_str());
    let mut why = owned(why_base);
    if ctx.files.irqbalance_enabled {
        append(&mut why, IRQBALANCE_NOTE);
    }
    if !is_stacked {
        append(&mut layout, ", one physical core each");
        return Outcome::pass(layout.as_str(), expected).why(why.as_str());
    }
    assert(views(cores@) =~= queue_cores(*ctx, qs));
    let groups = group_by_core(&cores, &irqs);
    let ghost head = layout@;
    let ghost gv = group_views(groups@);
    let mut observed = layout;
    let mut g: usize = 0;
    while g < groups.len()
        invariant
            g <= groups@.len(),
            gv == group_views(groups@),
            observed@ == head + shared_text(gv.take(g as int)),
        decreases groups.len() - g,
    {
        assert(gv.take(g + 1).drop_last() == gv.take(g as int));
        assert(gv.take(g + 1).last() == (groups@[g as int].0@, groups@[g as int].1@));
        if groups[g].1.len() > 1 {
            append(&mut observed, "; CPUs ");
            let l = join_u32(&groups[g].1, " and ");
            append(&mut observed, l.as_str());
            append(&mut observed, " are one core (");
            append(&mut observed, groups[g].0.as_str());
            append(&mut observed, ")");
        }
        g += 1;
    }
    assert(gv.take(gv.len() as int) == gv);
    let mut fix: Vec<FixStep> = Vec::new();
    fix.push(
        FixStep::noted(
            "cat /sys/devices/system/cpu/cpu*/cache/index3/shared_cpu_list | sort -u",
            "read the real cache topology first, then spread the queues evenly across it rather than onto the first N cores",
        ),
    );
    let mut pin = cat("echo <cpu> | sudo tee /proc/irq/<irq>/smp_affinity_list   for each ", iface.as_str());
    append(&mut pin, " queue");
    fix.push(
        FixStep::noted(
            pin.as_str(),
            "one queue per physical core. Look the interrupts up by name, since irq numbers change across reboots",
        ),
    );
    fix.push(
        FixStep::noted(
            "then decide about irqbalance",
            "the vendor guides say disable it because it overrides manual affinity; Red Hat says not to unless every interrupt source is pinned by hand, or they all land on CPU 0. Pin them all, or leave it running and accept the drift",
        ),
    );
    let mut verify = cat("grep '", iface.as_str());
    append(&mut verify, "-' /proc/interrupts | cut -d: -f1 | xargs -I{} cat /proc/irq/{}/smp_affinity_list");
    Outcome::fail(observed.as_str(), expected).why(why.as_str()).fix(fix).verify(verify.as_str())
}

} // verus!
