//! HW layer. Can this machine physically run a validator?
//!
//! Nothing here reads a validator. These checks answer the question a bare box
//! asks: is this hardware capable at all, and if not, is that fixable or is it
//! a wall. Thresholds come from Anza's requirements page; where Anza publishes
//! no minimum, the check reports the figure and says so rather than inventing
//! one.

use vstd::prelude::*;
use vstd::string::*;
use crate::checks::{gate_matches, needs_linux, off_linux_status, off_linux_text};
use crate::ctx::{release_field, release_field_of, Ctx};
use crate::host::{has_avx2, meminfo_kb};
use crate::model::{opt_view, thresholds_of, FixStep, Outcome, Profile, Status};
use crate::text::{
    lines, append, cat, chars_of, contains_seq, dec, dec_string, keyed_field, keyed_field_of, owned,
    parse_milli, parse_milli_str,
};

verus! {

/// PF-HW-0001's outcome: Unknown when the architecture was not determined,
/// Pass on x86-64, Unsupported on anything else, since no command fixes it.
pub open spec fn architecture_status(c: Ctx) -> Status {
    match opt_view(c.arch) {
        None => Status::Unknown,
        Some(a) => if a == "x86_64"@ {
            Status::Pass
        } else {
            Status::Unsupported
        },
    }
}

/// How the report names the host's operating system.
pub open spec fn host_os_text(c: Ctx) -> Seq<char> {
    match opt_view(c.os) {
        Some(os) => os,
        None => if c.linux {
            "an unidentified Linux"@
        } else {
            "the host runs "@ + c.host_os@ + ", not Linux"@
        },
    }
}

fn host_os(ctx: &Ctx) -> (r: String)
    ensures
        r@ == host_os_text(*ctx),
{
    match &ctx.os {
        Some(os) => os.clone(),
        None => if ctx.is_linux() {
            owned("an unidentified Linux")
        } else {
            let mut s = cat("the host runs ", ctx.host_os.as_str());
            append(&mut s, ", not Linux");
            s
        },
    }
}

/// Why architecture matters, as the report gives it.
pub const ARCH_WHY: &'static str = "Anza publishes validator binaries for x86-64 only, and the client requires instructions that other architectures do not have. This is not a configuration problem and no package installs a fix; it is a different machine or nothing.";

/// What `architecture` promises of its outcome.
pub open spec fn architecture_outcome(ctx: Ctx, o: Outcome) -> bool {
    &&& (o.status == architecture_status(ctx))
    &&& (o.fix@.len() == 0)
    &&& (o.why@ =~= ARCH_WHY@)
    &&& (match opt_view(ctx.arch) {
        None => o.observed@ =~= "architecture not determined"@,
        Some(a) => o.expected@ =~= "x86-64"@ && o.observed@ =~= if a == "x86_64"@ {
            a
        } else {
            a + ", and the host is "@ + host_os_text(ctx)
        },
    })
    &&& (ctx.arch is None ==> o.expected@ =~= Seq::<char>::empty())
    &&& (o.verify is None && o.persistence is None)
    &&& (o.status == Status::Unknown ==> o.observed@.len() > 0)
}

/// Only x86-64 runs a validator: an architecture reported as `x86_64` passes
/// PF-HW-0001, any other is Unsupported, and none reported is Unknown. No
/// outcome of it carries a fix.
pub proof fn law_only_x86_64_is_supported(ctx: Ctx, o: Outcome)
    requires
        architecture_outcome(ctx, o),
    ensures
        opt_view(ctx.arch) == Some("x86_64"@) ==> o.status == Status::Pass,
        (opt_view(ctx.arch) matches Some(a) && a != "x86_64"@) ==> o.status == Status::Unsupported,
        ctx.arch is None ==> o.status == Status::Unknown,
        o.fix@.len() == 0,
{
}

/// PF-HW-0001. Architecture. Unsupported rather than Fail: no command fixes it.
pub fn architecture(ctx: &Ctx) -> (o: Outcome)
    ensures
        architecture_outcome(*ctx, o),
{
    let why = ARCH_WHY;
    let expected = "x86-64";
    let arch = match &ctx.arch {
        Some(a) => a,
        None => {
            proof {
                reveal_strlit("architecture not determined");
            }
            proof {
                reveal_strlit("architecture not determined");
            }
            return Outcome::unknown("architecture not determined").why(why);
        },
    };
    if crate::text::eq_lit(arch.as_str(), "x86_64") {
        return Outcome::pass(arch.as_str(), expected).why(why);
    }
    let mut obs = cat(arch.as_str(), ", and the host is ");
    let h = host_os(ctx);
    append(&mut obs, h.as_str());
    Outcome::unsupported(obs.as_str(), expected).why(why)
}

/// PF-HW-0002's outcome: AVX2 is a property of the die, so its absence is
/// Unsupported.
pub open spec fn avx2_status(c: Ctx) -> Status {
    match off_linux_status(c) {
        Some(s) => s,
        None => match opt_view(c.files.cpuinfo) {
            None => Status::Unknown,
            Some(info) => if has_avx2(info) {
                Status::Pass
            } else {
                Status::Unsupported
            },
        },
    }
}

/// Why avx2 matters, as the report gives it.
pub const AVX2_WHY: &'static str = "The official validator binaries are built assuming AVX2. Without it the process will not run, and there is no build flag an operator can pass to change that on a released binary.";

/// What `avx2` promises of its outcome.
pub open spec fn avx2_outcome(ctx: Ctx, o: Outcome) -> bool {
    &&& (o.status == avx2_status(ctx))
    &&& (o.fix@.len() == 0)
    &&& (off_linux_status(ctx) is None ==> match opt_view(ctx.files.cpuinfo) {
        None => o.observed@ =~= "cannot read /proc/cpuinfo"@,
        Some(i) => o.expected@ =~= "avx2 in the CPU flags"@ && o.observed@ =~= if has_avx2(i) {
            "avx2 present"@
        } else {
            "avx2 absent from the CPU flags"@
        },
    })
    &&& (o.why@ =~= AVX2_WHY@)
    &&& (off_linux_status(ctx) is Some ==> (o.observed@, o.expected@) =~~= off_linux_text(ctx))
    &&& (off_linux_status(ctx) is None && ctx.files.cpuinfo is None ==> o.expected@ =~= Seq::<char>::empty())
    &&& (o.verify is None && o.persistence is None)
    &&& (o.status == Status::Unknown ==> o.observed@.len() > 0)
}

/// On a Linux host whose /proc/cpuinfo was read, PF-HW-0002 passes, saying
/// "avx2 present", exactly when the flags line carries the word `avx2`, and
/// is otherwise Unsupported, saying "avx2 absent from the CPU flags", as it
/// is when there is no flags line at all.
pub proof fn law_avx2_passes_on_the_avx2_flag(ctx: Ctx, o: Outcome, info: Seq<char>, l: Seq<char>)
    requires
        avx2_outcome(ctx, o),
        ctx.linux,
        opt_view(ctx.files.cpuinfo) == Some(info),
    ensures
        crate::host::flags_line(crate::text::lines(info)) is None ==> o.status == Status::Unsupported
            && o.observed@ == "avx2 absent from the CPU flags"@,
        crate::host::flags_line(crate::text::lines(info)) == Some(l) ==> o.expected@
            == "avx2 in the CPU flags"@,
        crate::host::flags_line(crate::text::lines(info)) == Some(l) && crate::text::split_ws(l).contains(
            "avx2"@,
        ) ==> o.status == Status::Pass && o.observed@ == "avx2 present"@,
        crate::host::flags_line(crate::text::lines(info)) == Some(l) && !crate::text::split_ws(l).contains(
            "avx2"@,
        ) ==> o.status == Status::Unsupported && o.observed@ == "avx2 absent from the CPU flags"@,
{
    crate::host::law_avx2_is_the_avx2_flag_word(info);
}

/// On a Linux host where /proc/cpuinfo could not be read, PF-HW-0002 does not
/// guess: it is Unknown and says what it could not read.
pub proof fn law_unread_cpuinfo_is_unknown(ctx: Ctx, o: Outcome)
    requires
        avx2_outcome(ctx, o),
        ctx.linux,
        ctx.files.cpuinfo is None,
    ensures
        o.status == Status::Unknown,
        o.observed@ == "cannot read /proc/cpuinfo"@,
{
}

/// PF-HW-0002. AVX2. Also Unsupported when absent: it is a property of the die.
pub fn avx2(ctx: &Ctx) -> (o: Outcome)
    ensures
        avx2_outcome(*ctx, o),
{
    let why = AVX2_WHY;
    let expected = "avx2 in the CPU flags";
    match needs_linux(ctx, why) {
        Some(o) => return o,
        None => {},
    }
    let info = match &ctx.files.cpuinfo {
        Some(i) => i,
        None => {
            proof {
                reveal_strlit("cannot read /proc/cpuinfo");
            }
            proof {
                reveal_strlit("cannot read /proc/cpuinfo");
            }
            return Outcome::unknown("cannot read /proc/cpuinfo").why(why);
        },
    };
    if crate::host::avx2_in(info.as_str()) {
        return Outcome::pass("avx2 present", expected).why(why);
    }
    Outcome::unsupported("avx2 absent from the CPU flags", expected).why(why)
}

/// A cpufreq figure in kHz, times a thousand: the frequency in hertz.
pub open spec fn freq_milli(t: Option<Seq<char>>) -> Option<u64> {
    match t {
        Some(v) => parse_milli(crate::text::trim(v)),
        None => None,
    }
}

/// The base clock cpufreq publishes, in hertz: the base frequency, else the
/// maximum.
pub open spec fn base_spec(c: Ctx) -> Option<u64> {
    match freq_milli(opt_view(c.files.base_frequency)) {
        Some(m) => Some(m),
        None => freq_milli(opt_view(c.files.max_frequency)),
    }
}

/// The governor's reading in cpuinfo, in thousandths of a megahertz.
pub open spec fn current_spec(info: Seq<char>) -> Option<u64> {
    match keyed_field(info, "cpu MHz"@) {
        Some(v) => parse_milli(v),
        None => None,
    }
}

/// PF-HW-0003's outcome. cpufreq publishes the real base clock; the governor's
/// current reading only ever passes a machine, since an idle core throttles
/// well under base and a low reading proves nothing.
pub open spec fn base_clock_status(c: Ctx) -> Status {
    match off_linux_status(c) {
        Some(s) => s,
        None => match opt_view(c.files.cpuinfo) {
            None => Status::Unknown,
            Some(info) => match thresholds_of(c.profile).base_clock_mhz {
                None => Status::Skipped,
                Some(want) => match base_spec(c) {
                    Some(m) => if m >= want * 1_000_000 {
                        Status::Pass
                    } else {
                        Status::Fail
                    },
                    None => match current_spec(info) {
                        None => Status::Unknown,
                        Some(m) => if m >= want * 1000 {
                            Status::Pass
                        } else {
                            Status::Unknown
                        },
                    },
                },
            },
        },
    }
}

fn freq_of(t: &Option<String>) -> (r: Option<u64>)
    ensures
        r == freq_milli(opt_view(*t)),
{
    match t {
        Some(v) => {
            let c = chars_of(v.as_str());
            let tc = crate::text::trim_vec(&c);
            let s = crate::text::string_of(&tc);
            parse_milli_str(s.as_str())
        },
        None => None,
    }
}

/// What PF-HW-0003 observes: the model and the base clock cpufreq publishes,
/// else the governor's current reading and what it does and does not show.
pub open spec fn base_clock_observed(c: Ctx, info: Seq<char>, want: u64) -> Seq<char> {
    let model = match keyed_field(info, "model name"@) {
        Some(m) => m,
        None => "unknown CPU"@,
    };
    match base_spec(c) {
        Some(m) => model + " at "@ + dec(crate::render::nearest(m as nat, 1_000_000)) + " MHz base"@,
        None => match current_spec(info) {
            None => model + ": no clock reported"@,
            Some(m) => model + " at "@ + dec(crate::render::nearest(m as nat, 1000)) + if m >= want
                * 1000 {
                " MHz current, base not published by this kernel"@
            } else {
                " MHz current, which is the governor's reading and not the base clock"@
            },
        },
    }
}

/// What PF-HW-0003 observes, and what it expects.
pub open spec fn base_clock_text(c: Ctx) -> (Seq<char>, Seq<char>) {
    let expected = "2.8 GHz base clock or faster"@;
    match off_linux_status(c) {
        Some(_) => off_linux_text(c),
        None => match opt_view(c.files.cpuinfo) {
            None => ("cannot read /proc/cpuinfo"@, Seq::empty()),
            Some(info) => match thresholds_of(c.profile).base_clock_mhz {
                None => ("no clock requirement for this profile"@, Seq::empty()),
                Some(want) => (
                    base_clock_observed(c, info, want),
                    if base_spec(c) is None && current_spec(info) is None {
                        Seq::empty()
                    } else {
                        expected
                    },
                ),
            },
        },
    }
}

/// Only a low governor reading, which proves nothing either way, comes with a
/// command to read the real figure.
pub open spec fn base_clock_verify(c: Ctx) -> Option<Seq<char>> {
    match (off_linux_status(c), opt_view(c.files.cpuinfo), thresholds_of(c.profile).base_clock_mhz) {
        (None, Some(info), Some(want)) => match (base_spec(c), current_spec(info)) {
            (None, Some(m)) => if m >= want * 1000 {
                None
            } else {
                Some("lscpu | grep -i 'model name\\|CPU max MHz'"@)
            },
            _ => None,
        },
        _ => None,
    }
}

/// Why base clock matters, as the report gives it.
pub const BASE_CLOCK_WHY: &'static str = "Anza's stated requirement is a 2.8 GHz base clock or faster, and the docs say plainly that higher clock speed is preferable to more cores. Proof of History is a sequential hash chain, so it is bound by single-core speed rather than core count. /proc/cpuinfo reports what the governor is doing right now, not the base clock, so it reads high on a busy core and low on an idle one. Neither is the number Anza means.";

/// What `base_clock` promises of its outcome.
pub open spec fn base_clock_outcome(ctx: Ctx, o: Outcome) -> bool {
    &&& (o.status == base_clock_status(ctx))
    &&& ((o.observed@, o.expected@) =~~= base_clock_text(ctx))
    &&& (crate::model::commands(o.fix@) =~= if o.status == Status::Fail {
        seq!["check the BIOS for a power or efficiency profile capping the clock"@]
    } else {
        Seq::empty()
    })
    &&& (opt_view(o.verify) == base_clock_verify(ctx))
    &&& (o.status != Status::Skipped ==> o.why@ =~= BASE_CLOCK_WHY@)
    &&& (o.persistence is None)
    &&& (o.status == Status::Unknown ==> o.observed@.len() > 0)
    &&& (crate::model::notes(o.fix@) =~= if o.status == Status::Fail {
        seq![Some("a base below Anza's figure is usually firmware, not the silicon"@)]
    } else {
        Seq::empty()
    })
}

/// On testnet and mainnet the base clock cpufreq publishes must reach 2.8 GHz:
/// at or above it PF-HW-0003 passes, below it it fails. A local box has no
/// floor and is not judged.
pub proof fn law_base_clock_floor_is_2_8_ghz(ctx: Ctx, o: Outcome, hz: u64)
    requires
        base_clock_outcome(ctx, o),
        ctx.linux,
        ctx.files.cpuinfo is Some,
    ensures
        ctx.profile != Profile::Local && base_spec(ctx) == Some(hz) ==> (o.status == Status::Pass <==> hz
            >= 2_800_000_000),
        ctx.profile != Profile::Local && base_spec(ctx) == Some(hz) ==> (o.status == Status::Fail <==> hz
            < 2_800_000_000),
        ctx.profile == Profile::Local ==> o.status == Status::Skipped,
{
}

/// PF-HW-0003. Base clock. Anza states 2.8 GHz, and prefers clock over cores.
pub fn base_clock(ctx: &Ctx) -> (o: Outcome)
    ensures
        base_clock_outcome(*ctx, o),
{
    let why = BASE_CLOCK_WHY;
    let expected = "2.8 GHz base clock or faster";
    match needs_linux(ctx, why) {
        Some(o) => return o,
        None => {},
    }
    let info = match &ctx.files.cpuinfo {
        Some(i) => i,
        None => {
            proof {
                reveal_strlit("cannot read /proc/cpuinfo");
            }
            proof {
                reveal_strlit("cannot read /proc/cpuinfo");
            }
            return Outcome::unknown("cannot read /proc/cpuinfo").why(why);
        },
    };
    let model = match keyed_field_of(info.as_str(), "model name") {
        Some(m) => m,
        None => owned("unknown CPU"),
    };
    let want = match ctx.profile.thresholds().base_clock_mhz {
        Some(w) => w,
        None => return Outcome::skipped("no clock requirement for this profile"),
    };
    let base = match freq_of(&ctx.files.base_frequency) {
        Some(m) => Some(m),
        None => freq_of(&ctx.files.max_frequency),
    };
    match base {
        Some(m) => {
            let mut obs = cat(model.as_str(), " at ");
            let mhz = dec_string(m / 1_000_000 + if m % 1_000_000 >= 500_000 {
                1
            } else {
                0
            });
            append(&mut obs, mhz.as_str());
            append(&mut obs, " MHz base");
            if (m as u128) >= (want as u128) * 1_000_000 {
                return Outcome::pass(obs.as_str(), expected).why(why);
            }
            let mut fix: Vec<FixStep> = Vec::new();
            fix.push(
                FixStep::noted(
                    "check the BIOS for a power or efficiency profile capping the clock",
                    "a base below Anza's figure is usually firmware, not the silicon",
                ),
            );
            return Outcome::fail(obs.as_str(), expected).why(why).fix(fix);
        },
        None => {},
    }
    let current = match keyed_field_of(info.as_str(), "cpu MHz") {
        Some(v) => parse_milli_str(v.as_str()),
        None => None,
    };
    match current {
        None => {
            let obs = cat(model.as_str(), ": no clock reported");
            proof {
                reveal_strlit(": no clock reported");
            }
            Outcome::unknown(obs.as_str()).why(why)
        },
        Some(m) => {
            let mhz = dec_string(m / 1000 + if m % 1000 >= 500 {
                1
            } else {
                0
            });
            let mut obs = cat(model.as_str(), " at ");
            append(&mut obs, mhz.as_str());
            if (m as u128) >= (want as u128) * 1000 {
                // Above the bar on a governor reading still clears the bar.
                append(&mut obs, " MHz current, base not published by this kernel");
                Outcome::pass(obs.as_str(), expected).why(why)
            } else {
                // Below it proves nothing: an idle core throttles well under base.
                append(
                    &mut obs,
                    " MHz current, which is the governor's reading and not the base clock",
                );
                proof {
                    reveal_strlit(" at ");
                }
                Outcome::unknown(obs.as_str()).expected(expected).why(why).verify(
                    "lscpu | grep -i 'model name\\|CPU max MHz'",
                )
            }
        },
    }
}

/// PF-HW-0004's outcome. Anza lists 12/24 as a guide and clock dominates, so
/// preflight reports the count and never fails on it.
pub open spec fn cores_status(c: Ctx) -> Status {
    match off_linux_status(c) {
        Some(s) => s,
        None => match opt_view(c.files.cpuinfo) {
            None => Status::Unknown,
            Some(_) => if c.profile == Profile::Local {
                Status::Pass
            } else {
                Status::Reported
            },
        },
    }
}

/// Why cores matters, as the report gives it.
pub const CORES_WHY: &'static str = "Anza's validator column lists 12 cores / 24 threads or more, and says higher clock speed is preferable over more cores. The 16 cores / 32 threads line is the RPC column. Clock still dominates, and the community list shows why: a 16 core Ryzen 9950X reaches about 23M PoH hashes per second while a 32 core EPYC 9354P reaches 14M to 16M. preflight will not fail a box against the core count: an invented floor already failed machines Anza's own table accepts, and Proof of History is a single-core chain.";

/// What `cores` promises of its outcome.
pub open spec fn cores_outcome(ctx: Ctx, o: Outcome) -> bool {
    &&& (o.status == cores_status(ctx))
    &&& (o.status != Status::Fail)
    &&& (off_linux_status(ctx) is None ==> match opt_view(ctx.files.cpuinfo) {
        None => o.observed@ =~= "cannot read /proc/cpuinfo"@,
        Some(info) => o.observed@ =~= match crate::host::physical_cores_of(info) {
            Some(p) => dec(p as nat) + " physical cores, "@ + dec(
                crate::text::count_prefixed(lines(info), "processor"@),
            ) + " threads"@,
            None => dec(crate::text::count_prefixed(lines(info), "processor"@))
                + " threads, physical core count not reported"@,
        },
    })
    &&& (o.why@ =~= CORES_WHY@)
    &&& (off_linux_status(ctx) is Some ==> (o.observed@, o.expected@) =~~= off_linux_text(ctx))
    &&& (off_linux_status(ctx) is None ==> o.expected@ =~= if ctx.files.cpuinfo is None {
        Seq::<char>::empty()
    } else if ctx.profile == Profile::Local {
        "enough for a test validator"@
    } else {
        "Anza lists 12 cores / 24 threads for validators; preflight does not fail on the figure"@
    })
    &&& (o.verify is None && o.persistence is None)
    &&& (o.status == Status::Unknown ==> o.observed@.len() > 0)
}

/// PF-HW-0004. Cores. Reported: Anza lists 12/24 as a guide, and clock dominates.
pub fn cores(ctx: &Ctx) -> (o: Outcome)
    ensures
        cores_outcome(*ctx, o),
{
    let why = CORES_WHY;
    let expected = "Anza lists 12 cores / 24 threads for validators; preflight does not fail on the figure";
    match needs_linux(ctx, why) {
        Some(o) => return o,
        None => {},
    }
    let info = match &ctx.files.cpuinfo {
        Some(i) => i,
        None => {
            proof {
                reveal_strlit("cannot read /proc/cpuinfo");
            }
            proof {
                reveal_strlit("cannot read /proc/cpuinfo");
            }
            return Outcome::unknown("cannot read /proc/cpuinfo").why(why);
        },
    };
    let ls = crate::text::str_lines(info.as_str());
    let threads = crate::text::count_lines_prefixed(&ls, "processor");
    let ts = dec_string(threads as u64);
    let observed = match crate::host::physical_cores(info.as_str()) {
        Some(p) => {
            let ps = dec_string(p as u64);
            let mut s = cat(ps.as_str(), " physical cores, ");
            append(&mut s, ts.as_str());
            append(&mut s, " threads");
            s
        },
        None => {
            let mut s = owned(ts.as_str());
            append(&mut s, " threads, physical core count not reported");
            s
        },
    };
    match ctx.profile {
        Profile::Local => Outcome::pass(observed.as_str(), "enough for a test validator").why(why),
        _ => Outcome::reported(observed.as_str(), expected).why(why),
    }
}

/// PF-HW-0005's outcome. Anza lists 256 GB as a guide and publishes no
/// minimum, so this reports and never fails.
pub open spec fn memory_status(c: Ctx) -> Status {
    match off_linux_status(c) {
        Some(s) => s,
        None => match opt_view(c.files.meminfo) {
            None => Status::Unknown,
            Some(m) => match meminfo_kb(m, "MemTotal:"@) {
                None => Status::Unknown,
                Some(_) => if c.profile == Profile::Local {
                    Status::Pass
                } else {
                    Status::Reported
                },
            },
        },
    }
}

/// Kilobytes as gibibytes to one decimal place, the nearest tenth.
pub open spec fn gib_tenths(kb: nat) -> nat {
    (kb * 20 + 1_048_576) / 2_097_152
}

/// Why memory matters, as the report gives it.
pub const MEMORY_WHY: &'static str = "Anza's validator column lists 256 GB or more, suggests ECC, and suggests a motherboard with 512 GB capacity. The 512 GB or more line is extra RAM for an RPC node with all account indexes, not the validator floor. The page calls these a guide, and operators run testnet on far less \u{2014} an invented 128 GB floor already false-failed a working 125 GB testnet node. Accounts and index live in memory, so running short shows up as an OOM kill hours into a run rather than at startup, which is why the figure is worth seeing. preflight still does not fail on it.";

/// What `memory` promises of its outcome.
pub open spec fn memory_outcome(ctx: Ctx, o: Outcome) -> bool {
    &&& (o.status == memory_status(ctx))
    &&& (o.status != Status::Fail)
    &&& (off_linux_status(ctx) is None ==> match opt_view(ctx.files.meminfo) {
        None => o.observed@ =~= "cannot read /proc/meminfo"@,
        Some(m) => match meminfo_kb(m, "MemTotal:"@) {
            None => o.observed@ =~= "MemTotal not found in /proc/meminfo"@,
            Some(kb) => o.observed@ =~= dec(gib_tenths(kb as nat) / 10) + "."@ + dec(
                gib_tenths(kb as nat) % 10,
            ) + " GB installed"@,
        },
    })
    &&& (o.why@ =~= MEMORY_WHY@)
    &&& (off_linux_status(ctx) is Some ==> (o.observed@, o.expected@) =~~= off_linux_text(ctx))
    &&& (off_linux_status(ctx) is None ==> o.expected@ =~= if ctx.files.meminfo is None || meminfo_kb(
        ctx.files.meminfo->0@,
        "MemTotal:"@,
    ) is None {
        Seq::<char>::empty()
    } else if ctx.profile == Profile::Local {
        "enough for a test validator"@
    } else {
        "Anza lists 256 GB for validators and 512 GB board capacity; preflight does not fail on either"@
    })
    &&& (o.verify is None && o.persistence is None)
    &&& (o.status == Status::Unknown ==> o.observed@.len() > 0)
}

/// Memory is reported, never failed: Anza's figure is a guide, not a floor.
pub proof fn law_memory_is_never_failed(ctx: Ctx, o: Outcome)
    requires
        memory_outcome(ctx, o),
    ensures
        o.status != Status::Fail,
{
}

/// PF-HW-0005. RAM. Anza lists 256 GB as a guide; 512 GB is the board and RPC extra.
pub fn memory(ctx: &Ctx) -> (o: Outcome)
    ensures
        memory_outcome(*ctx, o),
{
    let why = MEMORY_WHY;
    let expected = "Anza lists 256 GB for validators and 512 GB board capacity; preflight does not fail on either";
    match needs_linux(ctx, why) {
        Some(o) => return o,
        None => {},
    }
    let info = match &ctx.files.meminfo {
        Some(i) => i,
        None => {
            proof {
                reveal_strlit("cannot read /proc/meminfo");
            }
            proof {
                reveal_strlit("cannot read /proc/meminfo");
            }
            return Outcome::unknown("cannot read /proc/meminfo").why(why);
        },
    };
    let kb = match crate::host::meminfo_kb_of(info.as_str(), "MemTotal:") {
        Some(k) => k,
        None => {
            proof {
                reveal_strlit("MemTotal not found in /proc/meminfo");
            }
            proof {
                reveal_strlit("MemTotal not found in /proc/meminfo");
            }
            return Outcome::unknown("MemTotal not found in /proc/meminfo").why(why);
        },
    };
    let tenths: u128 = ((kb as u128) * 20 + 1_048_576) / 2_097_152;
    let whole = dec_string((tenths / 10) as u64);
    let frac = dec_string((tenths % 10) as u64);
    let mut observed = owned(whole.as_str());
    append(&mut observed, ".");
    append(&mut observed, frac.as_str());
    append(&mut observed, " GB installed");
    // Anza publishes no minimum, so this reports and does not judge.
    match ctx.profile {
        Profile::Local => Outcome::pass(observed.as_str(), "enough for a test validator").why(why),
        _ => Outcome::reported(observed.as_str(), expected).why(why),
    }
}

/// CPUs the community list marks recommended, with base clock and the PoH rate
/// operators have reported.
pub open spec fn recommended() -> Seq<(Seq<char>, Seq<char>, Seq<char>)> {
    seq![
        ("Ryzen Threadripper PRO 7965WX"@, "4.20 GHz"@, "22.2M, 20.4M"@),
        ("Ryzen Threadripper PRO 7975WX"@, "4.00 GHz"@, "not reported"@),
        ("Ryzen Threadripper PRO 7985WX"@, "3.20 GHz"@, "not reported"@),
        ("Ryzen Threadripper 7960X"@, "4.20 GHz"@, "20.6M, 19.9M"@),
        ("Ryzen 9 7950X"@, "4.50 GHz"@, "22.4M"@),
        ("Ryzen 9 9950X"@, "4.30 GHz"@, "23M"@),
        ("EPYC 9274F"@, "4.05 GHz"@, "18.1M"@),
        ("EPYC 9275F"@, "4.10 GHz"@, "19.3M"@),
        ("EPYC 9374F"@, "3.85 GHz"@, "18.2M"@),
        ("EPYC 9375F"@, "3.80 GHz"@, "18.9M-19.3M"@),
        ("EPYC 9254"@, "2.90 GHz"@, "17.5M"@),
        ("EPYC 9354P"@, "3.25 GHz"@, "16.1M, 14.4M"@),
    ]
}

fn recommended_list() -> (r: Vec<(&'static str, &'static str, &'static str)>)
    ensures
        r@.len() == recommended().len(),
        forall|i: int|
            0 <= i < r@.len() ==> ((#[trigger] r@[i]).0@, r@[i].1@, r@[i].2@) == recommended()[i],
{
    let mut v: Vec<(&'static str, &'static str, &'static str)> = Vec::new();
    v.push(("Ryzen Threadripper PRO 7965WX", "4.20 GHz", "22.2M, 20.4M"));
    v.push(("Ryzen Threadripper PRO 7975WX", "4.00 GHz", "not reported"));
    v.push(("Ryzen Threadripper PRO 7985WX", "3.20 GHz", "not reported"));
    v.push(("Ryzen Threadripper 7960X", "4.20 GHz", "20.6M, 19.9M"));
    v.push(("Ryzen 9 7950X", "4.50 GHz", "22.4M"));
    v.push(("Ryzen 9 9950X", "4.30 GHz", "23M"));
    v.push(("EPYC 9274F", "4.05 GHz", "18.1M"));
    v.push(("EPYC 9275F", "4.10 GHz", "19.3M"));
    v.push(("EPYC 9374F", "3.85 GHz", "18.2M"));
    v.push(("EPYC 9375F", "3.80 GHz", "18.9M-19.3M"));
    v.push(("EPYC 9254", "2.90 GHz", "17.5M"));
    v.push(("EPYC 9354P", "3.25 GHz", "16.1M, 14.4M"));
    v
}

/// Whether the model string names a listed CPU: model strings carry suffixes
/// like "16-Core Processor" that the list omits.
pub open spec fn listed(model: Seq<char>) -> bool {
    exists|i: int| 0 <= i < recommended().len() && contains_seq(model, (#[trigger] recommended()[i]).0)
}

/// The first entry of the list, in list order, that the model names.
pub open spec fn first_listed(model: Seq<char>, k: int) -> Option<int>
    decreases recommended().len() - k,
{
    if k < 0 || k >= recommended().len() {
        None
    } else if contains_seq(model, recommended()[k].0) {
        Some(k)
    } else {
        first_listed(model, k + 1)
    }
}

/// PF-HW-0006's outcome: Pass for a listed CPU; Reported otherwise, since
/// absence from a community list is not a failure.
pub open spec fn listed_status(c: Ctx) -> Status {
    match off_linux_status(c) {
        Some(s) => s,
        None => match opt_view(c.facts.cpu_model) {
            None => Status::Unknown,
            Some(m) => if listed(m) {
                Status::Pass
            } else {
                Status::Reported
            },
        },
    }
}

/// Why on recommended list matters, as the report gives it.
pub const LISTED_WHY: &'static str = "The community list records CPUs operators have run and the PoH hash rate each reached. Being absent is not a failure: nobody has reported on it, which is a different thing from it being unsuitable. It does mean you are the first to find out, and on mainnet that is discovered as missed blocks.";

/// What `on_recommended_list` promises of its outcome.
pub open spec fn on_recommended_list_outcome(ctx: Ctx, o: Outcome) -> bool {
    &&& (o.status == listed_status(ctx))
    &&& (off_linux_status(ctx) is None ==> match opt_view(ctx.facts.cpu_model) {
        None => o.observed@ =~= "CPU model not reported"@,
        Some(m) => o.expected@ =~= "a CPU somebody has reported PoH numbers for"@ && match first_listed(
            m,
            0,
        ) {
            Some(i) => o.observed@ =~= recommended()[i].0 + " is on the list, base "@
                + recommended()[i].1 + ", reported PoH "@ + recommended()[i].2,
            None => o.observed@ =~= m + " is not on the list"@,
        },
    })
    &&& (o.status == Status::Reported ==> o.fix@.len() == (if ctx.profile == Profile::Mainnet {
        1int
    } else {
        0int
    }))
    &&& (o.why@ =~= LISTED_WHY@)
    &&& (off_linux_status(ctx) is Some ==> (o.observed@, o.expected@) =~~= off_linux_text(ctx))
    &&& (crate::model::commands(o.fix@) =~= if o.status == Status::Reported && ctx.profile
        == Profile::Mainnet {
        seq!["measure your PoH rate before taking stake, and compare against the list"@]
    } else {
        Seq::empty()
    })
    &&& (off_linux_status(ctx) is None && ctx.facts.cpu_model is None ==> o.expected@ =~= "a CPU somebody has reported PoH numbers for"@)
    &&& (o.verify is None && o.persistence is None)
    &&& (o.status == Status::Unknown ==> o.observed@.len() > 0)
    &&& (crate::model::notes(o.fix@) =~= if o.status == Status::Reported && ctx.profile
        == Profile::Mainnet {
        seq![
            Some(
                "absence from a community list is not Anza saying no; the listed parts report roughly 14M to 23M hashes per second"@,
            ),
        ]
    } else {
        Seq::empty()
    })
}

/// PF-HW-0006. Whether anyone has reported this CPU keeping up. Advisory on
/// testnet; on mainnet a part nobody has reported on is worth knowing about
/// before you take stake.
pub fn on_recommended_list(ctx: &Ctx) -> (o: Outcome)
    ensures
        on_recommended_list_outcome(*ctx, o),
{
    let why = LISTED_WHY;
    let expected = "a CPU somebody has reported PoH numbers for";
    match needs_linux(ctx, why) {
        Some(o) => return o,
        None => {},
    }
    let model = match &ctx.facts.cpu_model {
        Some(m) => m,
        None => {
            proof {
                reveal_strlit("CPU model not reported");
            }
            proof {
                reveal_strlit("CPU model not reported");
            }
            return Outcome::unknown("CPU model not reported").expected(expected).why(why);
        },
    };
    let list = recommended_list();
    let mv = chars_of(model.as_str());
    let mut i: usize = 0;
    while i < list.len()
        invariant
            i <= list@.len(),
            mv@ == model@,
            expected@ == "a CPU somebody has reported PoH numbers for"@,
            off_linux_status(*ctx) is None,
            opt_view(ctx.facts.cpu_model) == Some(model@),
            list@.len() == recommended().len(),
            forall|k: int|
                0 <= k < list@.len() ==> ((#[trigger] list@[k]).0@, list@[k].1@, list@[k].2@)
                    == recommended()[k],
            forall|k: int| 0 <= k < i ==> !contains_seq(model@, (#[trigger] recommended()[k]).0),
            first_listed(model@, 0) == first_listed(model@, i as int),
            why@ == LISTED_WHY@,
        decreases list.len() - i,
    {
        let (name, clock, poh) = list[i];
        let nv = chars_of(name);
        if crate::text::contains(&mv, &nv) {
            assert(contains_seq(model@, recommended()[i as int].0));
            let mut obs = cat(name, " is on the list, base ");
            append(&mut obs, clock);
            append(&mut obs, ", reported PoH ");
            append(&mut obs, poh);
            let o = Outcome::pass(obs.as_str(), expected).why(why);
            assert(o.observed@ == recommended()[i as int].0 + " is on the list, base "@
                + recommended()[i as int].1 + ", reported PoH "@ + recommended()[i as int].2);
            assert(listed(model@));
            assert(first_listed(model@, i as int) == Some(i as int));
            return o;
        }
        i += 1;
    }
    assert(first_listed(model@, i as int) is None);
    let obs = cat(model.as_str(), " is not on the list");
    let o = Outcome::reported(obs.as_str(), expected).why(why);
    match ctx.profile {
        Profile::Mainnet => {
            let mut fix: Vec<FixStep> = Vec::new();
            fix.push(
                FixStep::noted(
                    "measure your PoH rate before taking stake, and compare against the list",
                    "absence from a community list is not Anza saying no; the listed parts report roughly 14M to 23M hashes per second",
                ),
            );
            o.fix(fix)
        },
        _ => o,
    }
}

/// Ubuntu LTS standard support end dates, as published on the release cycle
/// page: the releases a validator is plausibly running.
pub open spec fn ubuntu_eol(version: Seq<char>) -> Option<(u64, u64)> {
    if version == "18.04"@ {
        Some((2023, 5))
    } else if version == "20.04"@ {
        Some((2025, 5))
    } else if version == "22.04"@ {
        Some((2027, 6))
    } else if version == "24.04"@ {
        Some((2029, 6))
    } else {
        None
    }
}

/// The year and month, from one, of a run started `secs` after the epoch.
pub open spec fn run_month(secs: u64) -> (nat, nat) {
    let (y, yd) = crate::host::civil_year((secs / 86400) as nat, 1970);
    let (m, md) = crate::host::civil_month(yd, y as int, 0);
    (y, m + 1)
}

/// PF-HW-0007's outcome: Unknown without a release id, Reported for a release
/// with no dates recorded here, Pass before the end of standard support and
/// Fail from then on.
pub open spec fn os_support_status(c: Ctx) -> Status {
    match off_linux_status(c) {
        Some(s) => s,
        None => match opt_view(c.files.os_release) {
            None => Status::Unknown,
            Some(t) => match (release_field(t, "ID="@), release_field(t, "VERSION_ID="@)) {
                (Some(id), Some(v)) => if id != "ubuntu"@ {
                    Status::Reported
                } else {
                    match ubuntu_eol(v) {
                        None => Status::Reported,
                        Some((y, m)) => {
                            let (ny, nm) = run_month(c.files.now_secs);
                            if ny < y || (ny == y && nm < m) {
                                Status::Pass
                            } else {
                                Status::Fail
                            }
                        },
                    }
                },
                _ => Status::Unknown,
            },
        },
    }
}

fn eol_of(v: &str) -> (r: Option<(u64, u64)>)
    ensures
        r == ubuntu_eol(v@),
{
    if crate::text::eq_lit(v, "18.04") {
        Some((2023, 5))
    } else if crate::text::eq_lit(v, "20.04") {
        Some((2025, 5))
    } else if crate::text::eq_lit(v, "22.04") {
        Some((2027, 6))
    } else if crate::text::eq_lit(v, "24.04") {
        Some((2029, 6))
    } else {
        None
    }
}

/// What PF-HW-0007 observes of a release: its name, and its support dates
/// when they are recorded here.
pub open spec fn os_observed(c: Ctx, id: Seq<char>, v: Seq<char>) -> Seq<char> {
    let pretty = match opt_view(c.os) {
        Some(p) => p,
        None => id + " "@ + v,
    };
    if id != "ubuntu"@ {
        pretty + ", no support dates recorded here"@
    } else {
        match ubuntu_eol(v) {
            None => pretty + ", not a release listed here"@,
            Some((y, m)) => {
                let (ny, nm) = run_month(c.files.now_secs);
                pretty + (if ny < y || (ny == y && nm < m) {
                    ", supported until "@
                } else {
                    ", standard support ended "@
                }) + dec(y as nat) + "-"@ + crate::host::pad2(m as nat)
            },
        }
    }
}

/// Why os support matters, as the report gives it.
pub const OS_WHY: &'static str = "A release past standard support stops getting kernel updates, which is usually why a validator host is several kernel versions behind and why catching up means a release upgrade rather than apt. Worth knowing before you plan the work, not a reason the node will stop.";

/// What `os_support` promises of its outcome.
pub open spec fn os_support_outcome(ctx: Ctx, o: Outcome) -> bool {
    &&& (o.status == os_support_status(ctx))
    &&& (off_linux_status(ctx) is None ==> match opt_view(ctx.files.os_release) {
        None => o.observed@ =~= "cannot read /etc/os-release"@,
        Some(t) => match (release_field(t, "ID="@), release_field(t, "VERSION_ID="@)) {
            (Some(id), Some(v)) => o.expected@ =~= "a release still in standard support"@
                && o.observed@ =~= os_observed(ctx, id, v),
            _ => o.observed@ =~= "no release id in /etc/os-release"@,
        },
    })
    &&& (o.status == Status::Fail ==> o.fix@.len() == 1)
    &&& (o.why@ =~= OS_WHY@)
    &&& (off_linux_status(ctx) is Some ==> (o.observed@, o.expected@) =~~= off_linux_text(ctx))
    &&& (crate::model::commands(o.fix@) =~= if o.status == Status::Fail {
        seq!["plan a release upgrade, or move to a host on a supported release"@]
    } else {
        Seq::empty()
    })
    &&& (o.verify is None && o.persistence is None)
    &&& (o.status == Status::Unknown ==> o.observed@.len() > 0)
    &&& (crate::model::notes(o.fix@) =~= if o.status == Status::Fail {
        seq![Some("extended maintenance may still deliver security fixes, but not new kernels"@)]
    } else {
        Seq::empty()
    })
    &&& (off_linux_status(ctx) is None && o.status == Status::Unknown ==> o.expected@ =~= Seq::<char>::empty())
}

/// PF-HW-0007. Whether the distribution still gets kernels. An old release is
/// usually why a kernel is old, and why moving off it is a bigger job than an
/// upgrade command.
pub fn os_support(ctx: &Ctx) -> (o: Outcome)
    ensures
        os_support_outcome(*ctx, o),
{
    let why = OS_WHY;
    let expected = "a release still in standard support";
    match needs_linux(ctx, why) {
        Some(o) => return o,
        None => {},
    }
    let text = match &ctx.files.os_release {
        Some(t) => t,
        None => {
            proof {
                reveal_strlit("cannot read /etc/os-release");
            }
            proof {
                reveal_strlit("cannot read /etc/os-release");
            }
            return Outcome::unknown("cannot read /etc/os-release").why(why);
        },
    };
    let (id, version) = match (
        release_field_of(text.as_str(), "ID="),
        release_field_of(text.as_str(), "VERSION_ID="),
    ) {
        (Some(i), Some(v)) => (i, v),
        _ => {
            proof {
                reveal_strlit("no release id in /etc/os-release");
            }
            proof {
                reveal_strlit("no release id in /etc/os-release");
            }
            return Outcome::unknown("no release id in /etc/os-release").why(why);
        },
    };
    let pretty = match &ctx.os {
        Some(p) => p.clone(),
        None => {
            let mut p = cat(id.as_str(), " ");
            append(&mut p, version.as_str());
            p
        },
    };
    if !crate::text::eq_lit(id.as_str(), "ubuntu") {
        let obs = cat(pretty.as_str(), ", no support dates recorded here");
        return Outcome::reported(obs.as_str(), expected).why(why);
    }
    let (year, month) = match eol_of(version.as_str()) {
        Some(e) => e,
        None => {
            let obs = cat(pretty.as_str(), ", not a release listed here");
            return Outcome::reported(obs.as_str(), expected).why(why);
        },
    };
    let (ny, nm0, _) = crate::host::civil_date(ctx.files.now_secs);
    let nm = nm0 + 1;
    let ys = dec_string(year);
    let ms = if month < 10 {
        cat("0", dec_string(month).as_str())
    } else {
        dec_string(month)
    };
    if ny < year || (ny == year && nm < month) {
        let mut obs = cat(pretty.as_str(), ", supported until ");
        append(&mut obs, ys.as_str());
        append(&mut obs, "-");
        append(&mut obs, ms.as_str());
        return Outcome::pass(obs.as_str(), expected).why(why);
    }
    let mut obs = cat(pretty.as_str(), ", standard support ended ");
    append(&mut obs, ys.as_str());
    append(&mut obs, "-");
    append(&mut obs, ms.as_str());
    let mut fix: Vec<FixStep> = Vec::new();
    fix.push(
        FixStep::noted(
            "plan a release upgrade, or move to a host on a supported release",
            "extended maintenance may still deliver security fixes, but not new kernels",
        ),
    );
    Outcome::fail(obs.as_str(), expected).why(why).fix(fix)
}

} // verus!
