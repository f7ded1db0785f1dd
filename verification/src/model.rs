//! The vocabulary every check speaks.
//!
//! A Check declares what it looks at and where its requirement comes from. An
//! Outcome is what it found: a status, what was observed, what was expected,
//! why it matters, and the fix to run by hand.

use vstd::prelude::*;
use vstd::string::*;
use crate::text::{append, cat, chars_of, lower_seq, owned, same, to_upper, upper, upper_seq};

verus! {

#[derive(Debug, Clone, Copy, PartialEq, Eq, Structural)]
pub enum Status {
    Pass,
    Ephemeral,
    Fail,
    Unsupported,
    Skipped,
    Unknown,
    /// Measured successfully, but nobody publishes a threshold to judge it
    /// against. Distinct from Unknown, which means the probe failed. A run
    /// full of these is complete, so it must not affect the exit code.
    Reported,
}

pub open spec fn status_label(s: Status) -> Seq<char> {
    match s {
        Status::Pass => "PASS"@,
        Status::Ephemeral => "EPHEMERAL"@,
        Status::Fail => "FAIL"@,
        Status::Unsupported => "UNSUPPORTED"@,
        Status::Skipped => "SKIPPED"@,
        Status::Unknown => "UNKNOWN"@,
        Status::Reported => "REPORTED"@,
    }
}

impl Status {
    pub fn label(self) -> (r: &'static str)
        ensures
            r@ == status_label(self),
    {
        match self {
            Status::Pass => "PASS",
            Status::Ephemeral => "EPHEMERAL",
            Status::Fail => "FAIL",
            Status::Unsupported => "UNSUPPORTED",
            Status::Skipped => "SKIPPED",
            Status::Unknown => "UNKNOWN",
            Status::Reported => "REPORTED",
        }
    }
}

#[derive(Debug, Clone, Copy, PartialEq, Eq, Structural)]
pub enum Severity {
    Fatal,
    Degraded,
    Advisory,
}

pub open spec fn severity_label(s: Severity) -> Seq<char> {
    match s {
        Severity::Fatal => "fatal"@,
        Severity::Degraded => "degraded"@,
        Severity::Advisory => "advisory"@,
    }
}

impl Severity {
    pub fn label(self) -> (r: &'static str)
        ensures
            r@ == severity_label(self),
    {
        match self {
            Severity::Fatal => "fatal",
            Severity::Degraded => "degraded",
            Severity::Advisory => "advisory",
        }
    }
}

#[derive(Debug, Clone, Copy, PartialEq, Eq, Structural)]
pub enum Layer {
    Arg,
    Xdp,
    Hw,
    Kernel,
    Limits,
    Fs,
    Net,
    Service,
    Validator,
    Security,
}

#[derive(Debug, Clone, Copy, PartialEq, Eq, Structural)]
pub enum Phase {
    Machine,
    Validator,
}

pub open spec fn layer_label(l: Layer) -> Seq<char> {
    match l {
        Layer::Arg => "ARG"@,
        Layer::Xdp => "XDP"@,
        Layer::Hw => "HW"@,
        Layer::Kernel => "KRN"@,
        Layer::Limits => "LIM"@,
        Layer::Fs => "FS"@,
        Layer::Net => "NET"@,
        Layer::Service => "SVC"@,
        Layer::Validator => "VAL"@,
        Layer::Security => "SEC"@,
    }
}

/// The layer a short code names, matched without regard to case.
pub open spec fn layer_of_code(code: Seq<char>) -> Option<Layer> {
    let u = upper_seq(code);
    if u == "ARG"@ {
        Some(Layer::Arg)
    } else if u == "XDP"@ {
        Some(Layer::Xdp)
    } else if u == "HW"@ {
        Some(Layer::Hw)
    } else if u == "KRN"@ {
        Some(Layer::Kernel)
    } else if u == "LIM"@ {
        Some(Layer::Limits)
    } else if u == "FS"@ {
        Some(Layer::Fs)
    } else if u == "NET"@ {
        Some(Layer::Net)
    } else if u == "SVC"@ {
        Some(Layer::Service)
    } else if u == "VAL"@ {
        Some(Layer::Validator)
    } else if u == "SEC"@ {
        Some(Layer::Security)
    } else {
        None
    }
}

/// Hardware, kernel, filesystems, limits and network describe the machine;
/// everything else describes the validator on it.
pub open spec fn layer_phase(l: Layer) -> Phase {
    match l {
        Layer::Hw | Layer::Kernel | Layer::Fs | Layer::Limits | Layer::Net => Phase::Machine,
        _ => Phase::Validator,
    }
}

pub open spec fn layer_human(l: Layer) -> Seq<char> {
    match l {
        Layer::Arg => "Validator command line"@,
        Layer::Xdp => "XDP networking"@,
        Layer::Hw => "Hardware and OS"@,
        Layer::Kernel => "Kernel settings"@,
        Layer::Limits => "Process limits"@,
        Layer::Fs => "Disks and filesystems"@,
        Layer::Net => "Network"@,
        Layer::Service => "systemd service"@,
        Layer::Validator => "Validator install"@,
        Layer::Security => "Security"@,
    }
}

impl Layer {
    pub fn label(self) -> (r: &'static str)
        ensures
            r@ == layer_label(self),
    {
        match self {
            Layer::Arg => "ARG",
            Layer::Xdp => "XDP",
            Layer::Hw => "HW",
            Layer::Kernel => "KRN",
            Layer::Limits => "LIM",
            Layer::Fs => "FS",
            Layer::Net => "NET",
            Layer::Service => "SVC",
            Layer::Validator => "VAL",
            Layer::Security => "SEC",
        }
    }

    /// Which half of the report a layer belongs to. The machine question is
    /// answered before the validator question, because a box that cannot run a
    /// validator makes every finding about its configuration irrelevant.
    pub fn phase(self) -> (r: Phase)
        ensures
            r == layer_phase(self),
    {
        match self {
            Layer::Hw | Layer::Kernel | Layer::Fs | Layer::Limits | Layer::Net => Phase::Machine,
            Layer::Arg | Layer::Xdp | Layer::Service | Layer::Validator | Layer::Security => {
                Phase::Validator
            },
        }
    }

    /// What this layer is, in words. The short codes are for citing a finding
    /// in a chat thread, not for reading a report.
    pub fn human(self) -> (r: &'static str)
        ensures
            r@ == layer_human(self),
    {
        match self {
            Layer::Arg => "Validator command line",
            Layer::Xdp => "XDP networking",
            Layer::Hw => "Hardware and OS",
            Layer::Kernel => "Kernel settings",
            Layer::Limits => "Process limits",
            Layer::Fs => "Disks and filesystems",
            Layer::Net => "Network",
            Layer::Service => "systemd service",
            Layer::Validator => "Validator install",
            Layer::Security => "Security",
        }
    }

    /// The layer a short code such as `krn` or `FS` names.
    pub fn parse(s: &str) -> (r: Option<Layer>)
        ensures
            r == layer_of_code(s@),
    {
        let v = chars_of(s);
        let u = to_upper(&v);
        if same(&u, &chars_of("ARG")) {
            Some(Layer::Arg)
        } else if same(&u, &chars_of("XDP")) {
            Some(Layer::Xdp)
        } else if same(&u, &chars_of("HW")) {
            Some(Layer::Hw)
        } else if same(&u, &chars_of("KRN")) {
            Some(Layer::Kernel)
        } else if same(&u, &chars_of("LIM")) {
            Some(Layer::Limits)
        } else if same(&u, &chars_of("FS")) {
            Some(Layer::Fs)
        } else if same(&u, &chars_of("NET")) {
            Some(Layer::Net)
        } else if same(&u, &chars_of("SVC")) {
            Some(Layer::Service)
        } else if same(&u, &chars_of("VAL")) {
            Some(Layer::Validator)
        } else if same(&u, &chars_of("SEC")) {
            Some(Layer::Security)
        } else {
            None
        }
    }
}

/// Every layer's short code reads back as that layer.
pub proof fn law_layer_code_round_trip(l: Layer)
    ensures
        layer_of_code(layer_label(l)) == Some(l),
        upper_seq(layer_label(l)) == layer_label(l),
{
    reveal_strlit("ARG");
    reveal_strlit("XDP");
    reveal_strlit("HW");
    reveal_strlit("KRN");
    reveal_strlit("LIM");
    reveal_strlit("FS");
    reveal_strlit("NET");
    reveal_strlit("SVC");
    reveal_strlit("VAL");
    reveal_strlit("SEC");
    match l {
        Layer::Arg => {
            assert(upper_seq("ARG"@) =~= "ARG"@);
            assert(layer_of_code("ARG"@) == Some(Layer::Arg));
        },
        Layer::Xdp => {
            assert(upper_seq("XDP"@) =~= "XDP"@);
            assert("XDP"@[0] != "ARG"@[0]);
            assert(layer_of_code("XDP"@) == Some(Layer::Xdp));
        },
        Layer::Hw => {
            assert(upper_seq("HW"@) =~= "HW"@);
            assert(layer_of_code("HW"@) == Some(Layer::Hw));
        },
        Layer::Kernel => {
            assert(upper_seq("KRN"@) =~= "KRN"@);
            assert("KRN"@[0] != "ARG"@[0]);
            assert("KRN"@[0] != "XDP"@[0]);
            assert(layer_of_code("KRN"@) == Some(Layer::Kernel));
        },
        Layer::Limits => {
            assert(upper_seq("LIM"@) =~= "LIM"@);
            assert("LIM"@[0] != "ARG"@[0]);
            assert("LIM"@[0] != "XDP"@[0]);
            assert("LIM"@[0] != "KRN"@[0]);
            assert(layer_of_code("LIM"@) == Some(Layer::Limits));
        },
        Layer::Fs => {
            assert(upper_seq("FS"@) =~= "FS"@);
            assert("FS"@[0] != "HW"@[0]);
            assert(layer_of_code("FS"@) == Some(Layer::Fs));
        },
        Layer::Net => {
            assert(upper_seq("NET"@) =~= "NET"@);
            assert("NET"@[0] != "ARG"@[0]);
            assert("NET"@[0] != "XDP"@[0]);
            assert("NET"@[0] != "KRN"@[0]);
            assert("NET"@[0] != "LIM"@[0]);
            assert(layer_of_code("NET"@) == Some(Layer::Net));
        },
        Layer::Service => {
            assert(upper_seq("SVC"@) =~= "SVC"@);
            assert("SVC"@[0] != "ARG"@[0]);
            assert("SVC"@[0] != "XDP"@[0]);
            assert("SVC"@[0] != "KRN"@[0]);
            assert("SVC"@[0] != "LIM"@[0]);
            assert("SVC"@[0] != "NET"@[0]);
            assert(layer_of_code("SVC"@) == Some(Layer::Service));
        },
        Layer::Validator => {
            assert(upper_seq("VAL"@) =~= "VAL"@);
            assert("VAL"@[0] != "ARG"@[0]);
            assert("VAL"@[0] != "XDP"@[0]);
            assert("VAL"@[0] != "KRN"@[0]);
            assert("VAL"@[0] != "LIM"@[0]);
            assert("VAL"@[0] != "NET"@[0]);
            assert("VAL"@[0] != "SVC"@[0]);
            assert(layer_of_code("VAL"@) == Some(Layer::Validator));
        },
        Layer::Security => {
            assert(upper_seq("SEC"@) =~= "SEC"@);
            assert("SEC"@[0] != "ARG"@[0]);
            assert("SEC"@[0] != "XDP"@[0]);
            assert("SEC"@[0] != "KRN"@[0]);
            assert("SEC"@[0] != "LIM"@[0]);
            assert("SEC"@[0] != "NET"@[0]);
            assert("SEC"@[1] != "SVC"@[1]);
            assert("SEC"@[0] != "VAL"@[0]);
            assert(layer_of_code("SEC"@) == Some(Layer::Security));
        },
    }
}

/// A layer's code reads as that layer in any letter case, its lower-case
/// form included, and text that is no layer's code in any case reads as none.
pub proof fn law_layer_code_ignores_case(l: Layer, s: Seq<char>)
    ensures
        upper_seq(s) == layer_label(l) ==> layer_of_code(s) == Some(l),
        layer_of_code(lower_seq(layer_label(l))) == Some(l),
        (forall|k: Layer| upper_seq(s) != #[trigger] layer_label(k)) ==> layer_of_code(s) is None,
{
    law_layer_code_round_trip(l);
    let t = layer_label(l);
    let lo = lower_seq(t);
    assert forall|i: int| 0 <= i < t.len() implies 'A' <= #[trigger] t[i] && t[i] <= 'Z' by {
        reveal_strlit("ARG");
        reveal_strlit("XDP");
        reveal_strlit("HW");
        reveal_strlit("KRN");
        reveal_strlit("LIM");
        reveal_strlit("FS");
        reveal_strlit("NET");
        reveal_strlit("SVC");
        reveal_strlit("VAL");
        reveal_strlit("SEC");
    }
    assert forall|i: int| 0 <= i < t.len() implies upper(#[trigger] lo[i]) == t[i] by {
        let c = t[i];
        let x = c as u32;
        assert(65 <= x <= 90);
        assert(((x + 32) as u8) as u32 == x + 32);
    }
    assert(upper_seq(lo) =~= t);
    if forall|k: Layer| upper_seq(s) != #[trigger] layer_label(k) {
        assert(upper_seq(s) != layer_label(Layer::Arg));
        assert(upper_seq(s) != layer_label(Layer::Xdp));
        assert(upper_seq(s) != layer_label(Layer::Hw));
        assert(upper_seq(s) != layer_label(Layer::Kernel));
        assert(upper_seq(s) != layer_label(Layer::Limits));
        assert(upper_seq(s) != layer_label(Layer::Fs));
        assert(upper_seq(s) != layer_label(Layer::Net));
        assert(upper_seq(s) != layer_label(Layer::Service));
        assert(upper_seq(s) != layer_label(Layer::Validator));
        assert(upper_seq(s) != layer_label(Layer::Security));
    }
}

#[derive(Debug, Clone, Copy, PartialEq, Eq, Structural)]
pub enum Profile {
    Local,
    Testnet,
    Mainnet,
}

pub open spec fn profile_label(p: Profile) -> Seq<char> {
    match p {
        Profile::Local => "local"@,
        Profile::Testnet => "testnet"@,
        Profile::Mainnet => "mainnet"@,
    }
}

/// What a profile is judged against.
///
/// Anza publishes one set of figures and never says which cluster they are for.
/// They describe a production node, so preflight treats them as the mainnet
/// baseline. Nobody publishes testnet figures at all, so testnet is judged on
/// headroom, which is the thing that actually bites, rather than on a size
/// somebody made up. Sizes are whole gigabytes, clocks whole megahertz.
pub struct Thresholds {
    pub accounts_gb: Option<u64>,
    pub ledger_gb: Option<u64>,
    pub snapshots_gb: Option<u64>,
    /// The ledger filesystem an operator needs where no figure is published.
    pub disk_gb: Option<u64>,
    /// Percent of a filesystem that should still be free, on any cluster.
    pub min_free_pct: u64,
    pub base_clock_mhz: Option<u64>,
}

pub open spec fn thresholds_of(p: Profile) -> Thresholds {
    match p {
        Profile::Mainnet => Thresholds {
            accounts_gb: Some(1000),
            ledger_gb: Some(1000),
            snapshots_gb: Some(500),
            disk_gb: None,
            min_free_pct: 15,
            base_clock_mhz: Some(2800),
        },
        Profile::Testnet => Thresholds {
            accounts_gb: None,
            ledger_gb: None,
            snapshots_gb: None,
            disk_gb: Some(250),
            min_free_pct: 10,
            base_clock_mhz: Some(2800),
        },
        Profile::Local => Thresholds {
            accounts_gb: None,
            ledger_gb: None,
            snapshots_gb: None,
            disk_gb: None,
            min_free_pct: 5,
            base_clock_mhz: None,
        },
    }
}

impl Profile {
    pub fn thresholds(self) -> (t: Thresholds)
        ensures
            t == thresholds_of(self),
    {
        match self {
            Profile::Mainnet => Thresholds {
                accounts_gb: Some(1000),
                ledger_gb: Some(1000),
                snapshots_gb: Some(500),
                disk_gb: None,
                min_free_pct: 15,
                base_clock_mhz: Some(2800),
            },
            Profile::Testnet => Thresholds {
                accounts_gb: None,
                ledger_gb: None,
                snapshots_gb: None,
                disk_gb: Some(250),
                min_free_pct: 10,
                base_clock_mhz: Some(2800),
            },
            Profile::Local => Thresholds {
                accounts_gb: None,
                ledger_gb: None,
                snapshots_gb: None,
                disk_gb: None,
                min_free_pct: 5,
                base_clock_mhz: None,
            },
        }
    }

    pub fn label(self) -> (r: &'static str)
        ensures
            r@ == profile_label(self),
    {
        match self {
            Profile::Local => "local",
            Profile::Testnet => "testnet",
            Profile::Mainnet => "mainnet",
        }
    }
}

#[derive(Debug, Clone, Copy, PartialEq, Eq, Structural)]
pub enum ClientKind {
    AgaveValidator,
    TestValidator,
    Firedancer,
    Unknown,
}

pub open spec fn client_label(c: ClientKind) -> Seq<char> {
    match c {
        ClientKind::AgaveValidator => "agave-validator"@,
        ClientKind::TestValidator => "solana-test-validator"@,
        ClientKind::Firedancer => "firedancer"@,
        ClientKind::Unknown => "unknown"@,
    }
}

impl ClientKind {
    pub fn label(self) -> (r: &'static str)
        ensures
            r@ == client_label(self),
    {
        match self {
            ClientKind::AgaveValidator => "agave-validator",
            ClientKind::TestValidator => "solana-test-validator",
            ClientKind::Firedancer => "firedancer",
            ClientKind::Unknown => "unknown",
        }
    }
}

#[derive(Debug, Clone, Copy, PartialEq, Eq, Structural)]
pub enum SourceKind {
    AgaveSymbol,
    AgaveChangelog,
    AnzaDocs,
    AnzaBlog,
    Simd,
    Operator,
}

#[derive(Debug, Clone, Copy)]
pub struct Source {
    pub kind: SourceKind,
    pub locator: &'static str,
    pub verified_against: &'static str,
    pub provisional: bool,
}

/// Whether a value survives a flag rename, and on whose authority.
///
/// Two live bugs were fixes that swapped a flag while saying nothing about the
/// value: one quoted a default read from the wrong struct, the other renamed a
/// flag whose name carried its unit without checking the replacement's. Making
/// the question unrepresentable-as-unanswered is cheaper than remembering.
#[derive(Debug, Clone, Copy)]
pub enum ValueCarry {
    /// Nothing was set, so nothing has to carry.
    NoValueSet,
    /// Same unit, same meaning.
    Identical,
    /// Same unit, different scale, with the reason.
    Converted(&'static str),
    /// Counts or measures a different thing.
    DifferentSemantics(&'static str),
    /// preflight has not verified this. Never renders a substitution.
    Unverified,
}

#[derive(Debug, Clone)]
pub struct FixStep {
    pub command: String,
    pub note: Option<String>,
}

pub open spec fn opt_view(o: Option<String>) -> Option<Seq<char>> {
    match o {
        Some(s) => Some(s@),
        None => None,
    }
}

pub open spec fn opt_str_view(o: Option<&str>) -> Option<Seq<char>> {
    match o {
        Some(s) => Some(s@),
        None => None,
    }
}

pub open spec fn arrow() -> Seq<char> {
    "   ->   "@
}

/// The command line of a rename step.
pub open spec fn rename_command(
    from: Seq<char>,
    to: Seq<char>,
    observed: Option<Seq<char>>,
    carry: ValueCarry,
) -> Seq<char> {
    match (carry, observed) {
        (ValueCarry::Unverified, Some(v)) => from + " "@ + v + " is replaced by "@ + to,
        (ValueCarry::Unverified, None) => from + " is replaced by "@ + to,
        (ValueCarry::NoValueSet, _) => from + arrow() + to,
        (ValueCarry::Identical, Some(v)) => from + " "@ + v + arrow() + to + " "@ + v,
        (ValueCarry::Identical, None) => from + arrow() + to,
        (ValueCarry::Converted(_), Some(v)) => from + " "@ + v + arrow() + to + " <see note>"@,
        (ValueCarry::DifferentSemantics(_), Some(v)) => from + " "@ + v + arrow() + to
            + " <see note>"@,
        (_, None) => from + arrow() + to,
    }
}

pub open spec fn unverified_note_valued() -> Seq<char> {
    "preflight has not read the replacement's unit from your binary, so it will not say what number goes there. Check both in agave-validator --help"@
}

pub open spec fn unverified_note_bare() -> Seq<char> {
    "preflight has not verified whether a value carries across. Check both in agave-validator --help"@
}

/// The note under a rename step.
pub open spec fn rename_note(observed: Option<Seq<char>>, carry: ValueCarry) -> Option<
    Seq<char>,
> {
    match (carry, observed) {
        (ValueCarry::Unverified, Some(_)) => Some(unverified_note_valued()),
        (ValueCarry::Unverified, None) => Some(unverified_note_bare()),
        (ValueCarry::NoValueSet, _) => Some("no value to convert"@),
        (ValueCarry::Identical, _) => None,
        (ValueCarry::Converted(n), _) => Some(n@),
        (ValueCarry::DifferentSemantics(n), _) => Some(n@),
    }
}

impl FixStep {
    pub fn cmd(c: &str) -> (f: FixStep)
        ensures
            f.command@ == c@,
            f.note is None,
    {
        FixStep { command: owned(c), note: None }
    }

    pub fn noted(c: &str, n: &str) -> (f: FixStep)
        ensures
            f.command@ == c@,
            opt_view(f.note) == Some(n@),
    {
        FixStep { command: owned(c), note: Some(owned(n)) }
    }

    /// A flag rename, rendered according to what is known about the value.
    ///
    /// Unverified never prints an arrow: it names both flags and says to check,
    /// because a confident substitution nobody verified is how an operator ends
    /// up with the wrong number.
    pub fn rename(from: &str, to: &str, observed: Option<&str>, carry: ValueCarry) -> (f: FixStep)
        ensures
            f.command@ == rename_command(from@, to@, opt_str_view(observed), carry),
            opt_view(f.note) == rename_note(opt_str_view(observed), carry),
    {
        match (carry, observed) {
            (ValueCarry::Unverified, Some(v)) => {
                let mut c = cat(from, " ");
                append(&mut c, v);
                append(&mut c, " is replaced by ");
                append(&mut c, to);
                FixStep::noted(
                    c.as_str(),
                    "preflight has not read the replacement's unit from your binary, so it will not say what number goes there. Check both in agave-validator --help",
                )
            },
            (ValueCarry::Unverified, None) => {
                let mut c = cat(from, " is replaced by ");
                append(&mut c, to);
                FixStep::noted(
                    c.as_str(),
                    "preflight has not verified whether a value carries across. Check both in agave-validator --help",
                )
            },
            (ValueCarry::NoValueSet, _) => {
                let mut c = cat(from, "   ->   ");
                append(&mut c, to);
                FixStep::noted(c.as_str(), "no value to convert")
            },
            (ValueCarry::Identical, Some(v)) => {
                let mut c = cat(from, " ");
                append(&mut c, v);
                append(&mut c, "   ->   ");
                append(&mut c, to);
                append(&mut c, " ");
                append(&mut c, v);
                FixStep::cmd(c.as_str())
            },
            (ValueCarry::Identical, None) => {
                let mut c = cat(from, "   ->   ");
                append(&mut c, to);
                FixStep::cmd(c.as_str())
            },
            (ValueCarry::Converted(note), Some(v)) | (ValueCarry::DifferentSemantics(note), Some(v)) => {
                let mut c = cat(from, " ");
                append(&mut c, v);
                append(&mut c, "   ->   ");
                append(&mut c, to);
                append(&mut c, " <see note>");
                FixStep::noted(c.as_str(), note)
            },
            (ValueCarry::Converted(note), None) | (ValueCarry::DifferentSemantics(note), None) => {
                let mut c = cat(from, "   ->   ");
                append(&mut c, to);
                FixStep::noted(c.as_str(), note)
            },
        }
    }
}

/// An unverified rename never renders a substitution: when neither flag nor
/// the value carries a `>`, the step holds none either, so it has no arrow.
pub proof fn law_unverified_rename_has_no_arrow(
    from: Seq<char>,
    to: Seq<char>,
    observed: Option<Seq<char>>,
)
    requires
        !from.contains('>'),
        !to.contains('>'),
        observed matches Some(v) ==> !v.contains('>'),
    ensures
        !rename_command(from, to, observed, ValueCarry::Unverified).contains('>'),
{
    reveal_strlit(" ");
    reveal_strlit(" is replaced by ");
    let c = rename_command(from, to, observed, ValueCarry::Unverified);
    assert forall|i: int| 0 <= i < c.len() implies c[i] != '>' by {
        match observed {
            Some(v) => {
                let a = from;
                let b = a + " "@;
                let d = b + v;
                let e = d + " is replaced by "@;
                assert(c == e + to);
                if i < a.len() {
                    assert(c[i] == a[i]);
                } else if i < b.len() {
                    assert(c[i] == " "@[i - a.len()]);
                } else if i < d.len() {
                    assert(c[i] == v[i - b.len()]);
                } else if i < e.len() {
                    assert(c[i] == " is replaced by "@[i - d.len()]);
                } else {
                    assert(c[i] == to[i - e.len()]);
                }
            },
            None => {
                let a = from;
                let e = a + " is replaced by "@;
                assert(c == e + to);
                if i < a.len() {
                    assert(c[i] == a[i]);
                } else if i < e.len() {
                    assert(c[i] == " is replaced by "@[i - a.len()]);
                } else {
                    assert(c[i] == to[i - e.len()]);
                }
            },
        }
    }
}

#[derive(Debug, Clone)]
pub struct Persistence {
    pub found: Option<String>,
    pub expected: String,
}

pub open spec fn dropin_path(unit: Seq<char>) -> Seq<char> {
    "/etc/systemd/system/"@ + unit + ".d/20-xdp-caps.conf"@
}

impl Persistence {
    /// Where a capability drop-in for `unit` lives. `unit` is whatever the host
    /// actually uses, or a placeholder when preflight could not resolve one.
    pub fn unit_dropin(found: Option<String>, unit: &str) -> (p: Persistence)
        ensures
            p.found == found,
            p.expected@ == dropin_path(unit@),
    {
        let mut e = cat("/etc/systemd/system/", unit);
        append(&mut e, ".d/20-xdp-caps.conf");
        Persistence { found, expected: e }
    }
}

#[derive(Debug, Clone)]
pub struct Outcome {
    pub status: Status,
    pub observed: String,
    pub expected: String,
    pub why: String,
    pub fix: Vec<FixStep>,
    pub verify: Option<String>,
    pub persistence: Option<Persistence>,
}

/// A fresh outcome: a status and the two sentences, nothing else yet.
/// The commands of a fix, in order, without their notes.
pub open spec fn commands(fix: Seq<FixStep>) -> Seq<Seq<char>> {
    fix.map_values(|f: FixStep| f.command@)
}

/// A fix as plain values: each step's command and note.
pub open spec fn steps(fix: Seq<FixStep>) -> Seq<(Seq<char>, Option<Seq<char>>)> {
    fix.map_values(|f: FixStep| (f.command@, opt_view(f.note)))
}

/// The notes of a fix, in order: what each step is for, where it says.
pub open spec fn notes(fix: Seq<FixStep>) -> Seq<Option<Seq<char>>> {
    fix.map_values(|f: FixStep| opt_view(f.note))
}

pub open spec fn fresh(o: Outcome, status: Status, observed: Seq<char>, expected: Seq<char>) -> bool {
    &&& o.status == status
    &&& o.observed@ == observed
    &&& o.expected@ == expected
    &&& o.why@ == Seq::<char>::empty()
    &&& o.fix@.len() == 0
    &&& o.verify is None
    &&& o.persistence is None
}

impl Outcome {
    fn base(status: Status) -> (o: Outcome)
        ensures
            fresh(o, status, Seq::empty(), Seq::empty()),
    {
        Outcome {
            status,
            observed: String::new(),
            expected: String::new(),
            why: String::new(),
            fix: Vec::new(),
            verify: None,
            persistence: None,
        }
    }

    fn new(status: Status, observed: &str, expected: &str) -> (o: Outcome)
        ensures
            fresh(o, status, observed@, expected@),
    {
        let mut o = Outcome::base(status);
        o.observed = owned(observed);
        o.expected = owned(expected);
        o
    }

    pub fn pass(observed: &str, expected: &str) -> (o: Outcome)
        ensures
            fresh(o, Status::Pass, observed@, expected@),
    {
        Outcome::new(Status::Pass, observed, expected)
    }

    /// Wrong, and fixable.
    pub fn fail(observed: &str, expected: &str) -> (o: Outcome)
        ensures
            fresh(o, Status::Fail, observed@, expected@),
    {
        Outcome::new(Status::Fail, observed, expected)
    }

    /// Unmeetable on this hardware. Carries no fix because none exists.
    pub fn unsupported(observed: &str, expected: &str) -> (o: Outcome)
        ensures
            fresh(o, Status::Unsupported, observed@, expected@),
    {
        Outcome::new(Status::Unsupported, observed, expected)
    }

    /// Correct now, but nothing on disk restores it after a reboot.
    pub fn ephemeral(observed: &str, expected: &str) -> (o: Outcome)
        ensures
            fresh(o, Status::Ephemeral, observed@, expected@),
    {
        Outcome::new(Status::Ephemeral, observed, expected)
    }

    /// Measured, with no published threshold to compare against.
    pub fn reported(observed: &str, expected: &str) -> (o: Outcome)
        ensures
            fresh(o, Status::Reported, observed@, expected@),
    {
        Outcome::new(Status::Reported, observed, expected)
    }

    pub fn skipped(reason: &str) -> (o: Outcome)
        ensures
            fresh(o, Status::Skipped, reason@, Seq::empty()),
    {
        let mut o = Outcome::base(Status::Skipped);
        o.observed = owned(reason);
        o
    }

    pub fn unknown(reason: &str) -> (o: Outcome)
        requires
            reason@.len() > 0,
        ensures
            fresh(o, Status::Unknown, reason@, Seq::empty()),
    {
        let mut o = Outcome::base(Status::Unknown);
        o.observed = owned(reason);
        o
    }

    pub fn expected(self, e: &str) -> (o: Outcome)
        ensures
            o == (Outcome { expected: o.expected, ..self }),
            o.expected@ == e@,
    {
        let mut o = self;
        o.expected = owned(e);
        o
    }

    pub fn why(self, w: &str) -> (o: Outcome)
        ensures
            o == (Outcome { why: o.why, ..self }),
            o.why@ == w@,
    {
        let mut o = self;
        o.why = owned(w);
        o
    }

    pub fn fix(self, steps: Vec<FixStep>) -> (o: Outcome)
        ensures
            o == (Outcome { fix: steps, ..self }),
    {
        let mut o = self;
        o.fix = steps;
        o
    }

    pub fn verify(self, v: &str) -> (o: Outcome)
        ensures
            o == (Outcome { verify: o.verify, ..self }),
            opt_view(o.verify) == Some(v@),
    {
        let mut o = self;
        o.verify = Some(owned(v));
        o
    }

    pub fn persists(self, p: Persistence) -> (o: Outcome)
        ensures
            o == (Outcome { persistence: Some(p), ..self }),
    {
        let mut o = self;
        o.persistence = Some(p);
        o
    }
}

pub struct Check {
    pub id: String,
    pub layer: Layer,
    pub severity: Severity,
    pub title: String,
    pub profiles: Vec<Profile>,
    pub clients: Vec<ClientKind>,
    pub needs_root: bool,
    pub source: Vec<Source>,
}

pub open spec fn any_provisional(s: Seq<Source>) -> bool {
    exists|i: int| 0 <= i < s.len() && (#[trigger] s[i]).provisional
}

/// Layers that read the machine itself, so they need Linux. ARG reads a
/// command line and works from text on any OS.
pub open spec fn layer_needs_linux(l: Layer) -> bool {
    matches!(l, Layer::Hw | Layer::Kernel | Layer::Limits | Layer::Fs | Layer::Net | Layer::Service)
}

/// Layers that read a validator's configuration.
pub open spec fn layer_needs_validator(l: Layer) -> bool {
    matches!(l, Layer::Arg | Layer::Xdp | Layer::Service | Layer::Validator)
}

fn profile_in(v: &Vec<Profile>, p: Profile) -> (r: bool)
    ensures
        r == v@.contains(p),
{
    let mut i: usize = 0;
    while i < v.len()
        invariant
            i <= v@.len(),
            forall|k: int| 0 <= k < i ==> v@[k] != p,
        decreases v.len() - i,
    {
        if v[i] == p {
            assert(v@[i as int] == p);
            return true;
        }
        i += 1;
    }
    false
}

fn client_in(v: &Vec<ClientKind>, c: ClientKind) -> (r: bool)
    ensures
        r == v@.contains(c),
{
    let mut i: usize = 0;
    while i < v.len()
        invariant
            i <= v@.len(),
            forall|k: int| 0 <= k < i ==> v@[k] != c,
        decreases v.len() - i,
    {
        if v[i] == c {
            assert(v@[i as int] == c);
            return true;
        }
        i += 1;
    }
    false
}

impl Check {
    pub fn provisional(&self) -> (r: bool)
        ensures
            r == any_provisional(self.source@),
    {
        let mut i: usize = 0;
        while i < self.source.len()
            invariant
                i <= self.source@.len(),
                forall|k: int| 0 <= k < i ==> !(#[trigger] self.source@[k]).provisional,
            decreases self.source.len() - i,
        {
            if self.source[i].provisional {
                return true;
            }
            i += 1;
        }
        false
    }

    /// A check applies to its listed profiles, and to its listed clients or to
    /// a client nobody identified.
    pub fn applies_to(&self, p: Profile, c: ClientKind) -> (r: bool)
        ensures
            r == (self.profiles@.contains(p) && (c == ClientKind::Unknown
                || self.clients@.contains(c))),
    {
        profile_in(&self.profiles, p) && (c == ClientKind::Unknown || client_in(&self.clients, c))
    }

    /// HW and KRN describe the machine; they answer "can this box run a
    /// validator" and must run on a host that has none yet.
    pub fn needs_a_linux_host(&self) -> (r: bool)
        ensures
            r == layer_needs_linux(self.layer),
    {
        matches!(
            self.layer,
            Layer::Hw | Layer::Kernel | Layer::Limits | Layer::Fs | Layer::Net | Layer::Service
        )
    }

    /// ARG and XDP read a validator's configuration and cannot run without one.
    pub fn needs_a_validator(&self) -> (r: bool)
        ensures
            r == layer_needs_validator(self.layer),
    {
        matches!(self.layer, Layer::Arg | Layer::Xdp | Layer::Service | Layer::Validator)
    }
}

pub struct Finding {
    pub id: String,
    pub phase: Phase,
    pub layer: String,
    pub section: String,
    pub needs_linux: bool,
    pub severity: String,
    pub title: String,
    pub provisional: bool,
    pub outcome: Outcome,
    pub source: Vec<Source>,
}

pub open spec fn any_status(f: Seq<Finding>, s: Status) -> bool {
    exists|i: int| 0 <= i < f.len() && (#[trigger] f[i]).outcome.status == s
}

/// The process exit code for a run: 1 when anything failed or cannot be met,
/// 2 when something is right only until the next reboot, 4 when something
/// could not be read, 0 otherwise. Reported measurements never change it.
pub open spec fn exit_code_of(f: Seq<Finding>) -> i32 {
    if any_status(f, Status::Fail) || any_status(f, Status::Unsupported) {
        1
    } else if any_status(f, Status::Ephemeral) {
        2
    } else if any_status(f, Status::Unknown) {
        4
    } else {
        0
    }
}

fn has_status(findings: &[Finding], st: Status) -> (r: bool)
    ensures
        r == any_status(findings@, st),
{
    let mut i: usize = 0;
    while i < findings.len()
        invariant
            i <= findings@.len(),
            forall|k: int| 0 <= k < i ==> (#[trigger] findings@[k]).outcome.status != st,
        decreases findings.len() - i,
    {
        if findings[i].outcome.status == st {
            return true;
        }
        i += 1;
    }
    false
}

pub fn exit_code(findings: &[Finding]) -> (r: i32)
    ensures
        r == exit_code_of(findings@),
{
    if has_status(findings, Status::Fail) || has_status(findings, Status::Unsupported) {
        1
    } else if has_status(findings, Status::Ephemeral) {
        2
    } else if has_status(findings, Status::Unknown) {
        4
    } else {
        0
    }
}

/// A run whose findings only passed, were skipped or were reported exits 0:
/// a measurement with nothing to judge it against never fails a run.
pub proof fn law_clean_run_exits_zero(f: Seq<Finding>)
    requires
        forall|i: int|
            0 <= i < f.len() ==> {
                let st = (#[trigger] f[i]).outcome.status;
                st == Status::Pass || st == Status::Skipped || st == Status::Reported
            },
    ensures
        exit_code_of(f) == 0,
{
}

/// Adding a reported finding to a run never changes its exit code.
pub proof fn law_reported_never_changes_exit(f: Seq<Finding>, r: Finding)
    requires
        r.outcome.status == Status::Reported,
    ensures
        exit_code_of(f.push(r)) == exit_code_of(f),
{
    let g = f.push(r);
    assert forall|s: Status| s != Status::Reported implies any_status(g, s) == any_status(f, s) by {
        if any_status(g, s) {
            let i = choose|i: int| 0 <= i < g.len() && (#[trigger] g[i]).outcome.status == s;
            assert(i < f.len());
            assert(f[i] == g[i]);
        }
        if any_status(f, s) {
            let i = choose|i: int| 0 <= i < f.len() && (#[trigger] f[i]).outcome.status == s;
            assert(g[i] == f[i]);
        }
    }
}

/// A failure, or a requirement the hardware cannot meet, always exits 1,
/// whatever else the run found.
pub proof fn law_a_failure_always_exits_one(f: Seq<Finding>, i: int)
    requires
        0 <= i < f.len(),
        f[i].outcome.status == Status::Fail || f[i].outcome.status == Status::Unsupported,
    ensures
        exit_code_of(f) == 1,
{
    assert(any_status(f, f[i].outcome.status));
}

} // verus!
