//! The registry: every check, what it looks at, how bad a failure is, and
//! where its requirement comes from.

use vstd::prelude::*;
use vstd::string::*;
use crate::checks::{arg, fs, hw, kernel, net, service, xdp};
use crate::ctx::Ctx;
use crate::model::{
    any_provisional, client_label, layer_human, layer_label, layer_needs_linux, layer_needs_validator,
    layer_of_code, layer_phase, profile_label, severity_label, Check, ClientKind, Finding, Layer,
    Outcome, Profile, Severity, Source, SourceKind, Status,
};
use crate::argv::present;
use crate::text::{append, cat, chars_of, owned, pair_views, upper_seq, views};

verus! {

fn source(kind: SourceKind, locator: &'static str, verified_against: &'static str, provisional: bool) -> (s: Source)
    ensures
        s.kind == kind,
        s.locator@ == locator@,
        s.verified_against@ == verified_against@,
        s.provisional == provisional,
{
    Source { kind, locator, verified_against, provisional }
}

fn testnet_mainnet() -> (r: Vec<Profile>)
    ensures
        r@ == seq![Profile::Testnet, Profile::Mainnet],
{
    let mut v: Vec<Profile> = Vec::new();
    v.push(Profile::Testnet);
    v.push(Profile::Mainnet);
    v
}

fn every_profile() -> (r: Vec<Profile>)
    ensures
        r@ == seq![Profile::Local, Profile::Testnet, Profile::Mainnet],
{
    let mut v: Vec<Profile> = Vec::new();
    v.push(Profile::Local);
    v.push(Profile::Testnet);
    v.push(Profile::Mainnet);
    v
}

fn every_client() -> (r: Vec<ClientKind>)
    ensures
        r@ == seq![
            ClientKind::AgaveValidator,
            ClientKind::TestValidator,
            ClientKind::Firedancer,
            ClientKind::Unknown,
        ],
{
    let mut v: Vec<ClientKind> = Vec::new();
    v.push(ClientKind::AgaveValidator);
    v.push(ClientKind::TestValidator);
    v.push(ClientKind::Firedancer);
    v.push(ClientKind::Unknown);
    v
}

fn agave_only() -> (r: Vec<ClientKind>)
    ensures
        r@ == seq![ClientKind::AgaveValidator],
{
    let mut v: Vec<ClientKind> = Vec::new();
    v.push(ClientKind::AgaveValidator);
    v
}

fn agave_and_test() -> (r: Vec<ClientKind>)
    ensures
        r@ == seq![ClientKind::AgaveValidator, ClientKind::TestValidator],
{
    let mut v: Vec<ClientKind> = Vec::new();
    v.push(ClientKind::AgaveValidator);
    v.push(ClientKind::TestValidator);
    v
}

/// The ids of every check, in the order they run.
pub open spec fn check_ids() -> Seq<Seq<char>> {
    seq![
        "PF-HW-0001"@,
        "PF-HW-0002"@,
        "PF-HW-0003"@,
        "PF-HW-0004"@,
        "PF-HW-0005"@,
        "PF-HW-0006"@,
        "PF-HW-0007"@,
        "PF-KRN-0001"@,
        "PF-KRN-0002"@,
        "PF-KRN-0003"@,
        "PF-KRN-0004"@,
        "PF-KRN-0005"@,
        "PF-FS-0001"@,
        "PF-FS-0002"@,
        "PF-FS-0003"@,
        "PF-FS-0004"@,
        "PF-FS-0005"@,
        "PF-FS-0006"@,
        "PF-FS-0007"@,
        "PF-NET-0001"@,
        "PF-ARG-0001"@,
        "PF-ARG-0002"@,
        "PF-ARG-0003"@,
        "PF-ARG-0004"@,
        "PF-ARG-0005"@,
        "PF-ARG-0006"@,
        "PF-ARG-0007"@,
        "PF-ARG-0008"@,
        "PF-ARG-0009"@,
        "PF-ARG-0010"@,
        "PF-ARG-0011"@,
        "PF-ARG-0012"@,
        "PF-ARG-0013"@,
        "PF-ARG-0014"@,
        "PF-XDP-0001"@,
        "PF-XDP-0007"@,
    ]
}

/// A source as plain values: kind, locator, version verified against, and
/// whether it is provisional.
pub open spec fn source_row(s: Source) -> (SourceKind, Seq<char>, Seq<char>, bool) {
    (s.kind, s.locator@, s.verified_against@, s.provisional)
}

/// A check as plain values, in the order of its fields.
pub open spec fn check_row(c: Check) -> (
    Seq<char>,
    Layer,
    Severity,
    Seq<char>,
    Seq<Profile>,
    Seq<ClientKind>,
    bool,
    Seq<(SourceKind, Seq<char>, Seq<char>, bool)>,
) {
    (
        c.id@,
        c.layer,
        c.severity,
        c.title@,
        c.profiles@,
        c.clients@,
        c.needs_root,
        c.source@.map_values(|s: Source| source_row(s)),
    )
}

/// The registry, row by row: what each check is, who it applies to, and
/// where its requirement comes from.
pub open spec fn check_table(i: int) -> (
    Seq<char>,
    Layer,
    Severity,
    Seq<char>,
    Seq<Profile>,
    Seq<ClientKind>,
    bool,
    Seq<(SourceKind, Seq<char>, Seq<char>, bool)>,
) {
    if i == 0 {
        (
            "PF-HW-0001"@,
            Layer::Hw,
            Severity::Fatal,
            "CPU architecture is x86-64"@,
            seq![Profile::Testnet, Profile::Mainnet],
            seq![ClientKind::AgaveValidator, ClientKind::TestValidator, ClientKind::Firedancer, ClientKind::Unknown],
            false,
            seq![(SourceKind::AnzaDocs, "docs.anza.xyz/operations/requirements"@, "2026-08"@, false)],
        )
    } else if i == 1 {
        (
            "PF-HW-0002"@,
            Layer::Hw,
            Severity::Fatal,
            "CPU supports AVX2"@,
            seq![Profile::Testnet, Profile::Mainnet],
            seq![ClientKind::AgaveValidator, ClientKind::TestValidator, ClientKind::Firedancer, ClientKind::Unknown],
            false,
            seq![(SourceKind::AnzaDocs, "docs.anza.xyz/operations/requirements"@, "2026-08"@, false)],
        )
    } else if i == 2 {
        (
            "PF-HW-0003"@,
            Layer::Hw,
            Severity::Degraded,
            "CPU base clock is 2.8 GHz or faster"@,
            seq![Profile::Testnet, Profile::Mainnet],
            seq![ClientKind::AgaveValidator, ClientKind::TestValidator, ClientKind::Firedancer, ClientKind::Unknown],
            false,
            seq![(SourceKind::AnzaDocs, "docs.anza.xyz/operations/requirements"@, "2026-08"@, false)],
        )
    } else if i == 3 {
        (
            "PF-HW-0004"@,
            Layer::Hw,
            Severity::Advisory,
            "CPU core and thread count"@,
            seq![Profile::Testnet, Profile::Mainnet],
            seq![ClientKind::AgaveValidator, ClientKind::TestValidator, ClientKind::Firedancer, ClientKind::Unknown],
            false,
            seq![(SourceKind::AnzaDocs, "docs.anza.xyz/operations/requirements"@, "2026-08"@, false), (SourceKind::Operator, "solanahcl.org, agave CPU list"@, "2026-08"@, false)],
        )
    } else if i == 4 {
        (
            "PF-HW-0005"@,
            Layer::Hw,
            Severity::Degraded,
            "Installed memory"@,
            seq![Profile::Local, Profile::Testnet, Profile::Mainnet],
            seq![ClientKind::AgaveValidator, ClientKind::TestValidator, ClientKind::Firedancer, ClientKind::Unknown],
            false,
            seq![(SourceKind::AnzaDocs, "docs.anza.xyz/operations/requirements"@, "2026-08"@, false)],
        )
    } else if i == 5 {
        (
            "PF-HW-0006"@,
            Layer::Hw,
            Severity::Degraded,
            "CPU is one somebody has reported on"@,
            seq![Profile::Testnet, Profile::Mainnet],
            seq![ClientKind::AgaveValidator, ClientKind::TestValidator, ClientKind::Firedancer, ClientKind::Unknown],
            false,
            seq![(SourceKind::Operator, "solanahcl.org, agave CPU list"@, "2026-08"@, false)],
        )
    } else if i == 6 {
        (
            "PF-HW-0007"@,
            Layer::Hw,
            Severity::Advisory,
            "Operating system is still in standard support"@,
            seq![Profile::Testnet, Profile::Mainnet],
            seq![ClientKind::AgaveValidator, ClientKind::TestValidator, ClientKind::Firedancer, ClientKind::Unknown],
            false,
            seq![(SourceKind::Operator, "ubuntu.com/about/release-cycle"@, "2026-08"@, false)],
        )
    } else if i == 7 {
        (
            "PF-KRN-0001"@,
            Layer::Kernel,
            Severity::Fatal,
            "net.core.rmem_max"@,
            seq![Profile::Local, Profile::Testnet, Profile::Mainnet],
            seq![ClientKind::AgaveValidator, ClientKind::TestValidator, ClientKind::Firedancer, ClientKind::Unknown],
            false,
            seq![(SourceKind::AgaveSymbol, "INTERESTING_LIMITS"@, "v4.2.1"@, false), (SourceKind::AgaveSymbol, "check_os_network_limits()"@, "v4.2.1"@, false)],
        )
    } else if i == 8 {
        (
            "PF-KRN-0002"@,
            Layer::Kernel,
            Severity::Fatal,
            "net.core.wmem_max"@,
            seq![Profile::Local, Profile::Testnet, Profile::Mainnet],
            seq![ClientKind::AgaveValidator, ClientKind::TestValidator, ClientKind::Firedancer, ClientKind::Unknown],
            false,
            seq![(SourceKind::AgaveSymbol, "INTERESTING_LIMITS"@, "v4.2.1"@, false), (SourceKind::AgaveSymbol, "check_os_network_limits()"@, "v4.2.1"@, false)],
        )
    } else if i == 9 {
        (
            "PF-KRN-0003"@,
            Layer::Kernel,
            Severity::Fatal,
            "vm.max_map_count"@,
            seq![Profile::Local, Profile::Testnet, Profile::Mainnet],
            seq![ClientKind::AgaveValidator, ClientKind::TestValidator, ClientKind::Firedancer, ClientKind::Unknown],
            false,
            seq![(SourceKind::AgaveSymbol, "INTERESTING_LIMITS"@, "v4.2.1"@, false), (SourceKind::AgaveSymbol, "check_os_network_limits()"@, "v4.2.1"@, false)],
        )
    } else if i == 10 {
        (
            "PF-KRN-0004"@,
            Layer::Kernel,
            Severity::Fatal,
            "fs.nr_open"@,
            seq![Profile::Local, Profile::Testnet, Profile::Mainnet],
            seq![ClientKind::AgaveValidator, ClientKind::TestValidator, ClientKind::Firedancer, ClientKind::Unknown],
            false,
            seq![(SourceKind::AnzaDocs, "docs.anza.xyz/operations/setup-a-validator, System Tuning"@, "2026-08"@, false)],
        )
    } else if i == 11 {
        (
            "PF-KRN-0005"@,
            Layer::Kernel,
            Severity::Degraded,
            "Kernel carries the XDP mode in use"@,
            seq![Profile::Testnet, Profile::Mainnet],
            seq![ClientKind::AgaveValidator],
            false,
            seq![(SourceKind::AnzaBlog, "anza.xyz/blog/agave-xdp-setup-guide, zero copy kernel versions"@, "2026-08"@, false)],
        )
    } else if i == 12 {
        (
            "PF-FS-0001"@,
            Layer::Fs,
            Severity::Degraded,
            "Storage capacity and headroom"@,
            seq![Profile::Testnet, Profile::Mainnet],
            seq![ClientKind::AgaveValidator, ClientKind::TestValidator, ClientKind::Firedancer, ClientKind::Unknown],
            false,
            seq![(SourceKind::AnzaDocs, "docs.anza.xyz/operations/requirements, Disk Storage"@, "2026-08"@, false), (SourceKind::Operator, "headroom figure is preflight's own, not published"@, "2026-08"@, false)],
        )
    } else if i == 13 {
        (
            "PF-FS-0002"@,
            Layer::Fs,
            Severity::Degraded,
            "Accounts and ledger on separate devices"@,
            seq![Profile::Testnet, Profile::Mainnet],
            seq![ClientKind::AgaveValidator, ClientKind::TestValidator, ClientKind::Firedancer, ClientKind::Unknown],
            false,
            seq![(SourceKind::AnzaDocs, "docs.anza.xyz/operations/requirements, Disk Storage"@, "2026-08"@, false)],
        )
    } else if i == 14 {
        (
            "PF-FS-0003"@,
            Layer::Fs,
            Severity::Degraded,
            "Storage is solid-state and local"@,
            seq![Profile::Testnet, Profile::Mainnet],
            seq![ClientKind::AgaveValidator, ClientKind::TestValidator, ClientKind::Firedancer, ClientKind::Unknown],
            false,
            seq![(SourceKind::AnzaDocs, "docs.anza.xyz/operations/requirements, Disk Storage"@, "2026-08"@, false)],
        )
    } else if i == 15 {
        (
            "PF-FS-0004"@,
            Layer::Fs,
            Severity::Advisory,
            "noatime on validator filesystems"@,
            seq![Profile::Testnet, Profile::Mainnet],
            seq![ClientKind::AgaveValidator, ClientKind::TestValidator, ClientKind::Firedancer, ClientKind::Unknown],
            false,
            seq![(SourceKind::Operator, "operator practice, not published by Anza"@, "2026-08"@, false)],
        )
    } else if i == 16 {
        (
            "PF-FS-0005"@,
            Layer::Fs,
            Severity::Advisory,
            "Filesystem is ext4 or xfs"@,
            seq![Profile::Testnet, Profile::Mainnet],
            seq![ClientKind::AgaveValidator, ClientKind::TestValidator, ClientKind::Firedancer, ClientKind::Unknown],
            false,
            seq![(SourceKind::AnzaDocs, "docs.anza.xyz/operations/requirements, Disk Storage"@, "2026-08"@, false)],
        )
    } else if i == 17 {
        (
            "PF-FS-0006"@,
            Layer::Fs,
            Severity::Degraded,
            "Accounts filesystem supports direct I/O"@,
            seq![Profile::Testnet, Profile::Mainnet],
            seq![ClientKind::AgaveValidator, ClientKind::TestValidator, ClientKind::Firedancer, ClientKind::Unknown],
            false,
            seq![(SourceKind::AgaveChangelog, "v4.0 Validator/Changes"@, "v4.2.1"@, false)],
        )
    } else if i == 18 {
        (
            "PF-FS-0007"@,
            Layer::Fs,
            Severity::Degraded,
            "Ledger retention fits the disk holding it"@,
            seq![Profile::Testnet, Profile::Mainnet],
            seq![ClientKind::AgaveValidator],
            false,
            seq![(SourceKind::AgaveSymbol, "DEFAULT_MAX_BLOCKSTORE_SHREDS and the sizing comment above it in cleanup_service.rs"@, "agave master"@, false)],
        )
    } else if i == 19 {
        (
            "PF-NET-0001"@,
            Layer::Net,
            Severity::Degraded,
            "Network driver carries the XDP transmit path"@,
            seq![Profile::Testnet, Profile::Mainnet],
            seq![ClientKind::AgaveValidator, ClientKind::TestValidator, ClientKind::Firedancer, ClientKind::Unknown],
            false,
            seq![(SourceKind::Operator, "solanahcl.org, network card list"@, "2026-08"@, false)],
        )
    } else if i == 20 {
        (
            "PF-ARG-0001"@,
            Layer::Arg,
            Severity::Fatal,
            "Dynamic port range is wide enough"@,
            seq![Profile::Testnet, Profile::Mainnet],
            seq![ClientKind::AgaveValidator],
            false,
            seq![(SourceKind::AgaveSymbol, "MINIMUM_VALIDATOR_PORT_RANGE_WIDTH"@, "v4.2.1"@, false), (SourceKind::AgaveChangelog, "v4.1 Validator/Breaking"@, "v4.2.1"@, false)],
        )
    } else if i == 21 {
        (
            "PF-ARG-0002"@,
            Layer::Arg,
            Severity::Fatal,
            "Private addressing requires --no-xdp"@,
            seq![Profile::Local, Profile::Testnet, Profile::Mainnet],
            seq![ClientKind::AgaveValidator],
            false,
            seq![(SourceKind::AgaveChangelog, "v4.2 Validator/Changes"@, "v4.2.1"@, false)],
        )
    } else if i == 22 {
        (
            "PF-ARG-0003"@,
            Layer::Arg,
            Severity::Fatal,
            "No arguments removed in v4.0"@,
            seq![Profile::Local, Profile::Testnet, Profile::Mainnet],
            seq![ClientKind::AgaveValidator, ClientKind::TestValidator],
            false,
            seq![(SourceKind::AgaveChangelog, "v4.0 Validator/Breaking"@, "v4.2.1"@, false)],
        )
    } else if i == 23 {
        (
            "PF-ARG-0004"@,
            Layer::Arg,
            Severity::Fatal,
            "Block verification method is supported"@,
            seq![Profile::Testnet, Profile::Mainnet],
            seq![ClientKind::AgaveValidator],
            false,
            seq![(SourceKind::AgaveChangelog, "v4.0 Validator/Breaking"@, "v4.2.1"@, false)],
        )
    } else if i == 24 {
        (
            "PF-ARG-0005"@,
            Layer::Arg,
            Severity::Degraded,
            "Block production method is supported"@,
            seq![Profile::Testnet, Profile::Mainnet],
            seq![ClientKind::AgaveValidator],
            false,
            seq![(SourceKind::AgaveChangelog, "v4.1 Validator/Breaking"@, "v4.2.1"@, false)],
        )
    } else if i == 25 {
        (
            "PF-ARG-0006"@,
            Layer::Arg,
            Severity::Degraded,
            "No deprecated experimental XDP flags"@,
            seq![Profile::Testnet, Profile::Mainnet],
            seq![ClientKind::AgaveValidator],
            false,
            seq![(SourceKind::AgaveChangelog, "v4.1 Validator/Deprecations"@, "v4.2.1"@, false)],
        )
    } else if i == 26 {
        (
            "PF-ARG-0007"@,
            Layer::Arg,
            Severity::Degraded,
            "PoH pinned core flag uses the current name"@,
            seq![Profile::Testnet, Profile::Mainnet],
            seq![ClientKind::AgaveValidator],
            false,
            seq![(SourceKind::AgaveChangelog, "v4.2 Validator/Deprecations"@, "v4.2.1"@, false)],
        )
    } else if i == 27 {
        (
            "PF-ARG-0008"@,
            Layer::Arg,
            Severity::Degraded,
            "No deprecated accounts-db arguments"@,
            seq![Profile::Testnet, Profile::Mainnet],
            seq![ClientKind::AgaveValidator],
            false,
            seq![(SourceKind::AgaveChangelog, "v4.1 Validator/Deprecations"@, "v4.2.1"@, false), (SourceKind::AgaveChangelog, "v4.2 Validator/Deprecations"@, "v4.2.1"@, false)],
        )
    } else if i == 28 {
        (
            "PF-ARG-0009"@,
            Layer::Arg,
            Severity::Degraded,
            "Accounts index limit is set explicitly"@,
            seq![Profile::Testnet, Profile::Mainnet],
            seq![ClientKind::AgaveValidator],
            false,
            seq![(SourceKind::AgaveChangelog, "v4.1 Validator/Deprecations"@, "v4.2.1"@, false)],
        )
    } else if i == 29 {
        (
            "PF-ARG-0010"@,
            Layer::Arg,
            Severity::Degraded,
            "Direct I/O setting matches the accounts filesystem"@,
            seq![Profile::Testnet, Profile::Mainnet],
            seq![ClientKind::AgaveValidator],
            false,
            seq![(SourceKind::AgaveChangelog, "v4.0 Validator/Changes"@, "v4.2.1"@, false)],
        )
    } else if i == 30 {
        (
            "PF-ARG-0011"@,
            Layer::Arg,
            Severity::Degraded,
            "Ledger size limit uses the current flag"@,
            seq![Profile::Testnet, Profile::Mainnet],
            seq![ClientKind::AgaveValidator],
            false,
            seq![(SourceKind::AgaveSymbol, "BlockstoreCleanupStrategy, CountDataShreds vs CountDataAndCodingShreds"@, "agave master"@, false), (SourceKind::AgaveSymbol, "LEGACY_DEFAULT_MAX_LEDGER_SHREDS 200000000, DEFAULT_MAX_BLOCKSTORE_SHREDS 400000000"@, "agave master"@, false), (SourceKind::AgaveSymbol, "--limit-blockstore-size, present in agave-validator --help"@, "4.3.0-beta.0"@, false)],
        )
    } else if i == 31 {
        (
            "PF-ARG-0012"@,
            Layer::Arg,
            Severity::Advisory,
            "Banking trace flag still expresses something"@,
            seq![Profile::Testnet, Profile::Mainnet],
            seq![ClientKind::AgaveValidator],
            false,
            seq![(SourceKind::AgaveChangelog, "4.3.0-Unreleased Validator/Deprecations"@, "master 2026-08"@, true)],
        )
    } else if i == 32 {
        (
            "PF-ARG-0013"@,
            Layer::Arg,
            Severity::Fatal,
            "No removed TPU connection pool argument"@,
            seq![Profile::Testnet, Profile::Mainnet],
            seq![ClientKind::AgaveValidator],
            false,
            seq![(SourceKind::AgaveSymbol, "--tpu-connection-pool-size, absent from agave-validator --help"@, "4.3.0-beta.0"@, false)],
        )
    } else if i == 33 {
        (
            "PF-ARG-0014"@,
            Layer::Arg,
            Severity::Degraded,
            "Every flag that takes a value has one"@,
            seq![Profile::Local, Profile::Testnet, Profile::Mainnet],
            seq![ClientKind::AgaveValidator],
            false,
            seq![(SourceKind::AgaveSymbol, "value placeholders in agave-validator --help"@, "4.3.0-beta.0"@, false)],
        )
    } else if i == 34 {
        (
            "PF-XDP-0001"@,
            Layer::Xdp,
            Severity::Degraded,
            "XDP capabilities are in the permitted set"@,
            seq![Profile::Local, Profile::Testnet, Profile::Mainnet],
            seq![ClientKind::AgaveValidator],
            false,
            seq![(SourceKind::AgaveChangelog, "v4.0 Validator/Breaking (#9133)"@, "v4.2.1"@, false), (SourceKind::AgaveChangelog, "v4.2 Validator/Breaking"@, "v4.2.1"@, false)],
        )
    } else {
        (
            "PF-XDP-0007"@,
            Layer::Xdp,
            Severity::Degraded,
            "Capabilities come from the unit, not from setcap"@,
            seq![Profile::Testnet, Profile::Mainnet],
            seq![ClientKind::AgaveValidator],
            true,
            seq![(SourceKind::AgaveChangelog, "v4.0 Validator/Breaking (#9133)"@, "v4.2.1"@, false)],
        )
    }
}

/// Every check preflight runs, in the order it runs them.
pub fn registry() -> (r: Vec<Check>)
    ensures
        r@.len() == check_ids().len(),
        forall|i: int| 0 <= i < r@.len() ==> (#[trigger] r@[i]).id@ == check_ids()[i],
        forall|i: int| 0 <= i < r@.len() ==> check_row(#[trigger] r@[i]) == check_table(i),
        forall|i: int| 0 <= i < r@.len() ==> (#[trigger] r@[i]).source@.len() > 0,
        forall|i: int|
            0 <= i < r@.len() && layer_needs_validator((#[trigger] r@[i]).layer) ==> !r@[i].clients@.contains(
                ClientKind::Firedancer,
            ),
{
    let mut v: Vec<Check> = Vec::new();
    let mut s: Vec<Source> = Vec::new();
    s.push(source(SourceKind::AnzaDocs, "docs.anza.xyz/operations/requirements", "2026-08", false));
    v.push(
        Check {
            id: owned("PF-HW-0001"),
            layer: Layer::Hw,
            severity: Severity::Fatal,
            title: owned("CPU architecture is x86-64"),
            profiles: testnet_mainnet(),
            clients: every_client(),
            needs_root: false,
            source: s,
        },
    );
    assert(v@[0].source@.map_values(|s: Source| source_row(s)) =~= check_table(0).7);
    assert(check_row(v@[0]) == check_table(0));
    let mut s: Vec<Source> = Vec::new();
    s.push(source(SourceKind::AnzaDocs, "docs.anza.xyz/operations/requirements", "2026-08", false));
    v.push(
        Check {
            id: owned("PF-HW-0002"),
            layer: Layer::Hw,
            severity: Severity::Fatal,
            title: owned("CPU supports AVX2"),
            profiles: testnet_mainnet(),
            clients: every_client(),
            needs_root: false,
            source: s,
        },
    );
    assert(v@[1].source@.map_values(|s: Source| source_row(s)) =~= check_table(1).7);
    assert(check_row(v@[1]) == check_table(1));
    let mut s: Vec<Source> = Vec::new();
    s.push(source(SourceKind::AnzaDocs, "docs.anza.xyz/operations/requirements", "2026-08", false));
    v.push(
        Check {
            id: owned("PF-HW-0003"),
            layer: Layer::Hw,
            severity: Severity::Degraded,
            title: owned("CPU base clock is 2.8 GHz or faster"),
            profiles: testnet_mainnet(),
            clients: every_client(),
            needs_root: false,
            source: s,
        },
    );
    assert(v@[2].source@.map_values(|s: Source| source_row(s)) =~= check_table(2).7);
    assert(check_row(v@[2]) == check_table(2));
    let mut s: Vec<Source> = Vec::new();
    s.push(source(SourceKind::AnzaDocs, "docs.anza.xyz/operations/requirements", "2026-08", false));
    s.push(source(SourceKind::Operator, "solanahcl.org, agave CPU list", "2026-08", false));
    v.push(
        Check {
            id: owned("PF-HW-0004"),
            layer: Layer::Hw,
            severity: Severity::Advisory,
            title: owned("CPU core and thread count"),
            profiles: testnet_mainnet(),
            clients: every_client(),
            needs_root: false,
            source: s,
        },
    );
    assert(v@[3].source@.map_values(|s: Source| source_row(s)) =~= check_table(3).7);
    assert(check_row(v@[3]) == check_table(3));
    let mut s: Vec<Source> = Vec::new();
    s.push(source(SourceKind::AnzaDocs, "docs.anza.xyz/operations/requirements", "2026-08", false));
    v.push(
        Check {
            id: owned("PF-HW-0005"),
            layer: Layer::Hw,
            severity: Severity::Degraded,
            title: owned("Installed memory"),
            profiles: every_profile(),
            clients: every_client(),
            needs_root: false,
            source: s,
        },
    );
    assert(v@[4].source@.map_values(|s: Source| source_row(s)) =~= check_table(4).7);
    assert(check_row(v@[4]) == check_table(4));
    let mut s: Vec<Source> = Vec::new();
    s.push(source(SourceKind::Operator, "solanahcl.org, agave CPU list", "2026-08", false));
    v.push(
        Check {
            id: owned("PF-HW-0006"),
            layer: Layer::Hw,
            severity: Severity::Degraded,
            title: owned("CPU is one somebody has reported on"),
            profiles: testnet_mainnet(),
            clients: every_client(),
            needs_root: false,
            source: s,
        },
    );
    assert(v@[5].source@.map_values(|s: Source| source_row(s)) =~= check_table(5).7);
    assert(check_row(v@[5]) == check_table(5));
    let mut s: Vec<Source> = Vec::new();
    s.push(source(SourceKind::Operator, "ubuntu.com/about/release-cycle", "2026-08", false));
    v.push(
        Check {
            id: owned("PF-HW-0007"),
            layer: Layer::Hw,
            severity: Severity::Advisory,
            title: owned("Operating system is still in standard support"),
            profiles: testnet_mainnet(),
            clients: every_client(),
            needs_root: false,
            source: s,
        },
    );
    assert(v@[6].source@.map_values(|s: Source| source_row(s)) =~= check_table(6).7);
    assert(check_row(v@[6]) == check_table(6));
    let mut s: Vec<Source> = Vec::new();
    s.push(source(SourceKind::AgaveSymbol, "INTERESTING_LIMITS", "v4.2.1", false));
    s.push(source(SourceKind::AgaveSymbol, "check_os_network_limits()", "v4.2.1", false));
    v.push(
        Check {
            id: owned("PF-KRN-0001"),
            layer: Layer::Kernel,
            severity: Severity::Fatal,
            title: owned("net.core.rmem_max"),
            profiles: every_profile(),
            clients: every_client(),
            needs_root: false,
            source: s,
        },
    );
    assert(v@[7].source@.map_values(|s: Source| source_row(s)) =~= check_table(7).7);
    assert(check_row(v@[7]) == check_table(7));
    let mut s: Vec<Source> = Vec::new();
    s.push(source(SourceKind::AgaveSymbol, "INTERESTING_LIMITS", "v4.2.1", false));
    s.push(source(SourceKind::AgaveSymbol, "check_os_network_limits()", "v4.2.1", false));
    v.push(
        Check {
            id: owned("PF-KRN-0002"),
            layer: Layer::Kernel,
            severity: Severity::Fatal,
            title: owned("net.core.wmem_max"),
            profiles: every_profile(),
            clients: every_client(),
            needs_root: false,
            source: s,
        },
    );
    assert(v@[8].source@.map_values(|s: Source| source_row(s)) =~= check_table(8).7);
    assert(check_row(v@[8]) == check_table(8));
    let mut s: Vec<Source> = Vec::new();
    s.push(source(SourceKind::AgaveSymbol, "INTERESTING_LIMITS", "v4.2.1", false));
    s.push(source(SourceKind::AgaveSymbol, "check_os_network_limits()", "v4.2.1", false));
    v.push(
        Check {
            id: owned("PF-KRN-0003"),
            layer: Layer::Kernel,
            severity: Severity::Fatal,
            title: owned("vm.max_map_count"),
            profiles: every_profile(),
            clients: every_client(),
            needs_root: false,
            source: s,
        },
    );
    assert(v@[9].source@.map_values(|s: Source| source_row(s)) =~= check_table(9).7);
    assert(check_row(v@[9]) == check_table(9));
    let mut s: Vec<Source> = Vec::new();
    s.push(source(SourceKind::AnzaDocs, "docs.anza.xyz/operations/setup-a-validator, System Tuning", "2026-08", false));
    v.push(
        Check {
            id: owned("PF-KRN-0004"),
            layer: Layer::Kernel,
            severity: Severity::Fatal,
            title: owned("fs.nr_open"),
            profiles: every_profile(),
            clients: every_client(),
            needs_root: false,
            source: s,
        },
    );
    assert(v@[10].source@.map_values(|s: Source| source_row(s)) =~= check_table(10).7);
    assert(check_row(v@[10]) == check_table(10));
    let mut s: Vec<Source> = Vec::new();
    s.push(source(SourceKind::AnzaBlog, "anza.xyz/blog/agave-xdp-setup-guide, zero copy kernel versions", "2026-08", false));
    v.push(
        Check {
            id: owned("PF-KRN-0005"),
            layer: Layer::Kernel,
            severity: Severity::Degraded,
            title: owned("Kernel carries the XDP mode in use"),
            profiles: testnet_mainnet(),
            clients: agave_only(),
            needs_root: false,
            source: s,
        },
    );
    assert(v@[11].source@.map_values(|s: Source| source_row(s)) =~= check_table(11).7);
    assert(check_row(v@[11]) == check_table(11));
    let mut s: Vec<Source> = Vec::new();
    s.push(source(SourceKind::AnzaDocs, "docs.anza.xyz/operations/requirements, Disk Storage", "2026-08", false));
    s.push(source(SourceKind::Operator, "headroom figure is preflight's own, not published", "2026-08", false));
    v.push(
        Check {
            id: owned("PF-FS-0001"),
            layer: Layer::Fs,
            severity: Severity::Degraded,
            title: owned("Storage capacity and headroom"),
            profiles: testnet_mainnet(),
            clients: every_client(),
            needs_root: false,
            source: s,
        },
    );
    assert(v@[12].source@.map_values(|s: Source| source_row(s)) =~= check_table(12).7);
    assert(check_row(v@[12]) == check_table(12));
    let mut s: Vec<Source> = Vec::new();
    s.push(source(SourceKind::AnzaDocs, "docs.anza.xyz/operations/requirements, Disk Storage", "2026-08", false));
    v.push(
        Check {
            id: owned("PF-FS-0002"),
            layer: Layer::Fs,
            severity: Severity::Degraded,
            title: owned("Accounts and ledger on separate devices"),
            profiles: testnet_mainnet(),
            clients: every_client(),
            needs_root: false,
            source: s,
        },
    );
    assert(v@[13].source@.map_values(|s: Source| source_row(s)) =~= check_table(13).7);
    assert(check_row(v@[13]) == check_table(13));
    let mut s: Vec<Source> = Vec::new();
    s.push(source(SourceKind::AnzaDocs, "docs.anza.xyz/operations/requirements, Disk Storage", "2026-08", false));
    v.push(
        Check {
            id: owned("PF-FS-0003"),
            layer: Layer::Fs,
            severity: Severity::Degraded,
            title: owned("Storage is solid-state and local"),
            profiles: testnet_mainnet(),
            clients: every_client(),
            needs_root: false,
            source: s,
        },
    );
    assert(v@[14].source@.map_values(|s: Source| source_row(s)) =~= check_table(14).7);
    assert(check_row(v@[14]) == check_table(14));
    let mut s: Vec<Source> = Vec::new();
    s.push(source(SourceKind::Operator, "operator practice, not published by Anza", "2026-08", false));
    v.push(
        Check {
            id: owned("PF-FS-0004"),
            layer: Layer::Fs,
            severity: Severity::Advisory,
            title: owned("noatime on validator filesystems"),
            profiles: testnet_mainnet(),
            clients: every_client(),
            needs_root: false,
            source: s,
        },
    );
    assert(v@[15].source@.map_values(|s: Source| source_row(s)) =~= check_table(15).7);
    assert(check_row(v@[15]) == check_table(15));
    let mut s: Vec<Source> = Vec::new();
    s.push(source(SourceKind::AnzaDocs, "docs.anza.xyz/operations/requirements, Disk Storage", "2026-08", false));
    v.push(
        Check {
            id: owned("PF-FS-0005"),
            layer: Layer::Fs,
            severity: Severity::Advisory,
            title: owned("Filesystem is ext4 or xfs"),
            profiles: testnet_mainnet(),
            clients: every_client(),
            needs_root: false,
            source: s,
        },
    );
    assert(v@[16].source@.map_values(|s: Source| source_row(s)) =~= check_table(16).7);
    assert(check_row(v@[16]) == check_table(16));
    let mut s: Vec<Source> = Vec::new();
    s.push(source(SourceKind::AgaveChangelog, "v4.0 Validator/Changes", "v4.2.1", false));
    v.push(
        Check {
            id: owned("PF-FS-0006"),
            layer: Layer::Fs,
            severity: Severity::Degraded,
            title: owned("Accounts filesystem supports direct I/O"),
            profiles: testnet_mainnet(),
            clients: every_client(),
            needs_root: false,
            source: s,
        },
    );
    assert(v@[17].source@.map_values(|s: Source| source_row(s)) =~= check_table(17).7);
    assert(check_row(v@[17]) == check_table(17));
    let mut s: Vec<Source> = Vec::new();
    s.push(source(SourceKind::AgaveSymbol, "DEFAULT_MAX_BLOCKSTORE_SHREDS and the sizing comment above it in cleanup_service.rs", "agave master", false));
    v.push(
        Check {
            id: owned("PF-FS-0007"),
            layer: Layer::Fs,
            severity: Severity::Degraded,
            title: owned("Ledger retention fits the disk holding it"),
            profiles: testnet_mainnet(),
            clients: agave_only(),
            needs_root: false,
            source: s,
        },
    );
    assert(v@[18].source@.map_values(|s: Source| source_row(s)) =~= check_table(18).7);
    assert(check_row(v@[18]) == check_table(18));
    let mut s: Vec<Source> = Vec::new();
    s.push(source(SourceKind::Operator, "solanahcl.org, network card list", "2026-08", false));
    v.push(
        Check {
            id: owned("PF-NET-0001"),
            layer: Layer::Net,
            severity: Severity::Degraded,
            title: owned("Network driver carries the XDP transmit path"),
            profiles: testnet_mainnet(),
            clients: every_client(),
            needs_root: false,
            source: s,
        },
    );
    assert(v@[19].source@.map_values(|s: Source| source_row(s)) =~= check_table(19).7);
    assert(check_row(v@[19]) == check_table(19));
    let mut s: Vec<Source> = Vec::new();
    s.push(source(SourceKind::AgaveSymbol, "MINIMUM_VALIDATOR_PORT_RANGE_WIDTH", "v4.2.1", false));
    s.push(source(SourceKind::AgaveChangelog, "v4.1 Validator/Breaking", "v4.2.1", false));
    v.push(
        Check {
            id: owned("PF-ARG-0001"),
            layer: Layer::Arg,
            severity: Severity::Fatal,
            title: owned("Dynamic port range is wide enough"),
            profiles: testnet_mainnet(),
            clients: agave_only(),
            needs_root: false,
            source: s,
        },
    );
    assert(v@[20].source@.map_values(|s: Source| source_row(s)) =~= check_table(20).7);
    assert(check_row(v@[20]) == check_table(20));
    let mut s: Vec<Source> = Vec::new();
    s.push(source(SourceKind::AgaveChangelog, "v4.2 Validator/Changes", "v4.2.1", false));
    v.push(
        Check {
            id: owned("PF-ARG-0002"),
            layer: Layer::Arg,
            severity: Severity::Fatal,
            title: owned("Private addressing requires --no-xdp"),
            profiles: every_profile(),
            clients: agave_only(),
            needs_root: false,
            source: s,
        },
    );
    assert(v@[21].source@.map_values(|s: Source| source_row(s)) =~= check_table(21).7);
    assert(check_row(v@[21]) == check_table(21));
    let mut s: Vec<Source> = Vec::new();
    s.push(source(SourceKind::AgaveChangelog, "v4.0 Validator/Breaking", "v4.2.1", false));
    v.push(
        Check {
            id: owned("PF-ARG-0003"),
            layer: Layer::Arg,
            severity: Severity::Fatal,
            title: owned("No arguments removed in v4.0"),
            profiles: every_profile(),
            clients: agave_and_test(),
            needs_root: false,
            source: s,
        },
    );
    assert(v@[22].source@.map_values(|s: Source| source_row(s)) =~= check_table(22).7);
    assert(check_row(v@[22]) == check_table(22));
    let mut s: Vec<Source> = Vec::new();
    s.push(source(SourceKind::AgaveChangelog, "v4.0 Validator/Breaking", "v4.2.1", false));
    v.push(
        Check {
            id: owned("PF-ARG-0004"),
            layer: Layer::Arg,
            severity: Severity::Fatal,
            title: owned("Block verification method is supported"),
            profiles: testnet_mainnet(),
            clients: agave_only(),
            needs_root: false,
            source: s,
        },
    );
    assert(v@[23].source@.map_values(|s: Source| source_row(s)) =~= check_table(23).7);
    assert(check_row(v@[23]) == check_table(23));
    let mut s: Vec<Source> = Vec::new();
    s.push(source(SourceKind::AgaveChangelog, "v4.1 Validator/Breaking", "v4.2.1", false));
    v.push(
        Check {
            id: owned("PF-ARG-0005"),
            layer: Layer::Arg,
            severity: Severity::Degraded,
            title: owned("Block production method is supported"),
            profiles: testnet_mainnet(),
            clients: agave_only(),
            needs_root: false,
            source: s,
        },
    );
    assert(v@[24].source@.map_values(|s: Source| source_row(s)) =~= check_table(24).7);
    assert(check_row(v@[24]) == check_table(24));
    let mut s: Vec<Source> = Vec::new();
    s.push(source(SourceKind::AgaveChangelog, "v4.1 Validator/Deprecations", "v4.2.1", false));
    v.push(
        Check {
            id: owned("PF-ARG-0006"),
            layer: Layer::Arg,
            severity: Severity::Degraded,
            title: owned("No deprecated experimental XDP flags"),
            profiles: testnet_mainnet(),
            clients: agave_only(),
            needs_root: false,
            source: s,
        },
    );
    assert(v@[25].source@.map_values(|s: Source| source_row(s)) =~= check_table(25).7);
    assert(check_row(v@[25]) == check_table(25));
    let mut s: Vec<Source> = Vec::new();
    s.push(source(SourceKind::AgaveChangelog, "v4.2 Validator/Deprecations", "v4.2.1", false));
    v.push(
        Check {
            id: owned("PF-ARG-0007"),
            layer: Layer::Arg,
            severity: Severity::Degraded,
            title: owned("PoH pinned core flag uses the current name"),
            profiles: testnet_mainnet(),
            clients: agave_only(),
            needs_root: false,
            source: s,
        },
    );
    assert(v@[26].source@.map_values(|s: Source| source_row(s)) =~= check_table(26).7);
    assert(check_row(v@[26]) == check_table(26));
    let mut s: Vec<Source> = Vec::new();
    s.push(source(SourceKind::AgaveChangelog, "v4.1 Validator/Deprecations", "v4.2.1", false));
    s.push(source(SourceKind::AgaveChangelog, "v4.2 Validator/Deprecations", "v4.2.1", false));
    v.push(
        Check {
            id: owned("PF-ARG-0008"),
            layer: Layer::Arg,
            severity: Severity::Degraded,
            title: owned("No deprecated accounts-db arguments"),
            profiles: testnet_mainnet(),
            clients: agave_only(),
            needs_root: false,
            source: s,
        },
    );
    assert(v@[27].source@.map_values(|s: Source| source_row(s)) =~= check_table(27).7);
    assert(check_row(v@[27]) == check_table(27));
    let mut s: Vec<Source> = Vec::new();
    s.push(source(SourceKind::AgaveChangelog, "v4.1 Validator/Deprecations", "v4.2.1", false));
    v.push(
        Check {
            id: owned("PF-ARG-0009"),
            layer: Layer::Arg,
            severity: Severity::Degraded,
            title: owned("Accounts index limit is set explicitly"),
            profiles: testnet_mainnet(),
            clients: agave_only(),
            needs_root: false,
            source: s,
        },
    );
    assert(v@[28].source@.map_values(|s: Source| source_row(s)) =~= check_table(28).7);
    assert(check_row(v@[28]) == check_table(28));
    let mut s: Vec<Source> = Vec::new();
    s.push(source(SourceKind::AgaveChangelog, "v4.0 Validator/Changes", "v4.2.1", false));
    v.push(
        Check {
            id: owned("PF-ARG-0010"),
            layer: Layer::Arg,
            severity: Severity::Degraded,
            title: owned("Direct I/O setting matches the accounts filesystem"),
            profiles: testnet_mainnet(),
            clients: agave_only(),
            needs_root: false,
            source: s,
        },
    );
    assert(v@[29].source@.map_values(|s: Source| source_row(s)) =~= check_table(29).7);
    assert(check_row(v@[29]) == check_table(29));
    let mut s: Vec<Source> = Vec::new();
    s.push(source(SourceKind::AgaveSymbol, "BlockstoreCleanupStrategy, CountDataShreds vs CountDataAndCodingShreds", "agave master", false));
    s.push(source(SourceKind::AgaveSymbol, "LEGACY_DEFAULT_MAX_LEDGER_SHREDS 200000000, DEFAULT_MAX_BLOCKSTORE_SHREDS 400000000", "agave master", false));
    s.push(source(SourceKind::AgaveSymbol, "--limit-blockstore-size, present in agave-validator --help", "4.3.0-beta.0", false));
    v.push(
        Check {
            id: owned("PF-ARG-0011"),
            layer: Layer::Arg,
            severity: Severity::Degraded,
            title: owned("Ledger size limit uses the current flag"),
            profiles: testnet_mainnet(),
            clients: agave_only(),
            needs_root: false,
            source: s,
        },
    );
    assert(v@[30].source@.map_values(|s: Source| source_row(s)) =~= check_table(30).7);
    assert(check_row(v@[30]) == check_table(30));
    let mut s: Vec<Source> = Vec::new();
    s.push(source(SourceKind::AgaveChangelog, "4.3.0-Unreleased Validator/Deprecations", "master 2026-08", true));
    v.push(
        Check {
            id: owned("PF-ARG-0012"),
            layer: Layer::Arg,
            severity: Severity::Advisory,
            title: owned("Banking trace flag still expresses something"),
            profiles: testnet_mainnet(),
            clients: agave_only(),
            needs_root: false,
            source: s,
        },
    );
    assert(v@[31].source@.map_values(|s: Source| source_row(s)) =~= check_table(31).7);
    assert(check_row(v@[31]) == check_table(31));
    let mut s: Vec<Source> = Vec::new();
    s.push(source(SourceKind::AgaveSymbol, "--tpu-connection-pool-size, absent from agave-validator --help", "4.3.0-beta.0", false));
    v.push(
        Check {
            id: owned("PF-ARG-0013"),
            layer: Layer::Arg,
            severity: Severity::Fatal,
            title: owned("No removed TPU connection pool argument"),
            profiles: testnet_mainnet(),
            clients: agave_only(),
            needs_root: false,
            source: s,
        },
    );
    assert(v@[32].source@.map_values(|s: Source| source_row(s)) =~= check_table(32).7);
    assert(check_row(v@[32]) == check_table(32));
    let mut s: Vec<Source> = Vec::new();
    s.push(source(SourceKind::AgaveSymbol, "value placeholders in agave-validator --help", "4.3.0-beta.0", false));
    v.push(
        Check {
            id: owned("PF-ARG-0014"),
            layer: Layer::Arg,
            severity: Severity::Degraded,
            title: owned("Every flag that takes a value has one"),
            profiles: every_profile(),
            clients: agave_only(),
            needs_root: false,
            source: s,
        },
    );
    assert(v@[33].source@.map_values(|s: Source| source_row(s)) =~= check_table(33).7);
    assert(check_row(v@[33]) == check_table(33));
    let mut s: Vec<Source> = Vec::new();
    s.push(source(SourceKind::AgaveChangelog, "v4.0 Validator/Breaking (#9133)", "v4.2.1", false));
    s.push(source(SourceKind::AgaveChangelog, "v4.2 Validator/Breaking", "v4.2.1", false));
    v.push(
        Check {
            id: owned("PF-XDP-0001"),
            layer: Layer::Xdp,
            severity: Severity::Degraded,
            title: owned("XDP capabilities are in the permitted set"),
            profiles: every_profile(),
            clients: agave_only(),
            needs_root: false,
            source: s,
        },
    );
    assert(v@[34].source@.map_values(|s: Source| source_row(s)) =~= check_table(34).7);
    assert(check_row(v@[34]) == check_table(34));
    let mut s: Vec<Source> = Vec::new();
    s.push(source(SourceKind::AgaveChangelog, "v4.0 Validator/Breaking (#9133)", "v4.2.1", false));
    v.push(
        Check {
            id: owned("PF-XDP-0007"),
            layer: Layer::Xdp,
            severity: Severity::Degraded,
            title: owned("Capabilities come from the unit, not from setcap"),
            profiles: testnet_mainnet(),
            clients: agave_only(),
            needs_root: true,
            source: s,
        },
    );
    assert(v@[35].source@.map_values(|s: Source| source_row(s)) =~= check_table(35).7);
    assert(check_row(v@[35]) == check_table(35));
    assert(v@.len() == check_ids().len());
    v
}

/// What a kernel check reports for one key: its running value against the
/// floor, and whether a file restores it.
pub open spec fn kernel_status(c: Ctx, key: Seq<char>, want: i64, kernel_default: i64) -> Status {
    kernel::value_status(
        kernel::sysctl_of(pair_views(c.files.sysctl@), key),
        want,
        kernel_default,
        kernel::persisted_spec(pair_views(c.files.sysctl_files@), key) is Some,
    )
}

/// What a per-path filesystem check reports: the host guard first.
pub open spec fn path_status(c: Ctx, t: fs::PathTest) -> Status {
    match crate::checks::off_linux_status(c) {
        Some(s) => s,
        None => fs::per_path_status(c, t),
    }
}

/// The status the check an id names reports on a context, or none for an id
/// the registry does not hold.
pub open spec fn run_status(id: Seq<char>, c: Ctx) -> Option<Status> {
    if id == "PF-HW-0001"@ {
        Some(hw::architecture_status(c))
    } else if id == "PF-HW-0002"@ {
        Some(hw::avx2_status(c))
    } else if id == "PF-HW-0003"@ {
        Some(hw::base_clock_status(c))
    } else if id == "PF-HW-0004"@ {
        Some(hw::cores_status(c))
    } else if id == "PF-HW-0005"@ {
        Some(hw::memory_status(c))
    } else if id == "PF-HW-0006"@ {
        Some(hw::listed_status(c))
    } else if id == "PF-HW-0007"@ {
        Some(hw::os_support_status(c))
    } else if id == "PF-KRN-0001"@ {
        Some(kernel_status(c, "net.core.rmem_max"@, 134_217_728, 212_992))
    } else if id == "PF-KRN-0002"@ {
        Some(kernel_status(c, "net.core.wmem_max"@, 134_217_728, 212_992))
    } else if id == "PF-KRN-0003"@ {
        Some(kernel_status(c, "vm.max_map_count"@, 1_000_000, 65_530))
    } else if id == "PF-KRN-0004"@ {
        Some(kernel_status(c, "fs.nr_open"@, 1_000_000, 1_048_576))
    } else if id == "PF-KRN-0005"@ {
        Some(kernel::xdp_floor_status(c))
    } else if id == "PF-FS-0001"@ {
        Some(fs::capacity_status(c))
    } else if id == "PF-FS-0002"@ {
        Some(fs::separate_status(c))
    } else if id == "PF-FS-0003"@ {
        Some(fs::media_status(c))
    } else if id == "PF-FS-0004"@ {
        Some(path_status(c, fs::PathTest::Noatime))
    } else if id == "PF-FS-0005"@ {
        Some(path_status(c, fs::PathTest::FsType))
    } else if id == "PF-FS-0006"@ {
        Some(fs::direct_io_support_status(c))
    } else if id == "PF-FS-0007"@ {
        Some(fs::retention_status(c))
    } else if id == "PF-NET-0001"@ {
        Some(net::xdp_driver_status(c))
    } else if id == "PF-ARG-0001"@ {
        Some(arg::gated(c, 4, 1, arg::port_range_inner(arg::args(c))))
    } else if id == "PF-ARG-0002"@ {
        Some(arg::gated(c, 4, 2, arg::private_addr_inner(arg::args(c))))
    } else if id == "PF-ARG-0003"@ {
        Some(arg::gated(c, 4, 0, arg::present_status(present(arg::args(c), arg::removed_in_40_list()))))
    } else if id == "PF-ARG-0004"@ {
        Some(arg::gated(c, 4, 0, arg::bvm_inner(arg::args(c))))
    } else if id == "PF-ARG-0005"@ {
        Some(arg::gated(c, 4, 1, arg::bpm_inner(arg::args(c))))
    } else if id == "PF-ARG-0006"@ {
        Some(arg::gated(c, 4, 1, arg::present_status(present(arg::args(c), arg::deprecated_xdp_list()))))
    } else if id == "PF-ARG-0007"@ {
        Some(arg::gated(c, 4, 2, arg::present_status(present(arg::args(c), seq!["--experimental-poh-pinned-cpu-core"@]))))
    } else if id == "PF-ARG-0008"@ {
        Some(arg::gated(c, 4, 1, arg::present_status(present(arg::args(c), arg::deprecated_adb_list()))))
    } else if id == "PF-ARG-0009"@ {
        Some(arg::gated(c, 4, 1, arg::index_limit_inner(arg::args(c))))
    } else if id == "PF-ARG-0010"@ {
        Some(arg::gated(c, 4, 0, arg::direct_io_inner(c)))
    } else if id == "PF-ARG-0011"@ {
        Some(arg::gated(c, 4, 3, arg::has_inner(arg::args(c), "--limit-ledger-size"@)))
    } else if id == "PF-ARG-0012"@ {
        Some(arg::gated(c, 4, 3, arg::has_inner(arg::args(c), "--disable-banking-trace"@)))
    } else if id == "PF-ARG-0013"@ {
        Some(arg::gated(c, 4, 3, arg::has_inner(arg::args(c), "--tpu-connection-pool-size"@)))
    } else if id == "PF-ARG-0014"@ {
        Some(arg::flag_values_status(c))
    } else if id == "PF-XDP-0001"@ {
        Some(xdp::caps_status(c))
    } else if id == "PF-XDP-0007"@ {
        Some(xdp::persistence_status(c))
    } else {
        None
    }
}

/// What the check an id names promises of its outcome, as that check's
/// own contract states it; false for an id the registry does not hold.
pub open spec fn check_contract(id: Seq<char>, c: Ctx, o: Outcome) -> bool {
    if id == "PF-HW-0001"@ {
        hw::architecture_outcome(c, o)
    } else if id == "PF-HW-0002"@ {
        hw::avx2_outcome(c, o)
    } else if id == "PF-HW-0003"@ {
        hw::base_clock_outcome(c, o)
    } else if id == "PF-HW-0004"@ {
        hw::cores_outcome(c, o)
    } else if id == "PF-HW-0005"@ {
        hw::memory_outcome(c, o)
    } else if id == "PF-HW-0006"@ {
        hw::on_recommended_list_outcome(c, o)
    } else if id == "PF-HW-0007"@ {
        hw::os_support_outcome(c, o)
    } else if id == "PF-KRN-0001"@ {
        kernel::rmem_max_outcome(c, o)
    } else if id == "PF-KRN-0002"@ {
        kernel::wmem_max_outcome(c, o)
    } else if id == "PF-KRN-0003"@ {
        kernel::max_map_count_outcome(c, o)
    } else if id == "PF-KRN-0004"@ {
        kernel::nr_open_outcome(c, o)
    } else if id == "PF-KRN-0005"@ {
        kernel::xdp_floor_outcome(c, o)
    } else if id == "PF-FS-0001"@ {
        fs::capacity_outcome(c, o)
    } else if id == "PF-FS-0002"@ {
        fs::separate_devices_outcome(c, o)
    } else if id == "PF-FS-0003"@ {
        fs::storage_media_outcome(c, o)
    } else if id == "PF-FS-0004"@ {
        fs::noatime_outcome(c, o)
    } else if id == "PF-FS-0005"@ {
        fs::filesystem_type_outcome(c, o)
    } else if id == "PF-FS-0006"@ {
        fs::direct_io_support_outcome(c, o)
    } else if id == "PF-FS-0007"@ {
        fs::retention_fits_disk_outcome(c, o)
    } else if id == "PF-NET-0001"@ {
        net::xdp_driver_support_outcome(c, o)
    } else if id == "PF-ARG-0001"@ {
        arg::port_range_outcome(c, o)
    } else if id == "PF-ARG-0002"@ {
        arg::private_addr_xdp_outcome(c, o)
    } else if id == "PF-ARG-0003"@ {
        arg::removed_in_40_outcome(c, o)
    } else if id == "PF-ARG-0004"@ {
        arg::block_verification_method_outcome(c, o)
    } else if id == "PF-ARG-0005"@ {
        arg::block_production_method_outcome(c, o)
    } else if id == "PF-ARG-0006"@ {
        arg::deprecated_xdp_flags_outcome(c, o)
    } else if id == "PF-ARG-0007"@ {
        arg::deprecated_poh_flag_outcome(c, o)
    } else if id == "PF-ARG-0008"@ {
        arg::deprecated_accounts_db_outcome(c, o)
    } else if id == "PF-ARG-0009"@ {
        arg::accounts_index_limit_outcome(c, o)
    } else if id == "PF-ARG-0010"@ {
        arg::direct_io_outcome(c, o)
    } else if id == "PF-ARG-0011"@ {
        arg::limit_ledger_size_outcome(c, o)
    } else if id == "PF-ARG-0012"@ {
        arg::disable_banking_trace_outcome(c, o)
    } else if id == "PF-ARG-0013"@ {
        arg::tpu_connection_pool_size_outcome(c, o)
    } else if id == "PF-ARG-0014"@ {
        arg::flag_values_outcome(c, o)
    } else if id == "PF-XDP-0001"@ {
        xdp::capabilities_outcome(c, o)
    } else if id == "PF-XDP-0007"@ {
        xdp::capability_persistence_outcome(c, o)
    } else {
        false
    }
}

/// Runs the check an id names against the context, or none for an id the
/// registry does not hold.
pub fn run(id: &str, ctx: &Ctx) -> (r: Option<Outcome>)
    ensures
        r is Some == check_ids().contains(id@),
        r is Some == run_status(id@, *ctx) is Some,
        r matches Some(o) ==> Some(o.status) == run_status(id@, *ctx),
        r matches Some(o) ==> (o.status == Status::Unknown ==> o.observed@.len() > 0),
        r matches Some(o) ==> check_contract(id@, *ctx, o),
{
    if crate::text::eq_lit(id, "PF-HW-0001") {
        assert(check_ids()[0] == id@);
        Some(hw::architecture(ctx))
    } else if crate::text::eq_lit(id, "PF-HW-0002") {
        assert(check_ids()[1] == id@);
        Some(hw::avx2(ctx))
    } else if crate::text::eq_lit(id, "PF-HW-0003") {
        assert(check_ids()[2] == id@);
        Some(hw::base_clock(ctx))
    } else if crate::text::eq_lit(id, "PF-HW-0004") {
        assert(check_ids()[3] == id@);
        Some(hw::cores(ctx))
    } else if crate::text::eq_lit(id, "PF-HW-0005") {
        assert(check_ids()[4] == id@);
        Some(hw::memory(ctx))
    } else if crate::text::eq_lit(id, "PF-HW-0006") {
        assert(check_ids()[5] == id@);
        Some(hw::on_recommended_list(ctx))
    } else if crate::text::eq_lit(id, "PF-HW-0007") {
        assert(check_ids()[6] == id@);
        Some(hw::os_support(ctx))
    } else if crate::text::eq_lit(id, "PF-KRN-0001") {
        assert(check_ids()[7] == id@);
        Some(kernel::rmem_max(ctx))
    } else if crate::text::eq_lit(id, "PF-KRN-0002") {
        assert(check_ids()[8] == id@);
        Some(kernel::wmem_max(ctx))
    } else if crate::text::eq_lit(id, "PF-KRN-0003") {
        assert(check_ids()[9] == id@);
        Some(kernel::max_map_count(ctx))
    } else if crate::text::eq_lit(id, "PF-KRN-0004") {
        assert(check_ids()[10] == id@);
        Some(kernel::nr_open(ctx))
    } else if crate::text::eq_lit(id, "PF-KRN-0005") {
        assert(check_ids()[11] == id@);
        Some(kernel::xdp_floor(ctx))
    } else if crate::text::eq_lit(id, "PF-FS-0001") {
        assert(check_ids()[12] == id@);
        Some(fs::capacity(ctx))
    } else if crate::text::eq_lit(id, "PF-FS-0002") {
        assert(check_ids()[13] == id@);
        Some(fs::separate_devices(ctx))
    } else if crate::text::eq_lit(id, "PF-FS-0003") {
        assert(check_ids()[14] == id@);
        Some(fs::storage_media(ctx))
    } else if crate::text::eq_lit(id, "PF-FS-0004") {
        assert(check_ids()[15] == id@);
        Some(fs::noatime(ctx))
    } else if crate::text::eq_lit(id, "PF-FS-0005") {
        assert(check_ids()[16] == id@);
        Some(fs::filesystem_type(ctx))
    } else if crate::text::eq_lit(id, "PF-FS-0006") {
        assert(check_ids()[17] == id@);
        Some(fs::direct_io_support(ctx))
    } else if crate::text::eq_lit(id, "PF-FS-0007") {
        assert(check_ids()[18] == id@);
        Some(fs::retention_fits_disk(ctx))
    } else if crate::text::eq_lit(id, "PF-NET-0001") {
        assert(check_ids()[19] == id@);
        Some(net::xdp_driver_support(ctx))
    } else if crate::text::eq_lit(id, "PF-ARG-0001") {
        assert(check_ids()[20] == id@);
        Some(arg::port_range(ctx))
    } else if crate::text::eq_lit(id, "PF-ARG-0002") {
        assert(check_ids()[21] == id@);
        Some(arg::private_addr_xdp(ctx))
    } else if crate::text::eq_lit(id, "PF-ARG-0003") {
        assert(check_ids()[22] == id@);
        Some(arg::removed_in_40(ctx))
    } else if crate::text::eq_lit(id, "PF-ARG-0004") {
        assert(check_ids()[23] == id@);
        Some(arg::block_verification_method(ctx))
    } else if crate::text::eq_lit(id, "PF-ARG-0005") {
        assert(check_ids()[24] == id@);
        Some(arg::block_production_method(ctx))
    } else if crate::text::eq_lit(id, "PF-ARG-0006") {
        assert(check_ids()[25] == id@);
        Some(arg::deprecated_xdp_flags(ctx))
    } else if crate::text::eq_lit(id, "PF-ARG-0007") {
        assert(check_ids()[26] == id@);
        Some(arg::deprecated_poh_flag(ctx))
    } else if crate::text::eq_lit(id, "PF-ARG-0008") {
        assert(check_ids()[27] == id@);
        Some(arg::deprecated_accounts_db(ctx))
    } else if crate::text::eq_lit(id, "PF-ARG-0009") {
        assert(check_ids()[28] == id@);
        Some(arg::accounts_index_limit(ctx))
    } else if crate::text::eq_lit(id, "PF-ARG-0010") {
        assert(check_ids()[29] == id@);
        Some(arg::direct_io(ctx))
    } else if crate::text::eq_lit(id, "PF-ARG-0011") {
        assert(check_ids()[30] == id@);
        Some(arg::limit_ledger_size(ctx))
    } else if crate::text::eq_lit(id, "PF-ARG-0012") {
        assert(check_ids()[31] == id@);
        Some(arg::disable_banking_trace(ctx))
    } else if crate::text::eq_lit(id, "PF-ARG-0013") {
        assert(check_ids()[32] == id@);
        Some(arg::tpu_connection_pool_size(ctx))
    } else if crate::text::eq_lit(id, "PF-ARG-0014") {
        assert(check_ids()[33] == id@);
        Some(arg::flag_values(ctx))
    } else if crate::text::eq_lit(id, "PF-XDP-0001") {
        assert(check_ids()[34] == id@);
        Some(xdp::capabilities(ctx))
    } else if crate::text::eq_lit(id, "PF-XDP-0007") {
        assert(check_ids()[35] == id@);
        Some(xdp::capability_persistence(ctx))
    } else {
        assert forall|k: int| 0 <= k < check_ids().len() implies check_ids()[k] != id@ by {
        }
        None
    }
}

/// A pattern names a check by its id, in any case, or by its layer's code.
pub open spec fn names(c: Check, pat: Seq<char>) -> bool {
    upper_seq(pat) == upper_seq(c.id@) || layer_of_code(pat) == Some(c.layer)
}

pub open spec fn any_names(c: Check, pats: Seq<Seq<char>>) -> bool {
    exists|i: int| 0 <= i < pats.len() && names(c, #[trigger] pats[i])
}

fn names_exec(c: &Check, pat: &str) -> (r: bool)
    ensures
        r == names(*c, pat@),
{
    let a = chars_of(pat);
    let b = chars_of(c.id.as_str());
    let ua = crate::text::to_upper(&a);
    let ub = crate::text::to_upper(&b);
    if crate::text::same(&ua, &ub) {
        return true;
    }
    match Layer::parse(pat) {
        Some(l) => l == c.layer,
        None => false,
    }
}

fn any_names_exec(c: &Check, pats: &Vec<String>) -> (r: bool)
    ensures
        r == any_names(*c, views(pats@)),
{
    let mut i: usize = 0;
    while i < pats.len()
        invariant
            i <= pats@.len(),
            forall|k: int| 0 <= k < i ==> !names(*c, #[trigger] views(pats@)[k]),
        decreases pats.len() - i,
    {
        if names_exec(c, pats[i].as_str()) {
            assert(names(*c, views(pats@)[i as int]));
            return true;
        }
        i += 1;
    }
    false
}

/// Whether `--only` and `--skip` leave a check in the run: named by `--only`
/// when that was given, and not named by `--skip`.
pub fn selected(c: &Check, only: &Vec<String>, skip: &Vec<String>) -> (r: bool)
    ensures
        r == ((only@.len() == 0 || any_names(*c, views(only@))) && !any_names(*c, views(skip@))),
{
    if only.len() > 0 && !any_names_exec(c, only) {
        return false;
    }
    !any_names_exec(c, skip)
}

/// The check an id names, matched in any case, as its position in the
/// registry.
pub fn find(checks: &Vec<Check>, id: &str) -> (r: Option<usize>)
    ensures
        match r {
            Some(i) => i < checks@.len() && upper_seq(checks@[i as int].id@) == upper_seq(id@),
            None => forall|i: int|
                0 <= i < checks@.len() ==> upper_seq(#[trigger] checks@[i].id@) != upper_seq(id@),
        },
{
    let a = chars_of(id);
    let ua = crate::text::to_upper(&a);
    let mut i: usize = 0;
    while i < checks.len()
        invariant
            i <= checks@.len(),
            ua@ == upper_seq(id@),
            forall|k: int| 0 <= k < i ==> upper_seq(#[trigger] checks@[k].id@) != upper_seq(id@),
        decreases checks.len() - i,
    {
        let b = chars_of(checks[i].id.as_str());
        let ub = crate::text::to_upper(&b);
        if crate::text::same(&ua, &ub) {
            return Some(i);
        }
        i += 1;
    }
    None
}

/// Whether a check runs in this context, and if not, which skip it reports:
/// a check that reads a validator is skipped on a host without one, and a
/// check is skipped for a profile or client it does not apply to.
pub open spec fn runs(c: Check, ctx: Ctx) -> bool {
    !(layer_needs_validator(c.layer) && !ctx.validator_present) && c.profiles@.contains(ctx.profile)
        && (ctx.client == ClientKind::Unknown || c.clients@.contains(ctx.client))
}

pub open spec fn applies(c: Check, ctx: Ctx) -> bool {
    c.profiles@.contains(ctx.profile) && (ctx.client == ClientKind::Unknown || c.clients@.contains(
        ctx.client,
    ))
}

/// The status one check reports in this context: Skipped when it reads a
/// validator the host lacks or does not apply to this profile and client,
/// otherwise what the check itself finds.
pub open spec fn evaluate_status(c: Check, ctx: Ctx) -> Status {
    if layer_needs_validator(c.layer) && !ctx.validator_present {
        Status::Skipped
    } else if applies(c, ctx) {
        match run_status(c.id@, ctx) {
            Some(s) => s,
            None => Status::Unknown,
        }
    } else {
        Status::Skipped
    }
}

/// The outcome of one check in this context.
pub fn evaluate(c: &Check, ctx: &Ctx) -> (o: Outcome)
    ensures
        o.status == evaluate_status(*c, *ctx),
        !runs(*c, *ctx) ==> o.status == Status::Skipped,
        layer_needs_validator(c.layer) && !ctx.validator_present ==> o.observed@
            == "no validator installed; this check reads one"@,
        !(layer_needs_validator(c.layer) && !ctx.validator_present) && !applies(*c, *ctx)
            ==> o.observed@ == "not applicable to profile "@ + profile_label(ctx.profile)
            + " with client "@ + client_label(ctx.client),
        runs(*c, *ctx) && run_status(c.id@, *ctx) is None ==> o.observed@
            == "no such check in the registry"@,
        o.status == Status::Unknown ==> o.observed@.len() > 0,
        runs(*c, *ctx) && run_status(c.id@, *ctx) is Some ==> check_contract(c.id@, *ctx, o),
{
    if c.needs_a_validator() && !ctx.validator_present {
        return Outcome::skipped("no validator installed; this check reads one");
    }
    if c.applies_to(ctx.profile, ctx.client) {
        match run(c.id.as_str(), ctx) {
            Some(o) => o,
            None => {
                proof {
                    reveal_strlit("no such check in the registry");
                }
                Outcome::unknown("no such check in the registry")
            },
        }
    } else {
        let mut obs = cat("not applicable to profile ", ctx.profile.label());
        append(&mut obs, " with client ");
        append(&mut obs, ctx.client.label());
        Outcome::skipped(obs.as_str())
    }
}

fn clone_sources(v: &Vec<Source>) -> (r: Vec<Source>)
    ensures
        r@ == v@,
{
    let mut out: Vec<Source> = Vec::new();
    let mut i: usize = 0;
    while i < v.len()
        invariant
            i <= v@.len(),
            out@ == v@.take(i as int),
        decreases v.len() - i,
    {
        out.push(v[i]);
        assert(out@ == v@.take(i + 1));
        i += 1;
    }
    assert(v@.take(v@.len() as int) == v@);
    out
}

/// A check's outcome with what the report says around it.
pub fn finding(c: &Check, outcome: Outcome) -> (f: Finding)
    ensures
        f.id@ == c.id@,
        f.phase == layer_phase(c.layer),
        f.layer@ == layer_label(c.layer),
        f.section@ == layer_human(c.layer),
        f.needs_linux == layer_needs_linux(c.layer),
        f.severity@ == severity_label(c.severity),
        f.title@ == c.title@,
        f.provisional == any_provisional(c.source@),
        f.outcome == outcome,
        f.source@ == c.source@,
{
    Finding {
        id: c.id.clone(),
        phase: c.layer.phase(),
        layer: owned(c.layer.label()),
        section: owned(c.layer.human()),
        needs_linux: c.needs_a_linux_host(),
        severity: owned(c.severity.label()),
        title: c.title.clone(),
        provisional: c.provisional(),
        outcome,
        source: clone_sources(&c.source),
    }
}

pub open spec fn selected_spec(c: Check, only: Seq<Seq<char>>, skip: Seq<Seq<char>>) -> bool {
    (only.len() == 0 || any_names(c, only)) && !any_names(c, skip)
}

/// The checks `--only` and `--skip` leave in the run, in registry order.
pub open spec fn picked(checks: Seq<Check>, only: Seq<Seq<char>>, skip: Seq<Seq<char>>) -> Seq<
    Check,
>
    decreases checks.len(),
{
    if checks.len() == 0 {
        Seq::empty()
    } else {
        let rest = picked(checks.drop_last(), only, skip);
        if selected_spec(checks.last(), only, skip) {
            rest.push(checks.last())
        } else {
            rest
        }
    }
}

/// A finding carries its check's id, layer, severity, title and sources.
pub open spec fn finding_of(c: Check, f: Finding) -> bool {
    &&& f.id@ == c.id@
    &&& f.phase == layer_phase(c.layer)
    &&& f.layer@ == layer_label(c.layer)
    &&& f.section@ == layer_human(c.layer)
    &&& f.needs_linux == layer_needs_linux(c.layer)
    &&& f.severity@ == severity_label(c.severity)
    &&& f.title@ == c.title@
    &&& f.provisional == any_provisional(c.source@)
    &&& f.source@ == c.source@
}

/// Every selected check, run in order.
pub fn run_all(checks: &Vec<Check>, ctx: &Ctx, only: &Vec<String>, skip: &Vec<String>) -> (r: Vec<Finding>)
    ensures
        r@.len() == picked(checks@, views(only@), views(skip@)).len(),
        forall|k: int|
            0 <= k < r@.len() ==> {
                let c = #[trigger] picked(checks@, views(only@), views(skip@))[k];
                &&& finding_of(c, r@[k])
                &&& r@[k].outcome.status == evaluate_status(c, *ctx)
                &&& (runs(c, *ctx) && run_status(c.id@, *ctx) is Some ==> check_contract(
                    c.id@,
                    *ctx,
                    r@[k].outcome,
                ))
            },
        forall|k: int|
            0 <= k < r@.len() && (#[trigger] r@[k]).outcome.status == Status::Unknown
                ==> r@[k].outcome.observed@.len() > 0,
{
    let ghost o = views(only@);
    let ghost sk = views(skip@);
    let mut out: Vec<Finding> = Vec::new();
    let mut i: usize = 0;
    assert(checks@.take(0) =~= Seq::<Check>::empty());
    while i < checks.len()
        invariant
            i <= checks@.len(),
            o == views(only@),
            sk == views(skip@),
            out@.len() == picked(checks@.take(i as int), o, sk).len(),
            forall|k: int|
                0 <= k < out@.len() ==> {
                    let c = #[trigger] picked(checks@.take(i as int), o, sk)[k];
                    &&& finding_of(c, out@[k])
                    &&& out@[k].outcome.status == evaluate_status(c, *ctx)
                    &&& (runs(c, *ctx) && run_status(c.id@, *ctx) is Some ==> check_contract(
                        c.id@,
                        *ctx,
                        out@[k].outcome,
                    ))
                },
            forall|k: int|
                0 <= k < out@.len() && (#[trigger] out@[k]).outcome.status == Status::Unknown
                    ==> out@[k].outcome.observed@.len() > 0,
        decreases checks.len() - i,
    {
        assert(checks@.take(i + 1).drop_last() == checks@.take(i as int));
        assert(checks@.take(i + 1).last() == checks@[i as int]);
        let ghost before = picked(checks@.take(i as int), o, sk);
        if selected(&checks[i], only, skip) {
            let oc = evaluate(&checks[i], ctx);
            let f = finding(&checks[i], oc);
            out.push(f);
            assert(picked(checks@.take(i + 1), o, sk) == before.push(checks@[i as int]));
        } else {
            assert(picked(checks@.take(i + 1), o, sk) == before);
        }
        i += 1;
    }
    assert(checks@.take(checks@.len() as int) == checks@);
    out
}

/// How many of `checks` need elevated reads, are selected and apply here.
pub open spec fn root_count(checks: Seq<Check>, only: Seq<Seq<char>>, skip: Seq<Seq<char>>, ctx: Ctx) -> nat
    decreases checks.len(),
{
    if checks.len() == 0 {
        0
    } else {
        let c = checks.last();
        root_count(checks.drop_last(), only, skip, ctx) + if c.needs_root && selected_spec(c, only, skip)
            && applies(c, ctx) {
            1nat
        } else {
            0nat
        }
    }
}

/// How many selected checks that apply here need elevated reads.
pub fn needs_root(checks: &Vec<Check>, ctx: &Ctx, only: &Vec<String>, skip: &Vec<String>) -> (r: usize)
    ensures
        r == root_count(checks@, views(only@), views(skip@), *ctx),
{
    let ghost o = views(only@);
    let ghost sk = views(skip@);
    let mut n: usize = 0;
    let mut i: usize = 0;
    assert(checks@.take(0) =~= Seq::<Check>::empty());
    while i < checks.len()
        invariant
            i <= checks@.len(),
            o == views(only@),
            sk == views(skip@),
            n == root_count(checks@.take(i as int), o, sk, *ctx),
            n <= i,
        decreases checks.len() - i,
    {
        assert(checks@.take(i + 1).drop_last() == checks@.take(i as int));
        assert(checks@.take(i + 1).last() == checks@[i as int]);
        if checks[i].needs_root && selected(&checks[i], only, skip) && checks[i].applies_to(
            ctx.profile,
            ctx.client,
        ) {
            n += 1;
        }
        i += 1;
    }
    assert(checks@.take(checks@.len() as int) == checks@);
    n
}

// ---------------------------------------------------------------------------
// Laws
// ---------------------------------------------------------------------------

/// `--skip` is the inverse of `--only`: for the same patterns, a check runs
/// under one exactly when it does not run under the other.
pub proof fn law_skip_is_the_inverse_of_only(c: Check, pats: Seq<Seq<char>>)
    requires
        pats.len() > 0,
    ensures
        selected_spec(c, pats, Seq::empty()) == !selected_spec(c, Seq::empty(), pats),
{
}

/// Every id the registry holds names a check that runs.
pub proof fn law_every_registered_check_runs(i: int, ctx: Ctx)
    requires
        0 <= i < check_ids().len(),
    ensures
        run_status(check_ids()[i], ctx) is Some,
{
}

/// Firedancer is detected and skipped rather than checked: a check of its
/// configuration that does not list it reports Skipped.
pub proof fn law_firedancer_configuration_is_skipped(c: Check, ctx: Ctx)
    requires
        layer_needs_validator(c.layer),
        !c.clients@.contains(ClientKind::Firedancer),
        ctx.client == ClientKind::Firedancer,
    ensures
        evaluate_status(c, ctx) == Status::Skipped,
{
}

/// Core count, memory and whether anyone has measured this CPU only ever
/// report: none of them fails a machine.
pub proof fn law_measurements_never_fail(ctx: Ctx)
    ensures
        run_status("PF-HW-0004"@, ctx) != Some(Status::Fail),
        run_status("PF-HW-0005"@, ctx) != Some(Status::Fail),
        run_status("PF-HW-0006"@, ctx) != Some(Status::Fail),
{
    reveal_strlit("PF-HW-0001");
    reveal_strlit("PF-HW-0002");
    reveal_strlit("PF-HW-0003");
    reveal_strlit("PF-HW-0004");
    reveal_strlit("PF-HW-0005");
    reveal_strlit("PF-HW-0006");
    assert("PF-HW-0004"@ != "PF-HW-0001"@ && "PF-HW-0004"@ != "PF-HW-0002"@ && "PF-HW-0004"@
        != "PF-HW-0003"@) by {
        assert("PF-HW-0004"@[9] != "PF-HW-0001"@[9]);
        assert("PF-HW-0004"@[9] != "PF-HW-0002"@[9]);
        assert("PF-HW-0004"@[9] != "PF-HW-0003"@[9]);
    }
    assert("PF-HW-0005"@ != "PF-HW-0001"@ && "PF-HW-0005"@ != "PF-HW-0002"@ && "PF-HW-0005"@
        != "PF-HW-0003"@ && "PF-HW-0005"@ != "PF-HW-0004"@) by {
        assert("PF-HW-0005"@[9] != "PF-HW-0001"@[9]);
        assert("PF-HW-0005"@[9] != "PF-HW-0002"@[9]);
        assert("PF-HW-0005"@[9] != "PF-HW-0003"@[9]);
        assert("PF-HW-0005"@[9] != "PF-HW-0004"@[9]);
    }
    assert("PF-HW-0006"@ != "PF-HW-0001"@ && "PF-HW-0006"@ != "PF-HW-0002"@ && "PF-HW-0006"@
        != "PF-HW-0003"@ && "PF-HW-0006"@ != "PF-HW-0004"@ && "PF-HW-0006"@ != "PF-HW-0005"@) by {
        assert("PF-HW-0006"@[9] != "PF-HW-0001"@[9]);
        assert("PF-HW-0006"@[9] != "PF-HW-0002"@[9]);
        assert("PF-HW-0006"@[9] != "PF-HW-0003"@[9]);
        assert("PF-HW-0006"@[9] != "PF-HW-0004"@[9]);
        assert("PF-HW-0006"@[9] != "PF-HW-0005"@[9]);
    }
}

} // verus!
