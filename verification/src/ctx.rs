//! What preflight knows before any check runs.
//!
//! Assembles the host facts, the validator invocation, the client and its
//! version, and the profile being judged against. Every check reads from this
//! rather than touching the system itself. The reading is done by the program
//! around the library, which hands in the texts; this module decides what
//! they mean.

use vstd::prelude::*;
use vstd::string::*;
use crate::argv::{basename, basename_of, flag_value, has_flag, is_validator_token, Invocation};
use crate::host::{flags_line, flags_line_of, opt_version, release_at_least, version_of, ClientVersion, Facts, Rootfs};
use crate::model::{client_label, opt_view, ClientKind, Profile};
use crate::text::{
    append, cat, chars_of, contains_seq, first_prefixed, lines, owned, str_lines, str_starts,
    string_of, subvec, trim, trim_char, views,
};

verus! {

/// How the client version was obtained, so the header can say it out loud.
#[derive(Debug, Clone)]
pub enum VersionSource {
    Flag,
    Executed(String),
    Undetected(String),
}

pub open spec fn source_view(s: VersionSource) -> (nat, Seq<char>) {
    match s {
        VersionSource::Flag => (0, Seq::empty()),
        VersionSource::Executed(c) => (1, c@),
        VersionSource::Undetected(r) => (2, r@),
    }
}

/// What the caller asked for on the command line.
pub struct CtxOptions {
    pub root: Option<String>,
    pub profile: Option<Profile>,
    pub invocation_file: Option<String>,
    pub client_override: Option<String>,
    pub no_exec: bool,
}

/// What was read from the machine for the checks to judge, beyond its facts.
/// Each field is the text of one file, or what a listing found.
pub struct HostFiles {
    pub cpuinfo: Option<String>,
    pub meminfo: Option<String>,
    pub os_release: Option<String>,
    /// /proc/mounts.
    pub mounts: Option<String>,
    /// /proc/net/route.
    pub route: Option<String>,
    /// Each network interface with the driver its sysfs link names.
    pub drivers: Vec<(String, String)>,
    /// /proc/interrupts.
    pub interrupts: Option<String>,
    /// Each irq number with its smp_affinity_list.
    pub irq_affinity: Vec<(String, String)>,
    /// Each cpu with its thread_siblings_list.
    pub siblings: Vec<(u32, String)>,
    pub irqbalance_enabled: bool,
    /// Each sysctl key with the text of its /proc/sys file.
    pub sysctl: Vec<(String, String)>,
    /// Each file under /etc/sysctl.d in order, then /etc/sysctl.conf, with its text.
    pub sysctl_files: Vec<(String, String)>,
    /// cpufreq's base_frequency and cpuinfo_max_freq for cpu0, in kHz.
    pub base_frequency: Option<String>,
    pub max_frequency: Option<String>,
    /// The validator's unit, then every drop-in systemd merges over it, lowest
    /// precedence first.
    pub unit_texts: Vec<String>,
    /// /proc/<pid>/status of the running validator, when its pid checked out.
    pub proc_status: Option<String>,
    /// /proc/<pid>/task/*/status of each of the validator's threads.
    pub task_status: Vec<String>,
    /// Bytes allocated under the ledger's rocksdb directory and under the
    /// snapshots directory, when they could be measured.
    pub rocksdb_bytes: Option<u64>,
    pub snapshots_bytes: Option<u64>,
    /// Seconds since the Unix epoch when the run started.
    pub now_secs: u64,
    /// What the validator binary printed for `--help`, when it was run.
    pub help_text: Option<String>,
}

pub struct Ctx {
    pub fs: Rootfs,
    /// Whether the root holds a Linux /proc: /proc/sys/kernel/osrelease exists.
    pub linux: bool,
    /// The operating system preflight itself runs on, as Rust names it.
    pub host_os: String,
    pub profile: Profile,
    pub profile_reason: String,
    /// What the box itself points to, kept even when a flag says otherwise, so
    /// a forced profile that contradicts the machine can say so.
    pub inferred_profile: Option<(Profile, String)>,
    /// Whether the box itself named a cluster, or preflight had to guess.
    pub profile_confident: bool,
    pub client: ClientKind,
    pub version: Option<ClientVersion>,
    pub version_source: VersionSource,
    pub invocation: Option<Invocation>,
    pub invocation_trail: Vec<String>,
    pub validator_pid: Option<String>,
    /// Whether this host has a validator at all: a binary, a unit, or a running
    /// process. Absent one, checks are Skipped rather than Unknown.
    pub validator_present: bool,
    pub os: Option<String>,
    pub kernel: Option<String>,
    pub arch: Option<String>,
    pub virt: Option<String>,
    pub uid: u32,
    pub facts: Facts,
    pub files: HostFiles,
}

pub open spec fn ctx_at_least(c: Ctx, major: u64, minor: u64) -> bool {
    match c.version {
        Some(v) => release_at_least(v.major, v.minor, major, minor),
        None => false,
    }
}

impl Ctx {
    /// A validator runs on Linux. Without /proc there is nothing for the host
    /// layers to read.
    pub fn is_linux(&self) -> (r: bool)
        ensures
            r == self.linux,
    {
        self.linux
    }

    pub fn inv(&self) -> (r: Option<&Invocation>)
        ensures
            r is Some <==> self.invocation is Some,
            r is Some ==> *r->0 == self.invocation->0,
    {
        self.invocation.as_ref()
    }

    /// True when the detected client is at or above the given release. False
    /// when it predates it or no version was found: callers treat a missing
    /// version as "cannot tell".
    pub fn at_least(&self, major: u64, minor: u64) -> (r: bool)
        ensures
            r == ctx_at_least(*self, major, minor),
    {
        match &self.version {
            Some(v) => v.at_least(major, minor),
            None => false,
        }
    }
}

// ---------------------------------------------------------------------------
// The machine's own description
// ---------------------------------------------------------------------------

/// The value of the first `key` line of an os-release text, quotes trimmed.
pub open spec fn release_field(text: Seq<char>, key: Seq<char>) -> Option<Seq<char>> {
    match first_prefixed(lines(text), key) {
        Some(l) => Some(trim_char(l.skip(key.len() as int), '"')),
        None => None,
    }
}

pub fn release_field_of(text: &str, key: &str) -> (r: Option<String>)
    ensures
        opt_view(r) == release_field(text@, key@),
{
    let ls = str_lines(text);
    match crate::text::find_prefixed(&ls, key) {
        Some(l) => {
            let v = chars_of(l.as_str());
            let k = chars_of(key);
            let rest = subvec(&v, k.len(), v.len());
            assert(rest@ == l@.skip(key@.len() as int));
            let t = crate::text::trim_char_vec(&rest, '"');
            Some(string_of(&t))
        },
        None => None,
    }
}

/// The distribution's name: PRETTY_NAME, else NAME.
pub open spec fn os_name_of(text: Option<Seq<char>>) -> Option<Seq<char>> {
    match text {
        Some(t) => match release_field(t, "PRETTY_NAME="@) {
            Some(p) => Some(p),
            None => release_field(t, "NAME="@),
        },
        None => None,
    }
}

pub fn os_release(text: &Option<String>) -> (r: Option<String>)
    ensures
        opt_view(r) == os_name_of(opt_view(*text)),
{
    match text {
        Some(t) => match release_field_of(t.as_str(), "PRETTY_NAME=") {
            Some(p) => Some(p),
            None => release_field_of(t.as_str(), "NAME="),
        },
        None => None,
    }
}

/// The architecture. Under a captured root the machine preflight runs on says
/// nothing, so the captured cpuinfo decides: x86 lists `flags`, ARM `Features`.
pub open spec fn arch_of(prefixed: bool, cpuinfo: Option<Seq<char>>, host_arch: Seq<char>) -> Option<
    Seq<char>,
> {
    if prefixed {
        match cpuinfo {
            Some(c) => match flags_line(lines(c)) {
                Some(l) => if "flags"@.is_prefix_of(l) {
                    Some("x86_64"@)
                } else {
                    Some("aarch64"@)
                },
                None => None,
            },
            None => None,
        }
    } else {
        Some(host_arch)
    }
}

pub fn arch(prefixed: bool, cpuinfo: &Option<String>, host_arch: &str) -> (r: Option<String>)
    ensures
        opt_view(r) == arch_of(prefixed, opt_view(*cpuinfo), host_arch@),
{
    if prefixed {
        match cpuinfo {
            Some(c) => match flags_line_of(c.as_str()) {
                Some(l) => if str_starts(l.as_str(), "flags") {
                    Some(owned("x86_64"))
                } else {
                    Some(owned("aarch64"))
                },
                None => None,
            },
            None => None,
        }
    } else {
        Some(owned(host_arch))
    }
}

/// The kind of machine: a Lima VM by its marker files, else the DMI product
/// name when there is one.
pub open spec fn virt_of(lima: bool, product: Option<Seq<char>>) -> Option<Seq<char>> {
    if lima {
        Some("Lima VM (qemu)"@)
    } else {
        match product {
            Some(p) => if trim(p).len() > 0 {
                Some(trim(p))
            } else {
                None
            },
            None => None,
        }
    }
}

pub fn virt(lima: bool, product: &Option<String>) -> (r: Option<String>)
    ensures
        opt_view(r) == virt_of(lima, opt_view(*product)),
{
    if lima {
        return Some(owned("Lima VM (qemu)"));
    }
    match product {
        Some(p) => {
            let v = chars_of(p.as_str());
            let t = crate::text::trim_vec(&v);
            if t.len() > 0 {
                Some(string_of(&t))
            } else {
                None
            }
        },
        None => None,
    }
}

/// The kernel release: osrelease, trimmed.
pub fn kernel_release(text: &Option<String>) -> (r: Option<String>)
    ensures
        opt_view(r) == match opt_view(*text) {
            Some(t) => Some(trim(t)),
            None => None,
        },
{
    match text {
        Some(t) => {
            let v = chars_of(t.as_str());
            let tv = crate::text::trim_vec(&v);
            Some(string_of(&tv))
        },
        None => None,
    }
}

// ---------------------------------------------------------------------------
// Which client, and which profile
// ---------------------------------------------------------------------------

/// The directories searched for an installed validator binary, in order.
pub fn bin_dirs() -> (r: Vec<&'static str>)
    ensures
        r@.len() == 3,
        r@[0]@ == "/usr/local/bin"@,
        r@[1]@ == "/usr/bin"@,
        r@[2]@ == "/root/.local/share/solana/install/active_release/bin"@,
{
    let mut v: Vec<&'static str> = Vec::new();
    v.push("/usr/local/bin");
    v.push("/usr/bin");
    v.push("/root/.local/share/solana/install/active_release/bin");
    v
}

pub open spec fn client_of_program(b: Seq<char>) -> ClientKind {
    if b == "agave-validator"@ || b == "solana-validator"@ {
        ClientKind::AgaveValidator
    } else if b == "solana-test-validator"@ {
        ClientKind::TestValidator
    } else if b == "fdctl"@ {
        ClientKind::Firedancer
    } else {
        ClientKind::Unknown
    }
}

/// The first installed binary that names a client.
pub open spec fn client_of_installed(names: Seq<Seq<char>>) -> ClientKind
    decreases names.len(),
{
    if names.len() == 0 {
        ClientKind::Unknown
    } else if names[0] == "agave-validator"@ {
        ClientKind::AgaveValidator
    } else if names[0] == "solana-test-validator"@ {
        ClientKind::TestValidator
    } else {
        client_of_installed(names.drop_first())
    }
}

/// The client: from the invocation's program when there is one, else from the
/// binaries installed in the usual places.
pub open spec fn client_spec(program: Option<Seq<char>>, installed: Seq<Seq<char>>) -> ClientKind {
    match program {
        Some(p) => client_of_program(basename(p)),
        None => client_of_installed(installed),
    }
}

/// The client is named by the program's file name alone, wherever it is
/// installed: agave-validator and solana-validator are Agave,
/// solana-test-validator is the test validator, fdctl is Firedancer, and any
/// other name is unknown. Moving the binary to another directory never
/// changes the answer.
pub proof fn law_the_program_name_names_the_client(dir: Seq<char>, name: Seq<char>, installed: Seq<Seq<char>>)
    requires
        forall|i: int| 0 <= i < name.len() ==> name[i] != '/',
    ensures
        client_spec(Some(dir + "/"@ + name), installed) == client_spec(Some(name), installed),
        (name == "agave-validator"@ || name == "solana-validator"@) ==> client_spec(Some(name), installed)
            == ClientKind::AgaveValidator,
        name == "solana-test-validator"@ ==> client_spec(Some(name), installed) == ClientKind::TestValidator,
        name == "fdctl"@ ==> client_spec(Some(name), installed) == ClientKind::Firedancer,
        !(name == "agave-validator"@ || name == "solana-validator"@ || name == "solana-test-validator"@ || name
            == "fdctl"@) ==> client_spec(Some(name), installed) == ClientKind::Unknown,
{
    crate::argv::lemma_basename_of_a_name(dir, name);
    reveal_strlit("agave-validator");
    reveal_strlit("solana-validator");
    reveal_strlit("solana-test-validator");
    reveal_strlit("fdctl");
}

fn same_str(v: &Vec<char>, lit: &str) -> (r: bool)
    ensures
        r == (v@ == lit@),
{
    let l = chars_of(lit);
    crate::text::same(v, &l)
}

/// Which client runs here. `installed` is the file names found in the
/// directories of `bin_dirs`, in that order.
pub fn detect_client(inv: Option<&Invocation>, installed: &Vec<String>) -> (r: ClientKind)
    ensures
        r == client_spec(
            match inv {
                Some(i) => Some(i.program@),
                None => None,
            },
            views(installed@),
        ),
{
    match inv {
        Some(i) => {
            let p = chars_of(i.program.as_str());
            let b = basename_of(&p);
            if same_str(&b, "agave-validator") || same_str(&b, "solana-validator") {
                ClientKind::AgaveValidator
            } else if same_str(&b, "solana-test-validator") {
                ClientKind::TestValidator
            } else if same_str(&b, "fdctl") {
                ClientKind::Firedancer
            } else {
                ClientKind::Unknown
            }
        },
        None => {
            let mut i: usize = 0;
            assert(views(installed@).skip(0) == views(installed@));
            while i < installed.len()
                invariant
                    i <= installed@.len(),
                    inv is None,
                    client_of_installed(views(installed@)) == client_of_installed(
                        views(installed@).skip(i as int),
                    ),
                decreases installed.len() - i,
            {
                assert(views(installed@).skip(i as int)[0] == installed@[i as int]@);
                assert(views(installed@).skip(i as int).drop_first() == views(installed@).skip(
                    i + 1,
                ));
                let n = chars_of(installed[i].as_str());
                if same_str(&n, "agave-validator") {
                    return ClientKind::AgaveValidator;
                }
                if same_str(&n, "solana-test-validator") {
                    return ClientKind::TestValidator;
                }
                i += 1;
            }
            assert(views(installed@).skip(i as int) =~= Seq::<Seq<char>>::empty());
            ClientKind::Unknown
        },
    }
}

/// The profile the box points to, why, and whether the box actually said so.
/// A bare machine could be headed anywhere, and a voting validator whose
/// entrypoint names no cluster is a guess; an entrypoint that says testnet is
/// not.
pub open spec fn infer_spec(args: Option<Seq<Seq<char>>>, client: ClientKind) -> (
    Profile,
    Seq<char>,
    bool,
) {
    match args {
        None => (Profile::Local, "no validator invocation resolved"@, false),
        Some(a) => if client == ClientKind::TestValidator {
            (Profile::Local, "client is solana-test-validator"@, true)
        } else if !has_flag(a, "--vote-account"@) {
            (Profile::Local, "invocation has no --vote-account"@, true)
        } else {
            let entry = match flag_value(a, "--entrypoint"@) {
                Some(e) => e,
                None => Seq::empty(),
            };
            if contains_seq(entry, "testnet"@) {
                (Profile::Testnet, "entrypoint "@ + entry, true)
            } else if contains_seq(entry, "mainnet"@) {
                (Profile::Mainnet, "entrypoint "@ + entry, true)
            } else {
                (Profile::Testnet, "voting validator, cluster not identified from entrypoint"@, false)
            }
        },
    }
}

/// The cluster a voting validator is judged against is the one its
/// `--entrypoint` names: testnet when the entrypoint says testnet, mainnet
/// when it says mainnet and not testnet, both stated as certain; an
/// entrypoint that names neither is a testnet guess that says it is one. A
/// command line without `--vote-account` is a local box, and so is anything
/// solana-test-validator runs.
pub proof fn law_the_entrypoint_names_the_cluster(a: Seq<Seq<char>>, client: ClientKind, e: Seq<char>)
    ensures
        client == ClientKind::TestValidator ==> infer_spec(Some(a), client).0 == Profile::Local,
        client != ClientKind::TestValidator && !has_flag(a, "--vote-account"@) ==> infer_spec(Some(a), client).0
            == Profile::Local,
        client != ClientKind::TestValidator && has_flag(a, "--vote-account"@) && flag_value(a, "--entrypoint"@)
            == Some(e) ==> {
            let r = infer_spec(Some(a), client);
            &&& contains_seq(e, "testnet"@) ==> r.0 == Profile::Testnet && r.2
            &&& !contains_seq(e, "testnet"@) && contains_seq(e, "mainnet"@) ==> r.0 == Profile::Mainnet && r.2
            &&& !contains_seq(e, "testnet"@) && !contains_seq(e, "mainnet"@) ==> r.0 == Profile::Testnet && !r.2
            &&& r.2 ==> r.1 == "entrypoint "@ + e
            &&& !r.2 ==> r.1 == "voting validator, cluster not identified from entrypoint"@
        },
        client != ClientKind::TestValidator && has_flag(a, "--vote-account"@) && flag_value(a, "--entrypoint"@)
            is None ==> infer_spec(Some(a), client) == (
            Profile::Testnet,
            "voting validator, cluster not identified from entrypoint"@,
            false,
        ),
{
    reveal_strlit("testnet");
    reveal_strlit("mainnet");
    assert(!contains_seq(Seq::<char>::empty(), "testnet"@));
    assert(!contains_seq(Seq::<char>::empty(), "mainnet"@));
}

pub open spec fn inv_args(inv: Option<&Invocation>) -> Option<Seq<Seq<char>>> {
    match inv {
        Some(i) => Some(i.arg_views()),
        None => None,
    }
}

pub fn infer_profile(inv: Option<&Invocation>, client: ClientKind) -> (r: (Profile, String, bool))
    ensures
        (r.0, r.1@, r.2) == infer_spec(inv_args(inv), client),
{
    let i = match inv {
        Some(i) => i,
        None => return (Profile::Local, owned("no validator invocation resolved"), false),
    };
    if client == ClientKind::TestValidator {
        return (Profile::Local, owned("client is solana-test-validator"), true);
    }
    if !i.has("--vote-account") {
        return (Profile::Local, owned("invocation has no --vote-account"), true);
    }
    let entry = match i.value("--entrypoint") {
        Some(e) => e,
        None => String::new(),
    };
    if crate::text::str_contains(entry.as_str(), "testnet") {
        (Profile::Testnet, cat("entrypoint ", entry.as_str()), true)
    } else if crate::text::str_contains(entry.as_str(), "mainnet") {
        (Profile::Mainnet, cat("entrypoint ", entry.as_str()), true)
    } else {
        (Profile::Testnet, owned("voting validator, cluster not identified from entrypoint"), false)
    }
}

/// `--client name@version`: the client its name stands for, and the version
/// after the `@` when it reads as one.
pub open spec fn override_spec(o: Seq<char>) -> (ClientKind, Option<(u64, u64, u64, Seq<char>)>) {
    let (name, ver) = match crate::text::split_once(o, '@') {
        Some((a, b)) => (a, b),
        None => (o, Seq::<char>::empty()),
    };
    let kind = if name == "agave-validator"@ || name == "agave"@ {
        ClientKind::AgaveValidator
    } else if name == "solana-test-validator"@ || name == "test-validator"@ {
        ClientKind::TestValidator
    } else if name == "firedancer"@ || name == "fdctl"@ {
        ClientKind::Firedancer
    } else {
        ClientKind::Unknown
    };
    (kind, version_of(ver))
}

pub fn client_override(o: &str) -> (r: (ClientKind, Option<ClientVersion>))
    ensures
        (r.0, opt_version(r.1)) == override_spec(o@),
{
    let v = chars_of(o);
    let (name, ver) = match crate::text::split_once_char(&v, '@') {
        Some((a, b)) => (a, b),
        None => (v, Vec::new()),
    };
    let kind = if same_str(&name, "agave-validator") || same_str(&name, "agave") {
        ClientKind::AgaveValidator
    } else if same_str(&name, "solana-test-validator") || same_str(&name, "test-validator") {
        ClientKind::TestValidator
    } else if same_str(&name, "firedancer") || same_str(&name, "fdctl") {
        ClientKind::Firedancer
    } else {
        ClientKind::Unknown
    };
    let vs = string_of(&ver);
    (kind, ClientVersion::parse(vs.as_str()))
}

// ---------------------------------------------------------------------------
// The client's version
// ---------------------------------------------------------------------------

/// The next thing version detection needs done, or what it concluded.
///
/// This is the one place preflight executes anything: the same binary the
/// operator already runs, with `--version`, unprivileged. The caller performs
/// each step and hands the result to the next function.
#[derive(Debug)]
pub enum VersionStep {
    /// Detection is over.
    Done(Option<ClientVersion>, VersionSource),
    /// Read the /proc/<pid>/exe link of this pid, then call `version_from_exe`.
    ReadExe(String),
    /// Run this binary with `--version`, then call `version_from_output`.
    Run(String),
}

pub open spec fn undetected(s: VersionStep, reason: Seq<char>) -> bool {
    &&& s matches VersionStep::Done(None, VersionSource::Undetected(r))
    &&& r@ == reason
}

pub open spec fn root_refusal() -> Seq<char> {
    "running as root, and preflight will not execute a binary it found by name. Pass --client <name>@<version>, or run this unprivileged"@
}

/// The first step of version detection.
///
/// argv[0] is whatever the caller passed to execve, so a process can name
/// itself agave-validator and be anything; executing that as root would hand
/// it uid 0, so as root the version stays undetected. A resolved pid is the
/// better answer, and its exe is a kernel-maintained link rather than a PATH
/// lookup.
pub fn detect_version(prefixed: bool, inv: Option<&Invocation>, no_exec: bool, uid: u32) -> (r:
    VersionStep)
    ensures
        no_exec ==> undetected(r, "--no-exec was passed"@),
        !no_exec && prefixed ==> undetected(
            r,
            "--root is set, so the host's binary is not this host's validator"@,
        ),
        !no_exec && !prefixed && inv is None ==> undetected(r, "no validator invocation resolved"@),
        !no_exec && !prefixed && inv is Some && uid == 0 ==> undetected(r, root_refusal()),
        !no_exec && !prefixed && inv is Some && uid != 0 ==> match inv->0.pid {
            Some(pid) => r matches VersionStep::ReadExe(p) && p@ == pid@,
            None => r matches VersionStep::Run(p) && p@ == inv->0.program@,
        },
{
    if no_exec {
        return VersionStep::Done(None, VersionSource::Undetected(owned("--no-exec was passed")));
    }
    if prefixed {
        return VersionStep::Done(
            None,
            VersionSource::Undetected(
                owned("--root is set, so the host's binary is not this host's validator"),
            ),
        );
    }
    let i = match inv {
        Some(i) => i,
        None => {
            return VersionStep::Done(
                None,
                VersionSource::Undetected(owned("no validator invocation resolved")),
            )
        },
    };
    if uid == 0 {
        return VersionStep::Done(
            None,
            VersionSource::Undetected(
                owned(
                    "running as root, and preflight will not execute a binary it found by name. Pass --client <name>@<version>, or run this unprivileged",
                ),
            ),
        );
    }
    match &i.pid {
        Some(pid) => VersionStep::ReadExe(pid.clone()),
        None => VersionStep::Run(i.program.clone()),
    }
}

/// After reading the exe link: run it only when it names a validator binary.
/// Falling through to argv[0] would search PATH for a name the process chose
/// for itself, so an unreadable link ends detection.
pub fn version_from_exe(exe: Option<String>) -> (r: VersionStep)
    ensures
        match exe {
            None => undetected(r, "cannot read the process exe"@),
            Some(p) => if is_validator_token(p@) {
                r matches VersionStep::Run(q) && q@ == p@
            } else {
                undetected(r, "the running process does not point at a known validator binary"@)
            },
        },
{
    match exe {
        None => VersionStep::Done(
            None,
            VersionSource::Undetected(owned("cannot read the process exe")),
        ),
        Some(p) => if crate::argv::is_validator_bin(p.as_str()) {
            VersionStep::Run(p)
        } else {
            VersionStep::Done(
                None,
                VersionSource::Undetected(
                    owned("the running process does not point at a known validator binary"),
                ),
            )
        },
    }
}

/// After running `<candidate> --version`: the version its output reports.
pub fn version_from_output(candidate: &str, output: &Option<String>) -> (r: (
    Option<ClientVersion>,
    VersionSource,
))
    ensures
        match opt_view(*output) {
            None => r.0 is None && source_view(r.1) == (
                2nat,
                "could not run the validator binary with --version"@,
            ),
            Some(t) => match version_of(t) {
                Some(v) => opt_version(r.0) == Some(v) && source_view(r.1) == (
                    1nat,
                    candidate@ + " --version"@,
                ),
                None => r.0 is None && source_view(r.1) == (
                    2nat,
                    "the binary did not report a version preflight reads"@,
                ),
            },
        },
{
    match output {
        None => (
            None,
            VersionSource::Undetected(owned("could not run the validator binary with --version")),
        ),
        Some(t) => match ClientVersion::parse(t.as_str()) {
            Some(v) => (Some(v), VersionSource::Executed(cat(candidate, " --version"))),
            None => (
                None,
                VersionSource::Undetected(
                    owned("the binary did not report a version preflight reads"),
                ),
            ),
        },
    }
}

// ---------------------------------------------------------------------------
// Assembling the context
// ---------------------------------------------------------------------------

/// What the caller read from the machine to build a context.
pub struct ProbeReads {
    /// The invocation: from the --invocation file, or resolved on the host.
    pub resolved: Result<Invocation, Vec<String>>,
    /// File names in the directories of `bin_dirs`, in that order.
    pub installed: Vec<String>,
    /// What version detection concluded, when the --client flag gave no version.
    pub detected: Option<(Option<ClientVersion>, VersionSource)>,
    pub linux: bool,
    pub host_os: String,
    pub host_arch: String,
    /// /proc/sys/kernel/osrelease.
    pub osrelease: Option<String>,
    /// Whether the Lima VM marker files are present.
    pub lima: bool,
    /// /sys/class/dmi/id/product_name.
    pub product_name: Option<String>,
    pub uid: u32,
    pub disks: Vec<crate::host::Disk>,
    pub mounts: Vec<crate::host::Mount>,
    pub files: HostFiles,
}

pub open spec fn resolved_args(r: Result<Invocation, Vec<String>>) -> Option<Seq<Seq<char>>> {
    match r {
        Ok(i) => Some(i.arg_views()),
        Err(_) => None,
    }
}

pub open spec fn resolved_program(r: Result<Invocation, Vec<String>>) -> Option<Seq<char>> {
    match r {
        Ok(i) => Some(i.program@),
        Err(_) => None,
    }
}

/// The client: the --client flag's name when given, else detection.
pub open spec fn probe_client(opts: CtxOptions, reads: ProbeReads) -> ClientKind {
    match opts.client_override {
        Some(o) => override_spec(o@).0,
        None => client_spec(resolved_program(reads.resolved), views(reads.installed@)),
    }
}

pub open spec fn flag_version(opts: CtxOptions) -> Option<(u64, u64, u64, Seq<char>)> {
    match opts.client_override {
        Some(o) => override_spec(o@).1,
        None => None,
    }
}

pub open spec fn probe_present(opts: CtxOptions, reads: ProbeReads) -> bool {
    reads.resolved is Ok || probe_client(opts, reads) != ClientKind::Unknown
        || opts.invocation_file is Some
}

impl Ctx {
    /// The context for a run, from the options and what was read.
    pub fn probe(opts: CtxOptions, reads: ProbeReads) -> (c: Ctx)
        ensures
            c.client == probe_client(opts, reads),
            match flag_version(opts) {
                Some(v) => opt_version(c.version) == Some(v) && c.version_source is Flag,
                None => match reads.detected {
                    Some((v, src)) => opt_version(c.version) == opt_version(v) && source_view(
                        c.version_source,
                    ) == source_view(src),
                    None => c.version is None && source_view(c.version_source) == (
                        2nat,
                        "version detection did not run"@,
                    ),
                },
            },
            crate::argv::opt_inv(c.invocation) == match reads.resolved {
                Ok(i) => Some(i@),
                Err(_) => None,
            },
            views(c.invocation_trail@) == match reads.resolved {
                Ok(i) => views(i.trail@),
                Err(t) => views(t@),
            },
            opt_view(c.validator_pid) == match reads.resolved {
                Ok(i) => opt_view(i.pid),
                Err(_) => None,
            },
            c.validator_present == probe_present(opts, reads),
            ({
                let (guess, why, sure) = infer_spec(
                    resolved_args(reads.resolved),
                    probe_client(opts, reads),
                );
                &&& c.profile_confident == sure
                &&& match opts.profile {
                    Some(p) => c.profile == p && c.profile_reason@ == "set with --profile"@,
                    None => c.profile == guess && c.profile_reason@ == why,
                }
                &&& match c.inferred_profile {
                    Some((q, w)) => opts.profile is Some && opts.profile->0 != guess
                        && probe_present(opts, reads) && q == guess && w@ == why,
                    None => !(opts.profile is Some && opts.profile->0 != guess && probe_present(
                        opts,
                        reads,
                    )),
                }
            }),
            c.fs.root@ == match opts.root {
                Some(r) => r@,
                None => "/"@,
            },
            c.linux == reads.linux,
            c.host_os@ == reads.host_os@,
            opt_view(c.os) == os_name_of(opt_view(reads.files.os_release)),
            opt_view(c.kernel) == match opt_view(reads.osrelease) {
                Some(t) => Some(trim(t)),
                None => None,
            },
            opt_view(c.arch) == arch_of(
                opts.root is Some && opts.root->0@ != "/"@,
                opt_view(reads.files.cpuinfo),
                reads.host_arch@,
            ),
            opt_view(c.virt) == virt_of(reads.lima, opt_view(reads.product_name)),
            c.uid == reads.uid,
            crate::host::read_facts(c.facts, opt_view(reads.files.cpuinfo), opt_view(reads.files.meminfo)),
            c.facts.disks@ == crate::host::sort_by_name(reads.disks@),
            c.facts.mounts@ == reads.mounts@,
            c.files == reads.files,
    {
        let ProbeReads {
            resolved,
            installed,
            detected,
            linux,
            host_os,
            host_arch,
            osrelease,
            lima,
            product_name,
            uid,
            disks,
            mounts,
            files,
        } = reads;
        let ghost resolved0 = resolved;
        let fs = Rootfs::new(opts.root);
        let (invocation, invocation_trail) = match resolved {
            Ok(i) => {
                let t = crate::argv::clone_strings(&i.trail);
                (Some(i), t)
            },
            Err(t) => (None, t),
        };
        let detected_client = detect_client(invocation.as_ref(), &installed);
        let mut client = detected_client;
        let mut version: Option<ClientVersion> = None;
        match &opts.client_override {
            Some(o) => {
                let (k, v) = client_override(o.as_str());
                client = k;
                version = v;
            },
            None => {},
        }
        let version_source = if version.is_none() {
            match detected {
                Some((v, src)) => {
                    version = v;
                    src
                },
                None => VersionSource::Undetected(owned("version detection did not run")),
            }
        } else {
            VersionSource::Flag
        };
        let validator_pid = match &invocation {
            Some(i) => match &i.pid {
                Some(p) => Some(p.clone()),
                None => None,
            },
            None => None,
        };
        let validator_present = invocation.is_some() || client != ClientKind::Unknown
            || opts.invocation_file.is_some();
        let (guess, guess_reason, confident) = infer_profile(invocation.as_ref(), client);
        let (profile, profile_reason) = match opts.profile {
            Some(p) => (p, owned("set with --profile")),
            None => (guess, owned(guess_reason.as_str())),
        };
        let inferred_profile = match opts.profile {
            Some(p) => if p != guess && validator_present {
                Some((guess, guess_reason))
            } else {
                None
            },
            None => None,
        };
        let prefixed = fs.is_prefixed();
        let os = os_release(&files.os_release);
        let kernel = kernel_release(&osrelease);
        let arch_name = arch(prefixed, &files.cpuinfo, host_arch.as_str());
        let virt_name = virt(lima, &product_name);
        let facts = crate::host::gather(&files.cpuinfo, &files.meminfo, disks, mounts);
        Ctx {
            fs,
            linux,
            host_os,
            profile,
            profile_reason,
            inferred_profile,
            profile_confident: confident,
            client,
            version,
            version_source,
            invocation,
            invocation_trail,
            validator_pid,
            validator_present,
            os,
            kernel,
            arch: arch_name,
            virt: virt_name,
            uid,
            facts,
            files,
        }
    }
}

} // verus!
