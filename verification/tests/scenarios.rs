use preflight::argv::{Invocation, Origin};
use preflight::checks::{arg, kernel};
use preflight::ctx::{Ctx, HostFiles, VersionSource};
use preflight::host::{ClientVersion, Facts, Rootfs};
use preflight::model::{exit_code, ClientKind, Profile, Status};
use preflight::registry;
use preflight::render::{self, Style};

fn files() -> HostFiles {
    HostFiles {
        cpuinfo: None,
        meminfo: None,
        os_release: None,
        mounts: None,
        route: None,
        drivers: vec![],
        interrupts: None,
        irq_affinity: vec![],
        siblings: vec![],
        irqbalance_enabled: false,
        sysctl: vec![],
        sysctl_files: vec![],
        base_frequency: None,
        max_frequency: None,
        unit_texts: vec![],
        proc_status: None,
        task_status: vec![],
        rocksdb_bytes: None,
        snapshots_bytes: None,
        now_secs: 0,
        help_text: None,
    }
}

fn facts() -> Facts {
    Facts {
        cpu_model: None,
        cores: None,
        threads: None,
        khz: None,
        avx2: None,
        mem_kb: None,
        swap_kb: None,
        disks: vec![],
        mounts: vec![],
    }
}

fn invocation(args: &[&str]) -> Invocation {
    Invocation {
        origin: Origin::File,
        pid: None,
        edit_target: Some("/home/sol/bin/validator.sh".to_string()),
        unit_path: None,
        unit_name: None,
        program: "agave-validator".to_string(),
        args: args.iter().map(|a| a.to_string()).collect(),
        env: vec![],
        unresolved: vec![],
        trail: vec![],
    }
}

fn version(major: u64, minor: u64, patch: u64) -> ClientVersion {
    ClientVersion { major, minor, patch, raw: format!("{major}.{minor}.{patch}") }
}

fn ctx_with(args: &[&str], v: Option<ClientVersion>) -> Ctx {
    Ctx {
        fs: Rootfs::new(None),
        linux: true,
        host_os: "linux".to_string(),
        profile: Profile::Mainnet,
        profile_reason: "set with --profile".to_string(),
        inferred_profile: None,
        profile_confident: true,
        client: ClientKind::AgaveValidator,
        version: v,
        version_source: VersionSource::Flag,
        invocation: Some(invocation(args)),
        invocation_trail: vec![],
        validator_pid: None,
        validator_present: true,
        os: Some("Ubuntu 24.04.1 LTS".to_string()),
        kernel: Some("6.8.0-31-generic".to_string()),
        arch: Some("x86_64".to_string()),
        virt: None,
        uid: 1000,
        facts: facts(),
        files: files(),
    }
}

#[test]
fn the_guide_port_range_is_too_narrow() {
    let ctx = ctx_with(&["--dynamic-port-range", "11000-11020"], Some(version(4, 1, 0)));
    let o = arg::port_range(&ctx);
    assert_eq!(o.status, Status::Fail);
    assert_eq!(o.observed, "--dynamic-port-range 11000-11020 (20 wide)");
}

#[test]
fn port_ranges_are_half_open() {
    let ctx = ctx_with(&["--dynamic-port-range=11000-11025"], Some(version(4, 1, 0)));
    let o = arg::port_range(&ctx);
    assert_eq!(o.status, Status::Fail);
    assert_eq!(o.observed, "--dynamic-port-range 11000-11025 (25 wide)");
    let ctx = ctx_with(&["--dynamic-port-range", "11000-11026"], Some(version(4, 1, 0)));
    let o = arg::port_range(&ctx);
    assert_eq!(o.status, Status::Pass);
    assert_eq!(o.observed, "--dynamic-port-range 11000-11026 (26 wide)");
}

#[test]
fn port_range_gates_on_the_release_and_the_reading() {
    let args = ["--dynamic-port-range", "11000-11020"];
    assert_eq!(arg::port_range(&ctx_with(&args, Some(version(4, 0, 9)))).status, Status::Skipped);
    assert_eq!(arg::port_range(&ctx_with(&args, None)).status, Status::Unknown);
    let unset = ctx_with(&["--ledger", "/mnt/ledger"], Some(version(4, 2, 0)));
    assert_eq!(arg::port_range(&unset).status, Status::Pass);
    let var = ctx_with(&["--dynamic-port-range", "$PORTS"], Some(version(4, 2, 0)));
    assert_eq!(arg::port_range(&var).status, Status::Unknown);
    let mut absent = ctx_with(&args, Some(version(4, 2, 0)));
    absent.validator_present = false;
    assert_eq!(arg::port_range(&absent).status, Status::Skipped);
}

fn with_sysctl(key: &str, value: &str, persisted: bool) -> Ctx {
    let mut ctx = ctx_with(&[], Some(version(4, 1, 0)));
    ctx.files.sysctl.push((key.to_string(), format!("{value}\n")));
    if persisted {
        ctx.files.sysctl_files.push((
            "/etc/sysctl.d/21-agave-validator.conf".to_string(),
            format!("# tuned\n{key} = {value}\n"),
        ));
    }
    ctx
}

#[test]
fn a_fresh_kernel_fails_the_buffer_floor() {
    let o = kernel::rmem_max(&with_sysctl("net.core.rmem_max", "212992", false));
    assert_eq!(o.status, Status::Fail);
    assert_eq!(o.expected, "net.core.rmem_max at or above 134217728");
    assert!(o.observed.starts_with("net.core.rmem_max = 212992"));
    assert_eq!(o.fix.len(), 2);
    assert_eq!(
        o.fix[0].command,
        "echo 'net.core.rmem_max = 134217728' | sudo tee -a /etc/sysctl.d/21-agave-validator.conf"
    );
}

#[test]
fn a_value_nothing_restores_is_ephemeral() {
    let o = kernel::wmem_max(&with_sysctl("net.core.wmem_max", "134217728", false));
    assert_eq!(o.status, Status::Ephemeral);
    let o = kernel::wmem_max(&with_sysctl("net.core.wmem_max", "134217728", true));
    assert_eq!(o.status, Status::Pass);
    assert_eq!(
        o.observed,
        "net.core.wmem_max = 134217728, set by /etc/sysctl.d/21-agave-validator.conf"
    );
}

#[test]
fn the_kernel_default_is_never_ephemeral() {
    let o = kernel::nr_open(&with_sysctl("fs.nr_open", "1048576", false));
    assert_eq!(o.status, Status::Pass);
    assert_eq!(o.observed, "fs.nr_open = 1048576, the stock value, which is already adequate and survives a reboot");
}

#[test]
fn an_unreadable_value_is_unknown() {
    let o = kernel::max_map_count(&ctx_with(&[], None));
    assert_eq!(o.status, Status::Unknown);
    assert_eq!(o.fix.len(), 1);
}

#[test]
fn a_commented_line_does_not_persist_a_value() {
    let mut ctx = with_sysctl("vm.max_map_count", "1000000", false);
    ctx.files.sysctl_files.push((
        "/etc/sysctl.conf".to_string(),
        "# vm.max_map_count = 1000000\n".to_string(),
    ));
    assert_eq!(kernel::max_map_count(&ctx).status, Status::Ephemeral);
}

#[test]
fn the_registry_runs_only_the_ids_it_holds() {
    let ctx = ctx_with(&["--dynamic-port-range", "11000-11020"], Some(version(4, 1, 0)));
    assert!(registry::run("PF-ARG-0001", &ctx).is_some());
    assert_eq!(registry::run("PF-ARG-0001", &ctx).unwrap().status, Status::Fail);
    assert!(registry::run("PF-NOPE-0001", &ctx).is_none());
    let checks = registry::registry();
    let i = registry::find(&checks, "pf-arg-0001").unwrap();
    assert_eq!(checks[i].id, "PF-ARG-0001");
    assert!(registry::find(&checks, "PF-ARG-9999").is_none());
}

#[test]
fn every_registered_id_is_distinct_and_runs() {
    let ctx = ctx_with(&[], Some(version(4, 1, 0)));
    let checks = registry::registry();
    assert!(!checks.is_empty());
    for (i, a) in checks.iter().enumerate() {
        assert!(registry::run(&a.id, &ctx).is_some(), "{} does not run", a.id);
        for b in checks.iter().skip(i + 1) {
            assert_ne!(a.id, b.id);
        }
    }
}

#[test]
fn only_and_skip_select_the_findings() {
    let ctx = ctx_with(&["--dynamic-port-range", "11000-11020"], Some(version(4, 1, 0)));
    let checks = registry::registry();
    let only = vec!["PF-ARG-0001".to_string()];
    let found = registry::run_all(&checks, &ctx, &only, &vec![]);
    assert_eq!(found.len(), 1);
    assert_eq!(found[0].id, "PF-ARG-0001");
    assert_eq!(found[0].outcome.status, Status::Fail);
    assert_eq!(exit_code(&found), 1);
    let none = registry::run_all(&checks, &ctx, &only, &only);
    assert!(none.is_empty());
    assert_eq!(exit_code(&none), 0);
}

#[test]
fn a_check_for_a_missing_validator_is_skipped() {
    let mut ctx = ctx_with(&[], None);
    ctx.validator_present = false;
    ctx.invocation = None;
    let checks = registry::registry();
    let i = registry::find(&checks, "PF-ARG-0001").unwrap();
    let o = registry::evaluate(&checks[i], &ctx);
    assert_eq!(o.status, Status::Skipped);
    assert_eq!(o.observed, "no validator installed; this check reads one");
}

fn port_range_run() -> (Ctx, Vec<preflight::model::Finding>) {
    let ctx = ctx_with(&["--dynamic-port-range", "11000-11020"], Some(version(4, 1, 0)));
    let checks = registry::registry();
    let only = vec!["PF-ARG-0001".to_string()];
    let findings = registry::run_all(&checks, &ctx, &only, &vec![]);
    (ctx, findings)
}

#[test]
fn explain_runs_the_check_and_lists_its_sources() {
    let ctx = ctx_with(&["--dynamic-port-range", "11000-11020"], Some(version(4, 1, 0)));
    let checks = registry::registry();
    let i = registry::find(&checks, "PF-ARG-0001").unwrap();
    let text = render::explain(&checks[i], &Style { color: false }, &ctx);
    assert!(text.starts_with("\n  PF-ARG-0001  Dynamic port range is wide enough"));
    assert!(text.contains("  FAIL  fatal\n\n  observed  --dynamic-port-range 11000-11020 (20 wide)\n"));
    assert!(text.contains("\n  layer      ARG\n  severity   fatal\n  profiles   testnet, mainnet\n  clients    agave-validator\n  root       no\n\n"));
    assert!(text.ends_with(
        "  source     MINIMUM_VALIDATOR_PORT_RANGE_WIDTH [v4.2.1]\n  source     v4.1 Validator/Breaking [v4.2.1]\n"
    ));
}

#[test]
fn explain_says_when_a_check_does_not_apply() {
    let mut ctx = ctx_with(&[], Some(version(4, 1, 0)));
    ctx.profile = Profile::Local;
    let checks = registry::registry();
    let i = registry::find(&checks, "PF-ARG-0001").unwrap();
    let text = render::explain(&checks[i], &Style { color: false }, &ctx);
    assert!(text.contains("SKIPPED"));
    assert!(text.contains("observed  not applicable to profile local with client agave-validator\n"));
}

#[test]
fn the_elevated_read_is_named_in_the_explanation() {
    let ctx = ctx_with(&[], Some(version(4, 2, 0)));
    let checks = registry::registry();
    let i = registry::find(&checks, "PF-XDP-0007").unwrap();
    if checks[i].needs_root {
        let text = render::explain(&checks[i], &Style { color: false }, &ctx);
        assert!(text.contains("  root       elevated reads required\n             $ sudo cat /proc/{pid}/status\n"));
    }
}

#[test]
fn markdown_tables_every_finding_that_ran() {
    let (ctx, findings) = port_range_run();
    let md = render::markdown(&ctx, &findings);
    assert!(md.starts_with(
        "## preflight report\n\n| | |\n|---|---|\n| host | `x86_64` \u{b7} kernel `6.8.0-31-generic` |\n| os | Ubuntu 24.04.1 LTS |\n| client | agave-validator 4.1.0 |\n| profile | `mainnet` (set with --profile) |\n\n| id | status | severity | check |\n|---|---|---|---|\n| `PF-ARG-0001` | FAIL | fatal | Dynamic port range is wide enough |\n"
    ));
    assert!(md.contains("\n### PF-ARG-0001 \u{2014} Dynamic port range is wide enough\n\n- **observed** --dynamic-port-range 11000-11020 (20 wide)\n- **expected** a range at least 26 wide, or unset\n"));
    assert!(md.contains("\n```\nedit /home/sol/bin/validator.sh\n  --dynamic-port-range 11000-11020   ->   11000-11030\n```\n"));
}

#[test]
fn the_registry_table_has_a_row_per_check() {
    let checks = registry::registry();
    let table = render::dump_registry(&checks);
    assert!(table.starts_with("| id | layer | severity | profiles | clients | check | source | verified |\n|---|---|---|---|---|---|---|---|\n"));
    assert_eq!(table.lines().count(), 2 + checks.len());
    assert!(table.contains("| `PF-ARG-0001` | ARG | fatal | testnet mainnet | agave-validator | Dynamic port range is wide enough | MINIMUM_VALIDATOR_PORT_RANGE_WIDTH<br>v4.1 Validator/Breaking | v4.2.1<br>v4.2.1 |\n"));
}

#[test]
fn the_report_describes_the_machine_then_answers() {
    let (ctx, findings) = port_range_run();
    let text = render::report(&ctx, &findings, &Style { color: false }, false, false, 0, "0.1.0", "https://example.org/preflight");
    assert!(text.starts_with(
        "preflight 0.1.0\n\nSYSTEM\n  cpu         x86_64\n  disks       none detected\n  os          Ubuntu 24.04.1 LTS  \u{b7}  kernel 6.8.0-31-generic\n  validator   agave-validator 4.1.0\n  config      /home/sol/bin/validator.sh\n  profile     mainnet  \u{b7}  set with --profile\n  preflight   read-only, running as uid 1000\n\nIS THE VALIDATOR CONFIGURED CORRECTLY?\n  no. 1 thing must be fixed first\n\nValidator command line\n\n  PF-ARG-0001  "
    ));
    assert!(text.ends_with(
        "\n1 fail\n\nnext      1 finding stops the validator from starting: PF-ARG-0001\n          fix that first, then re-run\n          preflight explain <id>  for one finding on its own\n"
    ));
}

#[test]
fn a_run_where_nothing_applied_says_so() {
    let mut ctx = ctx_with(&[], None);
    ctx.validator_present = false;
    ctx.invocation = None;
    let checks = registry::registry();
    let only = vec!["ARG".to_string()];
    let findings = registry::run_all(&checks, &ctx, &only, &vec![]);
    assert_eq!(findings.len(), 14);
    let text = render::report(&ctx, &findings, &Style { color: false }, false, false, 0, "0.1.0", "r");
    assert!(text.contains("  no validator installed, nothing to check\n"));
    assert!(text.contains("\nnothing applied to this host\n"));
}

#[test]
fn skip_is_the_inverse_of_only() {
    let checks = registry::registry();
    let ctx = ctx_with(&[], Some(version(4, 1, 0)));
    let pats = vec!["KRN".to_string(), "pf-arg-0001".to_string()];
    let only = registry::run_all(&checks, &ctx, &pats, &vec![]);
    let skip = registry::run_all(&checks, &ctx, &vec![], &pats);
    assert_eq!(only.len(), 6);
    assert_eq!(only.len() + skip.len(), checks.len());
    for f in &only {
        assert!(skip.iter().all(|g| g.id != f.id));
    }
}

#[test]
fn firedancer_configuration_is_skipped() {
    let mut ctx = ctx_with(&["--dynamic-port-range", "11000-11020"], Some(version(4, 1, 0)));
    ctx.client = ClientKind::Firedancer;
    let checks = registry::registry();
    for f in registry::run_all(&checks, &ctx, &vec!["ARG".to_string(), "XDP".to_string()], &vec![]) {
        assert_eq!(f.outcome.status, Status::Skipped, "{}", f.id);
    }
}

#[test]
fn a_failure_is_never_hidden_by_other_findings() {
    let (ctx, mut findings) = port_range_run();
    let checks = registry::registry();
    findings.extend(registry::run_all(&checks, &ctx, &vec!["PF-HW-0004".to_string()], &vec![]));
    assert_eq!(exit_code(&findings), 1);
}

#[test]
fn needs_root_counts_selected_elevated_checks() {
    let ctx = ctx_with(&[], Some(version(4, 2, 0)));
    let checks = registry::registry();
    let expected = checks.iter().filter(|c| c.needs_root && c.applies_to(ctx.profile, ctx.client)).count();
    assert_eq!(registry::needs_root(&checks, &ctx, &vec![], &vec![]), expected);
    assert_eq!(registry::needs_root(&checks, &ctx, &vec!["HW".to_string()], &vec![]), 0);
}

#[test]
fn every_failing_fix_names_the_file_to_edit() {
    let mut ctx = ctx_with(
        &[
            "--dynamic-port-range",
            "8000-8020",
            "--allow-private-addr",
            "--block-verification-method",
            "blockstore-processor",
            "--accounts-db-cache-limit-mb",
            "4096",
            "--disable-banking-trace",
        ],
        Some(version(4, 3, 0)),
    );
    if let Some(inv) = ctx.invocation.as_mut() {
        inv.unit_name = Some("sol.service".to_string());
        inv.unit_path = Some("/etc/systemd/system/sol.service".to_string());
    }
    let checks = registry::registry();
    let found = registry::run_all(&checks, &ctx, &vec!["ARG".to_string()], &vec![]);
    let failing: Vec<_> = found.iter().filter(|f| f.outcome.status == Status::Fail).collect();
    assert!(failing.len() >= 5);
    for f in failing {
        assert_eq!(f.outcome.fix[0].command, "edit /home/sol/bin/validator.sh", "{}", f.id);
        assert_eq!(
            f.outcome.fix.last().unwrap().command,
            "sudo systemctl restart sol.service",
            "{}",
            f.id
        );
    }
}

#[test]
fn run_ends_with_what_to_do_first() {
    let ctx = ctx_with(
        &[
            "--dynamic-port-range",
            "8000-8020",
            "--accounts-db-clean-threads",
            "4",
            "--block-production-method",
            "central-scheduler",
        ],
        Some(version(4, 2, 1)),
    );
    let checks = registry::registry();
    let only = vec!["ARG".to_string()];
    let findings = registry::run_all(&checks, &ctx, &only, &vec![]);
    let text = render::report(&ctx, &findings, &Style { color: false }, false, false, 0, "0.1.0", "r");
    assert!(text.contains("2 findings stop the validator from starting: PF-ARG-0001, PF-ARG-0003"), "{text}");
    assert!(text.contains("leave the node short") || text.contains("leaves the node short"), "{text}");
}

#[test]
fn the_registry_table_is_the_committed_document() {
    let want: Vec<&str> = vec![
        "| id | layer | severity | profiles | clients | check | source | verified |",
        "|---|---|---|---|---|---|---|---|",
        "| `PF-HW-0001` | HW | fatal | testnet mainnet | agave-validator solana-test-validator firedancer unknown | CPU architecture is x86-64 | docs.anza.xyz/operations/requirements | 2026-08 |",
        "| `PF-HW-0002` | HW | fatal | testnet mainnet | agave-validator solana-test-validator firedancer unknown | CPU supports AVX2 | docs.anza.xyz/operations/requirements | 2026-08 |",
        "| `PF-HW-0003` | HW | degraded | testnet mainnet | agave-validator solana-test-validator firedancer unknown | CPU base clock is 2.8 GHz or faster | docs.anza.xyz/operations/requirements | 2026-08 |",
        "| `PF-HW-0004` | HW | advisory | testnet mainnet | agave-validator solana-test-validator firedancer unknown | CPU core and thread count | docs.anza.xyz/operations/requirements<br>solanahcl.org, agave CPU list | 2026-08<br>2026-08 |",
        "| `PF-HW-0005` | HW | degraded | local testnet mainnet | agave-validator solana-test-validator firedancer unknown | Installed memory | docs.anza.xyz/operations/requirements | 2026-08 |",
        "| `PF-HW-0006` | HW | degraded | testnet mainnet | agave-validator solana-test-validator firedancer unknown | CPU is one somebody has reported on | solanahcl.org, agave CPU list | 2026-08 |",
        "| `PF-HW-0007` | HW | advisory | testnet mainnet | agave-validator solana-test-validator firedancer unknown | Operating system is still in standard support | ubuntu.com/about/release-cycle | 2026-08 |",
        "| `PF-KRN-0001` | KRN | fatal | local testnet mainnet | agave-validator solana-test-validator firedancer unknown | net.core.rmem_max | INTERESTING_LIMITS<br>check_os_network_limits() | v4.2.1<br>v4.2.1 |",
        "| `PF-KRN-0002` | KRN | fatal | local testnet mainnet | agave-validator solana-test-validator firedancer unknown | net.core.wmem_max | INTERESTING_LIMITS<br>check_os_network_limits() | v4.2.1<br>v4.2.1 |",
        "| `PF-KRN-0003` | KRN | fatal | local testnet mainnet | agave-validator solana-test-validator firedancer unknown | vm.max_map_count | INTERESTING_LIMITS<br>check_os_network_limits() | v4.2.1<br>v4.2.1 |",
        "| `PF-KRN-0004` | KRN | fatal | local testnet mainnet | agave-validator solana-test-validator firedancer unknown | fs.nr_open | docs.anza.xyz/operations/setup-a-validator, System Tuning | 2026-08 |",
        "| `PF-KRN-0005` | KRN | degraded | testnet mainnet | agave-validator | Kernel carries the XDP mode in use | anza.xyz/blog/agave-xdp-setup-guide, zero copy kernel versions | 2026-08 |",
        "| `PF-FS-0001` | FS | degraded | testnet mainnet | agave-validator solana-test-validator firedancer unknown | Storage capacity and headroom | docs.anza.xyz/operations/requirements, Disk Storage<br>headroom figure is preflight's own, not published | 2026-08<br>2026-08 |",
        "| `PF-FS-0002` | FS | degraded | testnet mainnet | agave-validator solana-test-validator firedancer unknown | Accounts and ledger on separate devices | docs.anza.xyz/operations/requirements, Disk Storage | 2026-08 |",
        "| `PF-FS-0003` | FS | degraded | testnet mainnet | agave-validator solana-test-validator firedancer unknown | Storage is solid-state and local | docs.anza.xyz/operations/requirements, Disk Storage | 2026-08 |",
        "| `PF-FS-0004` | FS | advisory | testnet mainnet | agave-validator solana-test-validator firedancer unknown | noatime on validator filesystems | operator practice, not published by Anza | 2026-08 |",
        "| `PF-FS-0005` | FS | advisory | testnet mainnet | agave-validator solana-test-validator firedancer unknown | Filesystem is ext4 or xfs | docs.anza.xyz/operations/requirements, Disk Storage | 2026-08 |",
        "| `PF-FS-0006` | FS | degraded | testnet mainnet | agave-validator solana-test-validator firedancer unknown | Accounts filesystem supports direct I/O | v4.0 Validator/Changes | v4.2.1 |",
        "| `PF-FS-0007` | FS | degraded | testnet mainnet | agave-validator | Ledger retention fits the disk holding it | DEFAULT_MAX_BLOCKSTORE_SHREDS and the sizing comment above it in cleanup_service.rs | agave master |",
        "| `PF-NET-0001` | NET | degraded | testnet mainnet | agave-validator solana-test-validator firedancer unknown | Network driver carries the XDP transmit path | solanahcl.org, network card list | 2026-08 |",
        "| `PF-ARG-0001` | ARG | fatal | testnet mainnet | agave-validator | Dynamic port range is wide enough | MINIMUM_VALIDATOR_PORT_RANGE_WIDTH<br>v4.1 Validator/Breaking | v4.2.1<br>v4.2.1 |",
        "| `PF-ARG-0002` | ARG | fatal | local testnet mainnet | agave-validator | Private addressing requires --no-xdp | v4.2 Validator/Changes | v4.2.1 |",
        "| `PF-ARG-0003` | ARG | fatal | local testnet mainnet | agave-validator solana-test-validator | No arguments removed in v4.0 | v4.0 Validator/Breaking | v4.2.1 |",
        "| `PF-ARG-0004` | ARG | fatal | testnet mainnet | agave-validator | Block verification method is supported | v4.0 Validator/Breaking | v4.2.1 |",
        "| `PF-ARG-0005` | ARG | degraded | testnet mainnet | agave-validator | Block production method is supported | v4.1 Validator/Breaking | v4.2.1 |",
        "| `PF-ARG-0006` | ARG | degraded | testnet mainnet | agave-validator | No deprecated experimental XDP flags | v4.1 Validator/Deprecations | v4.2.1 |",
        "| `PF-ARG-0007` | ARG | degraded | testnet mainnet | agave-validator | PoH pinned core flag uses the current name | v4.2 Validator/Deprecations | v4.2.1 |",
        "| `PF-ARG-0008` | ARG | degraded | testnet mainnet | agave-validator | No deprecated accounts-db arguments | v4.1 Validator/Deprecations<br>v4.2 Validator/Deprecations | v4.2.1<br>v4.2.1 |",
        "| `PF-ARG-0009` | ARG | degraded | testnet mainnet | agave-validator | Accounts index limit is set explicitly | v4.1 Validator/Deprecations | v4.2.1 |",
        "| `PF-ARG-0010` | ARG | degraded | testnet mainnet | agave-validator | Direct I/O setting matches the accounts filesystem | v4.0 Validator/Changes | v4.2.1 |",
        "| `PF-ARG-0011` | ARG | degraded | testnet mainnet | agave-validator | Ledger size limit uses the current flag | BlockstoreCleanupStrategy, CountDataShreds vs CountDataAndCodingShreds<br>LEGACY_DEFAULT_MAX_LEDGER_SHREDS 200000000, DEFAULT_MAX_BLOCKSTORE_SHREDS 400000000<br>--limit-blockstore-size, present in agave-validator --help | agave master<br>agave master<br>4.3.0-beta.0 |",
        "| `PF-ARG-0012` | ARG | advisory | testnet mainnet | agave-validator | Banking trace flag still expresses something *(provisional)* | 4.3.0-Unreleased Validator/Deprecations | master 2026-08 |",
        "| `PF-ARG-0013` | ARG | fatal | testnet mainnet | agave-validator | No removed TPU connection pool argument | --tpu-connection-pool-size, absent from agave-validator --help | 4.3.0-beta.0 |",
        "| `PF-ARG-0014` | ARG | degraded | local testnet mainnet | agave-validator | Every flag that takes a value has one | value placeholders in agave-validator --help | 4.3.0-beta.0 |",
        "| `PF-XDP-0001` | XDP | degraded | local testnet mainnet | agave-validator | XDP capabilities are in the permitted set | v4.0 Validator/Breaking (#9133)<br>v4.2 Validator/Breaking | v4.2.1<br>v4.2.1 |",
        "| `PF-XDP-0007` | XDP | degraded | testnet mainnet | agave-validator | Capabilities come from the unit, not from setcap | v4.0 Validator/Breaking (#9133) | v4.2.1 |",
    ];
    let checks = registry::registry();
    let table = render::dump_registry(&checks);
    let got: Vec<&str> = table.lines().collect();
    assert_eq!(got, want);
}
