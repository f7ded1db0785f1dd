use preflight::argv::{Invocation, Origin};
use preflight::checks::{fs, net, service, xdp};
use preflight::ctx::{Ctx, HostFiles, VersionSource};
use preflight::host::{ClientVersion, Facts, Rootfs};
use preflight::model::{ClientKind, Profile, Status};

fn files() -> HostFiles {
    HostFiles {
        cpuinfo: None,
        meminfo: None,
        os_release: None,
        mounts: None,
        route: None,
        drivers: vec![],
        interrupts: None,
        irq_affinity: vec![],
        siblings: vec![],
        irqbalance_enabled: false,
        sysctl: vec![],
        sysctl_files: vec![],
        base_frequency: None,
        max_frequency: None,
        unit_texts: vec![],
        proc_status: None,
        task_status: vec![],
        rocksdb_bytes: None,
        snapshots_bytes: None,
        now_secs: 0,
        help_text: None,
    }
}

fn facts() -> Facts {
    Facts {
        cpu_model: None,
        cores: None,
        threads: None,
        khz: None,
        avx2: None,
        mem_kb: None,
        swap_kb: None,
        disks: vec![],
        mounts: vec![],
    }
}

fn invocation(args: &[&str], unit: Option<&str>) -> Invocation {
    Invocation {
        origin: Origin::File,
        pid: None,
        edit_target: Some("/home/sol/bin/validator.sh".to_string()),
        unit_path: unit.map(|u| format!("/etc/systemd/system/{u}")),
        unit_name: unit.map(|u| u.to_string()),
        program: "agave-validator".to_string(),
        args: args.iter().map(|a| a.to_string()).collect(),
        env: vec![],
        unresolved: vec![],
        trail: vec![],
    }
}

fn ctx(args: &[&str], unit: Option<&str>) -> Ctx {
    Ctx {
        fs: Rootfs::new(None),
        linux: true,
        host_os: "linux".to_string(),
        profile: Profile::Mainnet,
        profile_reason: "set with --profile".to_string(),
        inferred_profile: None,
        profile_confident: true,
        client: ClientKind::AgaveValidator,
        version: Some(ClientVersion { major: 4, minor: 2, patch: 1, raw: "4.2.1".to_string() }),
        version_source: VersionSource::Flag,
        invocation: Some(invocation(args, unit)),
        invocation_trail: vec![],
        validator_pid: None,
        validator_present: true,
        os: Some("Ubuntu 24.04.1 LTS".to_string()),
        kernel: Some("6.8.0-31-generic".to_string()),
        arch: Some("x86_64".to_string()),
        virt: None,
        uid: 1000,
        facts: facts(),
        files: files(),
    }
}

const ROUTE: &str = "Iface\tDestination\tGateway\tFlags\nens1\t00000000\t0101A8C0\t0003\n";

fn with_queues(siblings: Vec<(u32, &str)>) -> Ctx {
    let mut c = ctx(&[], None);
    c.files.route = Some(ROUTE.to_string());
    c.files.interrupts = Some(
        "            CPU0       CPU1\n 120:          5          6  IR-PCI-MSI  ens1-0\n 121:          7          8  IR-PCI-MSI  ens1-1\n"
            .to_string(),
    );
    c.files.irq_affinity = vec![("120".to_string(), "11".to_string()), ("121".to_string(), "3-4".to_string())];
    c.files.siblings = siblings.into_iter().map(|(n, s)| (n, s.to_string())).collect();
    c
}

#[test]
fn queues_on_two_threads_of_one_core_fail() {
    let c = with_queues(vec![(3, "3,11\n"), (11, "3,11\n")]);
    let o = net::irq_affinity(&c);
    assert_eq!(o.status, Status::Fail);
    assert_eq!(o.observed, "2 queues on CPUs 3 11; CPUs 11 and 3 are one core (3,11)");
    assert_eq!(o.expected, "each queue interrupt on a core of its own");
    assert_eq!(o.fix.len(), 3);
}

#[test]
fn queues_on_separate_cores_pass_in_ascending_order() {
    let c = with_queues(vec![(3, "3,19"), (11, "11,27")]);
    let o = net::irq_affinity(&c);
    assert_eq!(o.status, Status::Pass);
    assert_eq!(o.observed, "2 queues on CPUs 3 11, one physical core each");
}

#[test]
fn zero_copy_on_ice_fails() {
    let mut c = ctx(&["--xdp-zero-copy"], None);
    c.files.route = Some(ROUTE.to_string());
    c.files.drivers = vec![("ens1".to_string(), "ice".to_string())];
    let o = net::xdp_driver_support(&c);
    assert_eq!(o.status, Status::Fail);
    assert_eq!(o.observed, "ens1 uses ice (Intel E800 series), and --xdp-zero-copy is set");
    assert_eq!(o.expected, "zero copy off on this driver");
    assert_eq!(o.fix[0].command, "remove --xdp-zero-copy");
}

#[test]
fn a_driver_nobody_reported_is_unknown() {
    let mut c = ctx(&[], None);
    c.files.route = Some(ROUTE.to_string());
    c.files.drivers = vec![("ens1".to_string(), "virtio_net".to_string())];
    let o = net::xdp_driver_support(&c);
    assert_eq!(o.status, Status::Unknown);
    assert_eq!(o.observed, "ens1 uses virtio_net, which is not on the list");
}

const MOUNTS: &str = "/dev/nvme0n1p1 / ext4 rw,relatime 0 0\n/dev/nvme1n1p1 /mnt/ledger ext4 rw,relatime 0 0\n/dev/nvme2n1p1 /mnt/accounts xfs rw,noatime 0 0\n";

fn with_mounts(args: &[&str], unit: Option<&str>, mounts: &str) -> Ctx {
    let mut c = ctx(args, unit);
    c.files.mounts = Some(mounts.to_string());
    c
}

#[test]
fn noatime_names_the_mount_that_lacks_it() {
    let c = with_mounts(&["--ledger", "/mnt/ledger", "--accounts", "/mnt/accounts"], None, MOUNTS);
    let o = fs::noatime(&c);
    assert_eq!(o.status, Status::Fail);
    assert_eq!(o.observed, "ledger /mnt/ledger, mounted at /mnt/ledger, has no noatime");
    assert_eq!(o.expected, "noatime on the validator's filesystems");
}

#[test]
fn filesystem_types_are_listed_when_all_pass() {
    let c = with_mounts(&["--ledger", "/mnt/ledger", "--accounts", "/mnt/accounts"], None, MOUNTS);
    let o = fs::filesystem_type(&c);
    assert_eq!(o.status, Status::Pass);
    assert_eq!(o.observed, "accounts /mnt/accounts xfs, ledger /mnt/ledger ext4");
}

#[test]
fn accounts_and_ledger_on_separate_devices_pass() {
    let c = with_mounts(&["--ledger", "/mnt/ledger", "--accounts", "/mnt/accounts"], None, MOUNTS);
    let o = fs::separate_devices(&c);
    assert_eq!(o.status, Status::Pass);
    assert_eq!(o.observed, "accounts on nvme2n1, ledger on nvme1n1");
}

#[test]
fn accounts_and_ledger_on_one_device_fail() {
    let mounts = "/dev/nvme1n1p1 /mnt/ledger ext4 rw 0 0\n/dev/nvme1n1p2 /mnt/accounts xfs rw 0 0\n";
    let c = with_mounts(&["--ledger", "/mnt/ledger", "--accounts", "/mnt/accounts"], None, mounts);
    let o = fs::separate_devices(&c);
    assert_eq!(o.status, Status::Fail);
    assert_eq!(o.observed, "accounts and ledger both on nvme1n1");
}

#[test]
fn accounts_on_tmpfs_need_the_opt_out() {
    let mounts = "tmpfs /mnt/accounts tmpfs rw 0 0\n";
    let c = with_mounts(&["--accounts", "/mnt/accounts"], None, mounts);
    let o = fs::direct_io_support(&c);
    assert_eq!(o.status, Status::Fail);
    assert_eq!(o.observed, "/mnt/accounts is tmpfs, which does not support O_DIRECT, and the opt-out is not set");
    assert_eq!(o.fix[0].command, "--no-accounts-db-snapshots-direct-io");
    let c = with_mounts(
        &["--accounts", "/mnt/accounts", "--no-accounts-db-snapshots-direct-io"],
        None,
        mounts,
    );
    let o = fs::direct_io_support(&c);
    assert_eq!(o.status, Status::Pass);
    assert_eq!(o.observed, "/mnt/accounts is tmpfs, and --no-accounts-db-snapshots-direct-io is set");
}

#[test]
fn a_unit_that_ignores_its_mount_gets_a_drop_in() {
    let mut c = with_mounts(&["--ledger", "/mnt/ledger"], Some("sol.service"), MOUNTS);
    c.files.unit_texts = vec!["[Service]\nUser=sol\nExecStart=/home/sol/bin/validator.sh\n".to_string()];
    let o = service::requires_its_mounts(&c);
    assert_eq!(o.status, Status::Fail);
    assert_eq!(o.observed, "/mnt/ledger sits on its own mount, and the unit does not depend on it");
    assert_eq!(o.fix[0].command, "sudo mkdir -p /etc/systemd/system/sol.service.d");
    assert_eq!(
        o.fix[1].command,
        "printf '[Unit]\\nRequiresMountsFor=/mnt/ledger\\n' | sudo tee /etc/systemd/system/sol.service.d/10-mounts.conf"
    );
    assert_eq!(o.fix[2].command, "sudo systemctl daemon-reload");
}

#[test]
fn a_declared_parent_mount_covers_the_path() {
    let mut c = with_mounts(&["--ledger", "/mnt/ledger"], Some("sol.service"), MOUNTS);
    c.files.unit_texts = vec!["[Unit]\nRequiresMountsFor=/mnt/\n".to_string()];
    let o = service::requires_its_mounts(&c);
    assert_eq!(o.status, Status::Pass);
    assert_eq!(o.observed, "the unit declares /mnt/");
}

#[test]
fn an_ambient_grant_missing_a_capability_fails() {
    let mut c = ctx(&[], Some("sol.service"));
    c.files.unit_texts = vec!["[Service]\nAmbientCapabilities=cap_net_admin\n".to_string()];
    let o = xdp::capabilities(&c);
    assert_eq!(o.status, Status::Fail);
    assert_eq!(o.observed, "AmbientCapabilities=cap_net_admin, missing CAP_NET_RAW");
    assert_eq!(o.expected, "CAP_NET_ADMIN and CAP_NET_RAW in the permitted set");
    assert_eq!(o.fix.len(), 4);
    assert_eq!(o.fix[3].command, "sudo systemctl restart sol.service");
}

fn with_capprm(mask: &str, ambient: bool) -> Ctx {
    let mut c = ctx(&[], Some("sol.service"));
    c.validator_pid = Some("4242".to_string());
    c.files.proc_status = Some(format!("Name:\tagave-validator\nCapPrm:\t{mask}\n"));
    if ambient {
        c.files.unit_texts = vec!["[Service]\nAmbientCapabilities=CAP_NET_ADMIN CAP_NET_RAW\n".to_string()];
    }
    c
}

#[test]
fn a_running_process_holding_both_capabilities_passes() {
    let c = with_capprm("0000000000003000", true);
    let o = xdp::capabilities(&c);
    assert_eq!(o.status, Status::Pass);
    assert_eq!(o.observed, "a validator thread's CapPrm holds CAP_NET_ADMIN CAP_NET_RAW, so the grant reached the process");
    assert!(o.fix.is_empty());
}

#[test]
fn a_dropped_capability_is_not_a_missing_one() {
    let mut c = with_capprm("0000000000000000", true);
    c.files.task_status = vec!["Name:\tagave-validat\nCapPrm:\t0000000000000000\n".to_string()];
    let o = xdp::capabilities(&c);
    assert_ne!(o.status, Status::Fail);
    assert_eq!(o.status, Status::Pass);
    assert_eq!(o.observed, "AmbientCapabilities=CAP_NET_ADMIN CAP_NET_RAW");
    assert!(o.fix.is_empty());
}

#[test]
fn a_thread_holding_a_capability_proves_the_grant_arrived() {
    let mut c = with_capprm("0000000000000000", false);
    c.files.task_status = vec![
        "Name:\tagave-validat\nCapPrm:\t0000000000000000\n".to_string(),
        "Name:\tsolNetLnkRecv\nCapPrm:\t0000000000001000\n".to_string(),
    ];
    let o = xdp::capabilities(&c);
    assert_eq!(o.status, Status::Pass);
    assert!(o.observed.contains("reached the process"), "{}", o.observed);
    let p = xdp::capability_persistence(&c);
    assert_eq!(p.status, Status::Ephemeral);
}

#[test]
fn without_a_process_or_a_unit_capabilities_are_unknown() {
    let c = ctx(&["--xdp-interface", "eth0"], None);
    let o = xdp::capabilities(&c);
    assert_eq!(o.status, Status::Unknown);
    assert_eq!(
        o.observed,
        "no running validator whose CapPrm could be read, and invocation did not come from a systemd unit"
    );
    assert!(o.fix.is_empty());
    assert!(o.persistence.is_none());
}

#[test]
fn without_a_process_persistence_is_unknown() {
    let c = ctx(&[], Some("sol.service"));
    let p = xdp::capability_persistence(&c);
    assert_eq!(p.status, Status::Unknown);
}

#[test]
fn capabilities_from_setcap_are_ephemeral() {
    let c = with_capprm("0000000000003000", false);
    let o = xdp::capability_persistence(&c);
    assert_eq!(o.status, Status::Ephemeral);
    assert_eq!(
        o.fix[0].command,
        "move the grant into /etc/systemd/system/sol.service.d/20-xdp-caps.conf as AmbientCapabilities="
    );
    let c = with_capprm("0000000000003000", true);
    let o = xdp::capability_persistence(&c);
    assert_eq!(o.status, Status::Pass);
    assert_eq!(o.observed, "AmbientCapabilities set in the systemd unit");
}

#[test]
fn a_retention_target_beyond_the_disk_is_sized_down() {
    let mut c = with_mounts(
        &["--ledger", "/mnt/ledger", "--limit-blockstore-size", "400000000"],
        None,
        "/dev/nvme1n1p1 /mnt/ledger ext4 rw 0 0\n",
    );
    c.facts.mounts = vec![preflight::host::Mount {
        target: "/mnt/ledger".to_string(),
        fstype: "ext4".to_string(),
        free_bytes: Some(300_000_000_000),
        total_bytes: Some(400_000_000_000),
    }];
    c.files.rocksdb_bytes = Some(50_000_000_000);
    let o = fs::retention_fits_disk(&c);
    assert_eq!(o.status, Status::Fail);
    assert_eq!(o.expected, "a target under 400 GB");
    assert_eq!(o.verify.as_deref(), Some("du -sh /mnt/ledger/rocksdb"));
    assert_eq!(o.fix[0].command, "if you shrink it: --limit-blockstore-size 260000000");
    assert_eq!(o.fix.len(), 1);
}

#[test]
fn a_retention_target_written_as_a_float_reads_the_same() {
    for value in ["4e8", "400000000.0", "+4.0E8"] {
        let mut c = with_mounts(
            &["--ledger", "/mnt/ledger", "--limit-blockstore-size", value],
            None,
            "/dev/nvme1n1p1 /mnt/ledger ext4 rw 0 0\n",
        );
        c.facts.mounts = vec![preflight::host::Mount {
            target: "/mnt/ledger".to_string(),
            fstype: "ext4".to_string(),
            free_bytes: Some(300_000_000_000),
            total_bytes: Some(400_000_000_000),
        }];
        c.files.rocksdb_bytes = Some(50_000_000_000);
        let o = fs::retention_fits_disk(&c);
        assert_eq!(o.status, Status::Fail, "{value}");
        assert_eq!(o.expected, "a target under 400 GB", "{value}");
        assert_eq!(o.fix[0].command, "if you shrink it: --limit-blockstore-size 260000000", "{value}");
    }
}

#[test]
fn counts_parse_in_the_forms_a_float_takes() {
    assert_eq!(preflight::text::parse_count_str("50000000"), Some(50_000_000));
    assert_eq!(preflight::text::parse_count_str("50000000.0"), Some(50_000_000));
    assert_eq!(preflight::text::parse_count_str("5e7"), Some(50_000_000));
    assert_eq!(preflight::text::parse_count_str("1.5e3"), Some(1500));
    assert_eq!(preflight::text::parse_count_str("7.9"), Some(7));
    assert_eq!(preflight::text::parse_count_str("25e-1"), Some(2));
    assert_eq!(preflight::text::parse_count_str(".5"), Some(0));
    assert_eq!(preflight::text::parse_count_str("1e400"), Some(u64::MAX));
    assert_eq!(preflight::text::parse_count_str("abc"), None);
    assert_eq!(preflight::text::parse_count_str("1e"), None);
    assert_eq!(preflight::text::parse_count_str(""), None);
}

#[test]
fn an_unexpanded_token_stops_every_flag_check() {
    let mut c = ctx(&[], None);
    if let Some(inv) = c.invocation.as_mut() {
        inv.unresolved = vec!["$FLAGS".to_string()];
    }
    let o = preflight::checks::arg::port_range(&c);
    assert_eq!(o.status, Status::Unknown);
    assert_eq!(o.observed, "the command line still contains $FLAGS, so preflight never saw the real flags");
    assert_eq!(o.expected, "a command line with every token expanded");
    assert_eq!(o.verify.as_deref(), Some("tr '\\0' ' ' < /proc/$(pgrep -n agave-validator)/cmdline"));
}

#[test]
fn a_missing_version_asks_for_one() {
    let mut c = ctx(&["--dynamic-port-range", "8000-8020"], None);
    c.version = None;
    let o = preflight::checks::arg::port_range(&c);
    assert_eq!(o.status, Status::Unknown);
    assert_eq!(o.observed, "client version not detected");
    assert_eq!(o.fix[0].command, "preflight --client agave-validator@<version>");
}

fn with_kernel(args: &[&str], kernel: &str, driver: &str) -> Ctx {
    let mut c = ctx(args, None);
    c.kernel = Some(kernel.to_string());
    c.files.route = Some(ROUTE.to_string());
    c.files.drivers = vec![("ens1".to_string(), driver.to_string())];
    c
}

#[test]
fn the_zero_copy_floor_does_not_bind_the_default_path() {
    let c = with_kernel(&["--xdp-interface", "ens1"], "5.15.0-139-generic", "bnxt_en");
    let o = preflight::checks::kernel::xdp_floor(&c);
    assert_ne!(o.status, Status::Fail);
    assert!(o.observed.contains("copy mode"), "{}", o.observed);
    assert!(o.expected.contains("recommended"), "{}", o.expected);
}

#[test]
fn zero_copy_below_the_floor_is_a_finding() {
    let c = with_kernel(&["--xdp-zero-copy"], "5.15.0-139-generic", "bnxt_en");
    let o = preflight::checks::kernel::xdp_floor(&c);
    assert_eq!(o.status, Status::Fail);
    assert_eq!(o.expected, "kernel 6.8 or newer for zero copy");
    assert_eq!(o.fix[0].command, "drop --xdp-zero-copy");
    assert_eq!(o.fix[1].command, "or upgrade the kernel to 6.8 or newer");
}

#[test]
fn the_kernel_floor_follows_the_driver() {
    let c = with_kernel(&["--xdp-zero-copy"], "6.10.0-generic", "igb");
    let o = preflight::checks::kernel::xdp_floor(&c);
    assert_eq!(o.status, Status::Fail);
    assert!(o.expected.contains("because the driver is igb"), "{}", o.expected);
}

#[test]
fn noatime_says_how_to_set_it() {
    let mounts = "/dev/nvme0n1p2 / ext4 rw,relatime 0 0\n/dev/nvme1n1 /mnt/accounts xfs rw,relatime 0 0\n";
    let c = with_mounts(&["--ledger", "/var/ledger", "--accounts", "/mnt/accounts"], None, mounts);
    let o = fs::noatime(&c);
    assert_eq!(o.status, Status::Fail);
    let cmds: Vec<&str> = o.fix.iter().map(|f| f.command.as_str()).collect();
    assert_eq!(
        cmds,
        vec![
            "add noatime to the options of /mnt/accounts in /etc/fstab",
            "sudo mount -o remount,noatime /mnt/accounts",
            "add noatime to the options of / in /etc/fstab",
            "sudo mount -o remount,noatime /",
        ]
    );
    assert!(o.fix[3].note.as_deref().unwrap_or("").contains("watch the node"));
    assert!(o.why.contains("Anza does not publish this one"));
}

#[test]
fn accounts_on_cifs_need_the_opt_out_in_both_halves() {
    let mounts = "//nas/acc /mnt/accounts cifs rw 0 0\n";
    let c = with_mounts(&["--accounts", "/mnt/accounts"], None, mounts);
    assert_eq!(preflight::checks::arg::direct_io(&c).status, Status::Fail);
    assert_eq!(fs::direct_io_support(&c).status, Status::Fail);
}

#[test]
fn a_flag_that_lost_its_value_is_a_finding() {
    let mut c = ctx(
        &[
            "--identity",
            "/home/sol/validator-keypair.json",
            "--vote-account",
            "/home/sol/vote-account-keypair.json",
            "--entrypoint",
            "entrypoint.testnet.solana.com:8001",
            "--ledger",
            "/mnt/ledger",
            "--accounts",
            "/mnt/accounts",
            "--limit-blockstore-size",
            "--accounts-db-write-cache-limit",
            "10GB",
        ],
        Some("sol.service"),
    );
    c.profile = Profile::Testnet;
    c.version = Some(ClientVersion { major: 4, minor: 3, patch: 0, raw: "4.3.0".to_string() });
    let o = preflight::registry::run("PF-ARG-0014", &c).unwrap();
    assert_eq!(o.status, Status::Fail);
    assert!(o.observed.contains("--limit-blockstore-size"), "name the flag that lost it: {}", o.observed);
    assert_eq!(o.observed, "--limit-blockstore-size given without a value");
    assert_eq!(o.fix[1].command, "  give --limit-blockstore-size its value");
    let o = preflight::registry::run("PF-ARG-0011", &c).unwrap();
    assert_eq!(o.status, Status::Pass);
}

#[test]
fn the_binary_help_decides_which_flags_take_a_value() {
    let mut c = ctx(&["--ledger", "--no-voting", "--full-rpc-api"], None);
    c.files.help_text = Some(
        "USAGE:\n    agave-validator [FLAGS] [OPTIONS]\n\n        --full-rpc-api <ADDR>\n        --no-voting\n"
            .to_string(),
    );
    let o = preflight::checks::arg::flag_values(&c);
    assert_eq!(o.status, Status::Fail);
    assert_eq!(o.observed, "--full-rpc-api given without a value");
    c.files.help_text = None;
    let o = preflight::checks::arg::flag_values(&c);
    assert_eq!(o.observed, "--ledger given without a value");
    let c = ctx(&["--ledger", "/mnt/ledger", "--limit-ledger-size"], None);
    let o = preflight::checks::arg::flag_values(&c);
    assert_eq!(o.status, Status::Pass);
    assert_eq!(o.observed, "every flag that takes a value has one");
    assert!(o.fix.is_empty());
}

#[test]
fn layer_codes_read_in_any_case() {
    let all = [
        preflight::model::Layer::Arg,
        preflight::model::Layer::Xdp,
        preflight::model::Layer::Hw,
        preflight::model::Layer::Kernel,
        preflight::model::Layer::Limits,
        preflight::model::Layer::Fs,
        preflight::model::Layer::Net,
        preflight::model::Layer::Service,
        preflight::model::Layer::Validator,
        preflight::model::Layer::Security,
    ];
    for l in all {
        assert_eq!(preflight::model::Layer::parse(l.label()), Some(l));
        assert_eq!(preflight::model::Layer::parse(&l.label().to_ascii_lowercase()), Some(l));
    }
    assert_eq!(preflight::model::Layer::parse("KERNEL"), None);
    assert_eq!(preflight::model::Layer::parse("PF-KRN-0001"), None);
    assert_eq!(preflight::model::Layer::parse("kRn"), Some(preflight::model::Layer::Kernel));
}
