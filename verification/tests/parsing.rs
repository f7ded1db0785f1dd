use preflight::argv::{exec_line_from_script, find_pid, parse_unit, split_words, ProcEntry};
use preflight::checks::fs::{
    sized_shreds, BYTES_PER_SHRED, DEFAULT_BLOCKSTORE_SHREDS, LEGACY_DEFAULT_LEDGER_SHREDS,
};
use preflight::host::{civil_date, now_utc, physical_cores, ClientVersion};
use preflight::privilege::{valid_interface, valid_pid};
use preflight::render::{pad, pad_l, textwrap, verdict};
use preflight::text::{hex16, parse_hex_str};

#[test]
fn sizing_is_rounded_to_what_the_inputs_support() {
    // 235 GB free once produced 150218434, which reads as a measurement.
    assert_eq!(sized_shreds(235_000_000_000), 150_000_000);
    assert_eq!(sized_shreds(905_000_000_000), 580_000_000);
    // The legacy flag counts data shreds only, so the footprint doubles.
    assert_eq!(LEGACY_DEFAULT_LEDGER_SHREDS * 2, DEFAULT_BLOCKSTORE_SHREDS);
}

#[test]
fn sizing_rounds_half_up_to_tens_of_millions() {
    assert_eq!(sized_shreds(0), 0);
    // 7812.5 MB supports exactly 5 million shreds at 80%: half rounds up.
    assert_eq!(sized_shreds(7_812_500_000), 10_000_000);
    assert_eq!(sized_shreds(7_812_499_999), 0);
    assert_eq!(BYTES_PER_SHRED as u64 * DEFAULT_BLOCKSTORE_SHREDS, 500_000_000_000);
}

#[test]
fn versions_read_from_version_output() {
    let v = ClientVersion::parse("agave-validator 2.1.5 (src:3a1f; feat:123, client:Agave)").unwrap();
    assert_eq!((v.major, v.minor, v.patch), (2, 1, 5));
    assert_eq!(v.raw, "2.1.5");
    let v = ClientVersion::parse("agave-validator 4.3.0-beta.0").unwrap();
    assert_eq!((v.major, v.minor, v.patch), (4, 3, 0));
    assert_eq!(v.raw, "4.3.0-beta.0");
    assert_eq!(v.short(), "4.3.0");
    assert!(ClientVersion::parse("agave-validator unknown").is_none());
    let v = ClientVersion::parse("4.1").unwrap();
    assert_eq!((v.major, v.minor, v.patch), (4, 1, 0));
}

#[test]
fn version_floors_compare_major_then_minor() {
    let v = ClientVersion::parse("4.1.7").unwrap();
    assert!(v.at_least(4, 1));
    assert!(v.at_least(3, 9));
    assert!(!v.at_least(4, 2));
    assert!(!v.at_least(5, 0));
}

#[test]
fn timestamps_are_civil_utc() {
    assert_eq!(now_utc(0), "1970-01-01 00:00 UTC");
    assert_eq!(now_utc(951_782_400), "2000-02-29 00:00 UTC");
    assert_eq!(now_utc(1_700_000_000), "2023-11-14 22:13 UTC");
    assert_eq!(civil_date(86_400 * 365), (1971, 0, 0));
}

#[test]
fn cores_count_distinct_physical_pairs() {
    let two_sockets = "processor\t: 0\nphysical id\t: 0\ncore id\t\t: 0\ncpu cores\t: 2\n\n\
                       processor\t: 1\nphysical id\t: 0\ncore id\t\t: 1\ncpu cores\t: 2\n\n\
                       processor\t: 2\nphysical id\t: 1\ncore id\t\t: 0\ncpu cores\t: 2\n\n\
                       processor\t: 3\nphysical id\t: 1\ncore id\t\t: 1\ncpu cores\t: 2\n\n\
                       processor\t: 4\nphysical id\t: 1\ncore id\t\t: 1\ncpu cores\t: 2\n";
    assert_eq!(physical_cores(two_sockets), Some(4));
    assert_eq!(physical_cores("cpu cores\t: 8\n"), Some(8));
    assert_eq!(physical_cores("model name : x\n"), None);
}

#[test]
fn shell_words_follow_quotes_and_escapes() {
    assert_eq!(
        split_words("agave-validator --identity '/home/sol/my key.json' --log \"-\""),
        vec!["agave-validator", "--identity", "/home/sol/my key.json", "--log", "-"]
    );
    assert_eq!(split_words("a\\ b  c"), vec!["a b", "c"]);
    assert_eq!(split_words("''"), vec![""]);
    assert!(split_words("   ").is_empty());
}

#[test]
fn the_last_exec_start_of_a_unit_wins() {
    let unit = "[Service]\nEnvironment=RUST_LOG=info\nExecStart=/bin/old\nExecStart=-/home/sol/bin/validator.sh\n";
    let (exec, env) = parse_unit(unit).unwrap();
    assert_eq!(exec, "/home/sol/bin/validator.sh");
    assert_eq!(env, vec![("RUST_LOG".to_string(), "info".to_string())]);
    assert!(parse_unit("[Service]\nUser=sol\n").is_none());
}

#[test]
fn scripts_give_their_validator_line() {
    let script = "#!/bin/bash\nset -e\nexec agave-validator \\\n  --ledger /mnt/ledger \\\n  --dynamic-port-range 8000-8020\n";
    let words = exec_line_from_script(script).unwrap();
    assert_eq!(words[0], "agave-validator");
    assert_eq!(&words[1..], ["--ledger", "/mnt/ledger", "--dynamic-port-range", "8000-8020"]);
    assert!(exec_line_from_script("#!/bin/sh\necho hello\n").is_none());
}

#[test]
fn the_first_validator_process_is_the_one_found() {
    let procs = vec![
        ProcEntry { pid: "1".to_string(), cmdline: Some("/sbin/init\0".to_string()) },
        ProcEntry { pid: "self".to_string(), cmdline: Some("agave-validator\0".to_string()) },
        ProcEntry {
            pid: "4242".to_string(),
            cmdline: Some("/home/sol/bin/agave-validator\0--ledger\0/mnt/ledger\0".to_string()),
        },
        ProcEntry { pid: "5000".to_string(), cmdline: Some("agave-validator\0".to_string()) },
    ];
    let (pid, words) = find_pid(&procs).unwrap();
    assert_eq!(pid, "4242");
    assert_eq!(words, vec!["/home/sol/bin/agave-validator", "--ledger", "/mnt/ledger"]);
    let none = vec![
        ProcEntry { pid: "1".to_string(), cmdline: Some("/sbin/init\0".to_string()) },
        ProcEntry { pid: "self".to_string(), cmdline: Some("agave-validator\0".to_string()) },
        ProcEntry { pid: "77".to_string(), cmdline: None },
    ];
    assert!(find_pid(&none).is_none());
}

#[test]
fn names_are_checked_before_they_reach_a_command() {
    assert!(valid_interface("eth0", true));
    assert!(valid_interface("enp1s0f0.100", true));
    assert!(!valid_interface("eth0", false));
    assert!(!valid_interface("..", true));
    assert!(!valid_interface("eth0/../x", true));
    assert!(!valid_interface("", true));
    assert!(valid_pid("4242", true));
    assert!(!valid_pid("42a", true));
    assert!(!valid_pid("", true));
    assert!(!valid_pid("4242", false));
}

#[test]
fn hex_round_trips_through_the_capability_mask() {
    assert_eq!(parse_hex_str("0000000000003000"), Some(0x3000));
    assert_eq!(parse_hex_str("000001ffffffffff"), Some(0x1ff_ffff_ffff));
    assert_eq!(parse_hex_str("xyz"), None);
    assert_eq!(hex16(0x3000), "0000000000003000");
    assert_eq!(parse_hex_str(&hex16(0xdead_beef)), Some(0xdead_beef));
}

#[test]
fn wrapping_breaks_between_words() {
    assert_eq!(textwrap("aaa bbb ccc", 7), vec!["aaa bbb", "ccc"]);
    assert_eq!(textwrap("one\ntwo three", 80), vec!["one", "two three"]);
    assert_eq!(textwrap("", 10), vec![""]);
    assert_eq!(textwrap("longerthanwidth x", 4), vec!["longerthanwidth", "x"]);
}

#[test]
fn padding_counts_characters() {
    assert_eq!(pad("ab", 4), "ab  ");
    assert_eq!(pad_l("ab", 4), "  ab");
    assert_eq!(pad("abcdef", 4), "abcdef");
}

#[test]
fn verdicts_name_the_worst_thing_first() {
    assert_eq!(verdict(true, 0, 0, 0, 0, 0), "no validator installed, nothing to check");
    assert_eq!(verdict(false, 0, 0, 0, 0, 0), "nothing applied to this host");
    assert_eq!(verdict(false, 5, 1, 2, 0, 0), "no. 1 requirement cannot be met on this hardware");
    assert_eq!(verdict(false, 5, 0, 2, 1, 0), "no. 2 things must be fixed first");
    assert_eq!(verdict(false, 5, 0, 0, 1, 3), "yes, with 1 thing worth fixing");
    assert_eq!(verdict(false, 5, 0, 0, 0, 3), "cannot say. 3 things could not be read");
    assert_eq!(verdict(false, 5, 0, 0, 0, 0), "yes");
}

#[test]
fn more_room_never_supports_fewer_shreds() {
    let mut last = 0;
    for gb in [0u128, 1, 7, 8, 100, 235, 500, 905, 2000] {
        let n = sized_shreds(gb * 1_000_000_000);
        assert!(n >= last);
        last = n;
    }
}
