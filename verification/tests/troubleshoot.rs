use fs25_ffb::config::Config;
use fs25_ffb::daemon::PathError;
use fs25_ffb::device::{Candidate, FfSupport};
use fs25_ffb::troubleshoot::{
    check_boxflat_running, check_conflicting_processes, check_cpu_governor,
    check_dev_input_readable, check_device_visible, check_ffb_capable, check_kernel_version,
    check_mod_installed, check_proton_version, check_sdl_hidapi_env, check_steam_compatdata,
    check_telemetry_fresh, check_udev_rule_installed, check_user_in_input_group,
    compatdata_candidates, find_word, judge_kernel, judge_proton, judge_telemetry, manager_names, mod_locations,
    parse_kver, parse_pid, pidof, proton_version_path, run_all, run_cli_report, udev_rule_paths,
    Check, Facts, FileAge, Severity,
};

fn some(text: &str) -> Option<String> {
    Some(text.to_string())
}

fn bytes(text: &str) -> Option<Vec<u8>> {
    Some(text.as_bytes().to_vec())
}

fn shows(c: &Check, severity: Severity, name: &str, detail: &str, fix: Option<&str>) {
    assert_eq!(c.severity, severity);
    assert_eq!(c.name, name);
    assert_eq!(c.detail, detail);
    assert_eq!(c.fix.as_deref(), fix);
}

fn moza() -> Candidate {
    Candidate {
        path: "/dev/input/event3".to_string(),
        name: some("MOZA R5 Base"),
        vendor_id: 0x346e,
        product_id: 2,
        ff: Some(FfSupport {
            constant: true,
            spring: true,
            damper: true,
            periodic: true,
            rumble: false,
        }),
        max_effects: 40,
    }
}

fn healthy() -> Facts {
    Facts {
        release: bytes("6.15.2-1-cachyos\n"),
        groups: bytes("me wheel input\n"),
        input_dir_error: None,
        udev_rules: vec![true, false],
        devices: vec![moza()],
        opened: Ok(Some(vec![0x52, 0x53])),
        home: some("/home/me"),
        telemetry_home: some("/home/me"),
        prefixes: vec![true, false],
        mods: vec![false, true],
        telemetry_dirs: vec![true, false, false, false],
        telemetry_age: Some(FileAge {
            nanos: Some(300_000_000),
            seconds_text: "0.3".to_string(),
        }),
        boxflat: bytes("1234\n"),
        proton_version: some("9.0-203\n"),
        managers: vec![bytes(""), bytes(""), bytes("")],
        sdl_hidapi: some("0"),
        governor: some("schedutil\n"),
    }
}

#[test]
fn findings_are_built() {
    shows(&Check::ok("n", "d"), Severity::Okay, "n", "d", None);
    shows(&Check::warn("n", "d", "f"), Severity::Warn, "n", "d", Some("f"));
    shows(&Check::fail("n", "d", "f").clone(), Severity::Fail, "n", "d", Some("f"));
}

#[test]
fn kernel_releases_are_read() {
    assert_eq!(parse_kver("6.14.3-1-cachyos"), Some((6, 14, 3)));
    assert_eq!(parse_kver("6.15-rc1"), Some((6, 15, 1)));
    assert_eq!(parse_kver("6.15"), Some((6, 15, 0)));
    assert_eq!(parse_kver("v6.x12"), Some((6, 12, 0)));
    assert_eq!(parse_kver("6"), None);
    assert_eq!(parse_kver(""), None);
    assert_eq!(parse_kver("99999999999.1"), None);
    assert_eq!(parse_kver("6.12.99999999999"), Some((6, 12, 0)));
}

#[test]
fn kernels_must_be_new_enough_for_the_wheel() {
    for new in ["6.12.24", "6.12.60-lts", "6.13.12", "6.14.3", "6.15", "6.18.1", "7.0"] {
        assert!(judge_kernel(new));
    }
    for old in ["6.12.23", "6.13.11", "6.14.2", "6.11.99", "5.15.200", "", "none"] {
        assert!(!judge_kernel(old));
    }
}

#[test]
fn the_kernel_check_explains_itself() {
    shows(
        &check_kernel_version(&None),
        Severity::Warn,
        "kernel-version",
        "could not run `uname -r`",
        Some("install coreutils"),
    );
    shows(
        &check_kernel_version(&bytes(" 6.14.3-1-cachyos\n")),
        Severity::Okay,
        "kernel-version",
        "kernel 6.14.3-1-cachyos is new enough",
        None,
    );
    shows(
        &check_kernel_version(&bytes("5.10.1\n")),
        Severity::Warn,
        "kernel-version",
        "running kernel 5.10.1 (Moza R5 FFB wants 6.12.24+, 6.13.12+, 6.14.3+ or 6.15+)",
        Some("on CachyOS: `sudo pacman -S linux-cachyos` (6.14+) and reboot"),
    );
}

#[test]
fn the_input_group_is_looked_for() {
    assert!(find_word("me wheel input\n", "input"));
    assert!(!find_word("me inputs xinput\n", "input"));
    shows(
        &check_user_in_input_group(&None),
        Severity::Warn,
        "input-group",
        "could not run `id -Gn`",
        Some("install coreutils"),
    );
    shows(
        &check_user_in_input_group(&bytes("me input")),
        Severity::Okay,
        "input-group",
        "user is in `input` group",
        None,
    );
    shows(
        &check_user_in_input_group(&bytes("me")),
        Severity::Warn,
        "input-group",
        "user is NOT in `input` group",
        Some("`sudo gpasswd -a $USER input` and log out / back in"),
    );
}

#[test]
fn the_input_directory_must_be_readable() {
    shows(&check_dev_input_readable(&None), Severity::Okay, "dev-input", "/dev/input is readable", None);
    shows(
        &check_dev_input_readable(&some("Permission denied (os error 13)")),
        Severity::Fail,
        "dev-input",
        "cannot read /dev/input: Permission denied (os error 13)",
        Some("check udev, input group membership, or apparmor/SELinux"),
    );
}

#[test]
fn the_udev_rule_may_be_in_two_places() {
    assert_eq!(
        udev_rule_paths(),
        vec!["/etc/udev/rules.d/99-fs25-ffb.rules", "/usr/lib/udev/rules.d/99-fs25-ffb.rules"]
    );
    for present in [vec![true], vec![false, true], vec![true, true]] {
        shows(
            &check_udev_rule_installed(&present),
            Severity::Okay,
            "udev-rule",
            "99-fs25-ffb.rules installed",
            None,
        );
    }
    shows(
        &check_udev_rule_installed(&vec![false, false]),
        Severity::Warn,
        "udev-rule",
        "udev rule not installed (not always required, but recommended)",
        Some("`sudo install -m0644 packaging/99-fs25-ffb.rules /etc/udev/rules.d/ && sudo udevadm control --reload && sudo udevadm trigger`"),
    );
}

#[test]
fn a_wheel_is_sighted() {
    let c = Config::default();
    shows(
        &check_device_visible(&c.device_hint, &vec![moza()], &Ok(None)),
        Severity::Okay,
        "device",
        "found MOZA R5 Base at \"/dev/input/event3\" (0x346e:0x0002)",
        None,
    );
    let fix = "plug the wheel in, power it on, run boxflat once to confirm firmware sees it, then re-run the daemon";
    shows(
        &check_device_visible(&c.device_hint, &vec![], &Ok(None)),
        Severity::Fail,
        "device",
        "no FFB wheel detected: no /dev/input/eventX devices visible. Is your user in the 'input' group? Run `fs25-ffb --diagnose` for a checklist.",
        Some(fix),
    );
    shows(
        &check_device_visible(&c.device_hint, &vec![moza()], &Err("EACCES".to_string())),
        Severity::Fail,
        "device",
        "no FFB wheel detected: EACCES",
        Some(fix),
    );
}

#[test]
fn effect_types_are_listed_by_name() {
    let c = Config::default();
    let all: Vec<u16> = (0x4f..0x63).collect();
    let names: Vec<String> =
        all.iter().map(|code| format!("{:?}", evdev::FFEffectType(*code))).collect();
    assert_eq!(names[3], "FF_CONSTANT");
    assert_eq!(names[0], "unknown key: 79");
    shows(
        &check_ffb_capable(&c.device_hint, &vec![moza()], &Ok(Some(all))),
        Severity::Okay,
        "ffb-capable",
        &format!("supports: [{}]", names.join(", ")),
        None,
    );
    shows(
        &check_ffb_capable(&c.device_hint, &vec![moza()], &Ok(Some(vec![0x50]))),
        Severity::Okay,
        "ffb-capable",
        "supports: [FF_RUMBLE]",
        None,
    );
}

#[test]
fn a_wheel_without_effects_fails() {
    let c = Config::default();
    shows(
        &check_ffb_capable(&c.device_hint, &vec![moza()], &Ok(None)),
        Severity::Fail,
        "ffb-capable",
        "device does not advertise any FFB bits",
        Some("check kernel module (hid-universal-pidff / hid-mozawheel / hid-logitech)"),
    );
    shows(
        &check_ffb_capable(&c.device_hint, &vec![moza()], &Ok(Some(vec![]))),
        Severity::Fail,
        "ffb-capable",
        "device advertises FF event type but zero effect types",
        Some("upgrade kernel to 6.14+ or install hid-universal-pidff dkms"),
    );
    for c2 in [
        check_ffb_capable(&c.device_hint, &vec![], &Ok(None)),
        check_ffb_capable(&c.device_hint, &vec![moza()], &Err("gone".to_string())),
    ] {
        shows(&c2, Severity::Warn, "ffb-capable", "no device found to query", Some("see `device` above"));
    }
}

#[test]
fn the_prefix_is_looked_for() {
    assert_eq!(
        compatdata_candidates("/home/me", 42),
        vec![
            "/home/me/.local/share/Steam/steamapps/compatdata/42",
            "/home/me/.steam/steam/steamapps/compatdata/42",
        ]
    );
    shows(
        &check_steam_compatdata(&None, 42, &vec![true]),
        Severity::Fail,
        "compatdata",
        "HOME not set",
        Some("run under a real user session"),
    );
    shows(
        &check_steam_compatdata(&some("/home/me"), 42, &vec![true, true]),
        Severity::Okay,
        "compatdata",
        "Proton prefix found at \"/home/me/.local/share/Steam/steamapps/compatdata/42\"",
        None,
    );
    shows(
        &check_steam_compatdata(&some("/home/me"), 42, &vec![false, true]),
        Severity::Okay,
        "compatdata",
        "Proton prefix found at \"/home/me/.steam/steam/steamapps/compatdata/42\"",
        None,
    );
    shows(
        &check_steam_compatdata(&some("/home/me"), 42, &vec![]),
        Severity::Warn,
        "compatdata",
        "no Proton prefix for FS25 (AppID 2300320) yet",
        Some("launch FS25 once in Steam so Proton creates the prefix"),
    );
}

#[test]
fn the_mod_is_looked_for() {
    let mods = "/home/me/.local/share/Steam/steamapps/compatdata/2300320/pfx/drive_c/users/steamuser/Documents/My Games/FarmingSimulator2025/mods";
    assert_eq!(
        mod_locations("/home/me"),
        vec![format!("{}/FS25_FFBEnhancer.zip", mods), format!("{}/FS25_FFBEnhancer", mods)]
    );
    shows(&check_mod_installed(&None, &vec![]), Severity::Warn, "mod-installed", "HOME not set", Some(""));
    shows(
        &check_mod_installed(&some("/home/me"), &vec![false, true]),
        Severity::Okay,
        "mod-installed",
        &format!("mod present at {:?}", mods),
        None,
    );
    shows(
        &check_mod_installed(&some("/home/me"), &vec![false, false]),
        Severity::Warn,
        "mod-installed",
        &format!("FS25_FFBEnhancer not found in {:?}", mods),
        Some("run `./packaging/install.sh` or copy mod/FS25_FFBEnhancer/ into the mods dir"),
    );
}

#[test]
fn paths_are_quoted() {
    let home = some("/home/a \"b\"\n");
    let c = check_steam_compatdata(&home, 1, &vec![true]);
    assert_eq!(
        c.detail,
        "Proton prefix found at \"/home/a \\\"b\\\"\\n/.local/share/Steam/steamapps/compatdata/1\""
    );
}

#[test]
fn telemetry_must_be_fresh() {
    shows(
        &judge_telemetry(&Err(PathError::HomeNotSet), &None),
        Severity::Warn,
        "telemetry",
        "cannot resolve path: HOME is not set",
        Some(""),
    );
    shows(
        &judge_telemetry(&Ok("/t.bin".to_string()), &None),
        Severity::Warn,
        "telemetry",
        "telemetry file does not exist at \"/t.bin\"",
        Some("start FS25 with the mod active; the file is created on first vehicle"),
    );
    let aged = |nanos: Option<u128>| Some(FileAge { nanos, seconds_text: "1.3".to_string() });
    for (nanos, seconds) in [
        (None, "9999"),
        (Some(10_000_000_001), "10"),
        (Some(12_999_999_999), "12"),
        (Some(u128::MAX), "4294967295"),
    ] {
        shows(
            &judge_telemetry(&Ok("/t.bin".to_string()), &aged(nanos)),
            Severity::Warn,
            "telemetry",
            &format!("telemetry file {} seconds stale at \"/t.bin\"", seconds),
            Some("FS25 is paused, not in a vehicle, or the Lua mod failed to load"),
        );
    }
    assert_eq!(
        judge_telemetry(&Ok("/t.bin".to_string()), &aged(Some(10_000_000_000))).severity,
        Severity::Okay
    );
    let new = aged(Some(1_300_000_000));
    let mut cfg = Config::default();
    cfg.paths.telemetry_file = some("/t.bin");
    shows(
        &check_telemetry_fresh(&cfg, &None, &vec![], &new),
        Severity::Okay,
        "telemetry",
        "updated 1.3s ago at \"/t.bin\"",
        None,
    );
    assert_eq!(
        check_telemetry_fresh(&Config::default(), &None, &vec![], &new).detail,
        "cannot resolve path: HOME is not set"
    );
}

#[test]
fn process_ids_are_read() {
    assert_eq!(parse_pid("1234 99\n"), Some(1234));
    assert_eq!(parse_pid("\n"), None);
    assert_eq!(parse_pid("x 12"), None);
    assert_eq!(pidof(&None), None);
    assert_eq!(pidof(&bytes(" 77 ")), Some(77));
    assert_eq!(pidof(&Some(vec![0xff, b'1'])), None);
}

#[test]
fn other_programs_are_noticed() {
    shows(
        &check_boxflat_running(&bytes("12")),
        Severity::Okay,
        "boxflat",
        "boxflat is running (OK, does not conflict with evdev FFB)",
        None,
    );
    shows(&check_boxflat_running(&None), Severity::Okay, "boxflat", "boxflat not running (fine)", None);
    assert_eq!(manager_names(), vec!["oversteer", "new-lg4ff-loader", "fanatec-led"]);
    shows(
        &check_conflicting_processes(&vec![None, bytes(""), None]),
        Severity::Okay,
        "other-drivers",
        "no conflicting wheel managers running",
        None,
    );
    shows(
        &check_conflicting_processes(&vec![bytes("5"), None, bytes("6 7")]),
        Severity::Warn,
        "other-drivers",
        &format!("running: {:?}", vec!["oversteer", "fanatec-led"]),
        Some("these only manage config, they don't conflict with FFB writes; still worth disabling autocenter in them"),
    );
    assert_eq!(
        check_conflicting_processes(&vec![None, bytes("8")]).detail,
        "running: [\"new-lg4ff-loader\"]"
    );
}

#[test]
fn proton_versions_are_judged() {
    assert_eq!(
        proton_version_path("/home/me", 42),
        "/home/me/.local/share/Steam/steamapps/compatdata/42/version"
    );
    shows(&check_proton_version(&None, &some("9.0")), Severity::Warn, "proton", "HOME not set", Some(""));
    shows(
        &check_proton_version(&some("/h"), &None),
        Severity::Warn,
        "proton",
        "could not read compatdata/version",
        Some("launch FS25 once to populate it"),
    );
    for good in [
        "9.0-203\n",
        "10.0-2",
        "11.0-100",
        "GE-Proton9-25\n",
        "GE-Proton9-30",
        "GE-Proton10",
        "99999999999.1",
        "experimental-9.0-20240101",
    ] {
        assert!(judge_proton(good.trim()));
        shows(
            &check_proton_version(&some("/h"), &some(good)),
            Severity::Okay,
            "proton",
            &format!("Proton {}", good.trim()),
            None,
        );
    }
    for bad in ["8.0-9.1", "GE-Proton9-24", "GE-Proton9", "GE-Proton8-32", "7.1-GE-2", "experimental", "",
        "hotfix-20230302", "GE-Proton", "x9.0", "12", "9", "GE-Proton-9-25"] {
        assert!(!judge_proton(bad));
        assert_eq!(check_proton_version(&some("/h"), &some(bad)).severity, Severity::Warn);
    }
    shows(
        &check_proton_version(&some("/h"), &some("8.0-5\n")),
        Severity::Warn,
        "proton",
        "Proton 8.0-5 - may work but 9.0+/GE-Proton recommended",
        Some("set FS25's Steam compatibility tool to Proton 9.0 or GE-Proton"),
    );
}

#[test]
fn the_joystick_setting_is_judged() {
    shows(
        &check_sdl_hidapi_env(&some("0")),
        Severity::Okay,
        "sdl-hidapi",
        "SDL_JOYSTICK_HIDAPI=0 (recommended for Moza under Proton)",
        None,
    );
    shows(
        &check_sdl_hidapi_env(&some("1")),
        Severity::Warn,
        "sdl-hidapi",
        "SDL_JOYSTICK_HIDAPI=1 (set to 0 for best FFB)",
        Some("in Steam, set launch options: SDL_JOYSTICK_HIDAPI=0 %command%"),
    );
    shows(
        &check_sdl_hidapi_env(&None),
        Severity::Warn,
        "sdl-hidapi",
        "SDL_JOYSTICK_HIDAPI not set",
        Some("Steam launch options: SDL_JOYSTICK_HIDAPI=0 %command%"),
    );
}

#[test]
fn governors_are_judged() {
    for good in ["performance\n", "schedutil\n"] {
        shows(
            &check_cpu_governor(&some(good)),
            Severity::Okay,
            "cpu-governor",
            &format!("governor = {}", good.trim()),
            None,
        );
    }
    shows(
        &check_cpu_governor(&some("powersave\n")),
        Severity::Warn,
        "cpu-governor",
        "governor = powersave (may cause FFB jitter)",
        Some("`sudo cpupower frequency-set -g performance` (CachyOS ships with schedutil by default which is fine)"),
    );
    shows(&check_cpu_governor(&None), Severity::Okay, "cpu-governor", "unknown (skipping)", None);
}

#[test]
fn all_checks_run_in_order() {
    let checks = run_all(&Config::default(), &healthy());
    let names: Vec<&str> = checks.iter().map(|c| c.name.as_str()).collect();
    assert_eq!(
        names,
        vec![
            "kernel-version",
            "input-group",
            "dev-input",
            "udev-rule",
            "device",
            "ffb-capable",
            "compatdata",
            "mod-installed",
            "telemetry",
            "boxflat",
            "proton",
            "other-drivers",
            "sdl-hidapi",
            "cpu-governor",
        ]
    );
    for c in &checks {
        assert_eq!(c.severity, Severity::Okay);
        assert_eq!(c.fix, None);
    }
}

#[test]
fn a_healthy_system_exits_cleanly() {
    let report = run_cli_report("/home/me/c.toml", &run_all(&Config::default(), &healthy()));
    assert_eq!(report.exit_code, 0);
    assert!(report
        .text
        .starts_with("fs25-ffb diagnostic report\n  config: \"/home/me/c.toml\"\n\n[  OK  ] kernel-version: kernel 6.15.2-1-cachyos is new enough\n"));
    assert!(report.text.ends_with("\n\nsummary: 14 OK, 0 warnings, 0 failures\n"));
}

#[test]
fn failures_lead_to_a_bad_exit() {
    let mut facts = healthy();
    facts.devices = vec![];
    facts.governor = some("powersave");
    let checks = run_all(&Config::default(), &facts);
    let report = run_cli_report("<none>", &checks);
    assert_eq!(report.exit_code, 1);
    assert!(report.text.contains("summary: 11 OK, 2 warnings, 1 failures\n"));
    for c in &checks {
        assert!(report.text.contains(&format!("] {}: {}\n", c.name, c.detail)));
        assert_eq!(c.fix.is_some(), c.severity != Severity::Okay);
    }
}

#[test]
fn the_report_is_laid_out() {
    let checks = vec![
        Check::ok("a", "fine"),
        Check::warn("b", "odd", "look"),
        Check::fail("c", "bad", "mend"),
    ];
    assert_eq!(
        run_cli_report("c.toml", &checks).text,
        "fs25-ffb diagnostic report\n  config: \"c.toml\"\n\n[  OK  ] a: fine\n[ WARN ] b: odd\n        fix: look\n[ FAIL ] c: bad\n        fix: mend\n\nsummary: 1 OK, 1 warnings, 1 failures\n"
    );
    let warned = run_cli_report("c.toml", &vec![Check::warn("b", "odd", "look")]);
    assert_eq!(warned.exit_code, 0);
}
