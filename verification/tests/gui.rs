use fs25_ffb::clap_lite::TestEffect;
use fs25_ffb::config::TuningConfig;
use fs25_ffb::gui::{
    daemon_badge, device_lines, format_report, knob_value, preset_description, set_knob,
    severity_badge, telemetry_lines, test_button, tuning_groups, yn, Edits, Knob,
};
use fs25_ffb::shared::DeviceInfo;
use fs25_ffb::telemetry::Telemetry;
use fs25_ffb::troubleshoot::{Check, Severity};

#[test]
fn yes_and_no_are_words() {
    assert_eq!(yn(true), "yes");
    assert_eq!(yn(false), "no");
}

#[test]
fn badges_have_colours() {
    let up = daemon_badge(true);
    assert_eq!((up.red, up.green, up.blue, up.text), (0x30, 0xc0, 0x60, "daemon running"));
    let down = daemon_badge(false);
    assert_eq!((down.red, down.green, down.blue, down.text), (0xc0, 0x50, 0x30, "daemon down"));
    let w = severity_badge(Severity::Warn);
    assert_eq!((w.red, w.green, w.blue, w.text), (0xe0, 0xb0, 0x30, "WARN"));
    let f = severity_badge(Severity::Fail);
    assert_eq!((f.red, f.green, f.blue, f.text), (0xd0, 0x40, 0x40, "FAIL"));
    let o = severity_badge(Severity::Okay);
    assert_eq!((o.red, o.green, o.blue, o.text), (0x30, 0xc0, 0x60, "OK  "));
}

#[test]
fn a_wheel_is_described_line_by_line() {
    let d = DeviceInfo {
        name: "MOZA R5 Base".to_string(),
        path: "/dev/input/event3".to_string(),
        vendor_id: 0x346e,
        product_id: 2,
        supports_constant: true,
        supports_spring: true,
        supports_damper: false,
        supports_periodic: true,
        supports_rumble: false,
        ff_effects_max: 40,
    };
    assert_eq!(
        device_lines(&d),
        vec![
            "Name:    MOZA R5 Base",
            "Path:    /dev/input/event3",
            "VID/PID: 346e:0002",
            "FFB:     constant=yes spring=yes damper=no periodic=yes rumble=no",
            "Slots:   40",
        ]
    );
}

#[test]
fn a_frame_is_introduced() {
    let mut t = Telemetry::default();
    t.sequence = 12;
    t.flags = 1;
    assert_eq!(telemetry_lines(&t), vec!["Seq:            12", "In vehicle:     yes"]);
}

#[test]
fn presets_and_tests_have_labels() {
    assert_eq!(preset_description("arcade"), "light, twitch-friendly; good for keyboard + wheel switchers");
    assert_eq!(preset_description("realistic"), "default; tuned for Moza R5 on CachyOS");
    assert_eq!(preset_description("heavy"), "more weight, more damping; great with big implements");
    assert_eq!(preset_description("quiet"), "minimal rumble and low master gain");
    assert_eq!(preset_description("other"), "");
    assert_eq!(test_button(TestEffect::Sine), "Sine sweep");
    assert_eq!(test_button(TestEffect::Constant), "Constant");
    assert_eq!(test_button(TestEffect::Spring), "Spring");
    assert_eq!(test_button(TestEffect::Damper), "Damper");
    assert_eq!(test_button(TestEffect::Rumble), "Rumble");
}

#[test]
fn sliders_move_their_setting_only() {
    let groups = tuning_groups();
    let headings: Vec<&str> = groups.iter().map(|g| g.heading).collect();
    assert_eq!(
        headings,
        vec![
            "Global",
            "Centering spring",
            "Lateral force",
            "Damper",
            "Surface rumble",
            "Slope / roll",
            "Collision kick",
        ]
    );
    let mut seen = 0;
    for g in &groups {
        for s in &g.sliders {
            seen += 1;
            assert!(f32::from_bits(s.lo) < f32::from_bits(s.hi));
            let before = TuningConfig::default();
            let mut after = before;
            set_knob(&mut after, s.moves, 0x1234_5678);
            assert_eq!(knob_value(&after, s.moves), 0x1234_5678);
            for h in &groups {
                for other in &h.sliders {
                    if other.moves != s.moves {
                        assert_eq!(knob_value(&after, other.moves), knob_value(&before, other.moves));
                    }
                }
            }
            assert_eq!(after.enabled, before.enabled);
            assert_eq!(after.spring_floor, before.spring_floor);
            set_knob(&mut after, s.moves, knob_value(&before, s.moves));
            assert_eq!(after, before);
        }
    }
    assert_eq!(seen, 15);
}

#[test]
fn sliders_have_their_ranges() {
    let ends = |k: Knob| -> (f32, f32) {
        for g in tuning_groups() {
            for s in g.sliders {
                if s.moves == k {
                    return (f32::from_bits(s.lo), f32::from_bits(s.hi));
                }
            }
        }
        unreachable!()
    };
    assert_eq!(ends(Knob::MasterGain), (0.0, 2.0));
    assert_eq!(ends(Knob::OutputRate), (60.0, 500.0));
    assert_eq!(ends(Knob::SpringGain), (0.0, 1.5));
    assert_eq!(ends(Knob::SpeedCurveStart), (0.0, 30.0));
    assert_eq!(ends(Knob::SpeedCurveMax), (10.0, 80.0));
    assert_eq!(ends(Knob::MassSpringScale), (0.0, 1.0));
    assert_eq!(ends(Knob::NoPowerSteerBoost), (1.0, 3.0));
    assert_eq!(ends(Knob::LateralGain), (-1.0, 1.0));
    assert_eq!(ends(Knob::DamperGain), (0.0, 1.0));
    assert_eq!(ends(Knob::ImplementDamperScale), (0.0, 1.0));
    assert_eq!(ends(Knob::RumbleGain), (0.0, 1.5));
    assert_eq!(ends(Knob::IdleRumble), (0.0, 0.4));
    assert_eq!(ends(Knob::SlopeGain), (0.0, 1.5));
    assert_eq!(ends(Knob::SlopeMax), (0.0, 0.8));
    assert_eq!(ends(Knob::CollisionGain), (0.0, 1.5));
}

#[test]
fn findings_are_written_down_for_the_clipboard() {
    let checks = vec![
        Check::ok("a", "fine"),
        Check::warn("b", "odd", "look"),
        Check::fail("c", "bad", "mend"),
    ];
    assert_eq!(
        format_report(&checks),
        "[OK  ] a: fine\n[WARN] b: odd\n     fix: look\n[FAIL] c: bad\n     fix: mend\n"
    );
    assert_eq!(format_report(&[]), "");
}

#[test]
fn edits_stay_pending_until_they_are_saved() {
    let mut e = Edits::new();
    assert!(!e.dirty);
    e.switch_shown(false, false);
    assert!(!e.dirty);
    e.switch_shown(true, false);
    assert!(e.dirty);
    e.saved(false);
    assert!(e.dirty);
    e.saved(true);
    assert!(!e.dirty);
    e.switch_shown(true, true);
    assert!(!e.dirty);
    e.switch_shown(false, true);
    assert!(e.dirty);
    e.switch_shown(true, true);
    assert!(e.dirty);
    e.saved(true);
    e.touch();
    assert!(e.dirty);
}

#[test]
fn the_configuration_is_read_again_when_the_focus_comes_back() {
    let mut e = Edits::new();
    assert!(!e.focus(true));
    assert!(!e.focus(false));
    assert!(e.focus(true));
    assert!(!e.focus(true));
    e.focus(false);
    e.touch();
    assert!(!e.focus(true));
}
