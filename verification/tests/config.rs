use fs25_ffb::config::{
    default_spring_floor, preset, preset_names, Config, DeviceHint, PathsConfig, TuningConfig,
    FS25_STEAM_APPID, MINUS_1, N0, N0_05, N0_10, N0_12, N0_18, N0_22, N0_25, N0_35, N0_40, N0_45,
    N0_50, N0_55, N0_60, N0_65, N0_70, N0_75, N0_80, N1, N10, N1_1, N1_4, N1_5, N2, N22, N3, N30,
    N5, N500, N60, N80,
};

#[test]
fn bit_patterns_are_those_of_their_numbers() {
    for (bits, number) in [
        (N0, 0.0f32),
        (N0_05, 0.05),
        (N0_10, 0.10),
        (N0_12, 0.12),
        (N0_18, 0.18),
        (N0_22, 0.22),
        (N0_25, 0.25),
        (N0_35, 0.35),
        (N0_40, 0.40),
        (N0_45, 0.45),
        (N0_50, 0.50),
        (N0_55, 0.55),
        (N0_60, 0.60),
        (N0_65, 0.65),
        (N0_70, 0.70),
        (N0_75, 0.75),
        (N0_80, 0.80),
        (N1, 1.0),
        (N1_1, 1.1),
        (N1_4, 1.4),
        (N1_5, 1.5),
        (N2, 2.0),
        (N3, 3.0),
        (N5, 5.0),
        (N10, 10.0),
        (N22, 22.0),
        (N30, 30.0),
        (N60, 60.0),
        (N80, 80.0),
        (N500, 500.0),
        (MINUS_1, -1.0),
    ] {
        assert_eq!(bits, number.to_bits());
    }
}

#[test]
fn the_defaults_are_tuned_for_tractors() {
    let t = TuningConfig::default();
    assert!(t.enabled);
    let numbers = [
        (t.master_gain, 1.0f32),
        (t.spring_gain, 0.65),
        (t.spring_floor, 0.18),
        (t.speed_curve_start_kmh, 5.0),
        (t.speed_curve_max_kmh, 22.0),
        (t.mass_spring_scale, 0.35),
        (t.no_power_steer_boost, 1.4),
        (t.lateral_gain, 0.18),
        (t.damper_gain, 0.55),
        (t.implement_damper_scale, 0.50),
        (t.rumble_gain, 0.25),
        (t.idle_rumble, 0.05),
        (t.slope_gain, 0.0),
        (t.slope_max, 0.35),
        (t.collision_gain, 0.25),
    ];
    for (bits, number) in numbers {
        assert_eq!(f32::from_bits(bits), number);
    }
    assert_eq!(t.output_hz, 240);
    assert_eq!(f32::from_bits(default_spring_floor()), 0.18);
}

#[test]
fn the_whole_configuration_has_defaults() {
    let c = Config::default();
    assert_eq!(c.profile_name, "realistic");
    assert_eq!(c.tuning, TuningConfig::default());
    assert_eq!(c.device_hint.path, None);
    assert_eq!(c.device_hint.vendor_id, None);
    assert_eq!(c.device_hint.product_id, None);
    assert_eq!(c.device_hint.name_contains, None);
    assert_eq!(c.paths.telemetry_file, None);
    assert_eq!(c.paths.steam_root, None);
    assert_eq!(c.paths.fs25_steam_appid, 2_300_320);
    assert_eq!(FS25_STEAM_APPID, 2_300_320);
}

#[test]
fn copies_hold_the_same_texts() {
    let hint = DeviceHint {
        path: Some("/dev/input/event7".to_string()),
        vendor_id: Some(0x346e),
        product_id: Some(2),
        name_contains: Some("moza".to_string()),
    };
    let mut c = Config::default();
    c.device_hint = hint.clone();
    c.paths = PathsConfig {
        telemetry_file: Some("/t".to_string()),
        fs25_steam_appid: 7,
        steam_root: Some("/s".to_string()),
    };
    c.profile_name = "mine".to_string();
    let d = c.clone();
    assert_eq!(d.device_hint.path, hint.path);
    assert_eq!(d.device_hint.vendor_id, Some(0x346e));
    assert_eq!(d.device_hint.product_id, Some(2));
    assert_eq!(d.device_hint.name_contains, hint.name_contains);
    assert_eq!(d.paths.telemetry_file, Some("/t".to_string()));
    assert_eq!(d.paths.steam_root, Some("/s".to_string()));
    assert_eq!(d.paths.fs25_steam_appid, 7);
    assert_eq!(d.profile_name, "mine");
}

#[test]
fn presets_have_their_gains() {
    let a = preset("arcade").unwrap();
    assert_eq!(f32::from_bits(a.master_gain), 1.1);
    assert_eq!(f32::from_bits(a.spring_gain), 0.45);
    assert_eq!(f32::from_bits(a.spring_floor), 0.10);
    assert_eq!(f32::from_bits(a.damper_gain), 0.35);
    assert_eq!(f32::from_bits(a.lateral_gain), 0.25);
    assert_eq!(f32::from_bits(a.rumble_gain), 0.35);
    assert_eq!(f32::from_bits(a.collision_gain), 0.35);
    assert_eq!(preset("realistic"), Some(TuningConfig::default()));
    let h = preset("heavy").unwrap();
    assert_eq!(f32::from_bits(h.spring_gain), 0.80);
    assert_eq!(f32::from_bits(h.spring_floor), 0.22);
    assert_eq!(f32::from_bits(h.mass_spring_scale), 0.50);
    assert_eq!(f32::from_bits(h.damper_gain), 0.75);
    assert_eq!(f32::from_bits(h.implement_damper_scale), 0.65);
    assert_eq!(f32::from_bits(h.lateral_gain), 0.22);
    assert_eq!(f32::from_bits(h.collision_gain), 0.40);
    let q = preset("quiet").unwrap();
    assert_eq!(f32::from_bits(q.master_gain), 0.7);
    assert_eq!(f32::from_bits(q.spring_gain), 0.45);
    assert_eq!(f32::from_bits(q.spring_floor), 0.12);
    assert_eq!((q.rumble_gain, q.idle_rumble), (0, 0));
    assert_eq!(preset("Quiet"), None);
    assert_eq!(preset(""), None);
}

#[test]
fn the_listed_names_are_presets() {
    assert_eq!(preset_names(), &["arcade", "realistic", "heavy", "quiet"]);
    for name in preset_names() {
        let p = preset(name).unwrap();
        assert!(p.enabled);
        assert_eq!(p.output_hz, 240);
    }
}

#[test]
fn a_preset_replaces_tuning_and_name() {
    let mut c = Config::default();
    c.paths.fs25_steam_appid = 5;
    assert!(c.apply_preset("heavy"));
    assert_eq!(c.profile_name, "heavy");
    assert_eq!(Some(c.tuning), preset("heavy"));
    assert_eq!(c.paths.fs25_steam_appid, 5);
    assert!(!c.apply_preset("unheard-of"));
    assert_eq!(c.profile_name, "heavy");
    assert_eq!(Some(c.tuning), preset("heavy"));
}
