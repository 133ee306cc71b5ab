use fs25_ffb::config::DeviceHint;
use fs25_ffb::device::{
    describe, ff_support, ffb_capable, find_device, known_vendor, open_matching, Candidate,
    DeviceError, FfSupport,
};

const NOTHING: FfSupport = FfSupport {
    constant: false,
    spring: false,
    damper: false,
    periodic: false,
    rumble: false,
};

fn candidate(path: &str, name: &str, vendor_id: u16, product_id: u16, ff: Option<FfSupport>) -> Candidate {
    Candidate {
        path: path.to_string(),
        name: Some(name.to_string()),
        vendor_id,
        product_id,
        ff,
        max_effects: 16,
    }
}

fn constant() -> Option<FfSupport> {
    Some(FfSupport { constant: true, ..NOTHING })
}

fn rumble() -> Option<FfSupport> {
    Some(FfSupport { rumble: true, ..NOTHING })
}

fn devices() -> Vec<Candidate> {
    vec![
        candidate("/dev/input/event0", "Power Button", 0, 1, None),
        candidate("/dev/input/event1", "Xbox Pad", 0x045e, 0x02ea, rumble()),
        candidate("/dev/input/event2", "Logitech Rumblepad", 0x046d, 0xc218, rumble()),
        candidate("/dev/input/event3", "MOZA R5 Base", 0x346e, 0x0002, constant()),
        candidate("/dev/input/event4", "Logitech G920", 0x046d, 0xc262, constant()),
    ]
}

fn no_hint() -> DeviceHint {
    DeviceHint { path: None, vendor_id: None, product_id: None, name_contains: None }
}

#[test]
fn without_a_hint_a_known_vendor_with_constant_force_wins() {
    assert_eq!(find_device(&no_hint(), &devices()), Ok(3));
}

#[test]
fn without_constant_forces_a_known_vendor_comes_first() {
    let mut list = devices();
    list.truncate(3);
    assert_eq!(find_device(&no_hint(), &list), Ok(2));
}

#[test]
fn without_a_known_wheel_any_capable_device_will_do() {
    let mut list = devices();
    list.truncate(2);
    assert_eq!(find_device(&no_hint(), &list), Ok(1));
}

#[test]
fn a_hinted_path_wins_even_without_force_feedback() {
    let hint = DeviceHint {
        path: Some("/dev/input/event0".to_string()),
        vendor_id: Some(0x046d),
        product_id: Some(0xc262),
        name_contains: Some("moza".to_string()),
    };
    assert_eq!(find_device(&hint, &devices()), Ok(0));
}

#[test]
fn hinted_ids_come_before_a_hinted_name() {
    let hint = DeviceHint {
        path: Some("/dev/input/event99".to_string()),
        vendor_id: Some(0x046d),
        product_id: Some(0xc262),
        name_contains: Some("moza".to_string()),
    };
    assert_eq!(find_device(&hint, &devices()), Ok(4));
}

#[test]
fn half_a_pair_of_ids_is_no_hint() {
    let hint = DeviceHint { vendor_id: Some(0x046d), ..no_hint() };
    assert_eq!(find_device(&hint, &devices()), Ok(3));
}

#[test]
fn a_hinted_name_is_found_whatever_its_case() {
    let hint = DeviceHint { name_contains: Some("g920".to_string()), ..no_hint() };
    assert_eq!(find_device(&hint, &devices()), Ok(4));
    let hint = DeviceHint { name_contains: Some("XBOX".to_string()), ..no_hint() };
    assert_eq!(find_device(&hint, &devices()), Ok(1));
}

#[test]
fn nothing_visible_is_an_error() {
    let e = find_device(&no_hint(), &vec![]).unwrap_err();
    assert_eq!(e, DeviceError::NoDevices);
    assert_eq!(
        e.message(),
        "no /dev/input/eventX devices visible. Is your user in the 'input' group? Run `fs25-ffb --diagnose` for a checklist."
    );
}

#[test]
fn nothing_capable_is_an_error() {
    let mut list = devices();
    list.truncate(1);
    let e = find_device(&no_hint(), &list).unwrap_err();
    assert_eq!(e, DeviceError::NoneCapable);
    assert_eq!(
        e.message(),
        "no FFB-capable device found. Connect your wheel, ensure /dev/input/eventX is readable (udev rule), and check `fs25-ffb --diagnose`."
    );
}

#[test]
fn the_choice_is_described() {
    let (path, info) = open_matching(&no_hint(), &devices()).unwrap();
    assert_eq!(path, "/dev/input/event3");
    assert_eq!(info.name, "MOZA R5 Base");
    assert_eq!(info.path, "/dev/input/event3");
    assert_eq!((info.vendor_id, info.product_id), (0x346e, 0x0002));
    assert!(info.supports_constant && !info.supports_spring && !info.supports_rumble);
    assert_eq!(info.ff_effects_max, 16);
    assert!(matches!(open_matching(&no_hint(), &vec![]), Err(DeviceError::NoDevices)));
}

#[test]
fn a_hinted_device_that_cannot_play_effects_is_refused() {
    let hint = DeviceHint { path: Some("/dev/input/event0".to_string()), ..no_hint() };
    assert_eq!(find_device(&hint, &devices()), Ok(0));
    assert!(matches!(open_matching(&hint, &devices()), Err(DeviceError::NoneCapable)));
    let hint = DeviceHint { path: Some("/dev/input/event2".to_string()), ..no_hint() };
    assert_eq!(open_matching(&hint, &devices()).unwrap().0, "/dev/input/event2");
}

#[test]
fn a_device_without_a_name_is_called_unnamed() {
    let mut c = candidate("/dev/input/event9", "", 1, 2, None);
    c.name = None;
    let info = describe(&c);
    assert_eq!(info.name, "(unnamed)");
    assert!(!info.supports_constant);
}

#[test]
fn springs_alone_are_not_worth_driving() {
    assert!(!ffb_capable(&None));
    assert!(!ffb_capable(&Some(NOTHING)));
    assert!(!ffb_capable(&Some(FfSupport { spring: true, damper: true, ..NOTHING })));
    assert!(ffb_capable(&constant()));
    assert!(ffb_capable(&rumble()));
    assert!(ffb_capable(&Some(FfSupport { periodic: true, ..NOTHING })));
}

#[test]
fn wheel_makers_are_known() {
    for v in [0x346e, 0x046d, 0x044f, 0x0eb7, 0x11ff, 0x16d0, 0x2341, 0x06a3] {
        assert!(known_vendor(v));
    }
    assert!(!known_vendor(0x045e));
}

#[test]
fn codes_name_effect_types() {
    let codes: Vec<u16> = [
        evdev::FFEffectType::FF_CONSTANT,
        evdev::FFEffectType::FF_DAMPER,
        evdev::FFEffectType::FF_RAMP,
    ]
    .iter()
    .map(|t| t.0)
    .collect();
    assert_eq!(ff_support(&codes), FfSupport { constant: true, damper: true, ..NOTHING });
    let others: Vec<u16> = [
        evdev::FFEffectType::FF_SPRING,
        evdev::FFEffectType::FF_PERIODIC,
        evdev::FFEffectType::FF_RUMBLE,
    ]
    .iter()
    .map(|t| t.0)
    .collect();
    assert_eq!(
        ff_support(&others),
        FfSupport { spring: true, periodic: true, rumble: true, ..NOTHING }
    );
    assert_eq!(ff_support(&vec![]), NOTHING);
}
