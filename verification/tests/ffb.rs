use fs25_ffb::ffb::{
    new_effect, set_autocenter, set_gain, start, stop, update_constant, update_damper,
    update_periodic, update_rumble, update_spring, upload_constant, upload_damper, upload_periodic,
    upload_rumble, upload_spring, Condition, EffectLevels, EffectParams, FfEvent, FfbDevice, Slot,
    SteeringTrack, DIRECTION, EV_FF, FF_AUTOCENTER, FF_CONSTANT, FF_DAMPER, FF_GAIN, FF_PERIODIC, FF_RUMBLE,
    FF_SINE, FF_SPRING,
};
use fs25_ffb::shared::DeviceInfo;
use input_linux_sys as sys;
use std::mem::size_of;

const REST: EffectLevels = EffectLevels {
    constant: 0,
    spring: 0,
    spring_center: 0,
    damper: 0,
    rumble: 0,
    rumble_period_ms: 0,
    steering: 0,
    steering_motion: 0,
};

fn wheel() -> DeviceInfo {
    DeviceInfo {
        name: "MOZA R5 Base".to_string(),
        path: "/dev/input/event3".to_string(),
        vendor_id: 0x346e,
        product_id: 2,
        supports_constant: true,
        supports_spring: true,
        supports_damper: true,
        supports_periodic: true,
        supports_rumble: false,
        ff_effects_max: 16,
    }
}

fn opened() -> FfbDevice {
    FfbDevice::open("/dev/input/event3".to_string(), wheel(), &vec![10, 11, 12, 13, 14]).unwrap()
}

#[test]
fn ff_effect_layout_fits_u64_4() {
    assert!(size_of::<sys::ff_periodic_effect>() <= 32);
    assert!(size_of::<sys::ff_condition_effect>() * 2 <= 32);
    assert!(size_of::<sys::ff_constant_effect>() <= 32);
    assert!(size_of::<sys::ff_rumble_effect>() <= 32);
}

#[test]
fn numbers_are_those_of_the_kernel() {
    assert_eq!(EV_FF as i64, sys::EV_FF as i64);
    assert_eq!(FF_RUMBLE as i64, sys::FF_RUMBLE as i64);
    assert_eq!(FF_PERIODIC as i64, sys::FF_PERIODIC as i64);
    assert_eq!(FF_CONSTANT as i64, sys::FF_CONSTANT as i64);
    assert_eq!(FF_SPRING as i64, sys::FF_SPRING as i64);
    assert_eq!(FF_DAMPER as i64, sys::FF_DAMPER as i64);
    assert_eq!(FF_SINE as i64, sys::FF_SINE as i64);
    assert_eq!(FF_GAIN as i64, sys::FF_GAIN as i64);
    assert_eq!(FF_AUTOCENTER as i64, sys::FF_AUTOCENTER as i64);
}

#[test]
fn new_effects_ask_for_a_slot() {
    let e = new_effect(FF_CONSTANT, 300, EffectParams::Constant { level: 5 });
    assert_eq!((e.type_, e.id, e.direction, e.length, e.delay), (FF_CONSTANT, -1, DIRECTION, 300, 0));
    assert_eq!(e.params, EffectParams::Constant { level: 5 });
    assert_eq!(upload_constant(5, 300), e);
    let mut again = e;
    again.id = 4;
    assert_eq!(update_constant(4, 5, 300), again);
}

#[test]
fn springs_cap_their_coefficient() {
    let capped = EffectParams::Condition(Condition {
        right_saturation: 0x9000,
        left_saturation: 0x9000,
        right_coeff: 0x7FFF,
        left_coeff: 0x7FFF,
        deadband: 0,
        center: -3,
    });
    let uploaded = upload_spring(0x9000, -3);
    assert_eq!((uploaded.type_, uploaded.id, uploaded.length), (FF_SPRING, -1, 0));
    assert_eq!(uploaded.params, capped);
    let updated = update_spring(7, 0x9000, -3);
    assert_eq!((updated.type_, updated.id), (FF_SPRING, 7));
    assert_eq!(updated.params, capped);
}

#[test]
fn dampers_resist_at_every_strength() {
    let mut before = 0;
    for strength in [0, 1, 0x7FFF, 0x8000, 39321, 0xFFFF] {
        let EffectParams::Condition(c) = update_damper(1, strength).params else {
            panic!("not a condition");
        };
        assert_eq!((c.right_saturation, c.left_saturation), (strength, strength));
        assert_eq!(c.right_coeff, c.left_coeff);
        assert!(c.right_coeff >= before);
        assert_eq!((c.center, c.deadband), (0, 0));
        assert_eq!(upload_damper(strength).params, update_damper(1, strength).params);
        before = c.right_coeff;
    }
    assert_eq!(before, 0x7FFF);
    assert_eq!((upload_damper(3).type_, upload_damper(3).id), (FF_DAMPER, -1));
}

#[test]
fn a_missing_spring_is_made_from_the_constant_force() {
    let mut info = wheel();
    info.supports_spring = false;
    let mut dev = FfbDevice::open("p".to_string(), info, &vec![1, 2, 3, 4]).unwrap();
    let right = EffectLevels { spring: 0xFFFF, steering: 16000, ..REST };
    let todo = dev.apply(&right);
    assert_eq!(todo.len(), 1);
    assert_eq!((todo[0].effect, todo[0].event), (update_constant(1, -16000, 0xFFFF), start(1)));
    dev.settle(&right, 1);
    assert_eq!(dev.apply(&right).len(), 0);
    let left = EffectLevels { spring: 0x8000, spring_center: 100, steering: -9900, ..REST };
    assert_eq!(dev.apply(&left)[0].effect, update_constant(1, 5001, 0xFFFF));
    let far = EffectLevels { constant: 30000, spring: 0xFFFF, steering: -20000, ..REST };
    assert_eq!(dev.apply(&far)[0].effect, update_constant(1, 32767, 0xFFFF));
    assert_eq!(dev.apply(&EffectLevels { steering: 16000, ..REST })[0].effect, update_constant(1, 0, 0xFFFF));
}

#[test]
fn a_missing_damper_is_made_from_the_constant_force() {
    let mut info = wheel();
    info.supports_damper = false;
    let dev = FfbDevice::open("p".to_string(), info, &vec![1, 2, 3, 4]).unwrap();
    let moving = EffectLevels { damper: 0xFFFF, steering: 500, steering_motion: 100, ..REST };
    let todo = dev.apply(&moving);
    assert_eq!(todo.len(), 1);
    assert_eq!(todo[0].effect, update_constant(1, -1600, 0xFFFF));
    let back = EffectLevels { damper: 0xFFFF, steering_motion: -100, ..REST };
    assert_eq!(dev.apply(&back)[0].effect, update_constant(1, 1600, 0xFFFF));
    assert_eq!(dev.apply(&EffectLevels { damper: 0xFFFF, steering: 500, ..REST }).len(), 0);
}

#[test]
fn a_full_wheel_needs_no_stand_in() {
    let out = EffectLevels { spring: 0xFFFF, damper: 0xFFFF, steering: 9000, steering_motion: 900, ..REST };
    for update in opened().apply(&out) {
        assert_ne!(update.slot, Slot::Constant);
    }
}

#[test]
fn steering_motion_is_followed() {
    let mut track = SteeringTrack::new();
    assert_eq!(track.motion(500), 0);
    assert_eq!(track.motion(700), 200);
    assert_eq!(track.motion(700), 0);
    assert_eq!(track.motion(-32768), -32768);
    assert_eq!(track.motion(32767), 32767);
    track.forget();
    assert_eq!(track.motion(0), 0);
}

#[test]
fn periodic_effects_are_sine_waves() {
    let e = upload_periodic(0x7FFF, 40);
    assert_eq!(e.type_, FF_PERIODIC);
    assert_eq!(
        e.params,
        EffectParams::Periodic { waveform: FF_SINE, period: 40, magnitude: 0x7FFF, offset: 0, phase: 0 }
    );
    assert_eq!(update_periodic(3, 0x7FFF, 40).params, e.params);
    assert_eq!(update_periodic(3, 0x7FFF, 40).id, 3);
}

#[test]
fn rumble_drives_both_motors() {
    assert_eq!(upload_rumble(1001).params, EffectParams::Rumble { strong: 1001, weak: 500 });
    assert_eq!(update_rumble(2, 1001).params, upload_rumble(1001).params);
    assert_eq!(update_rumble(2, 1001).type_, FF_RUMBLE);
}

#[test]
fn events_address_slots_and_settings() {
    assert_eq!(start(3), FfEvent { type_: EV_FF, code: 3, value: 1 });
    assert_eq!(stop(3), FfEvent { type_: EV_FF, code: 3, value: 0 });
    assert_eq!(start(-1).code, 0xFFFF);
    assert_eq!(set_gain(0xFFFF), FfEvent { type_: EV_FF, code: FF_GAIN, value: 65535 });
    assert_eq!(set_autocenter(0), FfEvent { type_: EV_FF, code: FF_AUTOCENTER, value: 0 });
    assert_eq!(FfbDevice::opening_events(), vec![set_gain(0xFFFF), set_autocenter(0)]);
}

#[test]
fn five_slots_are_taken_on_a_full_wheel() {
    let plan = FfbDevice::setup(&wheel());
    let slots: Vec<Slot> = plan.iter().map(|s| s.slot).collect();
    assert_eq!(slots, vec![Slot::Constant, Slot::Kick, Slot::Spring, Slot::Damper, Slot::Rumble]);
    assert_eq!(plan[0].effect, upload_constant(0, 0xFFFF));
    assert_eq!(plan[1].effect, upload_constant(0, 300));
    assert_eq!(plan[2].effect, upload_spring(0, 0));
    assert_eq!(plan[3].effect, upload_damper(0));
    assert_eq!(plan[4].effect, upload_periodic(0, 50));
}

#[test]
fn rumble_motors_stand_in_for_periodic_effects() {
    let mut info = wheel();
    info.supports_constant = false;
    info.supports_spring = false;
    info.supports_damper = false;
    info.supports_periodic = false;
    info.supports_rumble = true;
    let plan = FfbDevice::setup(&info);
    assert_eq!(plan.len(), 1);
    assert_eq!(plan[0].effect, upload_rumble(0));
    let dev = FfbDevice::open("p".to_string(), info, &vec![4]).unwrap();
    let todo = dev.apply(&EffectLevels { rumble: 2000, rumble_period_ms: 40, ..REST });
    assert_eq!(todo.len(), 1);
    assert_eq!(todo[0].effect, update_rumble(4, 2000));
    assert_eq!(todo[0].event, start(4));
}

#[test]
fn an_opened_wheel_knows_what_it_is() {
    let dev = opened();
    assert_eq!(dev.path(), "/dev/input/event3");
    assert_eq!(dev.info().name, "MOZA R5 Base");
}

#[test]
fn targets_lead_to_updates_in_order() {
    let dev = opened();
    let out = EffectLevels {
        constant: -12000,
        spring: 30000,
        spring_center: 10,
        damper: 20000,
        rumble: 5000,
        rumble_period_ms: 60,
        ..REST
    };
    let todo = dev.apply(&out);
    assert_eq!(todo.len(), 4);
    assert_eq!((todo[0].slot, todo[0].effect, todo[0].event), (Slot::Constant, update_constant(10, -12000, 0xFFFF), start(10)));
    assert_eq!((todo[1].slot, todo[1].effect, todo[1].event), (Slot::Spring, update_spring(12, 30000, 10), start(12)));
    assert_eq!((todo[2].slot, todo[2].effect, todo[2].event), (Slot::Damper, update_damper(13, 20000), start(13)));
    assert_eq!((todo[3].slot, todo[3].effect, todo[3].event), (Slot::Rumble, update_periodic(14, 5000, 60), start(14)));
}

#[test]
fn small_moves_are_left_out() {
    let dev = opened();
    assert_eq!(dev.apply(&EffectLevels { constant: 150, ..REST }).len(), 0);
    assert_eq!(dev.apply(&EffectLevels { constant: 151, ..REST }).len(), 1);
    assert_eq!(dev.apply(&EffectLevels { constant: -151, ..REST }).len(), 1);
    assert_eq!(dev.apply(&EffectLevels { damper: 256, ..REST }).len(), 0);
    assert_eq!(dev.apply(&EffectLevels { damper: 257, ..REST }).len(), 1);
    assert_eq!(dev.apply(&EffectLevels { rumble: 256, rumble_period_ms: 5, ..REST }).len(), 0);
    assert_eq!(dev.apply(&EffectLevels { rumble: 257, ..REST }).len(), 1);
    assert_eq!(dev.apply(&EffectLevels { rumble_period_ms: 6, ..REST }).len(), 1);
    assert_eq!(dev.apply(&EffectLevels { spring: 1, ..REST }).len(), 1);
}

#[test]
fn extreme_constant_forces_do_not_overflow() {
    let mut dev = opened();
    let left = EffectLevels { constant: -32767, ..REST };
    dev.settle(&left, 1);
    assert_eq!(dev.apply(&left).len(), 0);
    assert_eq!(dev.apply(&EffectLevels { constant: 32767, ..REST }).len(), 1);
}

#[test]
fn the_same_targets_again_write_only_the_spring() {
    let mut dev = opened();
    let out = EffectLevels {
        constant: 9000,
        spring: 9000,
        spring_center: 0,
        damper: 9000,
        rumble: 9000,
        rumble_period_ms: 30,
        ..REST
    };
    assert_eq!(dev.apply(&out).len(), 4);
    dev.settle(&out, 4);
    let again = dev.apply(&out);
    assert_eq!(again.len(), 1);
    assert_eq!(again[0].slot, Slot::Spring);
}

#[test]
fn a_failed_update_is_tried_again() {
    let mut dev = opened();
    let out = EffectLevels { constant: 9000, damper: 9000, ..REST };
    assert_eq!(dev.apply(&out).len(), 2);
    dev.settle(&out, 1);
    let rest = dev.apply(&out);
    assert_eq!(rest.len(), 1);
    assert_eq!(rest[0].slot, Slot::Damper);
    dev.settle(&out, 99);
    assert_eq!(dev.apply(&out).len(), 0);
}

#[test]
fn silence_takes_all_effects_back() {
    let mut dev = opened();
    let out = EffectLevels {
        constant: 9000,
        spring: 9000,
        spring_center: 0,
        damper: 9000,
        rumble: 9000,
        rumble_period_ms: 30,
        ..REST
    };
    dev.settle(&out, 4);
    let todo = dev.apply(&REST);
    assert_eq!(todo.len(), 4);
    assert_eq!(todo[0].effect, update_constant(10, 0, 0xFFFF));
    assert_eq!(todo[1].event, stop(12));
    assert_eq!(todo[2].event, stop(13));
    assert_eq!(todo[3].event, stop(14));
    dev.settle(&REST, 4);
    assert_eq!(dev.apply(&REST).len(), 0);
}

#[test]
fn release_stops_the_driven_slots() {
    assert_eq!(opened().stop_all(), vec![stop(10), stop(12), stop(13), stop(14), set_gain(0xFFFF)]);
    let bare = DeviceInfo::default();
    let none = FfbDevice::open("p".to_string(), bare, &vec![]).unwrap();
    assert_eq!(none.stop_all(), vec![set_gain(0xFFFF)]);
    assert_eq!(none.apply(&EffectLevels { constant: 9000, ..REST }).len(), 0);
}

#[test]
fn a_rejected_upload_makes_opening_fail() {
    let open = |ids: Vec<i16>| FfbDevice::open("p".to_string(), wheel(), &ids);
    assert_eq!(open(vec![]).unwrap_err(), vec![set_gain(0xFFFF)]);
    assert_eq!(open(vec![1, 2]).unwrap_err(), vec![stop(1), set_gain(0xFFFF)]);
    assert_eq!(
        open(vec![1, 2, 3, 4]).unwrap_err(),
        vec![stop(1), stop(3), stop(4), set_gain(0xFFFF)]
    );
    assert!(open(vec![1, 2, 3, 4, 5]).is_ok());
}
