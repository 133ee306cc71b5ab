use fs25_ffb::effects::{wants_forces, EffectOutput};
use fs25_ffb::config::TuningConfig;
use fs25_ffb::shared::{DeviceInfo, Heartbeat, History, LiveState, HISTORY_CAP};
use fs25_ffb::telemetry::Telemetry;

#[test]
fn the_history_shows_the_newest_samples() {
    let mut h = History::default();
    for i in 0..(HISTORY_CAP as u32 + 3) {
        h.push(i, i + 1, i + 2, i + 3);
    }
    assert_eq!(h.steering.len(), 600);
    assert_eq!((h.steering[0], h.steering[599]), (3, 602));
    assert_eq!((h.output_constant[0], h.output_constant[599]), (4, 603));
    assert_eq!((h.output_spring[0], h.output_spring[599]), (5, 604));
    assert_eq!((h.latency_ms[0], h.latency_ms[599]), (6, 605));
}

#[test]
fn a_tick_is_noted() {
    let mut live = LiveState::new(100);
    assert_eq!(live.last_heartbeat, Heartbeat { sequence: 0, updated: 100 });
    assert!(!live.daemon_running && live.device.is_none() && live.telemetry.is_none());
    assert_eq!(live.last_output, EffectOutput::default());
    let mut frame = Telemetry::default();
    frame.steering_angle = 0.25f32.to_bits();
    let out = EffectOutput {
        constant: 0.5f32.to_bits(),
        spring_strength: 0.75f32.to_bits(),
        ..EffectOutput::default()
    };
    live.record_tick(frame, out, 1.5f32.to_bits(), 200);
    assert_eq!(live.telemetry, Some(frame));
    assert_eq!(live.last_output, out);
    assert_eq!(live.last_heartbeat, Heartbeat { sequence: 1, updated: 200 });
    assert_eq!(live.history.steering, vec![0.25f32.to_bits()]);
    assert_eq!(live.history.output_constant, vec![0.5f32.to_bits()]);
    assert_eq!(live.history.output_spring, vec![0.75f32.to_bits()]);
    assert_eq!(live.history.latency_ms, vec![1.5f32.to_bits()]);
}

#[test]
fn the_heartbeat_wraps_around() {
    let mut live = LiveState::new(0);
    live.last_heartbeat = Heartbeat { sequence: u32::MAX, updated: 1 };
    live.record_tick(Telemetry::default(), EffectOutput::default(), 0, 2);
    assert_eq!(live.last_heartbeat, Heartbeat { sequence: 0, updated: 2 });
}

#[test]
fn a_blank_description_supports_nothing() {
    let d = DeviceInfo::default();
    assert_eq!((d.name.as_str(), d.path.as_str(), d.vendor_id, d.ff_effects_max), ("", "", 0, 0));
    assert!(!d.supports_constant && !d.supports_spring && !d.supports_damper);
    let mut e = d.clone();
    e.name = "wheel".to_string();
    assert_eq!(e.clone().name, "wheel");
}

#[test]
fn no_forces_outside_a_vehicle_or_when_switched_off() {
    let mut frame = Telemetry::default();
    let mut tuning = TuningConfig::default();
    assert!(!wants_forces(&frame, &tuning));
    frame.flags = 0x01 | 0x04;
    assert!(wants_forces(&frame, &tuning));
    tuning.enabled = false;
    assert!(!wants_forces(&frame, &tuning));
}
