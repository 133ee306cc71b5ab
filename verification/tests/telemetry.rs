use fs25_ffb::telemetry::{
    is_stale, parse_frame, FrameError, Telemetry, TelemetryReader, FRAME_SIZE, MAGIC,
    UNTIMED_FRAME_SIZE,
};

fn frame(sequence: u32) -> Vec<u8> {
    let mut b = Vec::new();
    b.extend_from_slice(&MAGIC.to_le_bytes());
    b.extend_from_slice(&1u16.to_le_bytes());
    b.extend_from_slice(&108u16.to_le_bytes());
    b.extend_from_slice(&sequence.to_le_bytes());
    for i in 0..22u32 {
        b.extend_from_slice(&((i as f32) * 0.5 - 3.0).to_le_bytes());
    }
    b.extend_from_slice(&0x0du32.to_le_bytes());
    b.extend_from_slice(&0xcafef00du32.to_le_bytes());
    b
}

#[test]
fn a_frame_is_decoded_field_by_field() {
    let b = frame(77);
    assert_eq!(b.len(), FRAME_SIZE);
    let t = parse_frame(&b, 5).unwrap();
    assert_eq!(t.sequence, 77);
    let numbers = [
        t.timestamp,
        t.steering_angle,
        t.steering_target,
        t.speed_mps,
        t.lateral_accel,
        t.longitudinal_accel,
        t.yaw_rate,
        t.pitch,
        t.roll,
        t.slip_front,
        t.slip_rear,
        t.susp_fl,
        t.susp_fr,
        t.susp_rl,
        t.susp_rr,
        t.ground_hardness,
        t.ground_roughness,
        t.rpm,
        t.engine_load,
        t.attached_mass,
        t.total_mass,
        t.collision,
    ];
    for i in 0..22 {
        assert_eq!(f32::from_bits(numbers[i]), (i as f32) * 0.5 - 3.0);
    }
    assert_eq!(t.flags, 0x0d);
    assert_eq!(t.vehicle_hash, 0xcafef00d);
    assert_eq!(t.received_at, Some(5));
}

fn untimed(sequence: u32) -> Vec<u8> {
    let mut b = frame(sequence);
    b.drain(12..16);
    b[6] = 104;
    b
}

#[test]
fn a_frame_without_a_time_stamp_is_decoded() {
    let b = untimed(77);
    assert_eq!(b.len(), UNTIMED_FRAME_SIZE);
    let mut expected = parse_frame(&frame(77), 5).unwrap();
    expected.timestamp = 0;
    assert_eq!(parse_frame(&b, 5), Ok(expected));
    let mut longer = b.clone();
    longer.extend_from_slice(&[9, 9, 9, 9, 9, 9]);
    assert_eq!(parse_frame(&longer, 5), Ok(expected));
    assert_eq!(parse_frame(&b[..103], 5), Err(FrameError::TooShort(103)));
    let mut r = TelemetryReader::new(String::new());
    assert_eq!(r.poll(&b, 5), Some(expected));
    assert_eq!(r.poll(&b, 6), None);
}

#[test]
fn a_torn_frame_is_not_taken_for_one_without_a_time_stamp() {
    for n in 104..108 {
        assert_eq!(parse_frame(&frame(1)[..n], 0), Err(FrameError::TooShort(n)));
    }
}

#[test]
fn the_magic_number_spells_a_name() {
    assert_eq!(&MAGIC.to_be_bytes(), b"FFBE");
}

#[test]
fn a_short_buffer_is_no_frame() {
    let b = frame(1);
    assert_eq!(parse_frame(&b[..107], 0), Err(FrameError::TooShort(107)));
    assert_eq!(parse_frame(&[], 0), Err(FrameError::TooShort(0)));
    assert_eq!(FrameError::TooShort(107).message(), "frame too short: 107 bytes");
}

#[test]
fn another_magic_number_is_no_frame() {
    let mut b = frame(1);
    b[0] = 0;
    assert_eq!(parse_frame(&b, 0), Err(FrameError::BadMagic(0x46464200)));
    assert_eq!(
        FrameError::BadMagic(0x46464200).message(),
        "bad magic 0x46464200 (expected 0x46464245)"
    );
}

#[test]
fn version_zero_is_no_frame() {
    let mut b = frame(1);
    b[4] = 0;
    assert_eq!(parse_frame(&b, 0), Err(FrameError::UnsupportedVersion(0)));
    assert_eq!(FrameError::UnsupportedVersion(0).message(), "unsupported frame version 0");
}

#[test]
fn later_versions_append_fields() {
    let mut b = frame(9);
    b[4] = 2;
    b[6] = 116;
    b.extend_from_slice(&[1, 2, 3, 4, 5, 6, 7, 8]);
    assert_eq!(parse_frame(&b, 3), parse_frame(&frame(9), 3));
}

#[test]
fn no_frame_is_handed_out_twice() {
    let mut r = TelemetryReader::new("telemetry.bin".to_string());
    assert_eq!(r.path(), "telemetry.bin");
    assert_eq!(r.poll(&frame(1), 10).unwrap().sequence, 1);
    assert_eq!(r.poll(&frame(1), 20), None);
    assert_eq!(r.poll(&frame(2), 30).unwrap().received_at, Some(30));
    assert_eq!(r.poll(&frame(1), 40).unwrap().sequence, 1);
}

#[test]
fn torn_writes_and_missing_files_yield_nothing() {
    let mut r = TelemetryReader::new("telemetry.bin".to_string());
    assert_eq!(r.poll(&[], 1), None);
    assert_eq!(r.poll(&frame(5)[..60], 2), None);
    let mut bad = frame(5);
    bad[3] = 0;
    assert_eq!(r.poll(&bad, 3), None);
    assert_eq!(r.poll(&frame(5), 4).unwrap().sequence, 5);
}

#[test]
fn a_game_that_starts_over_at_zero_is_not_seen_before_its_second_frame() {
    let mut r = TelemetryReader::new(String::new());
    assert_eq!(r.poll(&frame(0), 1), None);
    assert_eq!(r.poll(&frame(1), 2).unwrap().sequence, 1);
}

#[test]
fn silence_is_stale_after_half_a_second() {
    assert!(is_stale(None));
    assert!(!is_stale(Some(0)));
    assert!(!is_stale(Some(500_000_000)));
    assert!(is_stale(Some(500_000_001)));
}

#[test]
fn flags_have_their_bits() {
    let blank = Telemetry::default();
    assert!(!blank.in_vehicle() && !blank.has_power_steering() && !blank.reversing() && !blank.airborne());
    assert_eq!(blank.received_at, None);
    let mut t = Telemetry::default();
    t.flags = 0x01;
    assert!(t.in_vehicle() && !t.has_power_steering());
    t.flags = 0x04;
    assert!(t.has_power_steering() && !t.reversing());
    t.flags = 0x08;
    assert!(t.reversing() && !t.airborne());
    t.flags = 0x10;
    assert!(t.airborne() && !t.in_vehicle());
}
