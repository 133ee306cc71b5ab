use fs25_ffb::config::Config;
use fs25_ffb::daemon::{
    note_failure, resolve_telemetry_path, telemetry_candidates, tick_period_micros, DaemonAction,
    DaemonEvent, DaemonLoop, PathError,
};
use fs25_ffb::shared::{DeviceInfo, LiveState};

const TAIL: &str = "steamapps/compatdata/2300320/pfx/drive_c/users/steamuser/Documents/My Games/FarmingSimulator2025/modSettings/FS25_FFBEnhancer/telemetry.bin";

fn go(stop: bool) -> DaemonEvent {
    DaemonEvent::StopFlag { stop, output_hz: 240 }
}

fn running() -> (DaemonLoop, LiveState) {
    let mut live = LiveState::new(0);
    let mut d = DaemonLoop::start("/t".to_string(), &mut live);
    assert_eq!(d.action(), DaemonAction::CheckStop);
    assert_eq!(d.step(go(false), &mut live), DaemonAction::OpenDevice);
    let mut info = DeviceInfo::default();
    info.name = "wheel".to_string();
    assert_eq!(d.step(DaemonEvent::Opened { info, now: 1_000 }, &mut live), DaemonAction::CheckStop);
    (d, live)
}

#[test]
fn telemetry_is_looked_for_under_four_roots() {
    let c = Config::default();
    assert_eq!(
        telemetry_candidates(&c.paths, "/home/me"),
        vec![
            format!("/home/me/.local/share/Steam/{}", TAIL),
            format!("/home/me/.steam/steam/{}", TAIL),
            format!("/home/me/.steam/root/{}", TAIL),
            format!("/home/me/.var/app/com.valvesoftware.Steam/.local/share/Steam/{}", TAIL),
        ]
    );
}

#[test]
fn a_configured_steam_root_replaces_the_usual_one() {
    let mut c = Config::default();
    c.paths.steam_root = Some("/mnt/games/steam".to_string());
    c.paths.fs25_steam_appid = 42;
    let list = telemetry_candidates(&c.paths, "/home/me");
    assert!(list[0].starts_with("/mnt/games/steam/steamapps/compatdata/42/pfx/"));
    assert!(list[1].starts_with("/home/me/.steam/steam/"));
}

#[test]
fn a_configured_telemetry_file_wins() {
    let mut c = Config::default();
    c.paths.telemetry_file = Some("/mnt/t.bin".to_string());
    assert_eq!(resolve_telemetry_path(&c, None, &vec![]), Ok("/mnt/t.bin".to_string()));
    assert_eq!(
        resolve_telemetry_path(&c, Some("/home/me"), &vec![true, true, true, true]),
        Ok("/mnt/t.bin".to_string())
    );
}

#[test]
fn without_a_home_there_is_no_path() {
    let c = Config::default();
    assert_eq!(resolve_telemetry_path(&c, None, &vec![true]), Err(PathError::HomeNotSet));
    assert_eq!(PathError::HomeNotSet.message(), "HOME is not set");
}

#[test]
fn the_first_directory_that_is_there_wins() {
    let c = Config::default();
    let list = telemetry_candidates(&c.paths, "/home/me");
    let at = |present: Vec<bool>| resolve_telemetry_path(&c, Some("/home/me"), &present).unwrap();
    assert_eq!(at(vec![false, false, true, true]), list[2]);
    assert_eq!(at(vec![true, true, false, false]), list[0]);
    assert_eq!(at(vec![false, false, false, true]), list[3]);
    assert_eq!(at(vec![false, false, false, false]), list[0]);
    assert_eq!(at(vec![]), list[0]);
    assert_eq!(at(vec![false, false, false, false, true]), list[0]);
}

#[test]
fn the_update_rate_is_held_in_range() {
    assert_eq!(tick_period_micros(240), 4166);
    assert_eq!(tick_period_micros(60), 16666);
    assert_eq!(tick_period_micros(0), 16666);
    assert_eq!(tick_period_micros(500), 2000);
    assert_eq!(tick_period_micros(u32::MAX), 2000);
}

#[test]
fn a_stop_before_the_wheel_is_open_ends_at_once() {
    let mut live = LiveState::new(0);
    let mut d = DaemonLoop::start("/t".to_string(), &mut live);
    assert_eq!(live.telemetry_path, Some("/t".to_string()));
    assert_eq!(d.step(go(true), &mut live), DaemonAction::Exit);
    assert!(!live.daemon_running);
    assert_eq!(d.step(go(false), &mut live), DaemonAction::Exit);
}

#[test]
fn a_missing_wheel_is_looked_for_every_two_seconds() {
    let mut live = LiveState::new(0);
    let mut d = DaemonLoop::start("/t".to_string(), &mut live);
    for _ in 0..3 {
        assert_eq!(d.step(go(false), &mut live), DaemonAction::OpenDevice);
        assert_eq!(
            d.step(DaemonEvent::OpenFailed("no wheel".to_string()), &mut live),
            DaemonAction::Sleep { micros: 2_000_000 }
        );
        assert_eq!(live.last_error, Some("no wheel".to_string()));
        assert_eq!(d.step(DaemonEvent::Slept, &mut live), DaemonAction::CheckStop);
    }
    assert_eq!(d.step(go(false), &mut live), DaemonAction::OpenDevice);
    d.step(DaemonEvent::Opened { info: DeviceInfo::default(), now: 5 }, &mut live);
    assert_eq!(live.last_error, None);
    assert!(live.daemon_running);
}

#[test]
fn a_frame_is_applied_and_recorded() {
    let (mut d, mut live) = running();
    assert!(live.daemon_running);
    assert_eq!(live.device.as_ref().unwrap().name, "wheel");
    assert_eq!(d.step(go(false), &mut live), DaemonAction::ReadTelemetry);
    assert_eq!(d.step(DaemonEvent::Frame, &mut live), DaemonAction::ApplyFrame);
    assert_eq!(d.step(DaemonEvent::Applied, &mut live), DaemonAction::RecordTick);
    assert_eq!(d.step(DaemonEvent::Recorded { now: 2_000 }, &mut live), DaemonAction::Sleep { micros: 4166 });
    assert_eq!(d.step(DaemonEvent::Slept, &mut live), DaemonAction::CheckStop);
}

#[test]
fn a_failed_write_reopens_the_wheel_and_still_records_the_frame() {
    for ok in [true, false] {
        let (mut d, mut live) = running();
        d.step(go(false), &mut live);
        d.step(DaemonEvent::Frame, &mut live);
        assert_eq!(
            d.step(DaemonEvent::ApplyFailed("gone".to_string()), &mut live),
            DaemonAction::Sleep { micros: 200_000 }
        );
        assert_eq!(live.last_error, Some("gone".to_string()));
        assert_eq!(d.step(DaemonEvent::Slept, &mut live), DaemonAction::ReopenDevice);
        assert_eq!(d.step(DaemonEvent::Reopened { ok }, &mut live), DaemonAction::RecordTick);
        assert_eq!(live.last_error, Some("gone".to_string()));
    }
}

#[test]
fn effects_are_taken_back_after_half_a_second_of_silence() {
    let (mut d, mut live) = running();
    d.step(go(false), &mut live);
    assert_eq!(
        d.step(DaemonEvent::Silent { now: 500_001_000 }, &mut live),
        DaemonAction::Sleep { micros: 4166 }
    );
    d.step(DaemonEvent::Slept, &mut live);
    d.step(go(false), &mut live);
    assert_eq!(
        d.step(DaemonEvent::Silent { now: 500_001_001 }, &mut live),
        DaemonAction::ApplySilence
    );
    assert_eq!(
        d.step(DaemonEvent::ApplyFailed("ignored".to_string()), &mut live),
        DaemonAction::Sleep { micros: 4166 }
    );
    assert_eq!(live.last_error, None);
}

#[test]
fn silence_is_counted_from_the_last_frame() {
    let (mut d, mut live) = running();
    d.step(go(false), &mut live);
    d.step(DaemonEvent::Frame, &mut live);
    d.step(DaemonEvent::Applied, &mut live);
    d.step(DaemonEvent::Recorded { now: 900_000_000 }, &mut live);
    d.step(DaemonEvent::Slept, &mut live);
    d.step(go(false), &mut live);
    assert_eq!(
        d.step(DaemonEvent::Silent { now: 1_400_000_000 }, &mut live),
        DaemonAction::Sleep { micros: 4166 }
    );
    d.step(DaemonEvent::Slept, &mut live);
    d.step(go(false), &mut live);
    assert_eq!(
        d.step(DaemonEvent::Silent { now: 1_400_000_001 }, &mut live),
        DaemonAction::ApplySilence
    );
}

#[test]
fn the_update_rate_is_followed_from_tick_to_tick() {
    let (mut d, mut live) = running();
    d.step(DaemonEvent::StopFlag { stop: false, output_hz: 500 }, &mut live);
    assert_eq!(
        d.step(DaemonEvent::Silent { now: 0 }, &mut live),
        DaemonAction::Sleep { micros: 2000 }
    );
    d.step(DaemonEvent::Slept, &mut live);
    d.step(DaemonEvent::StopFlag { stop: false, output_hz: 100 }, &mut live);
    assert_eq!(
        d.step(DaemonEvent::Silent { now: 0 }, &mut live),
        DaemonAction::Sleep { micros: 10000 }
    );
}

#[test]
fn a_stop_releases_the_wheel_first() {
    let (mut d, mut live) = running();
    assert_eq!(d.step(go(true), &mut live), DaemonAction::ReleaseWheel);
    assert!(live.daemon_running);
    assert_eq!(d.step(DaemonEvent::Released, &mut live), DaemonAction::Exit);
    assert!(!live.daemon_running);
}

#[test]
fn an_event_that_answers_nothing_changes_nothing() {
    let (mut d, mut live) = running();
    assert_eq!(d.step(DaemonEvent::Frame, &mut live), DaemonAction::CheckStop);
    assert_eq!(d.step(DaemonEvent::OpenFailed("x".to_string()), &mut live), DaemonAction::CheckStop);
    assert_eq!(live.last_error, None);
    assert!(live.daemon_running);
}

#[test]
fn an_error_ends_the_daemon() {
    let (_, mut live) = running();
    note_failure(&mut live, "HOME is not set".to_string());
    assert_eq!(live.last_error, Some("HOME is not set".to_string()));
    assert!(!live.daemon_running);
}
