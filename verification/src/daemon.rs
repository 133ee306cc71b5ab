//! The daemon: where telemetry is found, and what is done when.
//!
//! The loop around the wheel is a state machine. Each step takes what came of
//! the last action and gives the next one; reading files, writing to the wheel
//! and sleeping are the caller's part.

use crate::config::{Config, PathsConfig, PathsView};
use crate::effects::EffectOutput;
use crate::shared::{DeviceInfo, LiveState, LiveView};
use crate::telemetry::{is_stale, stale, Telemetry};
use crate::text::{decimal, decimal_text, join_path, joined, opt_text, texts};
use vstd::prelude::*;
use vstd::string::*;

verus! {

// ---------------------------------------------------------------------------
// Where telemetry is found
// ---------------------------------------------------------------------------

/// The telemetry file under a Steam root.
pub open spec fn telemetry_under(root: Seq<char>, appid: u32) -> Seq<char> {
    joined(
        joined(
            joined(joined(root, "steamapps/compatdata"@), decimal(appid as nat)),
            "pfx/drive_c/users/steamuser/Documents/My Games/FarmingSimulator2025"@,
        ),
        "modSettings/FS25_FFBEnhancer/telemetry.bin"@,
    )
}

/// The Steam roots to look at, in order: the configured one in place of the
/// usual one, then the links that Steam keeps, then the Flatpak one.
pub open spec fn steam_roots(paths: PathsView, home: Seq<char>) -> Seq<Seq<char>> {
    seq![
        match paths.steam_root {
            Some(root) => root,
            None => joined(home, ".local/share/Steam"@),
        },
        joined(home, ".steam/steam"@),
        joined(home, ".steam/root"@),
        joined(home, ".var/app/com.valvesoftware.Steam/.local/share/Steam"@),
    ]
}

/// The places where the telemetry file may be, in order.
pub open spec fn candidates(paths: PathsView, home: Seq<char>) -> Seq<Seq<char>> {
    steam_roots(paths, home).map_values(
        |root: Seq<char>| telemetry_under(root, paths.fs25_steam_appid),
    )
}

/// Why there is no telemetry path.
#[derive(Debug, Clone, Copy, PartialEq, Eq, Structural)]
pub enum PathError {
    HomeNotSet,
}

impl PathError {
    /// The error in words.
    pub fn message(&self) -> (out: &'static str)
        ensures
            out@ == "HOME is not set"@,
    {
        "HOME is not set"
    }
}

/// The first candidate whose directory is there.
pub open spec fn first_present(present: Seq<bool>, i: int) -> bool {
    &&& 0 <= i < present.len()
    &&& present[i]
    &&& forall|j: int| 0 <= j < i ==> !#[trigger] present[j]
}

/// The telemetry path: the configured one; else the first candidate whose
/// directory is there; else the first candidate, whose directory the game will
/// create.
pub open spec fn resolved(
    paths: PathsView,
    home: Option<Seq<char>>,
    present: Seq<bool>,
    out: Result<Seq<char>, PathError>,
) -> bool {
    match (paths.telemetry_file, home) {
        (Some(file), _) => out == Ok::<Seq<char>, PathError>(file),
        (None, None) => out == Err::<Seq<char>, PathError>(PathError::HomeNotSet),
        (None, Some(home)) => {
            let places = candidates(paths, home);
            if exists|i: int| 0 <= i < places.len() && first_present(present, i) {
                exists|i: int|
                    0 <= i < places.len() && #[trigger] first_present(present, i) && out == Ok::<
                        Seq<char>,
                        PathError,
                    >(places[i])
            } else {
                out == Ok::<Seq<char>, PathError>(places[0])
            }
        },
    }
}

/// The one telemetry path that can be decided on.
pub open spec fn telemetry_path(
    paths: PathsView,
    home: Option<Seq<char>>,
    present: Seq<bool>,
) -> Result<Seq<char>, PathError> {
    choose|out: Result<Seq<char>, PathError>| resolved(paths, home, present, out)
}

fn under_root(root: &str, appid: u32) -> (path: String)
    ensures
        path@ == telemetry_under(root@, appid),
{
    let id: String = decimal_text(appid as u64);
    let compat: String = join_path(join_path(root, "steamapps/compatdata").as_str(), id.as_str());
    let prefix: String = join_path(
        compat.as_str(),
        "pfx/drive_c/users/steamuser/Documents/My Games/FarmingSimulator2025",
    );
    join_path(prefix.as_str(), "modSettings/FS25_FFBEnhancer/telemetry.bin")
}

/// The places where the telemetry file may be, in order.
pub fn telemetry_candidates(paths: &PathsConfig, home: &str) -> (out: Vec<String>)
    ensures
        texts(out@) == candidates(paths@, home@),
{
    let appid: u32 = paths.fs25_steam_appid;
    let first: String = match &paths.steam_root {
        Some(root) => root.clone(),
        None => join_path(home, ".local/share/Steam"),
    };
    let second: String = join_path(home, ".steam/steam");
    let third: String = join_path(home, ".steam/root");
    let fourth: String = join_path(home, ".var/app/com.valvesoftware.Steam/.local/share/Steam");
    let mut out: Vec<String> = Vec::new();
    out.push(under_root(first.as_str(), appid));
    out.push(under_root(second.as_str(), appid));
    out.push(under_root(third.as_str(), appid));
    out.push(under_root(fourth.as_str(), appid));
    assert(texts(out@) =~= candidates(paths@, home@));
    out
}

/// A home directory that may be unset, by its characters.
pub open spec fn home_text(home: Option<&str>) -> Option<Seq<char>> {
    match home {
        Some(h) => Some(h@),
        None => None,
    }
}

/// A path or an error, by the characters of the path.
pub open spec fn path_outcome(out: Result<String, PathError>) -> Result<Seq<char>, PathError> {
    match out {
        Ok(p) => Ok(p@),
        Err(e) => Err(e),
    }
}

/// Decides on the telemetry path. `present` says of each candidate whether its
/// directory is there.
pub fn resolve_telemetry_path(cfg: &Config, home: Option<&str>, present: &Vec<bool>) -> (out: Result<
    String,
    PathError,
>)
    ensures
        resolved(cfg@.paths, home_text(home), present@, path_outcome(out)),
        path_outcome(out) == telemetry_path(cfg@.paths, home_text(home), present@),
{
    let out: Result<String, PathError> = resolve(cfg, home, present);
    proof {
        law_telemetry_path_is_unique(
            cfg@.paths,
            home_text(home),
            present@,
            path_outcome(out),
            telemetry_path(cfg@.paths, home_text(home), present@),
        );
    }
    out
}

fn resolve(cfg: &Config, home: Option<&str>, present: &Vec<bool>) -> (out: Result<
    String,
    PathError,
>)
    ensures
        resolved(cfg@.paths, home_text(home), present@, path_outcome(out)),
{
    if let Some(file) = &cfg.paths.telemetry_file {
        return Ok(file.clone());
    }
    let base: &str = match home {
        Some(h) => h,
        None => {
            return Err(PathError::HomeNotSet);
        },
    };
    let places: Vec<String> = telemetry_candidates(&cfg.paths, base);
    let ghost spots = candidates(cfg@.paths, base@);
    let mut i: usize = 0;
    while i < places.len() && i < present.len()
        invariant
            i <= places@.len(),
            i <= present@.len(),
            texts(places@) == spots,
            spots == candidates(cfg@.paths, base@),
            home_text(home) == Some(base@),
            cfg@.paths.telemetry_file is None,
            forall|j: int| 0 <= j < i ==> !#[trigger] present@[j],
        decreases places@.len() - i,
    {
        if present[i] {
            assert(spots[i as int] == places@[i as int]@);
            assert(first_present(present@, i as int));
            return Ok(places[i].clone());
        }
        i = i + 1;
    }
    assert(spots[0] == places@[0]@);
    Ok(places[0].clone())
}

// ---------------------------------------------------------------------------
// Timing
// ---------------------------------------------------------------------------

/// The configured update rate, held between 60 and 500 Hz.
pub open spec fn clamped_hz(output_hz: u32) -> u32 {
    if output_hz < 60 {
        60
    } else if output_hz > 500 {
        500
    } else {
        output_hz
    }
}

/// The pause between two ticks, in microseconds.
pub open spec fn period_micros(output_hz: u32) -> u64 {
    (1_000_000int / clamped_hz(output_hz) as int) as u64
}

/// The pause between two ticks at a configured update rate.
pub fn tick_period_micros(output_hz: u32) -> (micros: u64)
    ensures
        micros == period_micros(output_hz),
        micros * clamped_hz(output_hz) <= 1_000_000 < (micros + 1) * clamped_hz(output_hz),
        2_000 <= micros <= 16_666,
{
    let hz: u32 = if output_hz < 60 {
        60
    } else if output_hz > 500 {
        500
    } else {
        output_hz
    };
    assert({
        let q = 1_000_000int / hz as int;
        2_000 <= q <= 16_666 && q * hz <= 1_000_000 < (q + 1) * hz
    }) by (nonlinear_arith)
        requires
            60 <= hz <= 500,
    ;
    1_000_000 / hz as u64
}

/// The pause before the wheel is looked for again, in microseconds.
pub const RETRY_MICROS: u64 = 2_000_000;

/// The pause after a failed write, in microseconds.
pub const RECOVER_MICROS: u64 = 200_000;

// ---------------------------------------------------------------------------
// The loop
// ---------------------------------------------------------------------------

/// Where the loop stands.
#[derive(Debug, Clone, Copy, PartialEq, Eq, Structural)]
pub enum DaemonState {
    /// About to look for the wheel, unless told to stop.
    Starting,
    /// The wheel is being opened.
    Opening,
    /// The wheel was not there; it may be plugged in later.
    Waiting,
    /// About to begin a tick, unless told to stop.
    TickStart,
    /// Telemetry is being read.
    Reading,
    /// Effects of a new frame are being written.
    Driving,
    /// Writing failed; a moment's rest.
    Recovering,
    /// The wheel is being opened anew.
    Reopening,
    /// The frame is being noted in the live state.
    Recording,
    /// Telemetry has gone silent; effects are being taken back.
    Fading,
    /// Until the next tick.
    Resting,
    /// The wheel is being let go.
    Releasing,
    /// Nothing is left to do.
    Ended,
}

/// What the loop asks for.
#[derive(Debug, Clone, Copy, PartialEq, Eq, Structural)]
pub enum DaemonAction {
    /// Report the stop flag and the configured update rate.
    CheckStop,
    OpenDevice,
    Sleep { micros: u64 },
    /// Read telemetry; without a new frame, report when the tick began.
    ReadTelemetry,
    /// Compute the effects of the frame and write them.
    ApplyFrame,
    ReopenDevice,
    /// Note the frame and its effects in the live state.
    RecordTick,
    /// Write effects without any force.
    ApplySilence,
    /// Stop all effects.
    ReleaseWheel,
    Exit,
}

/// What came of an action. Times are nanoseconds of the daemon's clock.
#[derive(Debug)]
pub enum DaemonEvent {
    StopFlag { stop: bool, output_hz: u32 },
    Opened { info: DeviceInfo, now: u64 },
    OpenFailed(String),
    Slept,
    Frame,
    Silent { now: u64 },
    Applied,
    ApplyFailed(String),
    Reopened { ok: bool },
    Recorded { now: u64 },
    Released,
}

/// The action that is asked for in a state.
pub open spec fn pending(state: DaemonState, period: u64) -> DaemonAction {
    match state {
        DaemonState::Starting => DaemonAction::CheckStop,
        DaemonState::Opening => DaemonAction::OpenDevice,
        DaemonState::Waiting => DaemonAction::Sleep { micros: RETRY_MICROS },
        DaemonState::TickStart => DaemonAction::CheckStop,
        DaemonState::Reading => DaemonAction::ReadTelemetry,
        DaemonState::Driving => DaemonAction::ApplyFrame,
        DaemonState::Recovering => DaemonAction::Sleep { micros: RECOVER_MICROS },
        DaemonState::Reopening => DaemonAction::ReopenDevice,
        DaemonState::Recording => DaemonAction::RecordTick,
        DaemonState::Fading => DaemonAction::ApplySilence,
        DaemonState::Resting => DaemonAction::Sleep { micros: period },
        DaemonState::Releasing => DaemonAction::ReleaseWheel,
        DaemonState::Ended => DaemonAction::Exit,
    }
}

/// How long telemetry has been silent, in nanoseconds.
pub open spec fn silence(heard: u64, now: u64) -> u128 {
    if now >= heard {
        (now - heard) as u128
    } else {
        0
    }
}

/// The instant from which silence is counted, after an event: when the wheel
/// was opened, and then when the last frame was noted.
pub open spec fn next_heard(state: DaemonState, event: DaemonEvent, heard: u64) -> u64 {
    match (state, event) {
        (DaemonState::Opening, DaemonEvent::Opened { now, .. }) => now,
        (DaemonState::Recording, DaemonEvent::Recorded { now }) => now,
        _ => heard,
    }
}

/// The state after an event; `heard` is the instant from which silence is
/// counted. An event that does not answer the pending action
/// changes nothing.
pub open spec fn next_state(state: DaemonState, heard: u64, event: DaemonEvent) -> DaemonState {
    match (state, event) {
        (DaemonState::Starting, DaemonEvent::StopFlag { stop, .. }) => if stop {
            DaemonState::Ended
        } else {
            DaemonState::Opening
        },
        (DaemonState::Opening, DaemonEvent::Opened { .. }) => DaemonState::TickStart,
        (DaemonState::Opening, DaemonEvent::OpenFailed(_)) => DaemonState::Waiting,
        (DaemonState::Waiting, DaemonEvent::Slept) => DaemonState::Starting,
        (DaemonState::TickStart, DaemonEvent::StopFlag { stop, .. }) => if stop {
            DaemonState::Releasing
        } else {
            DaemonState::Reading
        },
        (DaemonState::Reading, DaemonEvent::Frame) => DaemonState::Driving,
        (DaemonState::Reading, DaemonEvent::Silent { now }) => if stale(
            Some(silence(heard, now)),
        ) {
            DaemonState::Fading
        } else {
            DaemonState::Resting
        },
        (DaemonState::Driving, DaemonEvent::Applied) => DaemonState::Recording,
        (DaemonState::Driving, DaemonEvent::ApplyFailed(_)) => DaemonState::Recovering,
        (DaemonState::Recovering, DaemonEvent::Slept) => DaemonState::Reopening,
        (DaemonState::Reopening, DaemonEvent::Reopened { .. }) => DaemonState::Recording,
        (DaemonState::Recording, DaemonEvent::Recorded { .. }) => DaemonState::Resting,
        (DaemonState::Fading, DaemonEvent::Applied) => DaemonState::Resting,
        (DaemonState::Fading, DaemonEvent::ApplyFailed(_)) => DaemonState::Resting,
        (DaemonState::Resting, DaemonEvent::Slept) => DaemonState::TickStart,
        (DaemonState::Releasing, DaemonEvent::Released) => DaemonState::Ended,
        _ => state,
    }
}

/// The pause between ticks after an event: it follows the configured update
/// rate from tick to tick.
pub open spec fn next_period(state: DaemonState, event: DaemonEvent, period: u64) -> u64 {
    match (state, event) {
        (DaemonState::TickStart, DaemonEvent::StopFlag { stop, output_hz }) => if stop {
            period
        } else {
            period_micros(output_hz)
        },
        _ => period,
    }
}

/// The live state after an event.
pub open spec fn next_live(state: DaemonState, event: DaemonEvent, live: LiveView) -> LiveView {
    match (state, event) {
        (DaemonState::Opening, DaemonEvent::Opened { info, .. }) => LiveView {
            device: Some(info@),
            daemon_running: true,
            last_error: None,
            ..live
        },
        (DaemonState::Opening, DaemonEvent::OpenFailed(why)) => LiveView {
            last_error: Some(why@),
            ..live
        },
        (DaemonState::Driving, DaemonEvent::ApplyFailed(why)) => LiveView {
            last_error: Some(why@),
            ..live
        },
        (DaemonState::Releasing, DaemonEvent::Released) => LiveView { daemon_running: false, ..live },
        _ => live,
    }
}

/// The loop around the wheel.
#[derive(Debug)]
pub struct DaemonLoop {
    state: DaemonState,
    period: u64,
    heard: u64,
}

impl DaemonLoop {
    /// Where the loop stands.
    pub closed spec fn state(self) -> DaemonState {
        self.state
    }

    /// The pause between two ticks, in microseconds.
    pub closed spec fn period(self) -> u64 {
        self.period
    }

    /// The instant from which silence is counted, in nanoseconds.
    pub closed spec fn heard(self) -> u64 {
        self.heard
    }

    /// A loop that watches a telemetry file and has not begun yet.
    pub fn start(telemetry_path: String, live: &mut LiveState) -> (daemon: Self)
        ensures
            daemon.state() == DaemonState::Starting,
            daemon.period() == 0,
            daemon.heard() == 0,
            final(live)@ == (LiveView { telemetry_path: Some(telemetry_path@), ..old(live)@ }),
    {
        live.telemetry_path = Some(telemetry_path);
        DaemonLoop { state: DaemonState::Starting, period: 0, heard: 0 }
    }

    /// The action that is asked for now.
    pub fn action(&self) -> (action: DaemonAction)
        ensures
            action == pending(self.state(), self.period()),
    {
        match self.state {
            DaemonState::Starting => DaemonAction::CheckStop,
            DaemonState::Opening => DaemonAction::OpenDevice,
            DaemonState::Waiting => DaemonAction::Sleep { micros: RETRY_MICROS },
            DaemonState::TickStart => DaemonAction::CheckStop,
            DaemonState::Reading => DaemonAction::ReadTelemetry,
            DaemonState::Driving => DaemonAction::ApplyFrame,
            DaemonState::Recovering => DaemonAction::Sleep { micros: RECOVER_MICROS },
            DaemonState::Reopening => DaemonAction::ReopenDevice,
            DaemonState::Recording => DaemonAction::RecordTick,
            DaemonState::Fading => DaemonAction::ApplySilence,
            DaemonState::Resting => DaemonAction::Sleep { micros: self.period },
            DaemonState::Releasing => DaemonAction::ReleaseWheel,
            DaemonState::Ended => DaemonAction::Exit,
        }
    }

    /// Takes what came of the pending action, notes it in the live state, and
    /// gives the next action.
    pub fn step(&mut self, event: DaemonEvent, live: &mut LiveState) -> (action: DaemonAction)
        ensures
            final(self).state() == next_state(old(self).state(), old(self).heard(), event),
            final(self).heard() == next_heard(old(self).state(), event, old(self).heard()),
            final(self).period() == next_period(old(self).state(), event, old(self).period()),
            final(live)@ == next_live(old(self).state(), event, old(live)@),
            action == pending(final(self).state(), final(self).period()),
    {
        match (self.state, event) {
            (DaemonState::Starting, DaemonEvent::StopFlag { stop, output_hz: _ }) => {
                self.state = if stop {
                    DaemonState::Ended
                } else {
                    DaemonState::Opening
                };
            },
            (DaemonState::Opening, DaemonEvent::Opened { info, now }) => {
                self.heard = now;
                live.device = Some(info);
                live.daemon_running = true;
                live.last_error = None;
                self.state = DaemonState::TickStart;
            },
            (DaemonState::Opening, DaemonEvent::OpenFailed(why)) => {
                live.last_error = Some(why);
                self.state = DaemonState::Waiting;
            },
            (DaemonState::Waiting, DaemonEvent::Slept) => {
                self.state = DaemonState::Starting;
            },
            (DaemonState::TickStart, DaemonEvent::StopFlag { stop, output_hz }) => {
                if stop {
                    self.state = DaemonState::Releasing;
                } else {
                    self.period = tick_period_micros(output_hz);
                    self.state = DaemonState::Reading;
                }
            },
            (DaemonState::Reading, DaemonEvent::Frame) => {
                self.state = DaemonState::Driving;
            },
            (DaemonState::Reading, DaemonEvent::Silent { now }) => {
                let elapsed: u128 = if now >= self.heard {
                    (now - self.heard) as u128
                } else {
                    0
                };
                self.state = if is_stale(Some(elapsed)) {
                    DaemonState::Fading
                } else {
                    DaemonState::Resting
                };
            },
            (DaemonState::Driving, DaemonEvent::Applied) => {
                self.state = DaemonState::Recording;
            },
            (DaemonState::Driving, DaemonEvent::ApplyFailed(why)) => {
                live.last_error = Some(why);
                self.state = DaemonState::Recovering;
            },
            (DaemonState::Recovering, DaemonEvent::Slept) => {
                self.state = DaemonState::Reopening;
            },
            (DaemonState::Reopening, DaemonEvent::Reopened { ok: _ }) => {
                self.state = DaemonState::Recording;
            },
            (DaemonState::Recording, DaemonEvent::Recorded { now }) => {
                self.heard = now;
                self.state = DaemonState::Resting;
            },
            (DaemonState::Fading, DaemonEvent::Applied) => {
                self.state = DaemonState::Resting;
            },
            (DaemonState::Fading, DaemonEvent::ApplyFailed(_)) => {
                self.state = DaemonState::Resting;
            },
            (DaemonState::Resting, DaemonEvent::Slept) => {
                self.state = DaemonState::TickStart;
            },
            (DaemonState::Releasing, DaemonEvent::Released) => {
                live.daemon_running = false;
                self.state = DaemonState::Ended;
            },
            _ => {},
        }
        self.action()
    }
}

/// Notes that the daemon came to an end by an error.
pub fn note_failure(live: &mut LiveState, why: String)
    ensures
        final(live)@ == (LiveView { last_error: Some(why@), daemon_running: false, ..old(live)@ }),
{
    live.last_error = Some(why);
    live.daemon_running = false;
}

// ---------------------------------------------------------------------------
// Laws
// ---------------------------------------------------------------------------

/// The wheel is open in this state.
pub open spec fn holds_wheel(state: DaemonState) -> bool {
    match state {
        DaemonState::Starting => false,
        DaemonState::Opening => false,
        DaemonState::Waiting => false,
        DaemonState::Ended => false,
        _ => true,
    }
}

/// The live state says that the daemon runs exactly while it holds the wheel,
/// and then it says which one.
pub open spec fn live_agrees(state: DaemonState, live: LiveView) -> bool {
    &&& live.daemon_running == holds_wheel(state)
    &&& live.daemon_running ==> live.device is Some
}

/// Every step keeps the live state in agreement with where the loop stands.
pub proof fn law_live_state_agrees(
    state: DaemonState,
    heard: u64,
    event: DaemonEvent,
    live: LiveView,
)
    requires
        live_agrees(state, live),
    ensures
        live_agrees(next_state(state, heard, event), next_live(state, event, live)),
{
}

/// Where a loop stands, from when it counts silence, and what it shows.
pub struct Standing {
    pub state: DaemonState,
    pub heard: u64,
    pub live: LiveView,
}

/// Where the loop stands after some events, from a fresh start with a telemetry
/// path.
pub open spec fn after(events: Seq<DaemonEvent>, path: Seq<char>, now: u64) -> Standing
    decreases events.len(),
{
    if events.len() == 0 {
        Standing {
            state: DaemonState::Starting,
            heard: 0,
            live: LiveView { telemetry_path: Some(path), ..LiveView::start(now) },
        }
    } else {
        let s = after(events.drop_last(), path, now);
        let event = events.last();
        Standing {
            state: next_state(s.state, s.heard, event),
            heard: next_heard(s.state, event, s.heard),
            live: next_live(s.state, event, s.live),
        }
    }
}

/// Whatever happens, the live state says that the daemon runs exactly while it
/// holds the wheel, and it keeps showing the telemetry path.
pub proof fn law_live_state_tells_the_truth(events: Seq<DaemonEvent>, path: Seq<char>, now: u64)
    ensures
        live_agrees(after(events, path, now).state, after(events, path, now).live),
        after(events, path, now).live.telemetry_path == Some(path),
    decreases events.len(),
{
    if events.len() > 0 {
        law_live_state_tells_the_truth(events.drop_last(), path, now);
        let s = after(events.drop_last(), path, now);
        law_live_state_agrees(s.state, s.heard, events.last(), s.live);
    }
}

/// A request to stop.
pub open spec fn asks_to_stop(event: DaemonEvent) -> bool {
    event matches DaemonEvent::StopFlag { stop, .. } && stop
}

/// Only a request to stop ends the loop, or makes it let go of the wheel.
pub proof fn law_only_a_stop_ends_the_loop(events: Seq<DaemonEvent>, path: Seq<char>, now: u64)
    requires
        after(events, path, now).state == DaemonState::Ended || after(events, path, now).state
            == DaemonState::Releasing,
    ensures
        exists|i: int| 0 <= i < events.len() && asks_to_stop(#[trigger] events[i]),
    decreases events.len(),
{
    if events.len() > 0 {
        let front = events.drop_last();
        let s = after(front, path, now);
        if s.state == DaemonState::Ended || s.state == DaemonState::Releasing {
            law_only_a_stop_ends_the_loop(front, path, now);
            let i = choose|i: int| 0 <= i < front.len() && asks_to_stop(#[trigger] front[i]);
            assert(asks_to_stop(events[i]));
        } else {
            assert(asks_to_stop(events[events.len() - 1]));
        }
    }
}

/// Noting a frame leaves the live state in agreement with where the loop
/// stands.
pub proof fn law_noting_a_frame_keeps_agreement(
    state: DaemonState,
    live: LiveView,
    frame: Telemetry,
    out: EffectOutput,
    latency_ms: u32,
    now: u64,
)
    requires
        live_agrees(state, live),
    ensures
        live_agrees(state, live.ticked(frame, out, latency_ms, now)),
{
}

/// The loop ends only without a wheel, or once the wheel has been let go.
pub proof fn law_wheel_is_released_before_the_end(
    state: DaemonState,
    heard: u64,
    event: DaemonEvent,
)
    requires
        state != DaemonState::Ended,
        next_state(state, heard, event) == DaemonState::Ended,
    ensures
        !holds_wheel(state) || state == DaemonState::Releasing,
{
}

/// The end is final.
pub proof fn law_the_end_is_final(heard: u64, event: DaemonEvent, live: LiveView)
    ensures
        next_state(DaemonState::Ended, heard, event) == DaemonState::Ended,
        next_live(DaemonState::Ended, event, live) == live,
{
}

/// A stop request ends the loop: at once without a wheel, and by letting go of
/// the wheel with one.
pub proof fn law_stop_is_honoured(state: DaemonState, heard: u64, output_hz: u32, period: u64)
    requires
        pending(state, period) == DaemonAction::CheckStop,
    ensures
        ({
            let next = next_state(state, heard, DaemonEvent::StopFlag { stop: true, output_hz });
            let end = next_state(next, heard, DaemonEvent::Released);
            if holds_wheel(state) {
                pending(next, period) == DaemonAction::ReleaseWheel && end == DaemonState::Ended
            } else {
                next == DaemonState::Ended
            }
        }),
{
}

/// Silence is counted from the opening of the wheel and then from the last
/// frame that was noted; nothing else starts it anew.
pub proof fn law_silence_is_counted_from_the_last_frame(
    state: DaemonState,
    event: DaemonEvent,
    heard: u64,
)
    ensures
        match (state, event) {
            (DaemonState::Opening, DaemonEvent::Opened { now, .. }) => next_heard(
                state,
                event,
                heard,
            ) == now,
            (DaemonState::Recording, DaemonEvent::Recorded { now }) => next_heard(
                state,
                event,
                heard,
            ) == now,
            _ => next_heard(state, event, heard) == heard,
        },
{
}

/// Effects are taken back exactly when telemetry has been silent for more than
/// half a second.
pub proof fn law_silence_is_faded(heard: u64, now: u64, period: u64)
    ensures
        pending(next_state(DaemonState::Reading, heard, DaemonEvent::Silent { now }), period) == (
        if now - heard > 500_000_000 {
            DaemonAction::ApplySilence
        } else {
            DaemonAction::Sleep { micros: period }
        }),
{
}

/// A frame is on its way to the wheel.
pub open spec fn drives_frame(state: DaemonState) -> bool {
    state == DaemonState::Driving || state == DaemonState::Recovering || state
        == DaemonState::Reopening
}

/// A frame that was read is noted in the live state, whether writing it to the
/// wheel succeeded or not.
pub proof fn law_every_frame_is_recorded(state: DaemonState, heard: u64, event: DaemonEvent)
    requires
        drives_frame(state),
    ensures
        drives_frame(next_state(state, heard, event)) || next_state(state, heard, event)
            == DaemonState::Recording,
{
}

/// A missing wheel is looked for again, as long as nothing asks to stop.
pub proof fn law_missing_wheel_is_looked_for_again(why: String, heard: u64, output_hz: u32)
    ensures
        ({
            let waiting = next_state(DaemonState::Opening, heard, DaemonEvent::OpenFailed(why));
            let awake = next_state(waiting, heard, DaemonEvent::Slept);
            next_state(awake, heard, DaemonEvent::StopFlag { stop: false, output_hz })
                == DaemonState::Opening
        }),
{
}

/// The telemetry path is well determined.
pub proof fn law_telemetry_path_is_unique(
    paths: PathsView,
    home: Option<Seq<char>>,
    present: Seq<bool>,
    a: Result<Seq<char>, PathError>,
    b: Result<Seq<char>, PathError>,
)
    requires
        resolved(paths, home, present, a),
        resolved(paths, home, present, b),
    ensures
        a == b,
{
    if paths.telemetry_file is None && home is Some {
        let places = candidates(paths, home->0);
        if exists|i: int| 0 <= i < places.len() && first_present(present, i) {
            let i = choose|i: int|
                0 <= i < places.len() && #[trigger] first_present(present, i) && a == Ok::<
                    Seq<char>,
                    PathError,
                >(places[i]);
            let j = choose|i: int|
                0 <= i < places.len() && #[trigger] first_present(present, i) && b == Ok::<
                    Seq<char>,
                    PathError,
                >(places[i]);
            if i < j {
                assert(!present[i]);
            } else if j < i {
                assert(!present[j]);
            }
        }
    }
}

/// A tick is as long as the update rate asks for, rounded down to microseconds;
/// rates below 60 and above 500 count as these.
pub proof fn law_ticks_last_as_configured(output_hz: u32, micros: u64)
    requires
        call_ensures(tick_period_micros, (output_hz,), micros),
    ensures
        output_hz <= 60 ==> micros == 16_666,
        output_hz >= 500 ==> micros == 2_000,
        60 <= output_hz <= 500 ==> micros * output_hz <= 1_000_000 < (micros + 1) * output_hz,
{
    if output_hz <= 60 {
        assert(clamped_hz(output_hz) == 60);
        assert(micros * 60 <= 1_000_000 < (micros + 1) * 60);
    }
    if output_hz >= 500 {
        assert(clamped_hz(output_hz) == 500);
        assert(micros * 500 <= 1_000_000 < (micros + 1) * 500);
    }
}

/// The telemetry file is looked for below four Steam roots: the configured one
/// in place of the usual one, the two links, and the Flatpak one.
pub proof fn law_telemetry_is_below_steam(paths: PathsConfig, home: &str, out: Vec<String>)
    requires
        call_ensures(telemetry_candidates, (&paths, home), out),
    ensures
        out@.len() == 4,
        ({
            let below = |root: Seq<char>|
                joined(
                    joined(
                        joined(
                            joined(root, "steamapps/compatdata"@),
                            decimal(paths.fs25_steam_appid as nat),
                        ),
                        "pfx/drive_c/users/steamuser/Documents/My Games/FarmingSimulator2025"@,
                    ),
                    "modSettings/FS25_FFBEnhancer/telemetry.bin"@,
                );
            &&& paths.steam_root is Some ==> out@[0]@ == below(paths.steam_root->0@)
            &&& paths.steam_root is None ==> out@[0]@ == below(
                joined(home@, ".local/share/Steam"@),
            )
            &&& out@[1]@ == below(joined(home@, ".steam/steam"@))
            &&& out@[2]@ == below(joined(home@, ".steam/root"@))
            &&& out@[3]@ == below(
                joined(home@, ".var/app/com.valvesoftware.Steam/.local/share/Steam"@),
            )
        }),
{
    let t = texts(out@);
    assert(t.len() == out@.len());
    assert(t[0] == out@[0]@ && t[1] == out@[1]@ && t[2] == out@[2]@ && t[3] == out@[3]@);
}

/// A configured telemetry file is taken whatever else holds. Without one, no
/// home directory is an error; else the first candidate whose directory is
/// there is taken, and the first of all where none is.
pub proof fn law_telemetry_path_is_decided(
    cfg: Config,
    home: Option<&str>,
    base: &str,
    present: Vec<bool>,
    places: Vec<String>,
    out: Result<String, PathError>,
)
    requires
        call_ensures(resolve_telemetry_path, (&cfg, home, &present), out),
        home is Some ==> home->0@ == base@,
        call_ensures(telemetry_candidates, (&cfg.paths, base), places),
    ensures
        cfg.paths.telemetry_file matches Some(file) ==> out is Ok && out->Ok_0@ == file@,
        cfg.paths.telemetry_file is None && home is None ==> out is Err,
        cfg.paths.telemetry_file is None && home is Some ==> {
            &&& out is Ok
            &&& forall|i: int|
                0 <= i < 4 && i < present@.len() && #[trigger] present@[i] && (forall|j: int|
                    0 <= j < i ==> !#[trigger] present@[j]) ==> out->Ok_0@ == places@[i]@
            &&& (forall|i: int|
                0 <= i < 4 && i < present@.len() ==> !#[trigger] present@[i]) ==> out->Ok_0@
                == places@[0]@
        },
{
    let t = texts(places@);
    assert(t.len() == places@.len());
    assert(t.len() == 4);
    assert(t[0] == places@[0]@);
    if cfg.paths.telemetry_file is None && home is Some {
        let spots = candidates(cfg@.paths, base@);
        assert(spots == t);
        assert forall|i: int|
            0 <= i < 4 && i < present@.len() && #[trigger] present@[i] && (forall|j: int|
                0 <= j < i ==> !#[trigger] present@[j]) implies out->Ok_0@ == places@[i]@ by {
            assert(first_present(present@, i));
            let k = choose|k: int|
                0 <= k < spots.len() && #[trigger] first_present(present@, k) && path_outcome(out)
                    == Ok::<Seq<char>, PathError>(spots[k]);
            if k < i {
                assert(!present@[k]);
            } else if i < k {
                assert(!present@[i]);
            }
            assert(t[i] == places@[i]@);
        }
    }
}

/// An event is an answer to an action.
pub open spec fn answers(event: DaemonEvent, action: DaemonAction) -> bool {
    match event {
        DaemonEvent::StopFlag { .. } => action is CheckStop,
        DaemonEvent::Opened { .. } => action is OpenDevice,
        DaemonEvent::OpenFailed(_) => action is OpenDevice,
        DaemonEvent::Slept => action is Sleep,
        DaemonEvent::Frame => action is ReadTelemetry,
        DaemonEvent::Silent { .. } => action is ReadTelemetry,
        DaemonEvent::Applied => action is ApplyFrame || action is ApplySilence,
        DaemonEvent::ApplyFailed(_) => action is ApplyFrame || action is ApplySilence,
        DaemonEvent::Reopened { .. } => action is ReopenDevice,
        DaemonEvent::Recorded { .. } => action is RecordTick,
        DaemonEvent::Released => action is ReleaseWheel,
    }
}

/// Two live states show the same but for the device, the running daemon and
/// the last error.
pub open spec fn same_but_for_status(a: LiveView, b: LiveView) -> bool {
    &&& a.telemetry == b.telemetry
    &&& a.last_heartbeat == b.last_heartbeat
    &&& a.last_output == b.last_output
    &&& a.telemetry_path == b.telemetry_path
    &&& a.history == b.history
}

/// An event that does not answer the action asked for changes nothing, and the
/// same action is asked for again. One that does moves the loop on.
pub proof fn law_only_answers_move_the_loop(
    daemon: &mut DaemonLoop,
    live: &mut LiveState,
    event: DaemonEvent,
    asked: DaemonAction,
    next: DaemonAction,
)
    requires
        call_ensures(DaemonLoop::action, (&*old(daemon),), asked),
        call_ensures(DaemonLoop::step, (daemon, event, live), next),
    ensures
        !answers(event, asked) ==> {
            &&& final(daemon).state() == old(daemon).state()
            &&& final(daemon).period() == old(daemon).period()
            &&& final(daemon).heard() == old(daemon).heard()
            &&& final(live)@ == old(live)@
            &&& next == asked
        },
        answers(event, asked) ==> final(daemon).state() != old(daemon).state(),
        same_but_for_status(final(live)@, old(live)@),
{
}

/// What the loop asks for next is what it asks for when asked again, and each
/// state asks for its own action. It sleeps two seconds before it looks for a
/// missing wheel again, a fifth of a second after a failed write, and one period
/// between ticks.
pub proof fn law_each_state_asks_for_its_action(daemon: DaemonLoop, asked: DaemonAction)
    requires
        call_ensures(DaemonLoop::action, (&daemon,), asked),
    ensures
        daemon.state() is Starting || daemon.state() is TickStart <==> asked is CheckStop,
        daemon.state() is Opening <==> asked is OpenDevice,
        daemon.state() is Reading <==> asked is ReadTelemetry,
        daemon.state() is Driving <==> asked is ApplyFrame,
        daemon.state() is Reopening <==> asked is ReopenDevice,
        daemon.state() is Recording <==> asked is RecordTick,
        daemon.state() is Fading <==> asked is ApplySilence,
        daemon.state() is Releasing <==> asked is ReleaseWheel,
        daemon.state() is Ended <==> asked is Exit,
        daemon.state() is Waiting ==> asked == (DaemonAction::Sleep { micros: 2_000_000 }),
        daemon.state() is Recovering ==> asked == (DaemonAction::Sleep { micros: 200_000 }),
        daemon.state() is Resting ==> asked == (DaemonAction::Sleep { micros: daemon.period() }),
{
}

/// A fresh loop first asks whether to stop, and shows the path that it watches.
pub proof fn law_a_loop_starts_by_showing_its_path(
    path: String,
    live: &mut LiveState,
    daemon: DaemonLoop,
)
    requires
        call_ensures(DaemonLoop::start, (path, live), daemon),
    ensures
        daemon.state() is Starting,
        opt_text(final(live).telemetry_path) == Some(path@),
        final(live)@.device == old(live)@.device,
        final(live)@.daemon_running == old(live)@.daemon_running,
        final(live)@.last_error == old(live)@.last_error,
        final(live)@.telemetry == old(live)@.telemetry,
        final(live)@.last_heartbeat == old(live)@.last_heartbeat,
        final(live)@.last_output == old(live)@.last_output,
        final(live)@.history == old(live)@.history,
{
}

/// Without a wheel a stop request ends the loop, with one it lets go of the
/// wheel first. Otherwise the loop goes on: it opens the wheel, or reads
/// telemetry in ticks of the configured rate.
pub proof fn law_the_stop_flag_decides(
    daemon: &mut DaemonLoop,
    live: &mut LiveState,
    stop: bool,
    output_hz: u32,
    period: u64,
    next: DaemonAction,
)
    requires
        call_ensures(tick_period_micros, (output_hz,), period),
        call_ensures(
            DaemonLoop::step,
            (daemon, DaemonEvent::StopFlag { stop, output_hz }, live),
            next,
        ),
    ensures
        final(live)@ == old(live)@,
        final(daemon).heard() == old(daemon).heard(),
        old(daemon).state() is Starting ==> {
            &&& stop ==> next is Exit
            &&& !stop ==> next is OpenDevice
            &&& final(daemon).period() == old(daemon).period()
        },
        old(daemon).state() is TickStart ==> {
            &&& stop ==> next is ReleaseWheel && final(daemon).period() == old(daemon).period()
            &&& !stop ==> next is ReadTelemetry && final(daemon).period() == period
        },
{
}

/// A wheel that was opened is shown, with the daemon running and no error, and
/// ticks begin; silence counts from now on. One that was not is shown as an
/// error and looked for again after two seconds.
pub proof fn law_opening_is_shown(
    daemon: &mut DaemonLoop,
    live: &mut LiveState,
    event: DaemonEvent,
    next: DaemonAction,
)
    requires
        old(daemon).state() is Opening,
        call_ensures(DaemonLoop::step, (daemon, event, live), next),
    ensures
        event matches DaemonEvent::Opened { info, now } ==> {
            &&& next is CheckStop
            &&& final(daemon).state() is TickStart
            &&& final(daemon).heard() == now
            &&& final(live)@.device == Some(info@)
            &&& final(live)@.daemon_running
            &&& final(live)@.last_error is None
        },
        event matches DaemonEvent::OpenFailed(why) ==> {
            &&& next == (DaemonAction::Sleep { micros: 2_000_000 })
            &&& final(daemon).state() is Waiting
            &&& final(daemon).heard() == old(daemon).heard()
            &&& final(live)@.device == old(live)@.device
            &&& final(live)@.daemon_running == old(live)@.daemon_running
            &&& final(live)@.last_error == Some(why@)
        },
        final(daemon).period() == old(daemon).period(),
{
}

/// After a sleep the loop goes on where it was: it asks whether to stop before
/// it looks for the wheel and before each tick, and reopens a wheel that failed.
pub proof fn law_sleeping_leads_on(
    daemon: &mut DaemonLoop,
    live: &mut LiveState,
    next: DaemonAction,
)
    requires
        call_ensures(DaemonLoop::step, (daemon, DaemonEvent::Slept, live), next),
    ensures
        final(live)@ == old(live)@,
        final(daemon).heard() == old(daemon).heard(),
        final(daemon).period() == old(daemon).period(),
        old(daemon).state() is Waiting ==> next is CheckStop && final(daemon).state() is Starting,
        old(daemon).state() is Resting ==> next is CheckStop && final(daemon).state() is TickStart,
        old(daemon).state() is Recovering ==> next is ReopenDevice,
{
}

/// A new frame is written to the wheel. Without one, effects are taken back once
/// more than half a second has passed since silence counts, and otherwise the
/// loop rests for a period.
pub proof fn law_reading_leads_on(
    daemon: &mut DaemonLoop,
    live: &mut LiveState,
    event: DaemonEvent,
    next: DaemonAction,
)
    requires
        old(daemon).state() is Reading,
        call_ensures(DaemonLoop::step, (daemon, event, live), next),
    ensures
        final(live)@ == old(live)@,
        final(daemon).heard() == old(daemon).heard(),
        final(daemon).period() == old(daemon).period(),
        event is Frame ==> next is ApplyFrame,
        event matches DaemonEvent::Silent { now } ==> {
            &&& now - old(daemon).heard() > 500_000_000 ==> next is ApplySilence
            &&& now - old(daemon).heard() <= 500_000_000 ==> next == (DaemonAction::Sleep {
                micros: old(daemon).period(),
            })
        },
{
}

/// A frame that was written is noted. A failure to write it is shown, and after
/// a fifth of a second the wheel is opened anew, and whether that worked or not
/// the frame is noted; noting it starts silence anew and ends the tick.
pub proof fn law_writing_leads_on(
    daemon: &mut DaemonLoop,
    live: &mut LiveState,
    event: DaemonEvent,
    next: DaemonAction,
)
    requires
        call_ensures(DaemonLoop::step, (daemon, event, live), next),
    ensures
        old(daemon).state() is Driving && event is Applied ==> next is RecordTick && final(live)@
            == old(live)@ && final(daemon).heard() == old(daemon).heard(),
        old(daemon).state() is Driving ==> (event matches DaemonEvent::ApplyFailed(why) ==> {
            &&& next == (DaemonAction::Sleep { micros: 200_000 })
            &&& final(live)@.last_error == Some(why@)
            &&& final(live)@.device == old(live)@.device
            &&& final(live)@.daemon_running == old(live)@.daemon_running
            &&& final(daemon).heard() == old(daemon).heard()
        }),
        old(daemon).state() is Reopening && event is Reopened ==> next is RecordTick && final(live)@
            == old(live)@ && final(daemon).heard() == old(daemon).heard(),
        old(daemon).state() is Recording ==> (event matches DaemonEvent::Recorded { now } ==> {
            &&& next == (DaemonAction::Sleep { micros: old(daemon).period() })
            &&& final(daemon).heard() == now
            &&& final(live)@ == old(live)@
        }),
        old(daemon).state() is Fading && (event is Applied || event is ApplyFailed) ==> next == (
        DaemonAction::Sleep { micros: old(daemon).period() }) && final(live)@ == old(live)@
            && final(daemon).heard() == old(daemon).heard(),
        old(daemon).state() is Releasing && event is Released ==> {
            &&& next is Exit
            &&& !final(live)@.daemon_running
            &&& final(live)@.device == old(live)@.device
            &&& final(live)@.last_error == old(live)@.last_error
        },
{
}

/// A failure of the daemon is shown, and that it runs no more; nothing else
/// changes.
pub proof fn law_failures_are_shown(live: &mut LiveState, why: String)
    requires
        call_ensures(note_failure, (live, why), ()),
    ensures
        final(live)@.last_error == Some(why@),
        !final(live)@.daemon_running,
        final(live)@.device == old(live)@.device,
        same_but_for_status(final(live)@, old(live)@),
{
}

} // verus!
