//! The live state that the daemon writes and the user interface reads.

use crate::effects::EffectOutput;
use crate::ring::{law_ring_keeps_the_newest, newest, push_ring, ring_extended, ring_pushed};
use crate::telemetry::Telemetry;
use crate::text::opt_text;
use vstd::prelude::*;
use vstd::string::*;

verus! {

// ---------------------------------------------------------------------------
// Device description
// ---------------------------------------------------------------------------

/// What is known of an opened wheel.
#[derive(Debug)]
pub struct DeviceInfo {
    pub name: String,
    pub path: String,
    pub vendor_id: u16,
    pub product_id: u16,
    pub supports_constant: bool,
    pub supports_spring: bool,
    pub supports_damper: bool,
    pub supports_periodic: bool,
    pub supports_rumble: bool,
    pub ff_effects_max: usize,
}

/// A [`DeviceInfo`] by the characters of its texts.
pub struct DeviceInfoView {
    pub name: Seq<char>,
    pub path: Seq<char>,
    pub vendor_id: u16,
    pub product_id: u16,
    pub supports_constant: bool,
    pub supports_spring: bool,
    pub supports_damper: bool,
    pub supports_periodic: bool,
    pub supports_rumble: bool,
    pub ff_effects_max: usize,
}

impl View for DeviceInfo {
    type V = DeviceInfoView;

    open spec fn view(&self) -> DeviceInfoView {
        DeviceInfoView {
            name: self.name@,
            path: self.path@,
            vendor_id: self.vendor_id,
            product_id: self.product_id,
            supports_constant: self.supports_constant,
            supports_spring: self.supports_spring,
            supports_damper: self.supports_damper,
            supports_periodic: self.supports_periodic,
            supports_rumble: self.supports_rumble,
            ff_effects_max: self.ff_effects_max,
        }
    }
}

impl Clone for DeviceInfo {
    fn clone(&self) -> (copy: Self)
        ensures
            copy@ == self@,
    {
        DeviceInfo {
            name: self.name.clone(),
            path: self.path.clone(),
            vendor_id: self.vendor_id,
            product_id: self.product_id,
            supports_constant: self.supports_constant,
            supports_spring: self.supports_spring,
            supports_damper: self.supports_damper,
            supports_periodic: self.supports_periodic,
            supports_rumble: self.supports_rumble,
            ff_effects_max: self.ff_effects_max,
        }
    }
}

impl Default for DeviceInfo {
    fn default() -> (info: Self)
        ensures
            info@ == (DeviceInfoView {
                name: Seq::empty(),
                path: Seq::empty(),
                vendor_id: 0,
                product_id: 0,
                supports_constant: false,
                supports_spring: false,
                supports_damper: false,
                supports_periodic: false,
                supports_rumble: false,
                ff_effects_max: 0,
            }),
    {
        DeviceInfo {
            name: String::new(),
            path: String::new(),
            vendor_id: 0,
            product_id: 0,
            supports_constant: false,
            supports_spring: false,
            supports_damper: false,
            supports_periodic: false,
            supports_rumble: false,
            ff_effects_max: 0,
        }
    }
}

/// A device that may be absent, by its view.
pub open spec fn opt_info(info: Option<DeviceInfo>) -> Option<DeviceInfoView> {
    match info {
        Some(d) => Some(d@),
        None => None,
    }
}

// ---------------------------------------------------------------------------
// Heartbeat
// ---------------------------------------------------------------------------

/// Counts the frames that were turned into effects.
#[derive(Debug, Clone, Copy, PartialEq, Eq, Structural)]
pub struct Heartbeat {
    /// Wraps around to 0 behind the largest number.
    pub sequence: u32,
    /// When the last frame was handled, in nanoseconds of the daemon's clock.
    pub updated: u64,
}

impl Heartbeat {
    /// A heartbeat that has not counted yet.
    pub fn new(now: u64) -> (beat: Self)
        ensures
            beat == (Heartbeat { sequence: 0, updated: now }),
    {
        Heartbeat { sequence: 0, updated: now }
    }
}

// ---------------------------------------------------------------------------
// Plot history
// ---------------------------------------------------------------------------

/// Samples that the plots show: ten seconds at 60 Hz.
pub const HISTORY_CAP: usize = 600;

/// Fixed-size buffers for the plots. Samples are bit patterns of
/// single-precision numbers.
#[derive(Debug)]
pub struct History {
    cap: usize,
    pub steering: Vec<u32>,
    pub output_constant: Vec<u32>,
    pub output_spring: Vec<u32>,
    pub latency_ms: Vec<u32>,
}

/// A [`History`] by its samples.
pub struct HistoryView {
    pub cap: nat,
    pub steering: Seq<u32>,
    pub output_constant: Seq<u32>,
    pub output_spring: Seq<u32>,
    pub latency_ms: Seq<u32>,
}

impl HistoryView {
    /// There is room for samples, no buffer holds more than fit, and all hold
    /// equally many.
    pub open spec fn wf(self) -> bool {
        &&& self.cap > 0
        &&& self.steering.len() <= self.cap
        &&& self.output_constant.len() == self.steering.len()
        &&& self.output_spring.len() == self.steering.len()
        &&& self.latency_ms.len() == self.steering.len()
    }

    /// The history after one more sample of each kind.
    pub open spec fn pushed(self, steering: u32, constant: u32, spring: u32, latency: u32) -> HistoryView {
        HistoryView {
            cap: self.cap,
            steering: ring_pushed(self.steering, steering, self.cap),
            output_constant: ring_pushed(self.output_constant, constant, self.cap),
            output_spring: ring_pushed(self.output_spring, spring, self.cap),
            latency_ms: ring_pushed(self.latency_ms, latency, self.cap),
        }
    }

    /// No samples yet, and room for [`HISTORY_CAP`] of each kind.
    pub open spec fn empty() -> HistoryView {
        HistoryView {
            cap: HISTORY_CAP as nat,
            steering: Seq::empty(),
            output_constant: Seq::empty(),
            output_spring: Seq::empty(),
            latency_ms: Seq::empty(),
        }
    }
}

impl View for History {
    type V = HistoryView;

    closed spec fn view(&self) -> HistoryView {
        HistoryView {
            cap: self.cap as nat,
            steering: self.steering@,
            output_constant: self.output_constant@,
            output_spring: self.output_spring@,
            latency_ms: self.latency_ms@,
        }
    }
}

impl Default for History {
    fn default() -> (history: Self)
        ensures
            history@ == HistoryView::empty(),
            history@.wf(),
    {
        History {
            cap: HISTORY_CAP,
            steering: Vec::with_capacity(HISTORY_CAP),
            output_constant: Vec::with_capacity(HISTORY_CAP),
            output_spring: Vec::with_capacity(HISTORY_CAP),
            latency_ms: Vec::with_capacity(HISTORY_CAP),
        }
    }
}

impl History {
    /// Adds one sample of each kind.
    pub fn push(&mut self, steering: u32, constant: u32, spring: u32, latency_ms: u32)
        requires
            old(self)@.cap > 0,
        ensures
            final(self)@ == old(self)@.pushed(steering, constant, spring, latency_ms),
            old(self)@.wf() ==> final(self)@.wf(),
    {
        push_ring(&mut self.steering, steering, self.cap);
        push_ring(&mut self.output_constant, constant, self.cap);
        push_ring(&mut self.output_spring, spring, self.cap);
        push_ring(&mut self.latency_ms, latency_ms, self.cap);
    }
}

// ---------------------------------------------------------------------------
// Live state
// ---------------------------------------------------------------------------

/// Everything that the user interface looks at each frame.
#[derive(Debug)]
pub struct LiveState {
    pub device: Option<DeviceInfo>,
    pub telemetry: Option<Telemetry>,
    pub last_heartbeat: Heartbeat,
    pub last_output: EffectOutput,
    pub telemetry_path: Option<String>,
    pub daemon_running: bool,
    pub last_error: Option<String>,
    pub history: History,
}

/// A [`LiveState`] by the characters of its texts.
pub struct LiveView {
    pub device: Option<DeviceInfoView>,
    pub telemetry: Option<Telemetry>,
    pub last_heartbeat: Heartbeat,
    pub last_output: EffectOutput,
    pub telemetry_path: Option<Seq<char>>,
    pub daemon_running: bool,
    pub last_error: Option<Seq<char>>,
    pub history: HistoryView,
}

impl LiveView {
    /// Before the daemon has done anything.
    pub open spec fn start(now: u64) -> LiveView {
        LiveView {
            device: None,
            telemetry: None,
            last_heartbeat: Heartbeat { sequence: 0, updated: now },
            last_output: EffectOutput::none(),
            telemetry_path: None,
            daemon_running: false,
            last_error: None,
            history: HistoryView::empty(),
        }
    }

    /// After a frame was turned into effects.
    pub open spec fn ticked(
        self,
        frame: Telemetry,
        out: EffectOutput,
        latency_ms: u32,
        now: u64,
    ) -> LiveView {
        LiveView {
            telemetry: Some(frame),
            last_heartbeat: Heartbeat {
                sequence: if self.last_heartbeat.sequence == u32::MAX {
                    0
                } else {
                    (self.last_heartbeat.sequence + 1) as u32
                },
                updated: now,
            },
            last_output: out,
            history: self.history.pushed(
                frame.steering_angle,
                out.constant,
                out.spring_strength,
                latency_ms,
            ),
            ..self
        }
    }
}

impl View for LiveState {
    type V = LiveView;

    open spec fn view(&self) -> LiveView {
        LiveView {
            device: opt_info(self.device),
            telemetry: self.telemetry,
            last_heartbeat: self.last_heartbeat,
            last_output: self.last_output,
            telemetry_path: opt_text(self.telemetry_path),
            daemon_running: self.daemon_running,
            last_error: opt_text(self.last_error),
            history: self.history@,
        }
    }
}

impl LiveState {
    /// The state before the daemon has done anything.
    pub fn new(now: u64) -> (live: Self)
        ensures
            live@ == LiveView::start(now),
            live@.history.wf(),
    {
        LiveState {
            device: None,
            telemetry: None,
            last_heartbeat: Heartbeat::new(now),
            last_output: EffectOutput::default(),
            telemetry_path: None,
            daemon_running: false,
            last_error: None,
            history: History::default(),
        }
    }

    /// Notes a frame that was turned into effects.
    pub fn record_tick(&mut self, frame: Telemetry, out: EffectOutput, latency_ms: u32, now: u64)
        requires
            old(self)@.history.cap > 0,
        ensures
            final(self)@ == old(self)@.ticked(frame, out, latency_ms, now),
            old(self)@.history.wf() ==> final(self)@.history.wf(),
    {
        self.history.push(frame.steering_angle, out.constant, out.spring_strength, latency_ms);
        self.telemetry = Some(frame);
        self.last_output = out;
        self.last_heartbeat = Heartbeat {
            sequence: self.last_heartbeat.sequence.wrapping_add(1),
            updated: now,
        };
    }
}

// ---------------------------------------------------------------------------
// Laws
// ---------------------------------------------------------------------------

/// The samples of one tick: steering, constant force, spring, latency.
pub type Sample = (u32, u32, u32, u32);

/// A history after several samples, pushed one by one.
pub open spec fn history_after(h: HistoryView, samples: Seq<Sample>) -> HistoryView
    decreases samples.len(),
{
    if samples.len() == 0 {
        h
    } else {
        let s = samples.last();
        history_after(h, samples.drop_last()).pushed(s.0, s.1, s.2, s.3)
    }
}

/// However long the daemon runs, each plot shows the newest
/// [`HISTORY_CAP`] samples of its kind, in order.
pub proof fn law_history_shows_the_newest_samples(samples: Seq<Sample>)
    ensures
        history_after(HistoryView::empty(), samples).wf(),
        history_after(HistoryView::empty(), samples) == (HistoryView {
            cap: HISTORY_CAP as nat,
            steering: newest(samples.map_values(|s: Sample| s.0), HISTORY_CAP as nat),
            output_constant: newest(samples.map_values(|s: Sample| s.1), HISTORY_CAP as nat),
            output_spring: newest(samples.map_values(|s: Sample| s.2), HISTORY_CAP as nat),
            latency_ms: newest(samples.map_values(|s: Sample| s.3), HISTORY_CAP as nat),
        }),
{
    let cap = HISTORY_CAP as nat;
    lemma_history_is_four_rings(samples);
    let none = Seq::<u32>::empty();
    let a = samples.map_values(|s: Sample| s.0);
    let b = samples.map_values(|s: Sample| s.1);
    let c = samples.map_values(|s: Sample| s.2);
    let d = samples.map_values(|s: Sample| s.3);
    law_ring_keeps_the_newest(none, a, cap);
    law_ring_keeps_the_newest(none, b, cap);
    law_ring_keeps_the_newest(none, c, cap);
    law_ring_keeps_the_newest(none, d, cap);
    assert(none + a =~= a);
    assert(none + b =~= b);
    assert(none + c =~= c);
    assert(none + d =~= d);
}

proof fn lemma_history_is_four_rings(samples: Seq<Sample>)
    ensures
        history_after(HistoryView::empty(), samples) == (HistoryView {
            cap: HISTORY_CAP as nat,
            steering: ring_extended(
                Seq::empty(),
                samples.map_values(|s: Sample| s.0),
                HISTORY_CAP as nat,
            ),
            output_constant: ring_extended(
                Seq::empty(),
                samples.map_values(|s: Sample| s.1),
                HISTORY_CAP as nat,
            ),
            output_spring: ring_extended(
                Seq::empty(),
                samples.map_values(|s: Sample| s.2),
                HISTORY_CAP as nat,
            ),
            latency_ms: ring_extended(
                Seq::empty(),
                samples.map_values(|s: Sample| s.3),
                HISTORY_CAP as nat,
            ),
        }),
    decreases samples.len(),
{
    if samples.len() > 0 {
        let front = samples.drop_last();
        lemma_history_is_four_rings(front);
        assert(samples.map_values(|s: Sample| s.0).drop_last() =~= front.map_values(
            |s: Sample| s.0,
        ));
        assert(samples.map_values(|s: Sample| s.1).drop_last() =~= front.map_values(
            |s: Sample| s.1,
        ));
        assert(samples.map_values(|s: Sample| s.2).drop_last() =~= front.map_values(
            |s: Sample| s.2,
        ));
        assert(samples.map_values(|s: Sample| s.3).drop_last() =~= front.map_values(
            |s: Sample| s.3,
        ));
    }
}

/// Samples after one more: it is the last, and all before it are kept, but for
/// the oldest where there was no room.
pub open spec fn sampled(before: Seq<u32>, after: Seq<u32>, x: u32, cap: nat) -> bool {
    let dropped: int = if before.len() < cap {
        0
    } else {
        1
    };
    &&& after.len() == before.len() + 1 - dropped
    &&& after.last() == x
    &&& forall|i: int| 0 <= i < after.len() - 1 ==> #[trigger] after[i] == before[i + dropped]
}

/// Each kind of sample goes to its own plot.
pub proof fn law_samples_go_to_their_plots(
    h: &mut History,
    steering: u32,
    constant: u32,
    spring: u32,
    latency: u32,
)
    requires
        call_ensures(History::push, (h, steering, constant, spring, latency), ()),
        old(h)@.cap > 0,
    ensures
        final(h)@.cap == old(h)@.cap,
        sampled(old(h)@.steering, final(h)@.steering, steering, old(h)@.cap),
        sampled(old(h)@.output_constant, final(h)@.output_constant, constant, old(h)@.cap),
        sampled(old(h)@.output_spring, final(h)@.output_spring, spring, old(h)@.cap),
        sampled(old(h)@.latency_ms, final(h)@.latency_ms, latency, old(h)@.cap),
{
}

/// A frame that was turned into effects is shown with them, counts one beat
/// (the number wraps around), and adds its steering angle, constant force,
/// spring and latency to the plots. What is known of the wheel, the path and the
/// daemon stays.
pub proof fn law_a_tick_is_shown(
    live: &mut LiveState,
    frame: Telemetry,
    out: EffectOutput,
    latency: u32,
    now: u64,
)
    requires
        call_ensures(LiveState::record_tick, (live, frame, out, latency, now), ()),
        old(live)@.history.cap > 0,
    ensures
        final(live)@.telemetry == Some(frame),
        final(live)@.last_output == out,
        final(live)@.last_heartbeat.updated == now,
        (final(live)@.last_heartbeat.sequence - old(live)@.last_heartbeat.sequence - 1)
            % 4_294_967_296 == 0,
        ({
            let before = old(live)@.history;
            let after = final(live)@.history;
            &&& after.cap == before.cap
            &&& sampled(before.steering, after.steering, frame.steering_angle, before.cap)
            &&& sampled(before.output_constant, after.output_constant, out.constant, before.cap)
            &&& sampled(before.output_spring, after.output_spring, out.spring_strength, before.cap)
            &&& sampled(before.latency_ms, after.latency_ms, latency, before.cap)
        }),
        final(live)@.device == old(live)@.device,
        final(live)@.telemetry_path == old(live)@.telemetry_path,
        final(live)@.daemon_running == old(live)@.daemon_running,
        final(live)@.last_error == old(live)@.last_error,
{
}

/// At first nothing is known, nothing runs, no force is written, and the plots
/// are empty with room for 600 samples.
pub proof fn law_nothing_is_known_at_first(now: u64, live: LiveState)
    requires
        call_ensures(LiveState::new, (now,), live),
    ensures
        live@.device is None && live@.telemetry is None && live@.telemetry_path is None,
        live@.last_error is None && !live@.daemon_running,
        live@.last_heartbeat.sequence == 0 && live@.last_heartbeat.updated == now,
        live@.last_output.constant == 0 && live@.last_output.spring_strength == 0,
        live@.last_output.damper == 0 && live@.last_output.rumble_magnitude == 0,
        live@.history.cap == 600,
        live@.history.steering.len() == 0 && live@.history.output_constant.len() == 0,
        live@.history.output_spring.len() == 0 && live@.history.latency_ms.len() == 0,
{
}

/// A device of which nothing is known supports nothing.
pub proof fn law_unknown_devices_support_nothing(info: DeviceInfo, now: u64, beat: Heartbeat)
    requires
        call_ensures(<DeviceInfo as Default>::default, (), info),
        call_ensures(Heartbeat::new, (now,), beat),
    ensures
        !info.supports_constant && !info.supports_spring && !info.supports_damper,
        !info.supports_periodic && !info.supports_rumble,
        info.name@.len() == 0 && info.path@.len() == 0,
        info.vendor_id == 0 && info.product_id == 0 && info.ff_effects_max == 0,
        beat.sequence == 0 && beat.updated == now,
{
    assert(info@.supports_constant == info.supports_constant);
}

/// Each buffer of a history holds the samples of its own name.
proof fn law_buffers_hold_their_samples(h: History)
    ensures
        h@.steering == h.steering@,
        h@.output_constant == h.output_constant@,
        h@.output_spring == h.output_spring@,
        h@.latency_ms == h.latency_ms@,
{
}

/// A live state shows what its fields hold.
pub proof fn law_live_states_show_their_fields(live: LiveState)
    ensures
        live@.device is Some <==> live.device is Some,
        live.device is Some ==> live@.device == Some(live.device->0@),
        live@.telemetry == live.telemetry,
        live@.last_heartbeat == live.last_heartbeat,
        live@.last_output == live.last_output,
        live@.telemetry_path == opt_text(live.telemetry_path),
        live@.daemon_running == live.daemon_running,
        live@.last_error == opt_text(live.last_error),
        live@.history == live.history@,
{
}

} // verus!
