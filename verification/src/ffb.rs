//! The force-feedback driver: which effects a wheel is given, when a slot is
//! written again, and what is started or stopped.
//!
//! The kernel keeps effects in numbered slots. An upload with id -1 asks for a
//! new slot; an upload with a slot's id changes its parameters. Play and stop
//! requests, gain and auto-centering are input events. This module decides on
//! the uploads and events; carrying them out, and learning which of them
//! succeeded, is the caller's part.
//!
//! Five slots are taken up front and used again and again:
//!
//! * constant: lateral force pull
//! * kick: short collision one-shot, a constant force too
//! * spring: centering torque
//! * damper: steering-rate damping
//! * rumble: surface texture, a sine wave or, without periodic effects, the
//!   rumble motors
//!
//! On devices without springs a spring is made from the constant force and the
//! steering position; on devices without dampers a damper is made from the
//! constant force and the steering motion. That keeps wheels alike.

use crate::device::{
    describe, ff_support, law_descriptions_say_what_is_advertised, Candidate, FfSupport,
};
use crate::shared::{DeviceInfo, DeviceInfoView};
use vstd::prelude::*;
use vstd::string::*;

verus! {

// ---------------------------------------------------------------------------
// Numbers of the kernel interface
// ---------------------------------------------------------------------------

/// Event type of force-feedback events.
pub const EV_FF: u16 = 0x15;

/// Effect types.
pub const FF_RUMBLE: u16 = 0x50;

pub const FF_PERIODIC: u16 = 0x51;

pub const FF_CONSTANT: u16 = 0x52;

pub const FF_SPRING: u16 = 0x53;

pub const FF_DAMPER: u16 = 0x55;

/// The sine waveform.
pub const FF_SINE: u16 = 0x5a;

/// Event code of the device-wide gain.
pub const FF_GAIN: u16 = 0x60;

/// Event code of the auto-centering strength.
pub const FF_AUTOCENTER: u16 = 0x61;

/// 90 degrees: magnitude in +X.
pub const DIRECTION: u16 = 0x4000;

/// The id that asks the kernel for a new slot.
pub const NEW_SLOT: i16 = -1;

/// Full gain, and the length of a constant force that is refreshed in time.
pub const FULL: u16 = 0xFFFF;

/// Length of the collision one-shot in milliseconds.
pub const KICK_MS: u16 = 300;

/// Period that the rumble slot starts out with.
pub const FIRST_PERIOD_MS: u16 = 50;

/// A constant force is written again when it moves by more than this.
pub const CONSTANT_STEP: i32 = 150;

/// Springs, dampers and rumble are written again when they move by more than
/// this.
pub const STRENGTH_STEP: u16 = 256;

/// Rumble is written again when its period moves by more than this.
pub const PERIOD_STEP: u16 = 5;

/// What a damper of full strength sets against a unit of steering motion,
/// where it is made from the constant force.
pub const DRAG: i16 = 16;

/// The number that 16 bits mean as a signed number.
pub open spec fn as_signed(n: u16) -> int {
    if n < 0x8000 {
        n as int
    } else {
        n - 0x1_0000
    }
}

/// The number that 16 bits mean as an unsigned number.
pub open spec fn as_unsigned(n: i16) -> int {
    if n >= 0 {
        n as int
    } else {
        n + 0x1_0000
    }
}

fn signed(n: u16) -> (out: i16)
    ensures
        out == as_signed(n),
{
    assert((n < 0x8000 ==> (n as i16) == n) && (n >= 0x8000 ==> (n as i16) == n - 0x1_0000))
        by (bit_vector);
    n as i16
}

fn unsigned(n: i16) -> (out: u16)
    ensures
        out == as_unsigned(n),
{
    assert((n >= 0 ==> (n as u16) == n) && (n < 0 ==> (n as u16) == n + 0x1_0000)) by (bit_vector);
    n as u16
}

// ---------------------------------------------------------------------------
// Effects
// ---------------------------------------------------------------------------

/// Parameters of a spring or damper, the same for both axes.
#[derive(Debug, Clone, Copy, PartialEq, Eq, Structural)]
pub struct Condition {
    pub right_saturation: u16,
    pub left_saturation: u16,
    pub right_coeff: i16,
    pub left_coeff: i16,
    pub deadband: u16,
    pub center: i16,
}

/// The parameters that belong to one type of effect. Envelopes are all zero.
#[derive(Debug, Clone, Copy, PartialEq, Eq, Structural)]
pub enum EffectParams {
    Constant { level: i16 },
    Condition(Condition),
    Periodic { waveform: u16, period: u16, magnitude: i16, offset: i16, phase: u16 },
    Rumble { strong: u16, weak: u16 },
}

/// An effect as the kernel takes it. Triggers are all zero.
#[derive(Debug, Clone, Copy, PartialEq, Eq, Structural)]
pub struct Effect {
    pub type_: u16,
    pub id: i16,
    pub direction: u16,
    /// Length in milliseconds; 0 plays until it is stopped.
    pub length: u16,
    pub delay: u16,
    pub params: EffectParams,
}

impl Effect {
    /// An effect for a given slot.
    pub open spec fn of(type_: u16, id: i16, length: u16, params: EffectParams) -> Effect {
        Effect { type_, id, direction: DIRECTION, length, delay: 0, params }
    }
}

/// An effect that asks for a new slot.
pub fn new_effect(type_: u16, duration_ms: u16, params: EffectParams) -> (eff: Effect)
    ensures
        eff == Effect::of(type_, NEW_SLOT, duration_ms, params),
{
    Effect {
        type_,
        id: NEW_SLOT,
        direction: DIRECTION,
        length: duration_ms,
        delay: 0,
        params,
    }
}

/// A new constant force.
pub fn upload_constant(level: i16, duration_ms: u16) -> (eff: Effect)
    ensures
        eff == Effect::of(FF_CONSTANT, NEW_SLOT, duration_ms, EffectParams::Constant { level }),
{
    new_effect(FF_CONSTANT, duration_ms, EffectParams::Constant { level })
}

/// New parameters for the constant force in slot `id`.
pub fn update_constant(id: i16, level: i16, duration_ms: u16) -> (eff: Effect)
    ensures
        eff == Effect::of(FF_CONSTANT, id, duration_ms, EffectParams::Constant { level }),
{
    let mut eff: Effect = new_effect(FF_CONSTANT, duration_ms, EffectParams::Constant { level });
    eff.id = id;
    eff
}

/// Parameters of a condition that saturates at `strength`.
pub open spec fn condition(strength: u16, coeff: i16, center: i16) -> EffectParams {
    EffectParams::Condition(
        Condition {
            right_saturation: strength,
            left_saturation: strength,
            right_coeff: coeff,
            left_coeff: coeff,
            deadband: 0,
            center,
        },
    )
}

fn condition_params(strength: u16, coeff: i16, center: i16) -> (params: EffectParams)
    ensures
        params == condition(strength, coeff, center),
{
    EffectParams::Condition(
        Condition {
            right_saturation: strength,
            left_saturation: strength,
            right_coeff: coeff,
            left_coeff: coeff,
            deadband: 0,
            center,
        },
    )
}

/// The coefficient of a spring or damper: its strength, capped at the largest
/// signed number.
pub open spec fn condition_coeff(strength: u16) -> i16 {
    if strength <= 0x7FFF {
        strength as i16
    } else {
        0x7FFF
    }
}

fn coeff_of(strength: u16) -> (coeff: i16)
    ensures
        coeff == condition_coeff(strength),
{
    if strength <= 0x7FFF {
        strength as i16
    } else {
        0x7FFF
    }
}

/// A new spring.
pub fn upload_spring(strength: u16, center: i16) -> (eff: Effect)
    ensures
        eff == Effect::of(
            FF_SPRING,
            NEW_SLOT,
            0,
            condition(strength, condition_coeff(strength), center),
        ),
{
    new_effect(FF_SPRING, 0, condition_params(strength, coeff_of(strength), center))
}

/// New parameters for the spring in slot `id`.
pub fn update_spring(id: i16, strength: u16, center: i16) -> (eff: Effect)
    ensures
        eff == Effect::of(FF_SPRING, id, 0, condition(strength, condition_coeff(strength), center)),
{
    let mut eff: Effect = new_effect(
        FF_SPRING,
        0,
        condition_params(strength, coeff_of(strength), center),
    );
    eff.id = id;
    eff
}

/// A new damper.
pub fn upload_damper(strength: u16) -> (eff: Effect)
    ensures
        eff == Effect::of(
            FF_DAMPER,
            NEW_SLOT,
            0,
            condition(strength, condition_coeff(strength), 0),
        ),
{
    new_effect(FF_DAMPER, 0, condition_params(strength, coeff_of(strength), 0))
}

/// New parameters for the damper in slot `id`.
pub fn update_damper(id: i16, strength: u16) -> (eff: Effect)
    ensures
        eff == Effect::of(FF_DAMPER, id, 0, condition(strength, condition_coeff(strength), 0)),
{
    let mut eff: Effect = new_effect(
        FF_DAMPER,
        0,
        condition_params(strength, coeff_of(strength), 0),
    );
    eff.id = id;
    eff
}

/// Parameters of a sine wave. The magnitude keeps its 16 bits.
pub open spec fn sine(magnitude: u16, period_ms: u16) -> EffectParams {
    EffectParams::Periodic {
        waveform: FF_SINE,
        period: period_ms,
        magnitude: as_signed(magnitude) as i16,
        offset: 0,
        phase: 0,
    }
}

fn sine_params(magnitude: u16, period_ms: u16) -> (params: EffectParams)
    ensures
        params == sine(magnitude, period_ms),
{
    EffectParams::Periodic {
        waveform: FF_SINE,
        period: period_ms,
        magnitude: signed(magnitude),
        offset: 0,
        phase: 0,
    }
}

/// A new sine wave.
pub fn upload_periodic(magnitude: u16, period_ms: u16) -> (eff: Effect)
    ensures
        eff == Effect::of(FF_PERIODIC, NEW_SLOT, 0, sine(magnitude, period_ms)),
{
    new_effect(FF_PERIODIC, 0, sine_params(magnitude, period_ms))
}

/// New parameters for the sine wave in slot `id`.
pub fn update_periodic(id: i16, magnitude: u16, period_ms: u16) -> (eff: Effect)
    ensures
        eff == Effect::of(FF_PERIODIC, id, 0, sine(magnitude, period_ms)),
{
    let mut eff: Effect = new_effect(FF_PERIODIC, 0, sine_params(magnitude, period_ms));
    eff.id = id;
    eff
}

/// A new motor rumble; the weak motor runs at half the strength.
pub fn upload_rumble(strong: u16) -> (eff: Effect)
    ensures
        eff == Effect::of(
            FF_RUMBLE,
            NEW_SLOT,
            0,
            EffectParams::Rumble { strong, weak: strong / 2 },
        ),
{
    new_effect(FF_RUMBLE, 0, EffectParams::Rumble { strong, weak: strong / 2 })
}

/// New parameters for the motor rumble in slot `id`.
pub fn update_rumble(id: i16, strong: u16) -> (eff: Effect)
    ensures
        eff == Effect::of(FF_RUMBLE, id, 0, EffectParams::Rumble { strong, weak: strong / 2 }),
{
    let mut eff: Effect = new_effect(
        FF_RUMBLE,
        0,
        EffectParams::Rumble { strong, weak: strong / 2 },
    );
    eff.id = id;
    eff
}

// ---------------------------------------------------------------------------
// Events
// ---------------------------------------------------------------------------

/// An input event, to be written with a zero time stamp.
#[derive(Debug, Clone, Copy, PartialEq, Eq, Structural)]
pub struct FfEvent {
    pub type_: u16,
    pub code: u16,
    pub value: i32,
}

/// The event that plays (`on`) or stops the effect in slot `id`.
pub open spec fn play(id: i16, on: bool) -> FfEvent {
    FfEvent {
        type_: EV_FF,
        code: as_unsigned(id) as u16,
        value: if on {
            1
        } else {
            0
        },
    }
}

/// Plays the effect in slot `id`.
pub fn start(id: i16) -> (ev: FfEvent)
    ensures
        ev == play(id, true),
{
    FfEvent { type_: EV_FF, code: unsigned(id), value: 1 }
}

/// Stops the effect in slot `id`.
pub fn stop(id: i16) -> (ev: FfEvent)
    ensures
        ev == play(id, false),
{
    FfEvent { type_: EV_FF, code: unsigned(id), value: 0 }
}

/// Sets the gain of the whole device.
pub fn set_gain(gain: u16) -> (ev: FfEvent)
    ensures
        ev == (FfEvent { type_: EV_FF, code: FF_GAIN, value: gain as i32 }),
{
    FfEvent { type_: EV_FF, code: FF_GAIN, value: gain as i32 }
}

/// Sets the auto-centering strength.
pub fn set_autocenter(strength: u16) -> (ev: FfEvent)
    ensures
        ev == (FfEvent { type_: EV_FF, code: FF_AUTOCENTER, value: strength as i32 }),
{
    FfEvent { type_: EV_FF, code: FF_AUTOCENTER, value: strength as i32 }
}

// ---------------------------------------------------------------------------
// The device
// ---------------------------------------------------------------------------

/// The slots that a device can take.
#[derive(Debug, Clone, Copy, PartialEq, Eq, Structural)]
pub enum Slot {
    Constant,
    Kick,
    Spring,
    Damper,
    Rumble,
}

/// The ids that the kernel gave to the slots.
#[derive(Debug, Clone, Copy, PartialEq, Eq, Structural)]
pub struct Slots {
    pub constant: Option<i16>,
    pub kick: Option<i16>,
    pub spring: Option<i16>,
    pub damper: Option<i16>,
    pub rumble: Option<i16>,
}

impl Slots {
    /// No slot taken yet.
    pub open spec fn none() -> Slots {
        Slots { constant: None, kick: None, spring: None, damper: None, rumble: None }
    }

    /// With one slot's id filled in.
    pub open spec fn with(self, slot: Slot, id: i16) -> Slots {
        match slot {
            Slot::Constant => Slots { constant: Some(id), ..self },
            Slot::Kick => Slots { kick: Some(id), ..self },
            Slot::Spring => Slots { spring: Some(id), ..self },
            Slot::Damper => Slots { damper: Some(id), ..self },
            Slot::Rumble => Slots { rumble: Some(id), ..self },
        }
    }
}

/// The values that were written last, slot by slot.
#[derive(Debug, Clone, Copy, PartialEq, Eq, Structural)]
pub struct Sent {
    pub constant: i16,
    pub spring: u16,
    pub damper: u16,
    pub rumble: u16,
    pub rumble_period: u16,
}

impl Sent {
    /// What a fresh device counts as having been sent.
    pub open spec fn zero() -> Sent {
        Sent { constant: 0, spring: 0, damper: 0, rumble: 0, rumble_period: 0 }
    }
}

/// Effect targets in the numbers of the kernel interface.
#[derive(Debug, Clone, Copy, PartialEq, Eq, Structural)]
pub struct EffectLevels {
    pub constant: i16,
    pub spring: u16,
    pub spring_center: i16,
    pub damper: u16,
    pub rumble: u16,
    pub rumble_period_ms: u16,
    /// Where the wheel stands, on the scale of the spring center.
    pub steering: i16,
    /// How far the wheel moved since the targets before, on the same scale.
    pub steering_motion: i16,
}

/// A slot to be taken when a device is opened.
#[derive(Debug, Clone, Copy, PartialEq, Eq, Structural)]
pub struct SlotSetup {
    pub slot: Slot,
    pub effect: Effect,
}

/// A slot to be written again: first the effect is uploaded, then the event
/// is written.
#[derive(Debug, Clone, Copy, PartialEq, Eq, Structural)]
pub struct SlotUpdate {
    pub slot: Slot,
    pub effect: Effect,
    pub event: FfEvent,
}

/// The slots that a device takes when it is opened, in order: each with all
/// its values zero.
pub open spec fn setup(info: DeviceInfoView) -> Seq<SlotSetup> {
    let constant = SlotSetup {
        slot: Slot::Constant,
        effect: Effect::of(FF_CONSTANT, NEW_SLOT, FULL, EffectParams::Constant { level: 0 }),
    };
    let kick = SlotSetup {
        slot: Slot::Kick,
        effect: Effect::of(FF_CONSTANT, NEW_SLOT, KICK_MS, EffectParams::Constant { level: 0 }),
    };
    let spring = SlotSetup {
        slot: Slot::Spring,
        effect: Effect::of(FF_SPRING, NEW_SLOT, 0, condition(0, 0, 0)),
    };
    let damper = SlotSetup {
        slot: Slot::Damper,
        effect: Effect::of(FF_DAMPER, NEW_SLOT, 0, condition(0, 0, 0)),
    };
    let periodic = SlotSetup {
        slot: Slot::Rumble,
        effect: Effect::of(FF_PERIODIC, NEW_SLOT, 0, sine(0, FIRST_PERIOD_MS)),
    };
    let rumble = SlotSetup {
        slot: Slot::Rumble,
        effect: Effect::of(FF_RUMBLE, NEW_SLOT, 0, EffectParams::Rumble { strong: 0, weak: 0 }),
    };
    (if info.supports_constant {
        seq![constant, kick]
    } else {
        seq![]
    }) + (if info.supports_spring {
        seq![spring]
    } else {
        seq![]
    }) + (if info.supports_damper {
        seq![damper]
    } else {
        seq![]
    }) + (if info.supports_periodic {
        seq![periodic]
    } else if info.supports_rumble {
        seq![rumble]
    } else {
        seq![]
    })
}

/// The slots of a device to whose first `ids.len()` setups the kernel gave
/// these ids.
pub open spec fn slots_given(plan: Seq<SlotSetup>, ids: Seq<i16>) -> Slots
    decreases ids.len(),
{
    if ids.len() == 0 {
        Slots::none()
    } else {
        let front = slots_given(plan, ids.drop_last());
        if ids.len() <= plan.len() {
            front.with(plan[ids.len() - 1].slot, ids.last())
        } else {
            front
        }
    }
}

/// What the constant-force slot needs: a new level, and to be played.
pub open spec fn constant_update(slots: Slots, sent: Sent, out: EffectLevels) -> Seq<SlotUpdate> {
    match slots.constant {
        Some(id) if out.constant - sent.constant > CONSTANT_STEP || sent.constant - out.constant
            > CONSTANT_STEP => seq![
            SlotUpdate {
                slot: Slot::Constant,
                effect: Effect::of(
                    FF_CONSTANT,
                    id,
                    FULL,
                    EffectParams::Constant { level: out.constant },
                ),
                event: play(id, true),
            },
        ],
        _ => seq![],
    }
}

/// Two strengths lie more than `step` apart.
pub open spec fn moved(a: u16, b: u16, step: u16) -> bool {
    a - b > step || b - a > step
}

/// What the spring slot needs: a spring that pulls is always written, one that
/// does not only when it moved.
pub open spec fn spring_update(slots: Slots, sent: Sent, out: EffectLevels) -> Seq<SlotUpdate> {
    match slots.spring {
        Some(id) if moved(out.spring, sent.spring, STRENGTH_STEP) || out.spring > 0 => seq![
            SlotUpdate {
                slot: Slot::Spring,
                effect: Effect::of(
                    FF_SPRING,
                    id,
                    0,
                    condition(out.spring, condition_coeff(out.spring), out.spring_center),
                ),
                event: play(id, out.spring > 0),
            },
        ],
        _ => seq![],
    }
}

/// What the damper slot needs.
pub open spec fn damper_update(slots: Slots, sent: Sent, out: EffectLevels) -> Seq<SlotUpdate> {
    match slots.damper {
        Some(id) if moved(out.damper, sent.damper, STRENGTH_STEP) => seq![
            SlotUpdate {
                slot: Slot::Damper,
                effect: Effect::of(
                    FF_DAMPER,
                    id,
                    0,
                    condition(out.damper, condition_coeff(out.damper), 0),
                ),
                event: play(id, out.damper > 0),
            },
        ],
        _ => seq![],
    }
}

/// What the rumble slot needs: a sine wave on devices with periodic effects,
/// the rumble motors on others.
pub open spec fn rumble_update(
    slots: Slots,
    sent: Sent,
    periodic: bool,
    out: EffectLevels,
) -> Seq<SlotUpdate> {
    match slots.rumble {
        Some(id) if moved(out.rumble, sent.rumble, STRENGTH_STEP) || moved(
            out.rumble_period_ms,
            sent.rumble_period,
            PERIOD_STEP,
        ) => seq![
            SlotUpdate {
                slot: Slot::Rumble,
                effect: if periodic {
                    Effect::of(FF_PERIODIC, id, 0, sine(out.rumble, out.rumble_period_ms))
                } else {
                    Effect::of(
                        FF_RUMBLE,
                        id,
                        0,
                        EffectParams::Rumble { strong: out.rumble, weak: out.rumble / 2 },
                    )
                },
                event: play(id, out.rumble > 0),
            },
        ],
        _ => seq![],
    }
}

/// All updates that effect targets call for, in the order in which they are
/// carried out.
pub open spec fn updates(
    slots: Slots,
    sent: Sent,
    periodic: bool,
    out: EffectLevels,
) -> Seq<SlotUpdate> {
    constant_update(slots, sent, out) + spring_update(slots, sent, out) + damper_update(
        slots,
        sent,
        out,
    ) + rumble_update(slots, sent, periodic, out)
}

/// A part of `gap` that grows with the strength, rounded away from zero: all of
/// it at full strength, nothing at none.
pub open spec fn share(gap: int, strength: u16) -> int {
    if gap >= 0 {
        (gap * strength + 0xFFFE) / 0xFFFF
    } else {
        -((-gap * strength + 0xFFFE) / 0xFFFF)
    }
}

/// The force of a spring that is made from the constant force: towards the
/// center, and the stronger the further the wheel is away.
pub open spec fn spring_pull(out: EffectLevels) -> int {
    share(out.spring_center - out.steering, out.spring)
}

/// The force of a damper that is made from the constant force: against the
/// motion of the wheel, and the stronger the faster it moves.
pub open spec fn damper_drag(out: EffectLevels) -> int {
    share(-(out.steering_motion * DRAG), out.damper)
}

/// The nearest level that the kernel interface can hold.
pub open spec fn nearest_level(force: int) -> i16 {
    if force < i16::MIN {
        i16::MIN
    } else if force > i16::MAX {
        i16::MAX
    } else {
        force as i16
    }
}

/// The targets of a device with these slots: the constant force stands in for
/// the spring and the damper that it lacks.
pub open spec fn goal(slots: Slots, out: EffectLevels) -> EffectLevels {
    let pull = if slots.spring is None {
        spring_pull(out)
    } else {
        0
    };
    let drag = if slots.damper is None {
        damper_drag(out)
    } else {
        0
    };
    EffectLevels { constant: nearest_level(out.constant + pull + drag), ..out }
}

/// What counts as sent once a slot was written.
pub open spec fn sent_slot(sent: Sent, slot: Slot, out: EffectLevels) -> Sent {
    match slot {
        Slot::Constant => Sent { constant: out.constant, ..sent },
        Slot::Kick => sent,
        Slot::Spring => Sent { spring: out.spring, ..sent },
        Slot::Damper => Sent { damper: out.damper, ..sent },
        Slot::Rumble => Sent { rumble: out.rumble, rumble_period: out.rumble_period_ms, ..sent },
    }
}

/// What counts as sent once several updates were carried out.
pub open spec fn sent_after(sent: Sent, done: Seq<SlotUpdate>, out: EffectLevels) -> Sent
    decreases done.len(),
{
    if done.len() == 0 {
        sent
    } else {
        sent_slot(sent_after(sent, done.drop_last(), out), done.last().slot, out)
    }
}

/// An opened wheel: what it is, which slots it was given, and what was written
/// to them last.
#[derive(Debug)]
pub struct FfbDevice {
    path: String,
    info: DeviceInfo,
    slots: Slots,
    sent: Sent,
}

impl FfbDevice {
    /// The characters of the device path.
    pub closed spec fn path_text(self) -> Seq<char> {
        self.path@
    }

    /// The description of the device.
    pub closed spec fn info_view(self) -> DeviceInfoView {
        self.info@
    }

    /// The slots that the device was given.
    pub closed spec fn slots(self) -> Slots {
        self.slots
    }

    /// What was written last.
    pub closed spec fn sent(self) -> Sent {
        self.sent
    }

    /// The updates that effect targets call for on this device.
    pub open spec fn updates(self, out: EffectLevels) -> Seq<SlotUpdate> {
        updates(
            self.slots(),
            self.sent(),
            self.info_view().supports_periodic,
            goal(self.slots(), out),
        )
    }

    /// The events to write before any slot is taken, errors aside: full gain,
    /// so that strengths reach the wheel as they are, and no auto-centering.
    pub fn opening_events() -> (events: Vec<FfEvent>)
        ensures
            events@ == seq![
                FfEvent { type_: EV_FF, code: FF_GAIN, value: 0xFFFF },
                FfEvent { type_: EV_FF, code: FF_AUTOCENTER, value: 0 },
            ],
    {
        let mut events: Vec<FfEvent> = Vec::new();
        events.push(set_gain(FULL));
        events.push(set_autocenter(0));
        events
    }

    /// The slots to take on a device of this description, in order.
    pub fn setup(info: &DeviceInfo) -> (plan: Vec<SlotSetup>)
        ensures
            plan@ == setup(info@),
    {
        let mut plan: Vec<SlotSetup> = Vec::new();
        if info.supports_constant {
            plan.push(SlotSetup { slot: Slot::Constant, effect: upload_constant(0, FULL) });
            plan.push(SlotSetup { slot: Slot::Kick, effect: upload_constant(0, KICK_MS) });
        }
        if info.supports_spring {
            plan.push(SlotSetup { slot: Slot::Spring, effect: upload_spring(0, 0) });
        }
        if info.supports_damper {
            plan.push(SlotSetup { slot: Slot::Damper, effect: upload_damper(0) });
        }
        if info.supports_periodic {
            plan.push(
                SlotSetup { slot: Slot::Rumble, effect: upload_periodic(0, FIRST_PERIOD_MS) },
            );
        } else if info.supports_rumble {
            plan.push(SlotSetup { slot: Slot::Rumble, effect: upload_rumble(0) });
        }
        assert(plan@ =~= setup(info@));
        plan
    }

    /// Opens a device whose setups were uploaded in order, with the ids that
    /// the kernel gave. Fewer ids than setups mean that the kernel rejected an
    /// upload: then opening fails, and the events that release what was taken
    /// so far are given back.
    pub fn open(path: String, info: DeviceInfo, ids: &Vec<i16>) -> (out: Result<Self, Vec<FfEvent>>)
        ensures
            out is Ok <==> ids@.len() >= setup(info@).len(),
            match out {
                Ok(dev) => {
                    &&& dev.path_text() == path@
                    &&& dev.info_view() == info@
                    &&& dev.slots() == slots_given(setup(info@), ids@)
                    &&& dev.sent() == Sent::zero()
                },
                Err(events) => events@ == release(slots_given(setup(info@), ids@)),
            },
    {
        let plan: Vec<SlotSetup> = Self::setup(&info);
        let mut slots: Slots = Slots {
            constant: None,
            kick: None,
            spring: None,
            damper: None,
            rumble: None,
        };
        let mut i: usize = 0;
        assert(ids@.take(0) =~= Seq::empty());
        while i < ids.len()
            invariant
                i <= ids@.len(),
                plan@ == setup(info@),
                slots == slots_given(plan@, ids@.take(i as int)),
            decreases ids@.len() - i,
        {
            assert(ids@.take(i + 1).drop_last() =~= ids@.take(i as int));
            if i < plan.len() {
                let id: i16 = ids[i];
                match plan[i].slot {
                    Slot::Constant => {
                        slots.constant = Some(id);
                    },
                    Slot::Kick => {
                        slots.kick = Some(id);
                    },
                    Slot::Spring => {
                        slots.spring = Some(id);
                    },
                    Slot::Damper => {
                        slots.damper = Some(id);
                    },
                    Slot::Rumble => {
                        slots.rumble = Some(id);
                    },
                }
            }
            i = i + 1;
        }
        assert(ids@.take(i as int) =~= ids@);
        let complete: bool = ids.len() >= plan.len();
        let dev: FfbDevice = FfbDevice {
            path,
            info,
            slots,
            sent: Sent { constant: 0, spring: 0, damper: 0, rumble: 0, rumble_period: 0 },
        };
        if complete {
            Ok(dev)
        } else {
            Err(dev.stop_all())
        }
    }

    /// The description of the device.
    pub fn info(&self) -> (info: &DeviceInfo)
        ensures
            info@ == self.info_view(),
    {
        &self.info
    }

    /// The path of the device.
    pub fn path(&self) -> (path: &str)
        ensures
            path@ == self.path_text(),
    {
        self.path.as_str()
    }

    /// The updates that new effect targets call for. The constant force stands
    /// in for a spring or damper that the device lacks. Small moves are left
    /// out. The caller carries the updates out in order, stops at the first
    /// that fails, and reports how many succeeded to [`FfbDevice::settle`].
    pub fn apply(&self, out: &EffectLevels) -> (todo: Vec<SlotUpdate>)
        ensures
            todo@ == self.updates(*out),
    {
        let out: EffectLevels = stand_in(&self.slots, out);
        let mut todo: Vec<SlotUpdate> = Vec::new();
        if let Some(id) = self.slots.constant {
            let gap: i32 = out.constant as i32 - self.sent.constant as i32;
            if gap > CONSTANT_STEP || -gap > CONSTANT_STEP {
                todo.push(
                    SlotUpdate {
                        slot: Slot::Constant,
                        effect: update_constant(id, out.constant, FULL),
                        event: start(id),
                    },
                );
            }
        }
        if let Some(id) = self.slots.spring {
            if differ(out.spring, self.sent.spring, STRENGTH_STEP) || out.spring > 0 {
                todo.push(
                    SlotUpdate {
                        slot: Slot::Spring,
                        effect: update_spring(id, out.spring, out.spring_center),
                        event: if out.spring > 0 {
                            start(id)
                        } else {
                            stop(id)
                        },
                    },
                );
            }
        }
        if let Some(id) = self.slots.damper {
            if differ(out.damper, self.sent.damper, STRENGTH_STEP) {
                todo.push(
                    SlotUpdate {
                        slot: Slot::Damper,
                        effect: update_damper(id, out.damper),
                        event: if out.damper > 0 {
                            start(id)
                        } else {
                            stop(id)
                        },
                    },
                );
            }
        }
        if let Some(id) = self.slots.rumble {
            if differ(out.rumble, self.sent.rumble, STRENGTH_STEP) || differ(
                out.rumble_period_ms,
                self.sent.rumble_period,
                PERIOD_STEP,
            ) {
                todo.push(
                    SlotUpdate {
                        slot: Slot::Rumble,
                        effect: if self.info.supports_periodic {
                            update_periodic(id, out.rumble, out.rumble_period_ms)
                        } else {
                            update_rumble(id, out.rumble)
                        },
                        event: if out.rumble > 0 {
                            start(id)
                        } else {
                            stop(id)
                        },
                    },
                );
            }
        }
        assert(todo@ =~= updates(self.slots(), self.sent(), self.info.supports_periodic, out));
        todo
    }

    /// Notes that the first `done` updates for these effect targets were
    /// carried out. Slots that were not reached keep what they had.
    pub fn settle(&mut self, out: &EffectLevels, done: usize)
        ensures
            final(self).sent() == sent_after(
                old(self).sent(),
                if done <= old(self).updates(*out).len() {
                    old(self).updates(*out).take(done as int)
                } else {
                    old(self).updates(*out)
                },
                goal(old(self).slots(), *out),
            ),
            final(self).slots() == old(self).slots(),
            final(self).info_view() == old(self).info_view(),
            final(self).path_text() == old(self).path_text(),
    {
        let todo: Vec<SlotUpdate> = self.apply(out);
        let goal: EffectLevels = stand_in(&self.slots, out);
        let count: usize = if done <= todo.len() {
            done
        } else {
            todo.len()
        };
        let mut i: usize = 0;
        assert(todo@.take(0) =~= Seq::empty());
        while i < count
            invariant
                i <= count <= todo@.len(),
                self.sent() == sent_after(old(self).sent(), todo@.take(i as int), goal),
                self.slots() == old(self).slots(),
                self.info_view() == old(self).info_view(),
                self.path_text() == old(self).path_text(),
            decreases count - i,
        {
            assert(todo@.take(i + 1).drop_last() =~= todo@.take(i as int));
            match todo[i].slot {
                Slot::Constant => {
                    self.sent.constant = goal.constant;
                },
                Slot::Kick => {},
                Slot::Spring => {
                    self.sent.spring = goal.spring;
                },
                Slot::Damper => {
                    self.sent.damper = goal.damper;
                },
                Slot::Rumble => {
                    self.sent.rumble = goal.rumble;
                    self.sent.rumble_period = goal.rumble_period_ms;
                },
            }
            i = i + 1;
        }
        assert(todo@.take(todo@.len() as int) =~= todo@);
    }

    /// The events that release the wheel, errors aside: every slot that is
    /// driven is stopped, and the gain is full again.
    pub fn stop_all(&self) -> (events: Vec<FfEvent>)
        ensures
            events@ == release(self.slots()),
    {
        let mut events: Vec<FfEvent> = Vec::new();
        if let Some(id) = self.slots.constant {
            events.push(stop(id));
        }
        if let Some(id) = self.slots.spring {
            events.push(stop(id));
        }
        if let Some(id) = self.slots.damper {
            events.push(stop(id));
        }
        if let Some(id) = self.slots.rumble {
            events.push(stop(id));
        }
        events.push(set_gain(FULL));
        assert(events@ =~= release(self.slots()));
        events
    }
}

/// How far the wheel moved since it was seen last.
pub open spec fn motion_of(last: Option<i16>, steering: i16) -> i16 {
    match last {
        Some(before) => nearest_level(steering - before),
        None => 0,
    }
}

/// Follows the steering position from frame to frame.
#[derive(Debug)]
pub struct SteeringTrack {
    last: Option<i16>,
}

impl SteeringTrack {
    /// Where the wheel was seen last.
    pub closed spec fn last(self) -> Option<i16> {
        self.last
    }

    /// A wheel that was not seen yet.
    pub fn new() -> (track: Self)
        ensures
            track.last() is None,
    {
        SteeringTrack { last: None }
    }

    /// Takes the steering position and tells how far the wheel moved.
    pub fn motion(&mut self, steering: i16) -> (motion: i16)
        ensures
            motion == motion_of(old(self).last(), steering),
            final(self).last() == Some(steering),
    {
        let motion: i16 = match self.last {
            Some(before) => {
                let gap: i32 = steering as i32 - before as i32;
                if gap < i16::MIN as i32 {
                    i16::MIN
                } else if gap > i16::MAX as i32 {
                    i16::MAX
                } else {
                    gap as i16
                }
            },
            None => 0,
        };
        self.last = Some(steering);
        motion
    }

    /// Forgets where the wheel was, so that a pause is not taken for a motion.
    pub fn forget(&mut self)
        ensures
            final(self).last() is None,
    {
        self.last = None;
    }
}

/// The stop event of a slot, if it was taken.
pub open spec fn stop_of(slot: Option<i16>) -> Seq<FfEvent> {
    match slot {
        Some(id) => seq![play(id, false)],
        None => seq![],
    }
}

/// The events that release the wheel.
pub open spec fn release(slots: Slots) -> Seq<FfEvent> {
    stop_of(slots.constant) + stop_of(slots.spring) + stop_of(slots.damper) + stop_of(slots.rumble)
        + seq![FfEvent { type_: EV_FF, code: FF_GAIN, value: 0xFFFF }]
}

fn share_of(gap: i64, strength: u16) -> (part: i64)
    requires
        -0x10_0000 <= gap <= 0x10_0000,
    ensures
        part == share(gap as int, strength),
        -0x10_0000 <= part <= 0x10_0000,
{
    proof {
        lemma_share(gap as int, strength);
    }
    let size: i64 = if gap >= 0 {
        gap
    } else {
        -gap
    };
    assert(0 <= size * strength <= 0x10_0000 * 0xFFFF) by (nonlinear_arith)
        requires
            0 <= size <= 0x10_0000,
            0 <= strength <= 0xFFFF,
    ;
    let part: i64 = (size * strength as i64 + 0xFFFE) / 0xFFFF;
    if gap >= 0 {
        part
    } else {
        -part
    }
}

fn stand_in(slots: &Slots, out: &EffectLevels) -> (goal: EffectLevels)
    ensures
        goal == self::goal(*slots, *out),
{
    let mut force: i64 = out.constant as i64;
    if slots.spring.is_none() {
        let gap: i64 = out.spring_center as i64 - out.steering as i64;
        force = force + share_of(gap, out.spring);
    }
    if slots.damper.is_none() {
        let gap: i64 = -(out.steering_motion as i64 * DRAG as i64);
        force = force + share_of(gap, out.damper);
    }
    let constant: i16 = if force < i16::MIN as i64 {
        i16::MIN
    } else if force > i16::MAX as i64 {
        i16::MAX
    } else {
        force as i16
    };
    EffectLevels { constant, ..*out }
}

fn differ(a: u16, b: u16, step: u16) -> (yes: bool)
    ensures
        yes == moved(a, b, step),
{
    if a >= b {
        a - b > step
    } else {
        b - a > step
    }
}

// ---------------------------------------------------------------------------
// Laws
// ---------------------------------------------------------------------------

proof fn lemma_sent_after_joined(sent: Sent, a: Seq<SlotUpdate>, b: Seq<SlotUpdate>, out: EffectLevels)
    ensures
        sent_after(sent, a + b, out) == sent_after(sent_after(sent, a, out), b, out),
    decreases b.len(),
{
    if b.len() == 0 {
        assert(a + b =~= a);
    } else {
        lemma_sent_after_joined(sent, a, b.drop_last(), out);
        assert((a + b).drop_last() =~= a + b.drop_last());
    }
}

proof fn lemma_sent_after_one(sent: Sent, u: Seq<SlotUpdate>, out: EffectLevels)
    requires
        u.len() <= 1,
    ensures
        sent_after(sent, u, out) == (if u.len() == 1 {
            sent_slot(sent, u[0].slot, out)
        } else {
            sent
        }),
{
    if u.len() == 1 {
        assert(u.drop_last() =~= Seq::empty());
        reveal_with_fuel(sent_after, 2);
    }
}

/// What counts as sent once every update was carried out: each slot that
/// needed one has its target, all others have what they had.
pub proof fn law_all_updates_reach_their_targets(
    slots: Slots,
    sent: Sent,
    periodic: bool,
    out: EffectLevels,
)
    ensures
        sent_after(sent, updates(slots, sent, periodic, out), out) == (Sent {
            constant: if constant_update(slots, sent, out).len() > 0 {
                out.constant
            } else {
                sent.constant
            },
            spring: if spring_update(slots, sent, out).len() > 0 {
                out.spring
            } else {
                sent.spring
            },
            damper: if damper_update(slots, sent, out).len() > 0 {
                out.damper
            } else {
                sent.damper
            },
            rumble: if rumble_update(slots, sent, periodic, out).len() > 0 {
                out.rumble
            } else {
                sent.rumble
            },
            rumble_period: if rumble_update(slots, sent, periodic, out).len() > 0 {
                out.rumble_period_ms
            } else {
                sent.rumble_period
            },
        }),
{
    let a = constant_update(slots, sent, out);
    let b = spring_update(slots, sent, out);
    let c = damper_update(slots, sent, out);
    let d = rumble_update(slots, sent, periodic, out);
    lemma_sent_after_joined(sent, a + b + c, d, out);
    lemma_sent_after_joined(sent, a + b, c, out);
    lemma_sent_after_joined(sent, a, b, out);
    let s1 = sent_after(sent, a, out);
    let s2 = sent_after(s1, b, out);
    let s3 = sent_after(s2, c, out);
    lemma_sent_after_one(sent, a, out);
    lemma_sent_after_one(s1, b, out);
    lemma_sent_after_one(s2, c, out);
    lemma_sent_after_one(s3, d, out);
}

/// Applying the same targets again writes nothing more, but for a spring that
/// pulls, which is refreshed every time.
pub proof fn law_same_targets_again_write_only_the_spring(
    slots: Slots,
    sent: Sent,
    periodic: bool,
    out: EffectLevels,
)
    ensures
        updates(
            slots,
            sent_after(sent, updates(slots, sent, periodic, out), out),
            periodic,
            out,
        ) == (if out.spring > 0 {
            spring_update(slots, sent, out)
        } else {
            Seq::empty()
        }),
{
    law_all_updates_reach_their_targets(slots, sent, periodic, out);
    let then = sent_after(sent, updates(slots, sent, periodic, out), out);
    assert(constant_update(slots, then, out) =~= Seq::empty());
    assert(damper_update(slots, then, out) =~= Seq::empty());
    assert(rumble_update(slots, then, periodic, out) =~= Seq::empty());
    if out.spring > 0 {
        assert(spring_update(slots, then, out) =~= spring_update(slots, sent, out));
    } else {
        assert(spring_update(slots, then, out) =~= Seq::empty());
    }
    assert(updates(slots, then, periodic, out) =~= spring_update(slots, then, out));
}

/// The targets that let go of the wheel.
pub open spec fn silence() -> EffectLevels {
    EffectLevels {
        constant: 0,
        spring: 0,
        spring_center: 0,
        damper: 0,
        rumble: 0,
        rumble_period_ms: 0,
        steering: 0,
        steering_motion: 0,
    }
}

/// An effect that exerts no force.
pub open spec fn forceless(params: EffectParams) -> bool {
    match params {
        EffectParams::Constant { level } => level == 0,
        EffectParams::Condition(c) => {
            &&& c.right_saturation == 0
            &&& c.left_saturation == 0
            &&& c.right_coeff == 0
            &&& c.left_coeff == 0
        },
        EffectParams::Periodic { magnitude, .. } => magnitude == 0,
        EffectParams::Rumble { strong, weak } => strong == 0 && weak == 0,
    }
}

/// Once telemetry has gone silent the wheel goes limp: every effect that is
/// written exerts no force, everything but the constant force is stopped, and
/// what remains on a slot afterwards is no more than the smallest move that is
/// written at all.
pub proof fn law_silence_releases_the_wheel(slots: Slots, sent: Sent, periodic: bool)
    ensures
        forall|i: int|
            0 <= i < updates(slots, sent, periodic, silence()).len() ==> {
                let u = #[trigger] updates(slots, sent, periodic, silence())[i];
                forceless(u.effect.params) && (u.slot == Slot::Constant || u.event.value == 0)
            },
        ({
            let then = sent_after(sent, updates(slots, sent, periodic, silence()), silence());
            &&& slots.constant is Some ==> -CONSTANT_STEP <= then.constant <= CONSTANT_STEP
            &&& slots.spring is Some ==> then.spring <= STRENGTH_STEP
            &&& slots.damper is Some ==> then.damper <= STRENGTH_STEP
            &&& slots.rumble is Some ==> then.rumble <= STRENGTH_STEP && then.rumble_period
                <= PERIOD_STEP
        }),
{
    law_all_updates_reach_their_targets(slots, sent, periodic, silence());
    lemma_updates_by_part(slots, sent, periodic, silence());
}

/// The id of a slot that is driven.
pub open spec fn slot_id(slots: Slots, slot: Slot) -> Option<i16> {
    match slot {
        Slot::Constant => slots.constant,
        Slot::Kick => slots.kick,
        Slot::Spring => slots.spring,
        Slot::Damper => slots.damper,
        Slot::Rumble => slots.rumble,
    }
}

/// The place of a slot in the order of updates.
pub open spec fn rank(slot: Slot) -> int {
    match slot {
        Slot::Constant => 0,
        Slot::Kick => 1,
        Slot::Spring => 2,
        Slot::Damper => 3,
        Slot::Rumble => 4,
    }
}

proof fn lemma_updates_by_part(slots: Slots, sent: Sent, periodic: bool, out: EffectLevels)
    ensures
        forall|i: int|
            0 <= i < updates(slots, sent, periodic, out).len() ==> {
                let u = #[trigger] updates(slots, sent, periodic, out)[i];
                ||| constant_update(slots, sent, out) == seq![u]
                ||| spring_update(slots, sent, out) == seq![u]
                ||| damper_update(slots, sent, out) == seq![u]
                ||| rumble_update(slots, sent, periodic, out) == seq![u]
            },
{
    let a = constant_update(slots, sent, out);
    let b = spring_update(slots, sent, out);
    let c = damper_update(slots, sent, out);
    let d = rumble_update(slots, sent, periodic, out);
    assert forall|i: int| 0 <= i < updates(slots, sent, periodic, out).len() implies {
        let u = #[trigger] updates(slots, sent, periodic, out)[i];
        a == seq![u] || b == seq![u] || c == seq![u] || d == seq![u]
    } by {
        let u = updates(slots, sent, periodic, out)[i];
        if i < a.len() {
            assert(a =~= seq![u]);
        } else if i < a.len() + b.len() {
            assert(b =~= seq![u]);
        } else if i < a.len() + b.len() + c.len() {
            assert(c =~= seq![u]);
        } else {
            assert(d =~= seq![u]);
        }
    }
}

/// Updates go to slots that the device was given, each to its own slot, and
/// to no slot twice: constant force, spring, damper and rumble in this order.
pub proof fn law_updates_address_taken_slots_once(
    slots: Slots,
    sent: Sent,
    periodic: bool,
    out: EffectLevels,
)
    ensures
        forall|i: int|
            0 <= i < updates(slots, sent, periodic, out).len() ==> {
                let u = #[trigger] updates(slots, sent, periodic, out)[i];
                &&& slot_id(slots, u.slot) == Some(u.effect.id)
                &&& u.event == play(u.effect.id, u.event.value == 1)
            },
        forall|i: int, j: int|
            0 <= i < j < updates(slots, sent, periodic, out).len() ==> rank(
                (#[trigger] updates(slots, sent, periodic, out)[i]).slot,
            ) < rank((#[trigger] updates(slots, sent, periodic, out)[j]).slot),
{
    lemma_updates_by_part(slots, sent, periodic, out);
}

/// The value of a slot in what counts as sent.
pub open spec fn sent_value(sent: Sent, slot: Slot) -> (int, int) {
    match slot {
        Slot::Constant => (sent.constant as int, 0),
        Slot::Kick => (0, 0),
        Slot::Spring => (sent.spring as int, 0),
        Slot::Damper => (sent.damper as int, 0),
        Slot::Rumble => (sent.rumble as int, sent.rumble_period as int),
    }
}

/// The target of a slot.
pub open spec fn target_value(out: EffectLevels, slot: Slot) -> (int, int) {
    sent_value(
        Sent {
            constant: out.constant,
            spring: out.spring,
            damper: out.damper,
            rumble: out.rumble,
            rumble_period: out.rumble_period_ms,
        },
        slot,
    )
}

proof fn lemma_sent_after_value(sent: Sent, done: Seq<SlotUpdate>, out: EffectLevels, slot: Slot)
    ensures
        sent_value(sent_after(sent, done, out), slot) == (if exists|i: int|
            0 <= i < done.len() && (#[trigger] done[i]).slot == slot {
            target_value(out, slot)
        } else {
            sent_value(sent, slot)
        }),
    decreases done.len(),
{
    if done.len() > 0 {
        let front = done.drop_last();
        lemma_sent_after_value(sent, front, out, slot);
        if exists|i: int| 0 <= i < front.len() && (#[trigger] front[i]).slot == slot {
            let i = choose|i: int| 0 <= i < front.len() && (#[trigger] front[i]).slot == slot;
            assert(done[i].slot == slot);
        }
        if exists|i: int| 0 <= i < done.len() && (#[trigger] done[i]).slot == slot {
            let i = choose|i: int| 0 <= i < done.len() && (#[trigger] done[i]).slot == slot;
            if i < front.len() {
                assert(front[i].slot == slot);
            }
        }
    }
}

proof fn lemma_prefix_value(sent: Sent, all: Seq<SlotUpdate>, out: EffectLevels, done: int, i: int)
    requires
        0 <= done <= all.len(),
        0 <= i < all.len(),
        forall|j: int, k: int|
            0 <= j < k < all.len() ==> rank((#[trigger] all[j]).slot) < rank(
                (#[trigger] all[k]).slot,
            ),
    ensures
        sent_value(sent_after(sent, all.take(done), out), all[i].slot) == (if i < done {
            target_value(out, all[i].slot)
        } else {
            sent_value(sent, all[i].slot)
        }),
{
    let slot = all[i].slot;
    let front = all.take(done);
    lemma_sent_after_value(sent, front, out, slot);
    if i < done {
        assert(front[i].slot == slot);
    } else if exists|k: int| 0 <= k < front.len() && (#[trigger] front[k]).slot == slot {
        let k = choose|k: int| 0 <= k < front.len() && (#[trigger] front[k]).slot == slot;
        assert(rank(all[k].slot) < rank(all[i].slot));
    }
}

proof fn lemma_update_stays(
    slots: Slots,
    sent: Sent,
    then: Sent,
    periodic: bool,
    out: EffectLevels,
    i: int,
)
    requires
        0 <= i < updates(slots, sent, periodic, out).len(),
        sent_value(then, updates(slots, sent, periodic, out)[i].slot) == sent_value(
            sent,
            updates(slots, sent, periodic, out)[i].slot,
        ),
    ensures
        updates(slots, then, periodic, out).contains(updates(slots, sent, periodic, out)[i]),
{
    let u = updates(slots, sent, periodic, out)[i];
    lemma_updates_by_part(slots, sent, periodic, out);
    let a = constant_update(slots, then, out);
    let b = spring_update(slots, then, out);
    let c = damper_update(slots, then, out);
    let d = rumble_update(slots, then, periodic, out);
    let again = updates(slots, then, periodic, out);
    if constant_update(slots, sent, out) == seq![u] {
        assert(seq![u][0] == u);
        assert(a == seq![u]);
        assert(again[0] == u);
    } else if spring_update(slots, sent, out) == seq![u] {
        assert(seq![u][0] == u);
        assert(b == seq![u]);
        assert(again[a.len() as int] == u);
    } else if damper_update(slots, sent, out) == seq![u] {
        assert(seq![u][0] == u);
        assert(c == seq![u]);
        assert(again[(a.len() + b.len()) as int] == u);
    } else {
        assert(seq![u][0] == u);
        assert(d == seq![u]);
        assert(again[(a.len() + b.len() + c.len()) as int] == u);
    }
}

/// When an update fails, the slots before it have their targets and the slots
/// from it on keep what they had, so that the next targets try them again.
pub proof fn law_failed_update_is_tried_again(
    slots: Slots,
    sent: Sent,
    periodic: bool,
    out: EffectLevels,
    done: int,
)
    requires
        0 <= done <= updates(slots, sent, periodic, out).len(),
    ensures
        forall|i: int|
            0 <= i < updates(slots, sent, periodic, out).len() ==> {
                let slot = (#[trigger] updates(slots, sent, periodic, out)[i]).slot;
                let then = sent_after(sent, updates(slots, sent, periodic, out).take(done), out);
                sent_value(then, slot) == (if i < done {
                    target_value(out, slot)
                } else {
                    sent_value(sent, slot)
                })
            },
        forall|i: int|
            done <= i < updates(slots, sent, periodic, out).len() ==> updates(
                slots,
                sent_after(sent, updates(slots, sent, periodic, out).take(done), out),
                periodic,
                out,
            ).contains(#[trigger] updates(slots, sent, periodic, out)[i]),
{
    let all = updates(slots, sent, periodic, out);
    let then = sent_after(sent, all.take(done), out);
    law_updates_address_taken_slots_once(slots, sent, periodic, out);
    assert forall|i: int| 0 <= i < all.len() implies {
        let slot = (#[trigger] all[i]).slot;
        sent_value(then, slot) == (if i < done {
            target_value(out, slot)
        } else {
            sent_value(sent, slot)
        })
    } by {
        lemma_prefix_value(sent, all, out, done, i);
    }
    assert forall|i: int| done <= i < all.len() implies updates(
        slots,
        then,
        periodic,
        out,
    ).contains(#[trigger] all[i]) by {
        lemma_update_stays(slots, sent, then, periodic, out, i);
    }
}

proof fn lemma_slots_given(plan: Seq<SlotSetup>, ids: Seq<i16>)
    requires
        ids.len() <= plan.len(),
        forall|j: int, k: int|
            0 <= j < k < plan.len() ==> rank((#[trigger] plan[j]).slot) < rank(
                (#[trigger] plan[k]).slot,
            ),
    ensures
        forall|i: int|
            0 <= i < ids.len() ==> slot_id(slots_given(plan, ids), (#[trigger] plan[i]).slot)
                == Some(ids[i]),
        forall|slot: Slot|
            (forall|i: int| 0 <= i < ids.len() ==> (#[trigger] plan[i]).slot != slot)
                ==> #[trigger] slot_id(slots_given(plan, ids), slot) is None,
    decreases ids.len(),
{
    if ids.len() > 0 {
        let front = ids.drop_last();
        let last = ids.len() - 1;
        lemma_slots_given(plan, front);
        let before = slots_given(plan, front);
        let after = slots_given(plan, ids);
        assert(after == before.with(plan[last].slot, ids[last]));
        assert forall|i: int| 0 <= i < ids.len() implies slot_id(after, (#[trigger] plan[i]).slot)
            == Some(ids[i]) by {
            if i < last {
                assert(rank(plan[i].slot) < rank(plan[last].slot));
                assert(front[i] == ids[i]);
                assert(slot_id(before, plan[i].slot) == Some(front[i]));
            }
        }
        assert forall|slot: Slot|
            (forall|i: int| 0 <= i < ids.len() ==> (#[trigger] plan[i]).slot
                != slot) implies #[trigger] slot_id(after, slot) is None by {
            assert(plan[last].slot != slot);
            assert(slot_id(before, slot) is None);
        }
    }
}

proof fn lemma_setup_slots(info: DeviceInfoView)
    ensures
        forall|j: int, k: int|
            0 <= j < k < setup(info).len() ==> rank((#[trigger] setup(info)[j]).slot) < rank(
                (#[trigger] setup(info)[k]).slot,
            ),
        forall|i: int|
            0 <= i < setup(info).len() ==> match (#[trigger] setup(info)[i]).slot {
                Slot::Constant => info.supports_constant,
                Slot::Kick => info.supports_constant,
                Slot::Spring => info.supports_spring,
                Slot::Damper => info.supports_damper,
                Slot::Rumble => info.supports_periodic || info.supports_rumble,
            },
        info.supports_constant ==> setup(info).len() >= 2 && setup(info)[0].slot == Slot::Constant
            && setup(info)[1].slot == Slot::Kick,
        info.supports_spring ==> exists|i: int|
            0 <= i < setup(info).len() && (#[trigger] setup(info)[i]).slot == Slot::Spring,
        info.supports_damper ==> exists|i: int|
            0 <= i < setup(info).len() && (#[trigger] setup(info)[i]).slot == Slot::Damper,
        info.supports_periodic || info.supports_rumble ==> exists|i: int|
            0 <= i < setup(info).len() && (#[trigger] setup(info)[i]).slot == Slot::Rumble,
{
    let c: int = if info.supports_constant {
        2
    } else {
        0
    };
    let s: int = if info.supports_spring {
        1
    } else {
        0
    };
    let d: int = if info.supports_damper {
        1
    } else {
        0
    };
    if info.supports_spring {
        assert(setup(info)[c].slot == Slot::Spring);
    }
    if info.supports_damper {
        assert(setup(info)[c + s].slot == Slot::Damper);
    }
    if info.supports_periodic || info.supports_rumble {
        assert(setup(info)[c + s + d].slot == Slot::Rumble);
    }
}

/// An opened device has exactly the slots that it supports, each with the id
/// that the kernel gave for it.
pub proof fn law_open_takes_the_supported_slots(info: DeviceInfoView, ids: Seq<i16>)
    requires
        ids.len() == setup(info).len(),
    ensures
        ({
            let slots = slots_given(setup(info), ids);
            &&& slots.constant is Some == info.supports_constant
            &&& slots.kick is Some == info.supports_constant
            &&& slots.spring is Some == info.supports_spring
            &&& slots.damper is Some == info.supports_damper
            &&& slots.rumble is Some == (info.supports_periodic || info.supports_rumble)
            &&& forall|i: int|
                0 <= i < ids.len() ==> slot_id(slots, (#[trigger] setup(info)[i]).slot) == Some(
                    ids[i],
                )
        }),
{
    lemma_setup_slots(info);
    let plan = setup(info);
    lemma_slots_given(plan, ids);
    let slots = slots_given(plan, ids);
    if info.supports_constant {
        assert(slot_id(slots, plan[0].slot) == Some(ids[0]));
        assert(slot_id(slots, plan[1].slot) == Some(ids[1]));
    }
    if info.supports_spring {
        let i = choose|i: int| 0 <= i < plan.len() && (#[trigger] plan[i]).slot == Slot::Spring;
        assert(slot_id(slots, plan[i].slot) == Some(ids[i]));
    }
    if info.supports_damper {
        let i = choose|i: int| 0 <= i < plan.len() && (#[trigger] plan[i]).slot == Slot::Damper;
        assert(slot_id(slots, plan[i].slot) == Some(ids[i]));
    }
    if info.supports_periodic || info.supports_rumble {
        let i = choose|i: int| 0 <= i < plan.len() && (#[trigger] plan[i]).slot == Slot::Rumble;
        assert(slot_id(slots, plan[i].slot) == Some(ids[i]));
    }
    assert(!info.supports_constant ==> slot_id(slots, Slot::Constant) is None);
    assert(!info.supports_constant ==> slot_id(slots, Slot::Kick) is None);
    assert(!info.supports_spring ==> slot_id(slots, Slot::Spring) is None);
    assert(!info.supports_damper ==> slot_id(slots, Slot::Damper) is None);
    assert(!(info.supports_periodic || info.supports_rumble) ==> slot_id(slots, Slot::Rumble) is None);
}

/// Releasing the wheel stops every slot that is driven.
pub proof fn law_release_stops_every_driven_slot(slots: Slots, slot: Slot)
    requires
        slot != Slot::Kick,
        slot_id(slots, slot) is Some,
    ensures
        release(slots).contains(play(slot_id(slots, slot)->0, false)),
{
    let a = stop_of(slots.constant);
    let b = stop_of(slots.spring);
    let c = stop_of(slots.damper);
    let d = stop_of(slots.rumble);
    let at = match slot {
        Slot::Constant => 0int,
        Slot::Kick => 0int,
        Slot::Spring => a.len() as int,
        Slot::Damper => (a.len() + b.len()) as int,
        Slot::Rumble => (a.len() + b.len() + c.len()) as int,
    };
    assert(release(slots)[at] == play(slot_id(slots, slot)->0, false));
}

/// The coefficient of a spring or damper is never negative, so it resists and
/// never drives, and it never falls as the strength grows.
pub proof fn law_coefficient_resists(weaker: u16, stronger: u16)
    requires
        weaker <= stronger,
    ensures
        0 <= condition_coeff(weaker) <= condition_coeff(stronger),
{
}

proof fn lemma_share(gap: int, strength: u16)
    ensures
        strength == 0 || gap == 0 ==> share(gap, strength) == 0,
        strength > 0 && gap > 0 ==> 0 < share(gap, strength) <= gap,
        strength > 0 && gap < 0 ==> gap <= share(gap, strength) < 0,
{
    let size = if gap >= 0 {
        gap
    } else {
        -gap
    };
    assert(size * strength <= size * 0xFFFF) by (nonlinear_arith)
        requires
            0 <= size,
            0 <= strength <= 0xFFFF,
    ;
    assert(size > 0 && strength > 0 ==> size * strength > 0) by (nonlinear_arith);
    assert(size == 0 || strength == 0 ==> size * strength == 0) by (nonlinear_arith);
}

/// A spring made from the constant force pulls towards the center exactly when
/// it has any strength and the wheel is away from the center, and never
/// further than to the center.
pub proof fn law_stand_in_spring_pulls_to_the_center(out: EffectLevels)
    ensures
        spring_pull(out) > 0 <==> out.spring > 0 && out.steering < out.spring_center,
        spring_pull(out) < 0 <==> out.spring > 0 && out.steering > out.spring_center,
        out.steering <= out.spring_center ==> out.steering + spring_pull(out) <= out.spring_center,
        out.steering >= out.spring_center ==> out.steering + spring_pull(out) >= out.spring_center,
{
    lemma_share(out.spring_center - out.steering, out.spring);
}

/// A damper made from the constant force works against the motion of the wheel
/// exactly when it has any strength and the wheel moves.
pub proof fn law_stand_in_damper_resists_motion(out: EffectLevels)
    ensures
        damper_drag(out) > 0 <==> out.damper > 0 && out.steering_motion < 0,
        damper_drag(out) < 0 <==> out.damper > 0 && out.steering_motion > 0,
{
    lemma_share(-(out.steering_motion * DRAG), out.damper);
}

/// A device with springs and dampers of its own gets the targets as they are.
pub proof fn law_own_effects_need_no_stand_in(slots: Slots, out: EffectLevels)
    requires
        slots.spring is Some,
        slots.damper is Some,
    ensures
        goal(slots, out) == out,
{
}

/// Without lateral force and damping, a wheel that lacks springs and is turned
/// away from the center is aimed back at it: the level is not zero, and it is
/// written unless the wheel has nearly that level already.
pub proof fn law_missing_spring_reaches_the_wheel(
    slots: Slots,
    sent: Sent,
    periodic: bool,
    out: EffectLevels,
)
    requires
        slots.constant is Some,
        slots.spring is None,
        slots.damper is Some || out.damper == 0 || out.steering_motion == 0,
        out.constant == 0,
        out.spring > 0,
        out.steering != out.spring_center,
    ensures
        ({
            let level = goal(slots, out).constant;
            let todo = updates(slots, sent, periodic, goal(slots, out));
            &&& level > 0 <==> out.steering < out.spring_center
            &&& level < 0 <==> out.steering > out.spring_center
            &&& (-CONSTANT_STEP <= level - sent.constant <= CONSTANT_STEP || (todo.len() > 0
                && todo[0].slot == Slot::Constant && todo[0].effect == Effect::of(
                FF_CONSTANT,
                slots.constant->0,
                FULL,
                EffectParams::Constant { level },
            ) && todo[0].event == play(slots.constant->0, true)))
        }),
{
    law_stand_in_spring_pulls_to_the_center(out);
    law_stand_in_damper_resists_motion(out);
}

/// Likewise a wheel that lacks dampers and moves is held back.
pub proof fn law_missing_damper_reaches_the_wheel(
    slots: Slots,
    sent: Sent,
    periodic: bool,
    out: EffectLevels,
)
    requires
        slots.constant is Some,
        slots.damper is None,
        slots.spring is Some || out.spring == 0 || out.steering == out.spring_center,
        out.constant == 0,
        out.damper > 0,
        out.steering_motion != 0,
    ensures
        ({
            let level = goal(slots, out).constant;
            let todo = updates(slots, sent, periodic, goal(slots, out));
            &&& level > 0 <==> out.steering_motion < 0
            &&& level < 0 <==> out.steering_motion > 0
            &&& (-CONSTANT_STEP <= level - sent.constant <= CONSTANT_STEP || (todo.len() > 0
                && todo[0].slot == Slot::Constant && todo[0].effect == Effect::of(
                FF_CONSTANT,
                slots.constant->0,
                FULL,
                EffectParams::Constant { level },
            ) && todo[0].event == play(slots.constant->0, true)))
        }),
{
    law_stand_in_spring_pulls_to_the_center(out);
    law_stand_in_damper_resists_motion(out);
}

/// Nothing stands in for anything once telemetry has gone silent.
pub proof fn law_silence_asks_for_no_stand_in(slots: Slots)
    ensures
        goal(slots, silence()) == silence(),
{
    law_stand_in_spring_pulls_to_the_center(silence());
    law_stand_in_damper_resists_motion(silence());
}

/// Parameters of a spring or damper of a strength: it saturates there on both
/// sides, both coefficients are the strength, or 32767 where it is more, and
/// there is no dead band.
pub open spec fn pulls(params: EffectParams, strength: u16, center: i16) -> bool {
    match params {
        EffectParams::Condition(c) => {
            &&& c.right_saturation == strength
            &&& c.left_saturation == strength
            &&& strength <= 32767 ==> c.right_coeff == strength && c.left_coeff == strength
            &&& strength > 32767 ==> c.right_coeff == 32767 && c.left_coeff == 32767
            &&& c.deadband == 0
            &&& c.center == center
        },
        _ => false,
    }
}

/// Parameters of a sine wave of a magnitude.
pub open spec fn waves(params: EffectParams, strength: u16, period_ms: u16) -> bool {
    match params {
        EffectParams::Periodic { waveform, period, magnitude, offset, phase } => {
            &&& waveform == 0x5a
            &&& period == period_ms
            &&& strength <= 32767 ==> magnitude == strength
            &&& strength > 32767 ==> magnitude == strength - 65536
            &&& offset == 0
            &&& phase == 0
        },
        _ => false,
    }
}

/// Parameters of a motor rumble: the weak motor runs at half the strength,
/// rounded down.
pub open spec fn shakes(params: EffectParams, strength: u16) -> bool {
    match params {
        EffectParams::Rumble { strong, weak } => strong == strength && 2 * weak <= strength <= 2
            * weak + 1,
        _ => false,
    }
}

/// The head of an effect: its type, its slot, its length, and what all effects
/// have in common.
pub open spec fn headed(eff: Effect, type_: u16, id: i16, length: u16) -> bool {
    &&& eff.type_ == type_
    &&& eff.id == id
    &&& eff.length == length
    &&& eff.direction == 16384
    &&& eff.delay == 0
}

/// A spring is written with its strength, for a new slot and for a given one.
pub proof fn law_springs_have_their_strength(
    id: i16,
    strength: u16,
    center: i16,
    new: Effect,
    again: Effect,
)
    requires
        call_ensures(upload_spring, (strength, center), new),
        call_ensures(update_spring, (id, strength, center), again),
    ensures
        headed(new, 0x53, -1i16, 0),
        headed(again, 0x53, id, 0),
        pulls(new.params, strength, center),
        pulls(again.params, strength, center),
{
}

/// A damper is written with its strength, for a new slot and for a given one.
pub proof fn law_dampers_have_their_strength(id: i16, strength: u16, new: Effect, again: Effect)
    requires
        call_ensures(upload_damper, (strength,), new),
        call_ensures(update_damper, (id, strength), again),
    ensures
        headed(new, 0x55, -1i16, 0),
        headed(again, 0x55, id, 0),
        pulls(new.params, strength, 0),
        pulls(again.params, strength, 0),
{
}

/// A constant force is written with its level and length, for a new slot and
/// for a given one.
pub proof fn law_constant_forces_have_their_level(
    id: i16,
    level: i16,
    ms: u16,
    new: Effect,
    again: Effect,
)
    requires
        call_ensures(upload_constant, (level, ms), new),
        call_ensures(update_constant, (id, level, ms), again),
    ensures
        headed(new, 0x52, -1i16, ms),
        headed(again, 0x52, id, ms),
        new.params == (EffectParams::Constant { level }),
        again.params == new.params,
{
}

/// Sine waves and motor rumble are written with their strength, for a new slot
/// and for a given one.
pub proof fn law_rumble_has_its_strength(
    id: i16,
    strength: u16,
    ms: u16,
    new_wave: Effect,
    wave: Effect,
    new_shake: Effect,
    shake: Effect,
)
    requires
        call_ensures(upload_periodic, (strength, ms), new_wave),
        call_ensures(update_periodic, (id, strength, ms), wave),
        call_ensures(upload_rumble, (strength,), new_shake),
        call_ensures(update_rumble, (id, strength), shake),
    ensures
        headed(new_wave, 0x51, -1i16, 0) && waves(new_wave.params, strength, ms),
        headed(wave, 0x51, id, 0) && waves(wave.params, strength, ms),
        headed(new_shake, 0x50, -1i16, 0) && shakes(new_shake.params, strength),
        headed(shake, 0x50, id, 0) && shakes(shake.params, strength),
{
}

/// An event that plays or stops the effect in a slot.
pub open spec fn plays(event: FfEvent, id: i16, on: bool) -> bool {
    &&& event.type_ == 0x15
    &&& id >= 0 ==> event.code == id
    &&& id < 0 ==> event.code == id + 65536
    &&& event.value == (if on {
        1int
    } else {
        0int
    })
}

/// Events address the slot or setting that they are for.
pub proof fn law_events_address_what_they_are_for(
    id: i16,
    n: u16,
    started: FfEvent,
    stopped: FfEvent,
    gain: FfEvent,
    center: FfEvent,
)
    requires
        call_ensures(start, (id,), started),
        call_ensures(stop, (id,), stopped),
        call_ensures(set_gain, (n,), gain),
        call_ensures(set_autocenter, (n,), center),
    ensures
        plays(started, id, true),
        plays(stopped, id, false),
        gain.type_ == 0x15 && gain.code == 0x60 && gain.value == n,
        center.type_ == 0x15 && center.code == 0x61 && center.value == n,
{
}

/// What an update does to the slot that it is for, given the targets of a
/// device and the level that its constant force is to have.
pub open spec fn right_update(
    u: SlotUpdate,
    slots: Slots,
    periodic: bool,
    out: EffectLevels,
    level: i16,
) -> bool {
    match u.slot {
        Slot::Constant => {
            &&& slots.constant is Some
            &&& headed(u.effect, 0x52, slots.constant->0, 65535)
            &&& u.effect.params == (EffectParams::Constant { level })
            &&& plays(u.event, slots.constant->0, true)
        },
        Slot::Kick => false,
        Slot::Spring => {
            &&& slots.spring is Some
            &&& headed(u.effect, 0x53, slots.spring->0, 0)
            &&& pulls(u.effect.params, out.spring, out.spring_center)
            &&& plays(u.event, slots.spring->0, out.spring > 0)
        },
        Slot::Damper => {
            &&& slots.damper is Some
            &&& headed(u.effect, 0x55, slots.damper->0, 0)
            &&& pulls(u.effect.params, out.damper, 0)
            &&& plays(u.event, slots.damper->0, out.damper > 0)
        },
        Slot::Rumble => {
            &&& slots.rumble is Some
            &&& periodic ==> headed(u.effect, 0x51, slots.rumble->0, 0) && waves(
                u.effect.params,
                out.rumble,
                out.rumble_period_ms,
            )
            &&& !periodic ==> headed(u.effect, 0x50, slots.rumble->0, 0) && shakes(
                u.effect.params,
                out.rumble,
            )
            &&& plays(u.event, slots.rumble->0, out.rumble > 0)
        },
    }
}

/// Every update that targets lead to carries exactly the target of its slot to
/// the id of that slot, and plays it exactly while it exerts a force.
#[verifier::rlimit(40)]
pub proof fn law_updates_carry_their_targets(
    dev: FfbDevice,
    out: EffectLevels,
    todo: Vec<SlotUpdate>,
    i: int,
)
    requires
        call_ensures(FfbDevice::apply, (&dev, &out), todo),
        0 <= i < todo@.len(),
    ensures
        right_update(
            todo@[i],
            dev.slots(),
            dev.info_view().supports_periodic,
            out,
            goal(dev.slots(), out).constant,
        ),
{
    let aim = goal(dev.slots(), out);
    let periodic = dev.info_view().supports_periodic;
    lemma_updates_by_part(dev.slots(), dev.sent(), periodic, aim);
    let u = todo@[i];
    assert(updates(dev.slots(), dev.sent(), periodic, aim)[i] == u);
    assert(seq![u][0] == u);
}

/// A slot comes before another one: first the constant force, then the kick,
/// the spring, the damper and the rumble.
pub open spec fn comes_first(a: Slot, b: Slot) -> bool {
    match b {
        Slot::Constant => false,
        Slot::Kick => a is Constant,
        Slot::Spring => a is Constant || a is Kick,
        Slot::Damper => a is Constant || a is Kick || a is Spring,
        Slot::Rumble => !(a is Rumble),
    }
}

/// Some update is for a slot.
pub open spec fn writes(todo: Seq<SlotUpdate>, slot: Slot) -> bool {
    exists|i: int| 0 <= i < todo.len() && (#[trigger] todo[i]).slot == slot
}

#[verifier::rlimit(40)]
proof fn lemma_parts_are_written(slots: Slots, sent: Sent, periodic: bool, out: EffectLevels)
    ensures
        ({
            let todo = updates(slots, sent, periodic, out);
            &&& writes(todo, Slot::Constant) <==> constant_update(slots, sent, out).len() > 0
            &&& writes(todo, Slot::Spring) <==> spring_update(slots, sent, out).len() > 0
            &&& writes(todo, Slot::Damper) <==> damper_update(slots, sent, out).len() > 0
            &&& writes(todo, Slot::Rumble) <==> rumble_update(slots, sent, periodic, out).len() > 0
        }),
{
    let a = constant_update(slots, sent, out);
    let b = spring_update(slots, sent, out);
    let c = damper_update(slots, sent, out);
    let d = rumble_update(slots, sent, periodic, out);
    let todo = updates(slots, sent, periodic, out);
    if a.len() > 0 {
        assert(todo[0].slot == Slot::Constant);
    }
    if b.len() > 0 {
        assert(todo[a.len() as int].slot == Slot::Spring);
    }
    if c.len() > 0 {
        assert(todo[(a.len() + b.len()) as int].slot == Slot::Damper);
    }
    if d.len() > 0 {
        assert(todo[(a.len() + b.len() + c.len()) as int].slot == Slot::Rumble);
    }
    lemma_updates_by_part(slots, sent, periodic, out);
    assert forall|i: int| 0 <= i < todo.len() implies {
        let s = (#[trigger] todo[i]).slot;
        &&& s == Slot::Constant ==> a.len() > 0
        &&& s == Slot::Spring ==> b.len() > 0
        &&& s == Slot::Damper ==> c.len() > 0
        &&& s == Slot::Rumble ==> d.len() > 0
    } by {
        assert(seq![todo[i]][0] == todo[i]);
    }
}

/// A slot is written exactly when it is taken and its target has moved: the
/// constant force by more than 150, strengths by more than 256, the rumble
/// period by more than 5, and a spring that pulls at every time.
#[verifier::rlimit(60)]
pub proof fn law_slots_are_written_when_they_moved(
    dev: FfbDevice,
    out: EffectLevels,
    todo: Vec<SlotUpdate>,
)
    requires
        call_ensures(FfbDevice::apply, (&dev, &out), todo),
    ensures
        ({
            let level = goal(dev.slots(), out).constant;
            let sent = dev.sent();
            &&& writes(todo@, Slot::Constant) <==> dev.slots().constant is Some && (level
                - sent.constant > 150 || sent.constant - level > 150)
            &&& writes(todo@, Slot::Spring) <==> dev.slots().spring is Some && (out.spring > 0
                || sent.spring > 256)
            &&& writes(todo@, Slot::Damper) <==> dev.slots().damper is Some && (out.damper
                - sent.damper > 256 || sent.damper - out.damper > 256)
            &&& writes(todo@, Slot::Rumble) <==> dev.slots().rumble is Some && (out.rumble
                - sent.rumble > 256 || sent.rumble - out.rumble > 256 || out.rumble_period_ms
                - sent.rumble_period > 5 || sent.rumble_period - out.rumble_period_ms > 5)
        }),
{
    let aim = goal(dev.slots(), out);
    let periodic = dev.info_view().supports_periodic;
    lemma_parts_are_written(dev.slots(), dev.sent(), periodic, aim);
}

/// Each slot is written at most once, and they are written in order: constant
/// force, spring, damper, rumble.
pub proof fn law_slots_are_written_in_order(
    dev: FfbDevice,
    out: EffectLevels,
    todo: Vec<SlotUpdate>,
    i: int,
    j: int,
)
    requires
        call_ensures(FfbDevice::apply, (&dev, &out), todo),
        0 <= i < j < todo@.len(),
    ensures
        comes_first(todo@[i].slot, todo@[j].slot),
{
    let aim = goal(dev.slots(), out);
    let periodic = dev.info_view().supports_periodic;
    law_updates_address_taken_slots_once(dev.slots(), dev.sent(), periodic, aim);
    let all = updates(dev.slots(), dev.sent(), periodic, aim);
    assert(rank(all[i].slot) < rank(all[j].slot));
}

/// A whole number is the share of a gap that a strength out of 65535 stands
/// for, rounded away from zero.
pub open spec fn is_share(n: int, gap: int, strength: int) -> bool {
    if gap >= 0 {
        gap * strength <= n * 65535 < gap * strength + 65535
    } else {
        gap * strength - 65535 < n * 65535 <= gap * strength
    }
}

/// The level of the constant force: the lateral force, plus the pull of a
/// missing spring towards its center, plus the drag of a missing damper against
/// the motion, kept within 16 bits. Everything else stays as it is.
pub proof fn law_the_constant_force_stands_in(
    slots: Slots,
    out: EffectLevels,
    pull: int,
    drag: int,
)
    requires
        slots.spring is Some ==> pull == 0,
        slots.spring is None ==> is_share(
            pull,
            out.spring_center - out.steering,
            out.spring as int,
        ),
        slots.damper is Some ==> drag == 0,
        slots.damper is None ==> is_share(drag, -16 * out.steering_motion, out.damper as int),
    ensures
        ({
            let force = out.constant + pull + drag;
            let aim = goal(slots, out);
            &&& -32768 <= force <= 32767 ==> aim.constant == force
            &&& force > 32767 ==> aim.constant == 32767
            &&& force < -32768 ==> aim.constant == -32768
            &&& aim == (EffectLevels { constant: aim.constant, ..out })
        }),
{
    if slots.spring is None {
        lemma_is_share(pull, out.spring_center - out.steering, out.spring);
    }
    if slots.damper is None {
        lemma_is_share(drag, -16 * out.steering_motion, out.damper);
    }
}

proof fn lemma_is_share(n: int, gap: int, strength: u16)
    requires
        is_share(n, gap, strength as int),
    ensures
        n == share(gap, strength),
{
    let product = gap * strength;
    assert(-gap * strength == -product) by (nonlinear_arith)
        requires
            product == gap * strength,
    ;
}

/// A description asks for a slot.
pub open spec fn wanted(info: DeviceInfo, slot: Slot) -> bool {
    match slot {
        Slot::Constant => info.supports_constant,
        Slot::Kick => info.supports_constant,
        Slot::Spring => info.supports_spring,
        Slot::Damper => info.supports_damper,
        Slot::Rumble => info.supports_periodic || info.supports_rumble,
    }
}

/// A slot starts out with an effect of its type that exerts no force.
pub open spec fn right_setup(s: SlotSetup, info: DeviceInfo) -> bool {
    match s.slot {
        Slot::Constant => headed(s.effect, 0x52, -1i16, 65535) && s.effect.params
            == (EffectParams::Constant { level: 0 }),
        Slot::Kick => headed(s.effect, 0x52, -1i16, 300) && s.effect.params
            == (EffectParams::Constant { level: 0 }),
        Slot::Spring => headed(s.effect, 0x53, -1i16, 0) && pulls(s.effect.params, 0, 0),
        Slot::Damper => headed(s.effect, 0x55, -1i16, 0) && pulls(s.effect.params, 0, 0),
        Slot::Rumble => if info.supports_periodic {
            headed(s.effect, 0x51, -1i16, 0) && waves(s.effect.params, 0, 50)
        } else {
            headed(s.effect, 0x50, -1i16, 0) && shakes(s.effect.params, 0)
        },
    }
}

proof fn lemma_wanted(info: DeviceInfo, plan: Seq<SlotSetup>)
    requires
        forall|j: int, k: int|
            0 <= j < k < plan.len() ==> rank((#[trigger] plan[j]).slot) < rank(
                (#[trigger] plan[k]).slot,
            ),
        forall|i: int| 0 <= i < plan.len() ==> wanted(info, (#[trigger] plan[i]).slot),
        info.supports_constant ==> plan.len() >= 2 && plan[0].slot == Slot::Constant && plan[1].slot
            == Slot::Kick,
        info.supports_spring ==> exists|i: int|
            0 <= i < plan.len() && (#[trigger] plan[i]).slot == Slot::Spring,
        info.supports_damper ==> exists|i: int|
            0 <= i < plan.len() && (#[trigger] plan[i]).slot == Slot::Damper,
        info.supports_periodic || info.supports_rumble ==> exists|i: int|
            0 <= i < plan.len() && (#[trigger] plan[i]).slot == Slot::Rumble,
    ensures
        forall|slot: Slot| #[trigger] wanted(info, slot) <==> exists|i: int|
            0 <= i < plan.len() && (#[trigger] plan[i]).slot == slot,
        forall|i: int, j: int|
            0 <= i < j < plan.len() ==> comes_first(
                (#[trigger] plan[i]).slot,
                (#[trigger] plan[j]).slot,
            ),
{
    assert forall|slot: Slot| #[trigger] wanted(info, slot) implies exists|i: int|
        0 <= i < plan.len() && (#[trigger] plan[i]).slot == slot by {
        match slot {
            Slot::Constant => {
                assert(plan[0].slot == slot);
            },
            Slot::Kick => {
                assert(plan[1].slot == slot);
            },
            _ => {},
        }
    }
    assert forall|i: int, j: int| 0 <= i < j < plan.len() implies comes_first(
        (#[trigger] plan[i]).slot,
        (#[trigger] plan[j]).slot,
    ) by {
        assert(rank(plan[i].slot) < rank(plan[j].slot));
    }
}

/// A device is set up with exactly the slots that it supports, each once and in
/// order: constant force, kick, spring, damper, rumble.
pub proof fn law_setup_takes_what_is_supported(info: DeviceInfo, plan: Vec<SlotSetup>)
    requires
        call_ensures(FfbDevice::setup, (&info,), plan),
    ensures
        forall|slot: Slot| #[trigger] wanted(info, slot) <==> exists|i: int|
            0 <= i < plan@.len() && (#[trigger] plan@[i]).slot == slot,
        forall|i: int, j: int|
            0 <= i < j < plan@.len() ==> comes_first(
                (#[trigger] plan@[i]).slot,
                (#[trigger] plan@[j]).slot,
            ),
{
    lemma_setup_slots(info@);
    lemma_wanted(info, plan@);
}

/// Each slot starts out with an effect of its own type that exerts no force.
/// Periodic effects are preferred to rumble motors.
#[verifier::rlimit(40)]
pub proof fn law_setups_exert_no_force(info: DeviceInfo, plan: Vec<SlotSetup>, i: int)
    requires
        call_ensures(FfbDevice::setup, (&info,), plan),
        0 <= i < plan@.len(),
    ensures
        right_setup(plan@[i], info),
{
}

proof fn lemma_more_ids(plan: Seq<SlotSetup>, ids: Seq<i16>)
    ensures
        ids.len() > plan.len() ==> slots_given(plan, ids) == slots_given(
            plan,
            ids.take(plan.len() as int),
        ),
    decreases ids.len(),
{
    if ids.len() > plan.len() {
        let front = ids.drop_last();
        lemma_more_ids(plan, front);
        assert(front.take(plan.len() as int) =~= ids.take(plan.len() as int));
        if front.len() == plan.len() {
            assert(front =~= ids.take(plan.len() as int));
        }
    }
}

/// Opening succeeds exactly when the kernel gave an id for every setup. The
/// device then has these ids in the slots of the setups and no other slots, is
/// what it was described as, and counts as having been sent nothing. Otherwise
/// the events that come back release the slots that were taken.
#[verifier::rlimit(40)]
pub proof fn law_opening_needs_every_slot(
    path: String,
    info: DeviceInfo,
    ids: Vec<i16>,
    plan: Vec<SlotSetup>,
    out: Result<FfbDevice, Vec<FfEvent>>,
)
    requires
        call_ensures(FfbDevice::setup, (&info,), plan),
        call_ensures(FfbDevice::open, (path, info, &ids), out),
    ensures
        out is Ok <==> ids@.len() >= plan@.len(),
        match out {
            Ok(dev) => {
                &&& dev.path_text() == path@
                &&& dev.info_view() == info@
                &&& forall|i: int|
                    0 <= i < plan@.len() ==> slot_id(dev.slots(), (#[trigger] plan@[i]).slot)
                        == Some(ids@[i])
                &&& forall|slot: Slot| #[trigger]
                    slot_id(dev.slots(), slot) is Some <==> wanted(info, slot)
                &&& dev.sent().constant == 0 && dev.sent().spring == 0 && dev.sent().damper == 0
                &&& dev.sent().rumble == 0 && dev.sent().rumble_period == 0
            },
            Err(events) => {
                &&& events@.len() > 0
                &&& events@.last().code == 0x60 && events@.last().value == 65535
                &&& forall|i: int|
                    0 <= i < ids@.len() && (#[trigger] plan@[i]).slot != Slot::Kick ==> exists|
                        k: int,
                    |
                        0 <= k < events@.len() && plays(#[trigger] events@[k], ids@[i], false)
            },
        },
{
    let p = setup(info@);
    let used = if ids@.len() <= p.len() {
        ids@
    } else {
        ids@.take(p.len() as int)
    };
    let slots = slots_given(p, ids@);
    lemma_more_ids(p, ids@);
    lemma_setup_slots(info@);
    lemma_slots_given(p, used);
    law_setup_takes_what_is_supported(info, plan);
    match out {
        Ok(dev) => {
            law_open_takes_the_supported_slots(info@, used);
            assert forall|i: int| 0 <= i < plan@.len() implies slot_id(
                dev.slots(),
                (#[trigger] plan@[i]).slot,
            ) == Some(ids@[i]) by {
                assert(slot_id(slots, p[i].slot) == Some(used[i]));
            }
            assert forall|slot: Slot| #[trigger]
                slot_id(dev.slots(), slot) is Some <==> wanted(info, slot) by {
                match slot {
                    Slot::Constant => {},
                    Slot::Kick => {},
                    Slot::Spring => {},
                    Slot::Damper => {},
                    Slot::Rumble => {},
                }
            }
        },
        Err(events) => {
            assert forall|i: int|
                0 <= i < ids@.len() && (#[trigger] plan@[i]).slot != Slot::Kick implies exists|
                    k: int,
                |
                    0 <= k < events@.len() && plays(#[trigger] events@[k], ids@[i], false) by {
                let slot = plan@[i].slot;
                assert(slot_id(slots, p[i].slot) == Some(ids@[i]));
                law_release_stops_every_driven_slot(slots, slot);
                let k = choose|k: int|
                    0 <= k < events@.len() && #[trigger] events@[k] == play(ids@[i], false);
                assert(plays(events@[k], ids@[i], false));
            }
        },
    }
}

/// Releasing a wheel stops the constant force, the spring, the damper and the
/// rumble where their slots are taken, stops nothing else, and ends with full
/// gain.
#[verifier::rlimit(40)]
pub proof fn law_release_stops_what_is_driven(dev: FfbDevice, events: Vec<FfEvent>)
    requires
        call_ensures(FfbDevice::stop_all, (&dev,), events),
    ensures
        events@.len() > 0,
        events@.last().type_ == 0x15 && events@.last().code == 0x60 && events@.last().value
            == 65535,
        forall|slot: Slot|
            slot != Slot::Kick && (#[trigger] slot_id(dev.slots(), slot)) is Some ==> exists|k: int|
                0 <= k < events@.len() - 1 && plays(
                    #[trigger] events@[k],
                    slot_id(dev.slots(), slot)->0,
                    false,
                ),
        forall|k: int|
            0 <= k < events@.len() - 1 ==> {
                let s = dev.slots();
                let e = #[trigger] events@[k];
                ||| s.constant is Some && plays(e, s.constant->0, false)
                ||| s.spring is Some && plays(e, s.spring->0, false)
                ||| s.damper is Some && plays(e, s.damper->0, false)
                ||| s.rumble is Some && plays(e, s.rumble->0, false)
            },
{
    let s = dev.slots();
    let a = stop_of(s.constant);
    let b = stop_of(s.spring);
    let c = stop_of(s.damper);
    let d = stop_of(s.rumble);
    assert forall|slot: Slot|
        slot != Slot::Kick && (#[trigger] slot_id(s, slot)) is Some implies exists|k: int|
        0 <= k < events@.len() - 1 && plays(#[trigger] events@[k], slot_id(s, slot)->0, false) by {
        let at = match slot {
            Slot::Constant => 0int,
            Slot::Kick => 0int,
            Slot::Spring => a.len() as int,
            Slot::Damper => (a.len() + b.len()) as int,
            Slot::Rumble => (a.len() + b.len() + c.len()) as int,
        };
        assert(plays(events@[at], slot_id(s, slot)->0, false));
    }
}

/// Once the first updates were carried out, exactly their slots count as having
/// been sent their targets; all other slots keep what they had, and nothing
/// else about the device changes.
pub proof fn law_settling_notes_what_was_done(
    dev: &mut FfbDevice,
    out: EffectLevels,
    todo: Vec<SlotUpdate>,
    done: usize,
)
    requires
        call_ensures(FfbDevice::apply, (&*old(dev), &out), todo),
        call_ensures(FfbDevice::settle, (dev, &out, done), ()),
    ensures
        ({
            let first = if done <= todo@.len() {
                todo@.take(done as int)
            } else {
                todo@
            };
            let before = old(dev).sent();
            let after = final(dev).sent();
            &&& after.constant == (if writes(first, Slot::Constant) {
                goal(old(dev).slots(), out).constant
            } else {
                before.constant
            })
            &&& after.spring == (if writes(first, Slot::Spring) {
                out.spring
            } else {
                before.spring
            })
            &&& after.damper == (if writes(first, Slot::Damper) {
                out.damper
            } else {
                before.damper
            })
            &&& after.rumble == (if writes(first, Slot::Rumble) {
                out.rumble
            } else {
                before.rumble
            })
            &&& after.rumble_period == (if writes(first, Slot::Rumble) {
                out.rumble_period_ms
            } else {
                before.rumble_period
            })
        }),
        final(dev).slots() == old(dev).slots(),
        final(dev).info_view() == old(dev).info_view(),
        final(dev).path_text() == old(dev).path_text(),
{
    let aim = goal(old(dev).slots(), out);
    let first = if done <= todo@.len() {
        todo@.take(done as int)
    } else {
        todo@
    };
    lemma_sent_after_value(old(dev).sent(), first, aim, Slot::Constant);
    lemma_sent_after_value(old(dev).sent(), first, aim, Slot::Spring);
    lemma_sent_after_value(old(dev).sent(), first, aim, Slot::Damper);
    lemma_sent_after_value(old(dev).sent(), first, aim, Slot::Rumble);
}

/// The steering motion is the distance between two positions that were seen
/// one after the other, kept within 16 bits; the first position is no motion.
pub proof fn law_motion_is_a_distance(track: &mut SteeringTrack, steering: i16, motion: i16)
    requires
        call_ensures(SteeringTrack::motion, (track, steering), motion),
    ensures
        final(track).last() == Some(steering),
        match old(track).last() {
            Some(before) => {
                let way = steering - before;
                &&& -32768 <= way <= 32767 ==> motion == way
                &&& way > 32767 ==> motion == 32767
                &&& way < -32768 ==> motion == -32768
            },
            None => motion == 0,
        },
{
}

/// An opened wheel is first given full gain, then its own centering is taken
/// away.
pub proof fn law_opening_takes_the_centering_away(events: Vec<FfEvent>)
    requires
        call_ensures(FfbDevice::opening_events, (), events),
    ensures
        events@.len() == 2,
        events@[0].type_ == 0x15 && events@[0].code == 0x60 && events@[0].value == 65535,
        events@[1].type_ == 0x15 && events@[1].code == 0x61 && events@[1].value == 0,
{
}

/// An opened device shows the path and the description that it was opened with.
pub proof fn law_devices_show_what_they_were_opened_with(
    path: String,
    info: DeviceInfo,
    ids: Vec<i16>,
    dev: FfbDevice,
    shown: &DeviceInfo,
    place: &str,
)
    requires
        call_ensures(FfbDevice::open, (path, info, &ids), Ok(dev)),
        call_ensures(FfbDevice::info, (&dev,), shown),
        call_ensures(FfbDevice::path, (&dev,), place),
    ensures
        shown@ == info@,
        place@ == path@,
{
}

/// A fresh track has seen no position, and neither has one that forgot.
pub proof fn law_forgetting_starts_anew(fresh: SteeringTrack, track: &mut SteeringTrack)
    requires
        call_ensures(SteeringTrack::new, (), fresh),
        call_ensures(SteeringTrack::forget, (track,), ()),
    ensures
        fresh.last() is None,
        final(track).last() is None,
{
}

/// A new effect asks for a new slot and has the type, length and parameters
/// that it was given.
pub proof fn law_new_effects_ask_for_a_slot(
    type_: u16,
    ms: u16,
    params: EffectParams,
    eff: Effect,
)
    requires
        call_ensures(new_effect, (type_, ms, params), eff),
    ensures
        headed(eff, type_, -1i16, ms),
        eff.params == params,
{
}

/// The slots that a device takes go by the effect types that it advertises, from
/// the codes of the kernel to the uploads: each type that it advertises gets an
/// effect of that very type. Only rumble motors give way to periodic effects.
pub proof fn law_advertised_effects_get_their_slots(
    codes: Vec<u16>,
    support: FfSupport,
    c: Candidate,
    info: DeviceInfo,
    plan: Vec<SlotSetup>,
)
    requires
        call_ensures(ff_support, (&codes,), support),
        c.ff == Some(support),
        call_ensures(describe, (&c,), info),
        call_ensures(FfbDevice::setup, (&info,), plan),
    ensures
        uploads(plan@, 0x51) <==> codes@.contains(0x51),
        uploads(plan@, 0x52) <==> codes@.contains(0x52),
        uploads(plan@, 0x53) <==> codes@.contains(0x53),
        uploads(plan@, 0x55) <==> codes@.contains(0x55),
        uploads(plan@, 0x50) <==> codes@.contains(0x50) && !codes@.contains(0x51),
{
    law_descriptions_say_what_is_advertised(codes, support, c, info);
    law_setup_takes_what_is_supported(info, plan);
    assert forall|i: int| 0 <= i < plan@.len() implies {
        let s = #[trigger] plan@[i];
        &&& wanted(info, s.slot)
        &&& s.effect.type_ == slot_type(info, s.slot)
    } by {
        law_setups_exert_no_force(info, plan, i);
    }
    lemma_uploads(info, plan@, Slot::Constant);
    lemma_uploads(info, plan@, Slot::Spring);
    lemma_uploads(info, plan@, Slot::Damper);
    lemma_uploads(info, plan@, Slot::Rumble);
}

/// Some setup uploads an effect of a type.
pub open spec fn uploads(plan: Seq<SlotSetup>, type_: u16) -> bool {
    exists|i: int| 0 <= i < plan.len() && (#[trigger] plan[i]).effect.type_ == type_
}

/// The type of the effect in a slot.
pub open spec fn slot_type(info: DeviceInfo, slot: Slot) -> u16 {
    match slot {
        Slot::Constant => 0x52,
        Slot::Kick => 0x52,
        Slot::Spring => 0x53,
        Slot::Damper => 0x55,
        Slot::Rumble => if info.supports_periodic {
            0x51
        } else {
            0x50
        },
    }
}

proof fn lemma_uploads(info: DeviceInfo, plan: Seq<SlotSetup>, slot: Slot)
    requires
        wanted(info, slot) <==> exists|i: int|
            0 <= i < plan.len() && (#[trigger] plan[i]).slot == slot,
        forall|i: int|
            0 <= i < plan.len() ==> (#[trigger] plan[i]).effect.type_ == slot_type(
                info,
                plan[i].slot,
            ) && wanted(info, plan[i].slot),
    ensures
        wanted(info, slot) ==> uploads(plan, slot_type(info, slot)),
        forall|type_: u16|
            #[trigger] uploads(plan, type_) ==> exists|s: Slot|
                #[trigger] wanted(info, s) && slot_type(info, s) == type_,
{
    if wanted(info, slot) {
        let i = choose|i: int| 0 <= i < plan.len() && (#[trigger] plan[i]).slot == slot;
        assert(plan[i].effect.type_ == slot_type(info, slot));
    }
    assert forall|type_: u16| #[trigger] uploads(plan, type_) implies exists|s: Slot|
        #[trigger] wanted(info, s) && slot_type(info, s) == type_ by {
        let i = choose|i: int| 0 <= i < plan.len() && (#[trigger] plan[i]).effect.type_ == type_;
        assert(wanted(info, plan[i].slot));
    }
}

} // verus!
