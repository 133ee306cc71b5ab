//! What the configuration window shows, and what its controls do to the
//! configuration. Drawing is the caller's part.

use crate::clap_lite::TestEffect;
use crate::config::{
    is_number, law_patterns_are_those_of_the_numbers, TuningConfig, MINUS_1, N0, N0_40, N0_80, N1,
    N10, N1_5, N2, N3, N30, N500, N60, N80,
};
use crate::shared::{DeviceInfo, DeviceInfoView};
use crate::telemetry::Telemetry;
use crate::text::{decimal, decimal_text, hex, hex_text, same_text, texts};
use crate::troubleshoot::{check_views, Check, CheckView, Severity};
use vstd::prelude::*;
use vstd::string::*;

verus! {

// ---------------------------------------------------------------------------
// Status
// ---------------------------------------------------------------------------

/// A short coloured text.
#[derive(Debug, Clone, Copy)]
pub struct Badge {
    pub red: u8,
    pub green: u8,
    pub blue: u8,
    pub text: &'static str,
}

/// The badge of a daemon.
pub fn daemon_badge(running: bool) -> (badge: Badge)
    ensures
        running ==> badge.red == 0x30 && badge.green == 0xc0 && badge.blue == 0x60 && badge.text@
            == "daemon running"@,
        !running ==> badge.red == 0xc0 && badge.green == 0x50 && badge.blue == 0x30 && badge.text@
            == "daemon down"@,
{
    if running {
        Badge { red: 0x30, green: 0xc0, blue: 0x60, text: "daemon running" }
    } else {
        Badge { red: 0xc0, green: 0x50, blue: 0x30, text: "daemon down" }
    }
}

/// A yes or no in words.
pub open spec fn yes_or_no(b: bool) -> Seq<char> {
    if b {
        "yes"@
    } else {
        "no"@
    }
}

/// Writes a yes or no in words.
pub fn yn(b: bool) -> (out: &'static str)
    ensures
        out@ == yes_or_no(b),
{
    if b {
        "yes"
    } else {
        "no"
    }
}

/// The lines that describe a wheel.
pub open spec fn wheel_lines(d: DeviceInfoView) -> Seq<Seq<char>> {
    seq![
        "Name:    "@ + d.name,
        "Path:    "@ + d.path,
        "VID/PID: "@ + hex(d.vendor_id as nat, 4, false) + ":"@ + hex(
            d.product_id as nat,
            4,
            false,
        ),
        "FFB:     constant="@ + yes_or_no(d.supports_constant) + " spring="@ + yes_or_no(
            d.supports_spring,
        ) + " damper="@ + yes_or_no(d.supports_damper) + " periodic="@ + yes_or_no(
            d.supports_periodic,
        ) + " rumble="@ + yes_or_no(d.supports_rumble),
        "Slots:   "@ + decimal(d.ff_effects_max as nat),
    ]
}

/// Describes a wheel, line by line.
pub fn device_lines(d: &DeviceInfo) -> (lines: Vec<String>)
    ensures
        texts(lines@) == wheel_lines(d@),
{
    let vendor: String = hex_text(d.vendor_id as u64, 4, false);
    let product: String = hex_text(d.product_id as u64, 4, false);
    let slots: String = decimal_text(d.ff_effects_max as u64);
    let mut lines: Vec<String> = Vec::new();
    lines.push("Name:    ".to_owned().concat(d.name.as_str()));
    lines.push("Path:    ".to_owned().concat(d.path.as_str()));
    lines.push("VID/PID: ".to_owned().concat(vendor.as_str()).concat(":").concat(product.as_str()));
    lines.push(
        "FFB:     constant=".to_owned().concat(yn(d.supports_constant)).concat(" spring=").concat(
            yn(d.supports_spring),
        ).concat(" damper=").concat(yn(d.supports_damper)).concat(" periodic=").concat(
            yn(d.supports_periodic),
        ).concat(" rumble=").concat(yn(d.supports_rumble)),
    );
    lines.push("Slots:   ".to_owned().concat(slots.as_str()));
    assert(texts(lines@) =~= wheel_lines(d@));
    lines
}

/// The lines that open the description of a frame.
pub open spec fn frame_lines(t: Telemetry) -> Seq<Seq<char>> {
    seq![
        "Seq:            "@ + decimal(t.sequence as nat),
        "In vehicle:     "@ + yes_or_no(t.flags & 0x01 != 0),
    ]
}

/// Opens the description of a frame; the measurements follow.
pub fn telemetry_lines(t: &Telemetry) -> (lines: Vec<String>)
    ensures
        texts(lines@) == frame_lines(*t),
{
    let sequence: String = decimal_text(t.sequence as u64);
    let mut lines: Vec<String> = Vec::new();
    lines.push("Seq:            ".to_owned().concat(sequence.as_str()));
    lines.push("In vehicle:     ".to_owned().concat(yn(t.in_vehicle())));
    assert(texts(lines@) =~= frame_lines(*t));
    lines
}

// ---------------------------------------------------------------------------
// Tuning
// ---------------------------------------------------------------------------

/// A setting that can be moved with a slider.
#[derive(Debug, Clone, Copy, PartialEq, Eq, Structural)]
pub enum Knob {
    MasterGain,
    OutputRate,
    SpringGain,
    SpeedCurveStart,
    SpeedCurveMax,
    MassSpringScale,
    NoPowerSteerBoost,
    LateralGain,
    DamperGain,
    ImplementDamperScale,
    RumbleGain,
    IdleRumble,
    SlopeGain,
    SlopeMax,
    CollisionGain,
}

/// The value of a setting: a bit pattern, or the update rate itself.
pub open spec fn knob(tuning: TuningConfig, which: Knob) -> u32 {
    match which {
        Knob::MasterGain => tuning.master_gain,
        Knob::OutputRate => tuning.output_hz,
        Knob::SpringGain => tuning.spring_gain,
        Knob::SpeedCurveStart => tuning.speed_curve_start_kmh,
        Knob::SpeedCurveMax => tuning.speed_curve_max_kmh,
        Knob::MassSpringScale => tuning.mass_spring_scale,
        Knob::NoPowerSteerBoost => tuning.no_power_steer_boost,
        Knob::LateralGain => tuning.lateral_gain,
        Knob::DamperGain => tuning.damper_gain,
        Knob::ImplementDamperScale => tuning.implement_damper_scale,
        Knob::RumbleGain => tuning.rumble_gain,
        Knob::IdleRumble => tuning.idle_rumble,
        Knob::SlopeGain => tuning.slope_gain,
        Knob::SlopeMax => tuning.slope_max,
        Knob::CollisionGain => tuning.collision_gain,
    }
}

/// Reads a setting: a bit pattern, or the update rate itself.
pub fn knob_value(tuning: &TuningConfig, which: Knob) -> (value: u32)
    ensures
        value == knob(*tuning, which),
{
    match which {
        Knob::MasterGain => tuning.master_gain,
        Knob::OutputRate => tuning.output_hz,
        Knob::SpringGain => tuning.spring_gain,
        Knob::SpeedCurveStart => tuning.speed_curve_start_kmh,
        Knob::SpeedCurveMax => tuning.speed_curve_max_kmh,
        Knob::MassSpringScale => tuning.mass_spring_scale,
        Knob::NoPowerSteerBoost => tuning.no_power_steer_boost,
        Knob::LateralGain => tuning.lateral_gain,
        Knob::DamperGain => tuning.damper_gain,
        Knob::ImplementDamperScale => tuning.implement_damper_scale,
        Knob::RumbleGain => tuning.rumble_gain,
        Knob::IdleRumble => tuning.idle_rumble,
        Knob::SlopeGain => tuning.slope_gain,
        Knob::SlopeMax => tuning.slope_max,
        Knob::CollisionGain => tuning.collision_gain,
    }
}

/// Changes a setting and leaves everything else as it is.
pub fn set_knob(tuning: &mut TuningConfig, which: Knob, value: u32)
    ensures
        knob(*final(tuning), which) == value,
        forall|other: Knob|
            other != which ==> #[trigger] knob(*final(tuning), other) == knob(*old(tuning), other),
        final(tuning).enabled == old(tuning).enabled,
        final(tuning).spring_floor == old(tuning).spring_floor,
{
    match which {
        Knob::MasterGain => {
            tuning.master_gain = value;
        },
        Knob::OutputRate => {
            tuning.output_hz = value;
        },
        Knob::SpringGain => {
            tuning.spring_gain = value;
        },
        Knob::SpeedCurveStart => {
            tuning.speed_curve_start_kmh = value;
        },
        Knob::SpeedCurveMax => {
            tuning.speed_curve_max_kmh = value;
        },
        Knob::MassSpringScale => {
            tuning.mass_spring_scale = value;
        },
        Knob::NoPowerSteerBoost => {
            tuning.no_power_steer_boost = value;
        },
        Knob::LateralGain => {
            tuning.lateral_gain = value;
        },
        Knob::DamperGain => {
            tuning.damper_gain = value;
        },
        Knob::ImplementDamperScale => {
            tuning.implement_damper_scale = value;
        },
        Knob::RumbleGain => {
            tuning.rumble_gain = value;
        },
        Knob::IdleRumble => {
            tuning.idle_rumble = value;
        },
        Knob::SlopeGain => {
            tuning.slope_gain = value;
        },
        Knob::SlopeMax => {
            tuning.slope_max = value;
        },
        Knob::CollisionGain => {
            tuning.collision_gain = value;
        },
    }
}

/// A slider: its label, the bit patterns of its ends, and what it moves.
#[derive(Debug, Clone, Copy)]
pub struct Slider {
    pub label: &'static str,
    pub lo: u32,
    pub hi: u32,
    pub moves: Knob,
}

/// A [`Slider`] by the characters of its label.
pub struct SliderView {
    pub label: Seq<char>,
    pub lo: u32,
    pub hi: u32,
    pub moves: Knob,
}

impl View for Slider {
    type V = SliderView;

    open spec fn view(&self) -> SliderView {
        SliderView { label: self.label@, lo: self.lo, hi: self.hi, moves: self.moves }
    }
}

/// Sliders under a heading.
#[derive(Debug)]
pub struct SliderGroup {
    pub heading: &'static str,
    pub sliders: Vec<Slider>,
}

/// A [`SliderGroup`] by characters.
pub struct SliderGroupView {
    pub heading: Seq<char>,
    pub sliders: Seq<SliderView>,
}

impl View for SliderGroup {
    type V = SliderGroupView;

    open spec fn view(&self) -> SliderGroupView {
        SliderGroupView {
            heading: self.heading@,
            sliders: self.sliders@.map_values(|s: Slider| s@),
        }
    }
}

/// A slider that moves a setting.
pub open spec fn slider_of(label: Seq<char>, lo: u32, hi: u32, moves: Knob) -> SliderView {
    SliderView { label, lo, hi, moves }
}

/// The sliders of the tuning page, from top to bottom.
pub open spec fn tuning_page() -> Seq<SliderGroupView> {
    seq![
        SliderGroupView {
            heading: "Global"@,
            sliders: seq![
                slider_of("Master gain"@, N0, N2, Knob::MasterGain),
                slider_of("Output rate (Hz)"@, N60, N500, Knob::OutputRate),
            ],
        },
        SliderGroupView {
            heading: "Centering spring"@,
            sliders: seq![
                slider_of("Spring gain"@, N0, N1_5, Knob::SpringGain),
                slider_of("Speed ramp start (km/h)"@, N0, N30, Knob::SpeedCurveStart),
                slider_of("Speed ramp max (km/h)"@, N10, N80, Knob::SpeedCurveMax),
                slider_of("Mass -> spring scale"@, N0, N1, Knob::MassSpringScale),
                slider_of("Boost w/o power steering"@, N1, N3, Knob::NoPowerSteerBoost),
            ],
        },
        SliderGroupView {
            heading: "Lateral force"@,
            sliders: seq![slider_of("Lateral gain"@, MINUS_1, N1, Knob::LateralGain)],
        },
        SliderGroupView {
            heading: "Damper"@,
            sliders: seq![
                slider_of("Damper gain"@, N0, N1, Knob::DamperGain),
                slider_of("Implement mass -> damper"@, N0, N1, Knob::ImplementDamperScale),
            ],
        },
        SliderGroupView {
            heading: "Surface rumble"@,
            sliders: seq![
                slider_of("Rumble gain"@, N0, N1_5, Knob::RumbleGain),
                slider_of("Idle vibration"@, N0, N0_40, Knob::IdleRumble),
            ],
        },
        SliderGroupView {
            heading: "Slope / roll"@,
            sliders: seq![
                slider_of("Slope gain"@, N0, N1_5, Knob::SlopeGain),
                slider_of("Slope max offset"@, N0, N0_80, Knob::SlopeMax),
            ],
        },
        SliderGroupView {
            heading: "Collision kick"@,
            sliders: seq![slider_of("Collision gain"@, N0, N1_5, Knob::CollisionGain)],
        },
    ]
}

fn group(heading: &'static str, sliders: Vec<Slider>) -> (out: SliderGroup)
    ensures
        out@ == (SliderGroupView {
            heading: heading@,
            sliders: sliders@.map_values(|s: Slider| s@),
        }),
{
    SliderGroup { heading, sliders }
}

/// The first half of the tuning page: the update rate and the spring.
fn upper_groups() -> (groups: Vec<SliderGroup>)
    ensures
        groups@.map_values(|g: SliderGroup| g@) == tuning_page().take(3),
{
    let global: Vec<Slider> = vec![
        Slider { label: "Master gain", lo: N0, hi: N2, moves: Knob::MasterGain },
        Slider { label: "Output rate (Hz)", lo: N60, hi: N500, moves: Knob::OutputRate },
    ];
    let spring: Vec<Slider> = vec![
        Slider { label: "Spring gain", lo: N0, hi: N1_5, moves: Knob::SpringGain },
        Slider { label: "Speed ramp start (km/h)", lo: N0, hi: N30, moves: Knob::SpeedCurveStart },
        Slider { label: "Speed ramp max (km/h)", lo: N10, hi: N80, moves: Knob::SpeedCurveMax },
        Slider { label: "Mass -> spring scale", lo: N0, hi: N1, moves: Knob::MassSpringScale },
        Slider { label: "Boost w/o power steering", lo: N1, hi: N3, moves: Knob::NoPowerSteerBoost },
    ];
    let lateral: Vec<Slider> = vec![
        Slider { label: "Lateral gain", lo: MINUS_1, hi: N1, moves: Knob::LateralGain },
    ];
    proof {
        let page = tuning_page();
        assert(global@.map_values(|s: Slider| s@) =~= page[0].sliders);
        assert(spring@.map_values(|s: Slider| s@) =~= page[1].sliders);
        assert(lateral@.map_values(|s: Slider| s@) =~= page[2].sliders);
    }
    let groups: Vec<SliderGroup> = vec![
        group("Global", global),
        group("Centering spring", spring),
        group("Lateral force", lateral),
    ];
    assert(groups@.map_values(|g: SliderGroup| g@) =~= tuning_page().take(3));
    groups
}

/// The second half of the tuning page: damper, rumble, slope and collisions.
fn lower_groups() -> (groups: Vec<SliderGroup>)
    ensures
        groups@.map_values(|g: SliderGroup| g@) == tuning_page().skip(3),
{
    let damper: Vec<Slider> = vec![
        Slider { label: "Damper gain", lo: N0, hi: N1, moves: Knob::DamperGain },
        Slider {
            label: "Implement mass -> damper",
            lo: N0,
            hi: N1,
            moves: Knob::ImplementDamperScale,
        },
    ];
    let rumble: Vec<Slider> = vec![
        Slider { label: "Rumble gain", lo: N0, hi: N1_5, moves: Knob::RumbleGain },
        Slider { label: "Idle vibration", lo: N0, hi: N0_40, moves: Knob::IdleRumble },
    ];
    let slope: Vec<Slider> = vec![
        Slider { label: "Slope gain", lo: N0, hi: N1_5, moves: Knob::SlopeGain },
        Slider { label: "Slope max offset", lo: N0, hi: N0_80, moves: Knob::SlopeMax },
    ];
    let collision: Vec<Slider> = vec![
        Slider { label: "Collision gain", lo: N0, hi: N1_5, moves: Knob::CollisionGain },
    ];
    proof {
        let page = tuning_page();
        assert(damper@.map_values(|s: Slider| s@) =~= page[3].sliders);
        assert(rumble@.map_values(|s: Slider| s@) =~= page[4].sliders);
        assert(slope@.map_values(|s: Slider| s@) =~= page[5].sliders);
        assert(collision@.map_values(|s: Slider| s@) =~= page[6].sliders);
    }
    let groups: Vec<SliderGroup> = vec![
        group("Damper", damper),
        group("Surface rumble", rumble),
        group("Slope / roll", slope),
        group("Collision kick", collision),
    ];
    assert(groups@.map_values(|g: SliderGroup| g@) =~= tuning_page().skip(3));
    groups
}

/// The sliders of the tuning page.
pub fn tuning_groups() -> (groups: Vec<SliderGroup>)
    ensures
        groups@.map_values(|g: SliderGroup| g@) == tuning_page(),
{
    let mut groups: Vec<SliderGroup> = upper_groups();
    let mut rest: Vec<SliderGroup> = lower_groups();
    let ghost upper = groups@;
    let ghost lower = rest@;
    groups.append(&mut rest);
    proof {
        let view = |g: SliderGroup| g@;
        assert((upper + lower).map_values(view) =~= upper.map_values(view) + lower.map_values(view));
        assert(tuning_page().take(3) + tuning_page().skip(3) =~= tuning_page());
    }
    groups
}

// ---------------------------------------------------------------------------
// Profiles
// ---------------------------------------------------------------------------

/// What a preset feels like.
pub open spec fn feel_of(name: Seq<char>) -> Seq<char> {
    if name == "arcade"@ {
        "light, twitch-friendly; good for keyboard + wheel switchers"@
    } else if name == "realistic"@ {
        "default; tuned for Moza R5 on CachyOS"@
    } else if name == "heavy"@ {
        "more weight, more damping; great with big implements"@
    } else if name == "quiet"@ {
        "minimal rumble and low master gain"@
    } else {
        ""@
    }
}

/// Says what a preset feels like.
pub fn preset_description(name: &str) -> (out: &'static str)
    ensures
        out@ == feel_of(name@),
{
    if same_text(name, "arcade") {
        "light, twitch-friendly; good for keyboard + wheel switchers"
    } else if same_text(name, "realistic") {
        "default; tuned for Moza R5 on CachyOS"
    } else if same_text(name, "heavy") {
        "more weight, more damping; great with big implements"
    } else if same_text(name, "quiet") {
        "minimal rumble and low master gain"
    } else {
        ""
    }
}

/// The label of the button that plays a test effect.
pub fn test_button(kind: TestEffect) -> (label: &'static str)
    ensures
        label@ == (match kind {
            TestEffect::Constant => "Constant"@,
            TestEffect::Spring => "Spring"@,
            TestEffect::Damper => "Damper"@,
            TestEffect::Rumble => "Rumble"@,
            TestEffect::Sine => "Sine sweep"@,
        }),
{
    match kind {
        TestEffect::Constant => "Constant",
        TestEffect::Spring => "Spring",
        TestEffect::Damper => "Damper",
        TestEffect::Rumble => "Rumble",
        TestEffect::Sine => "Sine sweep",
    }
}

// ---------------------------------------------------------------------------
// Troubleshooting
// ---------------------------------------------------------------------------

/// The mark of a severity.
pub open spec fn severity_tag(severity: Severity) -> Seq<char> {
    match severity {
        Severity::Okay => "OK  "@,
        Severity::Warn => "WARN"@,
        Severity::Fail => "FAIL"@,
    }
}

/// The coloured mark of a severity.
pub fn severity_badge(severity: Severity) -> (badge: Badge)
    ensures
        badge.text@ == severity_tag(severity),
        severity == Severity::Okay ==> badge.red == 0x30 && badge.green == 0xc0 && badge.blue
            == 0x60,
        severity == Severity::Warn ==> badge.red == 0xe0 && badge.green == 0xb0 && badge.blue
            == 0x30,
        severity == Severity::Fail ==> badge.red == 0xd0 && badge.green == 0x40 && badge.blue
            == 0x40,
{
    match severity {
        Severity::Okay => Badge { red: 0x30, green: 0xc0, blue: 0x60, text: "OK  " },
        Severity::Warn => Badge { red: 0xe0, green: 0xb0, blue: 0x30, text: "WARN" },
        Severity::Fail => Badge { red: 0xd0, green: 0x40, blue: 0x40, text: "FAIL" },
    }
}

/// The lines of a finding on the clipboard.
pub open spec fn clip_entry(c: CheckView) -> Seq<char> {
    let line = "["@ + severity_tag(c.severity) + "] "@ + c.name + ": "@ + c.detail + "\n"@;
    match c.fix {
        Some(fix) => line + "     fix: "@ + fix + "\n"@,
        None => line,
    }
}

/// The findings on the clipboard.
pub open spec fn clip_text(checks: Seq<CheckView>) -> Seq<char>
    decreases checks.len(),
{
    if checks.len() == 0 {
        Seq::empty()
    } else {
        clip_text(checks.drop_last()) + clip_entry(checks.last())
    }
}

fn entry_text(c: &Check) -> (out: String)
    ensures
        out@ == clip_entry(c@),
{
    let tag: &str = severity_badge(c.severity).text;
    let line: String = "[".to_owned().concat(tag).concat("] ").concat(c.name.as_str()).concat(
        ": ",
    ).concat(c.detail.as_str()).concat("\n");
    match &c.fix {
        Some(fix) => line.concat("     fix: ").concat(fix.as_str()).concat("\n"),
        None => line,
    }
}

/// Writes findings down for the clipboard.
pub fn format_report(checks: &[Check]) -> (out: String)
    ensures
        out@ == clip_text(check_views(checks@)),
{
    let ghost v = check_views(checks@);
    let mut out: String = String::new();
    let mut i: usize = 0;
    assert(v.take(0) =~= Seq::empty());
    while i < checks.len()
        invariant
            i <= checks@.len(),
            v == check_views(checks@),
            out@ == clip_text(v.take(i as int)),
        decreases checks@.len() - i,
    {
        assert(v.take(i + 1).drop_last() =~= v.take(i as int));
        assert(v.take(i + 1).last() == checks@[i as int]@);
        let entry: String = entry_text(&checks[i]);
        out = out.concat(entry.as_str());
        i = i + 1;
    }
    assert(v.take(i as int) =~= v);
    out
}

// ---------------------------------------------------------------------------
// Saving
// ---------------------------------------------------------------------------

/// Keeps track of edits that are not on disk yet, and of the window's focus.
#[derive(Debug, Clone, Copy, PartialEq, Eq, Structural)]
pub struct Edits {
    pub dirty: bool,
    pub focused: bool,
}

impl Edits {
    /// No edits yet, in a window that has just opened.
    pub fn new() -> (edits: Self)
        ensures
            edits == (Edits { dirty: false, focused: true }),
    {
        Edits { dirty: false, focused: true }
    }

    /// Notes an edit.
    pub fn touch(&mut self)
        ensures
            *final(self) == (Edits { dirty: true, ..*old(self) }),
    {
        self.dirty = true;
    }

    /// Notes how the switch that turns effects on and off was shown: an edit if
    /// it moved.
    pub fn switch_shown(&mut self, was: bool, now: bool)
        ensures
            *final(self) == (Edits { dirty: old(self).dirty || was != now, ..*old(self) }),
    {
        if was != now {
            self.dirty = true;
        }
    }

    /// Notes an attempt to save. Edits stay pending until one succeeds.
    pub fn saved(&mut self, ok: bool)
        ensures
            *final(self) == (Edits { dirty: old(self).dirty && !ok, ..*old(self) }),
    {
        if ok {
            self.dirty = false;
        }
    }

    /// Notes whether the window has the focus, and says whether the
    /// configuration is to be read again: when the focus comes back and no edit
    /// is pending.
    pub fn focus(&mut self, focused: bool) -> (reload: bool)
        ensures
            reload == (focused && !old(self).focused && !old(self).dirty),
            *final(self) == (Edits { focused, ..*old(self) }),
    {
        let reload: bool = focused && !self.focused && !self.dirty;
        self.focused = focused;
        reload
    }
}

// ---------------------------------------------------------------------------
// Laws
// ---------------------------------------------------------------------------

/// Two tunings that agree in every setting, in the switch and in the spring
/// baseline are the same.
pub proof fn law_settings_make_the_tuning(a: TuningConfig, b: TuningConfig)
    requires
        forall|which: Knob| #[trigger] knob(a, which) == knob(b, which),
        a.enabled == b.enabled,
        a.spring_floor == b.spring_floor,
    ensures
        a == b,
{
    assert(knob(a, Knob::MasterGain) == knob(b, Knob::MasterGain));
    assert(knob(a, Knob::OutputRate) == knob(b, Knob::OutputRate));
    assert(knob(a, Knob::SpringGain) == knob(b, Knob::SpringGain));
    assert(knob(a, Knob::SpeedCurveStart) == knob(b, Knob::SpeedCurveStart));
    assert(knob(a, Knob::SpeedCurveMax) == knob(b, Knob::SpeedCurveMax));
    assert(knob(a, Knob::MassSpringScale) == knob(b, Knob::MassSpringScale));
    assert(knob(a, Knob::NoPowerSteerBoost) == knob(b, Knob::NoPowerSteerBoost));
    assert(knob(a, Knob::LateralGain) == knob(b, Knob::LateralGain));
    assert(knob(a, Knob::DamperGain) == knob(b, Knob::DamperGain));
    assert(knob(a, Knob::ImplementDamperScale) == knob(b, Knob::ImplementDamperScale));
    assert(knob(a, Knob::RumbleGain) == knob(b, Knob::RumbleGain));
    assert(knob(a, Knob::IdleRumble) == knob(b, Knob::IdleRumble));
    assert(knob(a, Knob::SlopeGain) == knob(b, Knob::SlopeGain));
    assert(knob(a, Knob::SlopeMax) == knob(b, Knob::SlopeMax));
    assert(knob(a, Knob::CollisionGain) == knob(b, Knob::CollisionGain));
}

/// Every setting has a slider on the tuning page.
pub proof fn law_every_setting_has_a_slider(which: Knob) -> (at: (int, int))
    ensures
        0 <= at.0 < tuning_page().len(),
        0 <= at.1 < tuning_page()[at.0].sliders.len(),
        tuning_page()[at.0].sliders[at.1].moves == which,
{
    match which {
        Knob::MasterGain => (0, 0),
        Knob::OutputRate => (0, 1),
        Knob::SpringGain => (1, 0),
        Knob::SpeedCurveStart => (1, 1),
        Knob::SpeedCurveMax => (1, 2),
        Knob::MassSpringScale => (1, 3),
        Knob::NoPowerSteerBoost => (1, 4),
        Knob::LateralGain => (2, 0),
        Knob::DamperGain => (3, 0),
        Knob::ImplementDamperScale => (3, 1),
        Knob::RumbleGain => (4, 0),
        Knob::IdleRumble => (4, 1),
        Knob::SlopeGain => (5, 0),
        Knob::SlopeMax => (5, 1),
        Knob::CollisionGain => (6, 0),
    }
}

/// Reading a setting gives the number of its own name.
pub proof fn law_settings_are_read_by_name(tuning: TuningConfig, which: Knob, value: u32)
    requires
        call_ensures(knob_value, (&tuning, which), value),
    ensures
        match which {
            Knob::MasterGain => value == tuning.master_gain,
            Knob::OutputRate => value == tuning.output_hz,
            Knob::SpringGain => value == tuning.spring_gain,
            Knob::SpeedCurveStart => value == tuning.speed_curve_start_kmh,
            Knob::SpeedCurveMax => value == tuning.speed_curve_max_kmh,
            Knob::MassSpringScale => value == tuning.mass_spring_scale,
            Knob::NoPowerSteerBoost => value == tuning.no_power_steer_boost,
            Knob::LateralGain => value == tuning.lateral_gain,
            Knob::DamperGain => value == tuning.damper_gain,
            Knob::ImplementDamperScale => value == tuning.implement_damper_scale,
            Knob::RumbleGain => value == tuning.rumble_gain,
            Knob::IdleRumble => value == tuning.idle_rumble,
            Knob::SlopeGain => value == tuning.slope_gain,
            Knob::SlopeMax => value == tuning.slope_max,
            Knob::CollisionGain => value == tuning.collision_gain,
        },
{
}

/// Changing a setting changes the number of its own name, and nothing else.
pub proof fn law_settings_are_changed_by_name(tuning: &mut TuningConfig, which: Knob, value: u32)
    requires
        call_ensures(set_knob, (tuning, which, value), ()),
    ensures
        match which {
            Knob::MasterGain => *final(tuning) == (TuningConfig { master_gain: value, ..*old(tuning) }),
            Knob::OutputRate => *final(tuning) == (TuningConfig { output_hz: value, ..*old(tuning) }),
            Knob::SpringGain => *final(tuning) == (TuningConfig { spring_gain: value, ..*old(tuning) }),
            Knob::SpeedCurveStart => *final(tuning) == (TuningConfig { speed_curve_start_kmh: value, ..*old(tuning) }),
            Knob::SpeedCurveMax => *final(tuning) == (TuningConfig { speed_curve_max_kmh: value, ..*old(tuning) }),
            Knob::MassSpringScale => *final(tuning) == (TuningConfig { mass_spring_scale: value, ..*old(tuning) }),
            Knob::NoPowerSteerBoost => *final(tuning) == (TuningConfig { no_power_steer_boost: value, ..*old(tuning) }),
            Knob::LateralGain => *final(tuning) == (TuningConfig { lateral_gain: value, ..*old(tuning) }),
            Knob::DamperGain => *final(tuning) == (TuningConfig { damper_gain: value, ..*old(tuning) }),
            Knob::ImplementDamperScale => *final(tuning) == (TuningConfig { implement_damper_scale: value, ..*old(tuning) }),
            Knob::RumbleGain => *final(tuning) == (TuningConfig { rumble_gain: value, ..*old(tuning) }),
            Knob::IdleRumble => *final(tuning) == (TuningConfig { idle_rumble: value, ..*old(tuning) }),
            Knob::SlopeGain => *final(tuning) == (TuningConfig { slope_gain: value, ..*old(tuning) }),
            Knob::SlopeMax => *final(tuning) == (TuningConfig { slope_max: value, ..*old(tuning) }),
            Knob::CollisionGain => *final(tuning) == (TuningConfig { collision_gain: value, ..*old(tuning) }),
        },
{
    assert(knob(*final(tuning), Knob::MasterGain) == (if which is MasterGain {
        value
    } else {
        knob(*old(tuning), Knob::MasterGain)
    }));
    assert(knob(*final(tuning), Knob::OutputRate) == (if which is OutputRate {
        value
    } else {
        knob(*old(tuning), Knob::OutputRate)
    }));
    assert(knob(*final(tuning), Knob::SpringGain) == (if which is SpringGain {
        value
    } else {
        knob(*old(tuning), Knob::SpringGain)
    }));
    assert(knob(*final(tuning), Knob::SpeedCurveStart) == (if which is SpeedCurveStart {
        value
    } else {
        knob(*old(tuning), Knob::SpeedCurveStart)
    }));
    assert(knob(*final(tuning), Knob::SpeedCurveMax) == (if which is SpeedCurveMax {
        value
    } else {
        knob(*old(tuning), Knob::SpeedCurveMax)
    }));
    assert(knob(*final(tuning), Knob::MassSpringScale) == (if which is MassSpringScale {
        value
    } else {
        knob(*old(tuning), Knob::MassSpringScale)
    }));
    assert(knob(*final(tuning), Knob::NoPowerSteerBoost) == (if which is NoPowerSteerBoost {
        value
    } else {
        knob(*old(tuning), Knob::NoPowerSteerBoost)
    }));
    assert(knob(*final(tuning), Knob::LateralGain) == (if which is LateralGain {
        value
    } else {
        knob(*old(tuning), Knob::LateralGain)
    }));
    assert(knob(*final(tuning), Knob::DamperGain) == (if which is DamperGain {
        value
    } else {
        knob(*old(tuning), Knob::DamperGain)
    }));
    assert(knob(*final(tuning), Knob::ImplementDamperScale) == (if which is ImplementDamperScale {
        value
    } else {
        knob(*old(tuning), Knob::ImplementDamperScale)
    }));
    assert(knob(*final(tuning), Knob::RumbleGain) == (if which is RumbleGain {
        value
    } else {
        knob(*old(tuning), Knob::RumbleGain)
    }));
    assert(knob(*final(tuning), Knob::IdleRumble) == (if which is IdleRumble {
        value
    } else {
        knob(*old(tuning), Knob::IdleRumble)
    }));
    assert(knob(*final(tuning), Knob::SlopeGain) == (if which is SlopeGain {
        value
    } else {
        knob(*old(tuning), Knob::SlopeGain)
    }));
    assert(knob(*final(tuning), Knob::SlopeMax) == (if which is SlopeMax {
        value
    } else {
        knob(*old(tuning), Knob::SlopeMax)
    }));
    assert(knob(*final(tuning), Knob::CollisionGain) == (if which is CollisionGain {
        value
    } else {
        knob(*old(tuning), Knob::CollisionGain)
    }));
}

/// The tuning page has these sliders with these ends, under these headings.
#[verifier::rlimit(40)]
pub proof fn law_sliders_of_the_tuning_page(groups: Vec<SliderGroup>)
    requires
        call_ensures(tuning_groups, (), groups),
    ensures
        groups@.len() == 7,
        groups@[0].heading@ == "Global"@ && groups@[0].sliders@.len() == 2,
        groups@[0].sliders@[0].moves is MasterGain && groups@[0].sliders@[0].label@ == "Master gain"@,
        is_number(groups@[0].sliders@[0].lo, 0, 1) && is_number(groups@[0].sliders@[0].hi, 2, 1),
        groups@[0].sliders@[1].moves is OutputRate && groups@[0].sliders@[1].label@ == "Output rate (Hz)"@,
        is_number(groups@[0].sliders@[1].lo, 60, 1) && is_number(groups@[0].sliders@[1].hi, 500, 1),
        groups@[1].heading@ == "Centering spring"@ && groups@[1].sliders@.len() == 5,
        groups@[1].sliders@[0].moves is SpringGain && groups@[1].sliders@[0].label@ == "Spring gain"@,
        is_number(groups@[1].sliders@[0].lo, 0, 1) && is_number(groups@[1].sliders@[0].hi, 15, 10),
        groups@[1].sliders@[1].moves is SpeedCurveStart && groups@[1].sliders@[1].label@ == "Speed ramp start (km/h)"@,
        is_number(groups@[1].sliders@[1].lo, 0, 1) && is_number(groups@[1].sliders@[1].hi, 30, 1),
        groups@[1].sliders@[2].moves is SpeedCurveMax && groups@[1].sliders@[2].label@ == "Speed ramp max (km/h)"@,
        is_number(groups@[1].sliders@[2].lo, 10, 1) && is_number(groups@[1].sliders@[2].hi, 80, 1),
        groups@[1].sliders@[3].moves is MassSpringScale && groups@[1].sliders@[3].label@ == "Mass -> spring scale"@,
        is_number(groups@[1].sliders@[3].lo, 0, 1) && is_number(groups@[1].sliders@[3].hi, 1, 1),
        groups@[1].sliders@[4].moves is NoPowerSteerBoost && groups@[1].sliders@[4].label@ == "Boost w/o power steering"@,
        is_number(groups@[1].sliders@[4].lo, 1, 1) && is_number(groups@[1].sliders@[4].hi, 3, 1),
        groups@[2].heading@ == "Lateral force"@ && groups@[2].sliders@.len() == 1,
        groups@[2].sliders@[0].moves is LateralGain && groups@[2].sliders@[0].label@ == "Lateral gain"@,
        groups@[2].sliders@[0].lo == 0xbf80_0000u32 && is_number(groups@[2].sliders@[0].hi, 1, 1),
        groups@[3].heading@ == "Damper"@ && groups@[3].sliders@.len() == 2,
        groups@[3].sliders@[0].moves is DamperGain && groups@[3].sliders@[0].label@ == "Damper gain"@,
        is_number(groups@[3].sliders@[0].lo, 0, 1) && is_number(groups@[3].sliders@[0].hi, 1, 1),
        groups@[3].sliders@[1].moves is ImplementDamperScale && groups@[3].sliders@[1].label@ == "Implement mass -> damper"@,
        is_number(groups@[3].sliders@[1].lo, 0, 1) && is_number(groups@[3].sliders@[1].hi, 1, 1),
        groups@[4].heading@ == "Surface rumble"@ && groups@[4].sliders@.len() == 2,
        groups@[4].sliders@[0].moves is RumbleGain && groups@[4].sliders@[0].label@ == "Rumble gain"@,
        is_number(groups@[4].sliders@[0].lo, 0, 1) && is_number(groups@[4].sliders@[0].hi, 15, 10),
        groups@[4].sliders@[1].moves is IdleRumble && groups@[4].sliders@[1].label@ == "Idle vibration"@,
        is_number(groups@[4].sliders@[1].lo, 0, 1) && is_number(groups@[4].sliders@[1].hi, 40, 100),
        groups@[5].heading@ == "Slope / roll"@ && groups@[5].sliders@.len() == 2,
        groups@[5].sliders@[0].moves is SlopeGain && groups@[5].sliders@[0].label@ == "Slope gain"@,
        is_number(groups@[5].sliders@[0].lo, 0, 1) && is_number(groups@[5].sliders@[0].hi, 15, 10),
        groups@[5].sliders@[1].moves is SlopeMax && groups@[5].sliders@[1].label@ == "Slope max offset"@,
        is_number(groups@[5].sliders@[1].lo, 0, 1) && is_number(groups@[5].sliders@[1].hi, 80, 100),
        groups@[6].heading@ == "Collision kick"@ && groups@[6].sliders@.len() == 1,
        groups@[6].sliders@[0].moves is CollisionGain && groups@[6].sliders@[0].label@ == "Collision gain"@,
        is_number(groups@[6].sliders@[0].lo, 0, 1) && is_number(groups@[6].sliders@[0].hi, 15, 10),
{
    law_patterns_are_those_of_the_numbers();
    let v = groups@.map_values(|g: SliderGroup| g@);
    assert(v.len() == groups@.len());
    assert(v[0] == groups@[0]@);
    assert(v[0].sliders.len() == groups@[0].sliders@.len());
    assert(v[0].sliders[0] == groups@[0].sliders@[0]@);
    assert(v[0].sliders[1] == groups@[0].sliders@[1]@);
    assert(v[1] == groups@[1]@);
    assert(v[1].sliders.len() == groups@[1].sliders@.len());
    assert(v[1].sliders[0] == groups@[1].sliders@[0]@);
    assert(v[1].sliders[1] == groups@[1].sliders@[1]@);
    assert(v[1].sliders[2] == groups@[1].sliders@[2]@);
    assert(v[1].sliders[3] == groups@[1].sliders@[3]@);
    assert(v[1].sliders[4] == groups@[1].sliders@[4]@);
    assert(v[2] == groups@[2]@);
    assert(v[2].sliders.len() == groups@[2].sliders@.len());
    assert(v[2].sliders[0] == groups@[2].sliders@[0]@);
    assert(v[3] == groups@[3]@);
    assert(v[3].sliders.len() == groups@[3].sliders@.len());
    assert(v[3].sliders[0] == groups@[3].sliders@[0]@);
    assert(v[3].sliders[1] == groups@[3].sliders@[1]@);
    assert(v[4] == groups@[4]@);
    assert(v[4].sliders.len() == groups@[4].sliders@.len());
    assert(v[4].sliders[0] == groups@[4].sliders@[0]@);
    assert(v[4].sliders[1] == groups@[4].sliders@[1]@);
    assert(v[5] == groups@[5]@);
    assert(v[5].sliders.len() == groups@[5].sliders@.len());
    assert(v[5].sliders[0] == groups@[5].sliders@[0]@);
    assert(v[5].sliders[1] == groups@[5].sliders@[1]@);
    assert(v[6] == groups@[6]@);
    assert(v[6].sliders.len() == groups@[6].sliders@.len());
    assert(v[6].sliders[0] == groups@[6].sliders@[0]@);
}

/// Yes is yes, and no is no.
pub proof fn law_yes_is_yes(b: bool, out: &'static str)
    requires
        call_ensures(yn, (b,), out),
    ensures
        b ==> out@ == "yes"@,
        !b ==> out@ == "no"@,
        "yes"@ != "no"@,
{
    reveal_strlit("yes");
    reveal_strlit("no");
    assert("yes"@.len() == 3);
}

/// A wheel is described by its name, its path, its two numbers, whether it has
/// each kind of effect, and how many effects it can hold.
pub proof fn law_wheels_are_described(
    d: DeviceInfo,
    constant: &'static str,
    spring: &'static str,
    damper: &'static str,
    periodic: &'static str,
    rumble: &'static str,
    lines: Vec<String>,
)
    requires
        call_ensures(device_lines, (&d,), lines),
        call_ensures(yn, (d.supports_constant,), constant),
        call_ensures(yn, (d.supports_spring,), spring),
        call_ensures(yn, (d.supports_damper,), damper),
        call_ensures(yn, (d.supports_periodic,), periodic),
        call_ensures(yn, (d.supports_rumble,), rumble),
    ensures
        lines@.len() == 5,
        lines@[0]@ == "Name:    "@ + d.name@,
        lines@[1]@ == "Path:    "@ + d.path@,
        lines@[2]@ == "VID/PID: "@ + hex(d.vendor_id as nat, 4, false) + ":"@ + hex(
            d.product_id as nat,
            4,
            false,
        ),
        lines@[3]@ == "FFB:     constant="@ + constant@ + " spring="@ + spring@ + " damper="@
            + damper@ + " periodic="@ + periodic@ + " rumble="@ + rumble@,
        lines@[4]@ == "Slots:   "@ + decimal(d.ff_effects_max as nat),
{
    let t = texts(lines@);
    assert(t.len() == lines@.len());
    assert(t[0] == lines@[0]@ && t[1] == lines@[1]@ && t[2] == lines@[2]@);
    assert(t[3] == lines@[3]@ && t[4] == lines@[4]@);
}

/// A frame is described by its number and by whether a driver is seated.
pub proof fn law_frames_are_described(
    t: Telemetry,
    seated: bool,
    word: &'static str,
    lines: Vec<String>,
)
    requires
        call_ensures(telemetry_lines, (&t,), lines),
        call_ensures(Telemetry::in_vehicle, (&t,), seated),
        call_ensures(yn, (seated,), word),
    ensures
        lines@.len() == 2,
        lines@[0]@ == "Seq:            "@ + decimal(t.sequence as nat),
        lines@[1]@ == "In vehicle:     "@ + word@,
{
    let v = texts(lines@);
    assert(v.len() == lines@.len());
    assert(v[0] == lines@[0]@ && v[1] == lines@[1]@);
}

/// A badge of a colour.
pub open spec fn coloured(badge: Badge, red: int, green: int, blue: int, text: Seq<char>) -> bool {
    badge.red == red && badge.green == green && badge.blue == blue && badge.text@ == text
}

/// A running daemon and a good finding are green; what is down or wrong is red.
pub proof fn law_badges(running: bool, daemon: Badge, severity: Severity, mark: Badge)
    requires
        call_ensures(daemon_badge, (running,), daemon),
        call_ensures(severity_badge, (severity,), mark),
    ensures
        running ==> coloured(daemon, 48, 192, 96, "daemon running"@),
        !running ==> coloured(daemon, 192, 80, 48, "daemon down"@),
        severity is Okay ==> coloured(mark, 48, 192, 96, "OK  "@),
        severity is Warn ==> coloured(mark, 224, 176, 48, "WARN"@),
        severity is Fail ==> coloured(mark, 208, 64, 64, "FAIL"@),
{
}

/// Each preset says what it feels like, and each test button names its effect.
pub proof fn law_labels(name: &str, feel: &'static str, kind: TestEffect, label: &'static str)
    requires
        call_ensures(preset_description, (name,), feel),
        call_ensures(test_button, (kind,), label),
    ensures
        name@ == "arcade"@ ==> feel@
            == "light, twitch-friendly; good for keyboard + wheel switchers"@,
        name@ == "realistic"@ ==> feel@ == "default; tuned for Moza R5 on CachyOS"@,
        name@ == "heavy"@ ==> feel@ == "more weight, more damping; great with big implements"@,
        name@ == "quiet"@ ==> feel@ == "minimal rumble and low master gain"@,
        name@ != "arcade"@ && name@ != "realistic"@ && name@ != "heavy"@ && name@ != "quiet"@
            ==> feel@.len() == 0,
        kind is Constant ==> label@ == "Constant"@,
        kind is Spring ==> label@ == "Spring"@,
        kind is Damper ==> label@ == "Damper"@,
        kind is Rumble ==> label@ == "Rumble"@,
        kind is Sine ==> label@ == "Sine sweep"@,
{
    reveal_strlit("arcade");
    reveal_strlit("realistic");
    reveal_strlit("heavy");
    reveal_strlit("quiet");
    reveal_strlit("");
    assert("arcade"@.len() == 6 && "realistic"@.len() == 9);
    assert("heavy"@.len() == 5 && "quiet"@.len() == 5 && "heavy"@[0] == 'h' && "quiet"@[0] == 'q');
}

/// What is copied to the clipboard grows by the lines of each finding: its
/// mark, name and explanation, and on a line of its own the fix where there is
/// one.
pub proof fn law_clipboard_grows_by_one_entry(
    checks: &[Check],
    more: &[Check],
    c: Check,
    before: String,
    after: String,
)
    requires
        call_ensures(format_report, (checks,), before),
        call_ensures(format_report, (more,), after),
        more@ == checks@.push(c),
    ensures
        checks@.len() == 0 ==> before@.len() == 0,
        ({
            let mark = match c.severity {
                Severity::Okay => "[OK  ] "@,
                Severity::Warn => "[WARN] "@,
                Severity::Fail => "[FAIL] "@,
            };
            let line = mark + c.name@ + ": "@ + c.detail@ + "\n"@;
            after@ == before@ + match c.fix {
                Some(fix) => line + "     fix: "@ + fix@ + "\n"@,
                None => line,
            }
        }),
{
    let v = check_views(more@);
    assert(v.drop_last() =~= check_views(checks@));
    assert(v.last() == c@);
    reveal_strlit("[");
    reveal_strlit("] ");
    reveal_strlit("OK  ");
    reveal_strlit("WARN");
    reveal_strlit("FAIL");
    reveal_strlit("[OK  ] ");
    reveal_strlit("[WARN] ");
    reveal_strlit("[FAIL] ");
    let mark = match c.severity {
        Severity::Okay => "[OK  ] "@,
        Severity::Warn => "[WARN] "@,
        Severity::Fail => "[FAIL] "@,
    };
    assert("["@ + severity_tag(c.severity) + "] "@ =~= mark);
}

/// An edit is pending from when it was made until a save succeeds; moving the
/// switch is an edit, showing it is none.
pub proof fn law_edits_are_pending_until_saved(
    touched: &mut Edits,
    shown: &mut Edits,
    saved: &mut Edits,
    was: bool,
    now: bool,
    ok: bool,
)
    requires
        call_ensures(Edits::touch, (touched,), ()),
        call_ensures(Edits::switch_shown, (shown, was, now), ()),
        call_ensures(Edits::saved, (saved, ok), ()),
    ensures
        final(touched).dirty && final(touched).focused == old(touched).focused,
        was != now ==> final(shown).dirty,
        was == now ==> final(shown).dirty == old(shown).dirty,
        final(shown).focused == old(shown).focused,
        ok ==> !final(saved).dirty,
        !ok ==> final(saved).dirty == old(saved).dirty,
        final(saved).focused == old(saved).focused,
{
}

/// The configuration is read again exactly when the focus comes back to a window
/// without pending edits. The focus is noted, and pending edits stay.
pub proof fn law_focus_reads_again(edits: &mut Edits, focused: bool, reload: bool, fresh: Edits)
    requires
        call_ensures(Edits::focus, (edits, focused), reload),
        call_ensures(Edits::new, (), fresh),
    ensures
        reload <==> focused && !old(edits).focused && !old(edits).dirty,
        final(edits).focused == focused,
        final(edits).dirty == old(edits).dirty,
        !fresh.dirty && fresh.focused,
{
}

} // verus!
