//! The tuning configuration and its factory presets.
//!
//! Gains are single-precision numbers; they are held as bit patterns.

use crate::text::{copy_opt, opt_text, same_text};
use vstd::prelude::*;
use vstd::string::*;

verus! {

// ---------------------------------------------------------------------------
// Bit patterns of the numbers in use
// ---------------------------------------------------------------------------

/// The bit patterns of the single-precision numbers that configurations are
/// made of: `N0_65` is zero point six five.
pub const N0: u32 = 0x0000_0000;

pub const N0_05: u32 = 0x3d4c_cccd;

pub const N0_10: u32 = 0x3dcc_cccd;

pub const N0_12: u32 = 0x3df5_c28f;

pub const N0_18: u32 = 0x3e38_51ec;

pub const N0_22: u32 = 0x3e61_47ae;

pub const N0_25: u32 = 0x3e80_0000;

pub const N0_35: u32 = 0x3eb3_3333;

pub const N0_40: u32 = 0x3ecc_cccd;

pub const N0_45: u32 = 0x3ee6_6666;

pub const N0_50: u32 = 0x3f00_0000;

pub const N0_55: u32 = 0x3f0c_cccd;

pub const N0_60: u32 = 0x3f19_999a;

pub const N0_65: u32 = 0x3f26_6666;

pub const N0_70: u32 = 0x3f33_3333;

pub const N0_75: u32 = 0x3f40_0000;

pub const N0_80: u32 = 0x3f4c_cccd;

pub const N1: u32 = 0x3f80_0000;

pub const N1_1: u32 = 0x3f8c_cccd;

pub const N1_4: u32 = 0x3fb3_3333;

pub const N1_5: u32 = 0x3fc0_0000;

pub const N2: u32 = 0x4000_0000;

pub const N3: u32 = 0x4040_0000;

pub const N5: u32 = 0x40a0_0000;

pub const N10: u32 = 0x4120_0000;

pub const N22: u32 = 0x41b0_0000;

pub const N30: u32 = 0x41f0_0000;

pub const N60: u32 = 0x4270_0000;

pub const N80: u32 = 0x42a0_0000;

pub const N500: u32 = 0x43fa_0000;

/// The bit pattern of minus one.
pub const MINUS_1: u32 = 0xbf80_0000;

/// The application id of the game in the Steam store.
pub const FS25_STEAM_APPID: u32 = 2_300_320;

// ---------------------------------------------------------------------------
// Device hint
// ---------------------------------------------------------------------------

/// Which wheel to use.
#[derive(Debug)]
pub struct DeviceHint {
    /// If set, prefer the device at this evdev path.
    pub path: Option<String>,
    /// Otherwise match by vendor and product.
    pub vendor_id: Option<u16>,
    pub product_id: Option<u16>,
    /// Fallback: match by a part of the device name.
    pub name_contains: Option<String>,
}

/// A [`DeviceHint`] by the characters of its texts.
pub struct DeviceHintView {
    pub path: Option<Seq<char>>,
    pub vendor_id: Option<u16>,
    pub product_id: Option<u16>,
    pub name_contains: Option<Seq<char>>,
}

impl View for DeviceHint {
    type V = DeviceHintView;

    open spec fn view(&self) -> DeviceHintView {
        DeviceHintView {
            path: opt_text(self.path),
            vendor_id: self.vendor_id,
            product_id: self.product_id,
            name_contains: opt_text(self.name_contains),
        }
    }
}

impl DeviceHintView {
    /// No preference.
    pub open spec fn none() -> DeviceHintView {
        DeviceHintView { path: None, vendor_id: None, product_id: None, name_contains: None }
    }
}

impl Clone for DeviceHint {
    fn clone(&self) -> (copy: Self)
        ensures
            copy@ == self@,
    {
        DeviceHint {
            path: copy_opt(&self.path),
            vendor_id: self.vendor_id,
            product_id: self.product_id,
            name_contains: copy_opt(&self.name_contains),
        }
    }
}

impl Default for DeviceHint {
    fn default() -> (hint: Self)
        ensures
            hint@ == DeviceHintView::none(),
    {
        DeviceHint { path: None, vendor_id: None, product_id: None, name_contains: None }
    }
}

// ---------------------------------------------------------------------------
// Tuning
// ---------------------------------------------------------------------------

/// How telemetry is turned into effects.
///
/// All numbers but `output_hz` are bit patterns of single-precision numbers.
#[derive(Debug, Clone, Copy, PartialEq, Eq, Structural)]
pub struct TuningConfig {
    pub enabled: bool,
    pub master_gain: u32,
    /// Centering spring.
    pub spring_gain: u32,
    /// Non-zero baseline even at standstill, so that the wheel never goes
    /// dead.
    pub spring_floor: u32,
    pub speed_curve_start_kmh: u32,
    pub speed_curve_max_kmh: u32,
    pub mass_spring_scale: u32,
    pub no_power_steer_boost: u32,
    /// Lateral constant force.
    pub lateral_gain: u32,
    /// Damper.
    pub damper_gain: u32,
    pub implement_damper_scale: u32,
    /// Rumble and texture.
    pub rumble_gain: u32,
    pub idle_rumble: u32,
    /// Slope and roll.
    pub slope_gain: u32,
    pub slope_max: u32,
    /// Collision one-shot.
    pub collision_gain: u32,
    /// Update rate cap for device writes.
    pub output_hz: u32,
}

impl TuningConfig {
    /// Tractor-tuned defaults for a Moza R5.
    pub open spec fn standard() -> TuningConfig {
        TuningConfig {
            enabled: true,
            master_gain: N1,
            spring_gain: N0_65,
            spring_floor: N0_18,
            speed_curve_start_kmh: N5,
            speed_curve_max_kmh: N22,
            mass_spring_scale: N0_35,
            no_power_steer_boost: N1_4,
            lateral_gain: N0_18,
            damper_gain: N0_55,
            implement_damper_scale: N0_50,
            rumble_gain: N0_25,
            idle_rumble: N0_05,
            slope_gain: N0,
            slope_max: N0_35,
            collision_gain: N0_25,
            output_hz: 240,
        }
    }
}

/// The spring baseline of configurations that do not name one.
pub fn default_spring_floor() -> (bits: u32)
    ensures
        bits == N0_18,
        bits == TuningConfig::standard().spring_floor,
{
    N0_18
}

impl Default for TuningConfig {
    fn default() -> (tuning: Self)
        ensures
            tuning == TuningConfig::standard(),
    {
        TuningConfig {
            enabled: true,
            master_gain: N1,
            spring_gain: N0_65,
            spring_floor: N0_18,
            speed_curve_start_kmh: N5,
            speed_curve_max_kmh: N22,
            mass_spring_scale: N0_35,
            no_power_steer_boost: N1_4,
            lateral_gain: N0_18,
            damper_gain: N0_55,
            implement_damper_scale: N0_50,
            rumble_gain: N0_25,
            idle_rumble: N0_05,
            slope_gain: N0,
            slope_max: N0_35,
            collision_gain: N0_25,
            output_hz: 240,
        }
    }
}

// ---------------------------------------------------------------------------
// Paths
// ---------------------------------------------------------------------------

/// Where the game and its telemetry are found.
#[derive(Debug)]
pub struct PathsConfig {
    /// The telemetry file that the in-game mod writes. Unset, it is looked for
    /// under the Steam compatibility data.
    pub telemetry_file: Option<String>,
    /// The Steam application id of the game.
    pub fs25_steam_appid: u32,
    /// Another Steam root than the usual ones.
    pub steam_root: Option<String>,
}

/// A [`PathsConfig`] by the characters of its texts.
pub struct PathsView {
    pub telemetry_file: Option<Seq<char>>,
    pub fs25_steam_appid: u32,
    pub steam_root: Option<Seq<char>>,
}

impl View for PathsConfig {
    type V = PathsView;

    open spec fn view(&self) -> PathsView {
        PathsView {
            telemetry_file: opt_text(self.telemetry_file),
            fs25_steam_appid: self.fs25_steam_appid,
            steam_root: opt_text(self.steam_root),
        }
    }
}

impl PathsView {
    /// Everything where it usually is.
    pub open spec fn standard() -> PathsView {
        PathsView {
            telemetry_file: None,
            fs25_steam_appid: FS25_STEAM_APPID,
            steam_root: None,
        }
    }
}

impl Clone for PathsConfig {
    fn clone(&self) -> (copy: Self)
        ensures
            copy@ == self@,
    {
        PathsConfig {
            telemetry_file: copy_opt(&self.telemetry_file),
            fs25_steam_appid: self.fs25_steam_appid,
            steam_root: copy_opt(&self.steam_root),
        }
    }
}

impl Default for PathsConfig {
    fn default() -> (paths: Self)
        ensures
            paths@ == PathsView::standard(),
    {
        PathsConfig { telemetry_file: None, fs25_steam_appid: FS25_STEAM_APPID, steam_root: None }
    }
}

// ---------------------------------------------------------------------------
// The whole configuration
// ---------------------------------------------------------------------------

/// Everything that the user can configure.
#[derive(Debug)]
pub struct Config {
    pub profile_name: String,
    pub device_hint: DeviceHint,
    pub tuning: TuningConfig,
    pub paths: PathsConfig,
}

/// A [`Config`] by the characters of its texts.
pub struct ConfigView {
    pub profile_name: Seq<char>,
    pub device_hint: DeviceHintView,
    pub tuning: TuningConfig,
    pub paths: PathsView,
}

impl View for Config {
    type V = ConfigView;

    open spec fn view(&self) -> ConfigView {
        ConfigView {
            profile_name: self.profile_name@,
            device_hint: self.device_hint@,
            tuning: self.tuning,
            paths: self.paths@,
        }
    }
}

impl Clone for Config {
    fn clone(&self) -> (copy: Self)
        ensures
            copy@ == self@,
    {
        Config {
            profile_name: self.profile_name.clone(),
            device_hint: self.device_hint.clone(),
            tuning: self.tuning,
            paths: self.paths.clone(),
        }
    }
}

impl Default for Config {
    fn default() -> (cfg: Self)
        ensures
            cfg@ == (ConfigView {
                profile_name: "realistic"@,
                device_hint: DeviceHintView::none(),
                tuning: TuningConfig::standard(),
                paths: PathsView::standard(),
            }),
    {
        Config {
            profile_name: "realistic".to_owned(),
            device_hint: DeviceHint::default(),
            tuning: TuningConfig::default(),
            paths: PathsConfig::default(),
        }
    }
}

// ---------------------------------------------------------------------------
// Presets
// ---------------------------------------------------------------------------

/// The factory preset of a name: overrides on top of the defaults.
pub open spec fn preset_of(name: Seq<char>) -> Option<TuningConfig> {
    if name == "arcade"@ {
        Some(
            TuningConfig {
                master_gain: N1_1,
                spring_gain: N0_45,
                spring_floor: N0_10,
                damper_gain: N0_35,
                lateral_gain: N0_25,
                rumble_gain: N0_35,
                collision_gain: N0_35,
                ..TuningConfig::standard()
            },
        )
    } else if name == "realistic"@ {
        Some(TuningConfig::standard())
    } else if name == "heavy"@ {
        Some(
            TuningConfig {
                spring_gain: N0_80,
                spring_floor: N0_22,
                mass_spring_scale: N0_50,
                damper_gain: N0_75,
                implement_damper_scale: N0_65,
                lateral_gain: N0_22,
                collision_gain: N0_40,
                ..TuningConfig::standard()
            },
        )
    } else if name == "quiet"@ {
        Some(
            TuningConfig {
                master_gain: N0_70,
                spring_gain: N0_45,
                spring_floor: N0_12,
                rumble_gain: N0,
                idle_rumble: N0,
                ..TuningConfig::standard()
            },
        )
    } else {
        None
    }
}

/// The factory preset of a name.
pub fn preset(name: &str) -> (out: Option<TuningConfig>)
    ensures
        out == preset_of(name@),
{
    if same_text(name, "arcade") {
        Some(
            TuningConfig {
                master_gain: N1_1,
                spring_gain: N0_45,
                spring_floor: N0_10,
                damper_gain: N0_35,
                lateral_gain: N0_25,
                rumble_gain: N0_35,
                collision_gain: N0_35,
                ..TuningConfig::default()
            },
        )
    } else if same_text(name, "realistic") {
        Some(TuningConfig::default())
    } else if same_text(name, "heavy") {
        Some(
            TuningConfig {
                spring_gain: N0_80,
                spring_floor: N0_22,
                mass_spring_scale: N0_50,
                damper_gain: N0_75,
                implement_damper_scale: N0_65,
                lateral_gain: N0_22,
                collision_gain: N0_40,
                ..TuningConfig::default()
            },
        )
    } else if same_text(name, "quiet") {
        Some(
            TuningConfig {
                master_gain: N0_70,
                spring_gain: N0_45,
                spring_floor: N0_12,
                rumble_gain: N0,
                idle_rumble: N0,
                ..TuningConfig::default()
            },
        )
    } else {
        None
    }
}

/// The names of the factory presets, in the order in which they are offered.
pub open spec fn preset_list() -> Seq<Seq<char>> {
    seq!["arcade"@, "realistic"@, "heavy"@, "quiet"@]
}

/// The names of the factory presets.
pub fn preset_names() -> (names: &'static [&'static str])
    ensures
        names@.map_values(|s: &'static str| s@) == preset_list(),
{
    let names: &'static [&'static str] = &["arcade", "realistic", "heavy", "quiet"];
    assert(names@.map_values(|s: &'static str| s@) =~= preset_list());
    names
}

impl Config {
    /// Replaces the tuning with a factory preset and takes over its name.
    /// Reports whether there is such a preset; without one nothing changes.
    pub fn apply_preset(&mut self, name: &str) -> (known: bool)
        ensures
            known == (preset_of(name@) is Some),
            final(self)@ == (match preset_of(name@) {
                Some(tuning) => ConfigView { profile_name: name@, tuning, ..old(self)@ },
                None => old(self)@,
            }),
    {
        match preset(name) {
            Some(tuning) => {
                self.tuning = tuning;
                self.profile_name = name.to_owned();
                true
            },
            None => false,
        }
    }
}

/// Exactly the names on the list are presets.
pub proof fn law_listed_names_are_the_presets(name: Seq<char>)
    ensures
        preset_of(name) is Some <==> preset_list().contains(name),
{
    let l = preset_list();
    assert(l[0] == "arcade"@ && l[1] == "realistic"@ && l[2] == "heavy"@ && l[3] == "quiet"@);
}

/// Presets differ from the defaults in gains only: they leave the effects
/// enabled, and the speed curve, the slope settings and the update rate alone.
pub proof fn law_presets_layer_on_the_defaults(name: Seq<char>)
    requires
        preset_of(name) is Some,
    ensures
        ({
            let p = preset_of(name)->0;
            let d = TuningConfig::standard();
            &&& p.enabled
            &&& p.speed_curve_start_kmh == d.speed_curve_start_kmh
            &&& p.speed_curve_max_kmh == d.speed_curve_max_kmh
            &&& p.no_power_steer_boost == d.no_power_steer_boost
            &&& p.slope_gain == d.slope_gain
            &&& p.slope_max == d.slope_max
            &&& p.output_hz == d.output_hz
        }),
{
}

/// Powers of two.
pub open spec fn two_to(n: nat) -> int
    decreases n,
{
    if n == 0 {
        1
    } else {
        2 * two_to((n - 1) as nat)
    }
}

/// Bits are the pattern of the single-precision number nearest to a fraction
/// that is not negative and at most 2 to the power of 23: the exponent is in
/// front, counted from 150, and the mantissa behind, a leading one left out.
pub open spec fn is_number(bits: u32, over: int, under: int) -> bool {
    let exponent = bits as int / 8_388_608;
    let mantissa = bits as int % 8_388_608 + 8_388_608;
    if over == 0 {
        bits == 0
    } else {
        &&& 0 < exponent <= 150
        &&& -under <= 2 * (mantissa * under - over * two_to((150 - exponent) as nat)) <= under
    }
}

/// The numbers that configurations are made of have the patterns of their
/// values, and minus one is one with the sign in front.
#[verifier::rlimit(40)]
pub proof fn law_patterns_are_those_of_the_numbers()
    ensures
        is_number(N0, 0, 1),
        is_number(N0_05, 5, 100),
        is_number(N0_10, 10, 100),
        is_number(N0_12, 12, 100),
        is_number(N0_18, 18, 100),
        is_number(N0_22, 22, 100),
        is_number(N0_25, 25, 100),
        is_number(N0_35, 35, 100),
        is_number(N0_40, 40, 100),
        is_number(N0_45, 45, 100),
        is_number(N0_50, 50, 100),
        is_number(N0_55, 55, 100),
        is_number(N0_60, 60, 100),
        is_number(N0_65, 65, 100),
        is_number(N0_70, 70, 100),
        is_number(N0_75, 75, 100),
        is_number(N0_80, 80, 100),
        is_number(N1, 1, 1),
        is_number(N1_1, 11, 10),
        is_number(N1_4, 14, 10),
        is_number(N1_5, 15, 10),
        is_number(N2, 2, 1),
        is_number(N3, 3, 1),
        is_number(N5, 5, 1),
        is_number(N10, 10, 1),
        is_number(N22, 22, 1),
        is_number(N30, 30, 1),
        is_number(N60, 60, 1),
        is_number(N80, 80, 1),
        is_number(N500, 500, 1),
        MINUS_1 == N1 + 2_147_483_648,
{
    reveal_with_fuel(two_to, 30);
}

/// Tuning starts out with these values.
pub proof fn law_standard_tuning(t: TuningConfig, floor: u32)
    requires
        call_ensures(<TuningConfig as Default>::default, (), t),
        call_ensures(default_spring_floor, (), floor),
    ensures
        floor == t.spring_floor,
        ({
            &&& t.enabled
            &&& is_number(t.master_gain, 1, 1)
            &&& is_number(t.spring_gain, 65, 100)
            &&& is_number(t.spring_floor, 18, 100)
            &&& is_number(t.speed_curve_start_kmh, 5, 1)
            &&& is_number(t.speed_curve_max_kmh, 22, 1)
            &&& is_number(t.mass_spring_scale, 35, 100)
            &&& is_number(t.no_power_steer_boost, 14, 10)
            &&& is_number(t.lateral_gain, 18, 100)
            &&& is_number(t.damper_gain, 55, 100)
            &&& is_number(t.implement_damper_scale, 50, 100)
            &&& is_number(t.rumble_gain, 25, 100)
            &&& is_number(t.idle_rumble, 5, 100)
            &&& is_number(t.slope_gain, 0, 1)
            &&& is_number(t.slope_max, 35, 100)
            &&& is_number(t.collision_gain, 25, 100)
            &&& t.output_hz == 240
        }),
{
    law_patterns_are_those_of_the_numbers();
}

/// The presets have these values, and under any other name there is none.
#[verifier::rlimit(40)]
pub proof fn law_presets_have_their_values(name: &str, out: Option<TuningConfig>)
    requires
        call_ensures(preset, (name,), out),
    ensures
        name@ == "arcade"@ ==> (out matches Some(t) && {
            &&& t.enabled
            &&& is_number(t.master_gain, 11, 10)
            &&& is_number(t.spring_gain, 45, 100)
            &&& is_number(t.spring_floor, 10, 100)
            &&& is_number(t.speed_curve_start_kmh, 5, 1)
            &&& is_number(t.speed_curve_max_kmh, 22, 1)
            &&& is_number(t.mass_spring_scale, 35, 100)
            &&& is_number(t.no_power_steer_boost, 14, 10)
            &&& is_number(t.lateral_gain, 25, 100)
            &&& is_number(t.damper_gain, 35, 100)
            &&& is_number(t.implement_damper_scale, 50, 100)
            &&& is_number(t.rumble_gain, 35, 100)
            &&& is_number(t.idle_rumble, 5, 100)
            &&& is_number(t.slope_gain, 0, 1)
            &&& is_number(t.slope_max, 35, 100)
            &&& is_number(t.collision_gain, 35, 100)
            &&& t.output_hz == 240
        }),
        name@ == "realistic"@ ==> (out matches Some(t) && {
            &&& t.enabled
            &&& is_number(t.master_gain, 1, 1)
            &&& is_number(t.spring_gain, 65, 100)
            &&& is_number(t.spring_floor, 18, 100)
            &&& is_number(t.speed_curve_start_kmh, 5, 1)
            &&& is_number(t.speed_curve_max_kmh, 22, 1)
            &&& is_number(t.mass_spring_scale, 35, 100)
            &&& is_number(t.no_power_steer_boost, 14, 10)
            &&& is_number(t.lateral_gain, 18, 100)
            &&& is_number(t.damper_gain, 55, 100)
            &&& is_number(t.implement_damper_scale, 50, 100)
            &&& is_number(t.rumble_gain, 25, 100)
            &&& is_number(t.idle_rumble, 5, 100)
            &&& is_number(t.slope_gain, 0, 1)
            &&& is_number(t.slope_max, 35, 100)
            &&& is_number(t.collision_gain, 25, 100)
            &&& t.output_hz == 240
        }),
        name@ == "heavy"@ ==> (out matches Some(t) && {
            &&& t.enabled
            &&& is_number(t.master_gain, 1, 1)
            &&& is_number(t.spring_gain, 80, 100)
            &&& is_number(t.spring_floor, 22, 100)
            &&& is_number(t.speed_curve_start_kmh, 5, 1)
            &&& is_number(t.speed_curve_max_kmh, 22, 1)
            &&& is_number(t.mass_spring_scale, 50, 100)
            &&& is_number(t.no_power_steer_boost, 14, 10)
            &&& is_number(t.lateral_gain, 22, 100)
            &&& is_number(t.damper_gain, 75, 100)
            &&& is_number(t.implement_damper_scale, 65, 100)
            &&& is_number(t.rumble_gain, 25, 100)
            &&& is_number(t.idle_rumble, 5, 100)
            &&& is_number(t.slope_gain, 0, 1)
            &&& is_number(t.slope_max, 35, 100)
            &&& is_number(t.collision_gain, 40, 100)
            &&& t.output_hz == 240
        }),
        name@ == "quiet"@ ==> (out matches Some(t) && {
            &&& t.enabled
            &&& is_number(t.master_gain, 70, 100)
            &&& is_number(t.spring_gain, 45, 100)
            &&& is_number(t.spring_floor, 12, 100)
            &&& is_number(t.speed_curve_start_kmh, 5, 1)
            &&& is_number(t.speed_curve_max_kmh, 22, 1)
            &&& is_number(t.mass_spring_scale, 35, 100)
            &&& is_number(t.no_power_steer_boost, 14, 10)
            &&& is_number(t.lateral_gain, 18, 100)
            &&& is_number(t.damper_gain, 55, 100)
            &&& is_number(t.implement_damper_scale, 50, 100)
            &&& is_number(t.rumble_gain, 0, 1)
            &&& is_number(t.idle_rumble, 0, 1)
            &&& is_number(t.slope_gain, 0, 1)
            &&& is_number(t.slope_max, 35, 100)
            &&& is_number(t.collision_gain, 25, 100)
            &&& t.output_hz == 240
        }),
        name@ != "arcade"@ && name@ != "realistic"@ && name@ != "heavy"@ && name@ != "quiet"@ ==> out
            is None,
{
    law_patterns_are_those_of_the_numbers();
    lemma_preset_names_differ();
}

proof fn lemma_preset_names_differ()
    ensures
        "arcade"@.len() == 6,
        "realistic"@.len() == 9,
        "heavy"@.len() == 5 && "heavy"@[0] == 'h',
        "quiet"@.len() == 5 && "quiet"@[0] == 'q',
{
    reveal_strlit("arcade");
    reveal_strlit("realistic");
    reveal_strlit("heavy");
    reveal_strlit("quiet");
}

/// The presets are offered in this order.
pub proof fn law_four_presets_are_offered(names: &'static [&'static str])
    requires
        call_ensures(preset_names, (), names),
    ensures
        names@.len() == 4,
        names@[0]@ == "arcade"@,
        names@[1]@ == "realistic"@,
        names@[2]@ == "heavy"@,
        names@[3]@ == "quiet"@,
{
    let t = names@.map_values(|s: &'static str| s@);
    assert(t.len() == names@.len());
    assert(t[0] == names@[0]@ && t[1] == names@[1]@ && t[2] == names@[2]@ && t[3] == names@[3]@);
}

/// Applying a preset takes over all of its tuning and its name, and nothing
/// else; an unknown name changes nothing.
pub proof fn law_applying_takes_the_preset(
    cfg: &mut Config,
    name: &str,
    tuning: Option<TuningConfig>,
    known: bool,
)
    requires
        call_ensures(preset, (name,), tuning),
        call_ensures(Config::apply_preset, (cfg, name), known),
    ensures
        known <==> tuning is Some,
        tuning matches Some(t) ==> final(cfg)@.tuning == t && final(cfg)@.profile_name == name@,
        tuning is None ==> final(cfg)@.tuning == old(cfg)@.tuning && final(cfg)@.profile_name
            == old(cfg)@.profile_name,
        final(cfg)@.device_hint == old(cfg)@.device_hint,
        final(cfg)@.paths == old(cfg)@.paths,
{
}

/// A fresh configuration is the realistic preset, with no wheel preferred and
/// every path where it usually is.
pub proof fn law_fresh_configurations_are_realistic(
    cfg: Config,
    realistic: &str,
    tuning: Option<TuningConfig>,
)
    requires
        call_ensures(<Config as Default>::default, (), cfg),
        realistic@ == "realistic"@,
        call_ensures(preset, (realistic,), tuning),
    ensures
        cfg.profile_name@ == "realistic"@,
        tuning == Some(cfg.tuning),
        cfg.device_hint.path is None && cfg.device_hint.name_contains is None,
        cfg.device_hint.vendor_id is None && cfg.device_hint.product_id is None,
        cfg.paths.telemetry_file is None && cfg.paths.steam_root is None,
        cfg.paths.fs25_steam_appid == 2_300_320,
{
    lemma_preset_names_differ();
}

} // verus!
