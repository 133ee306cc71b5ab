//! Automated diagnostics.
//!
//! Every check turns what was found out about the system into a severity, an
//! explanation and, where something is amiss, a suggested fix. Running
//! programs and looking at files is the caller's part.

use crate::config::{Config, ConfigView, DeviceHint};
use crate::daemon::{path_outcome, resolve_telemetry_path, telemetry_path, PathError};
use crate::device::{
    choice, description, describe, find_device, views, Candidate, CandidateView, DeviceError,
};
use crate::shared::{DeviceInfo, DeviceInfoView};
use crate::text::{
    all_in, blank, contains_text, decimal, decimal_text, decimal_value, from_utf8_lossy, hex,
    hex_text, is_digit, is_space, join_path, joined, law_digit_rows_are_found,
    law_digit_rows_are_numbers, law_other_texts_are_no_numbers, law_runs_are_of_one_class,
    law_the_front_run_is_the_first_token, law_tokens_begin_behind_the_front,
    law_words_stand_alone, number_from, occurs_at, opt_text, parse_u32, quote_path, quoted_path,
    read_number, run_end, same_text, split_tokens, stands_alone, starts_with, texts, tokens, trim,
    trimmed, u32_of, utf8_lossy, TokenClass,
};
use vstd::prelude::*;
use vstd::string::*;

verus! {

// ---------------------------------------------------------------------------
// Checks
// ---------------------------------------------------------------------------

/// How bad a finding is.
#[derive(Debug, Clone, Copy, PartialEq, Eq, Structural)]
pub enum Severity {
    Okay,
    Warn,
    Fail,
}

/// The finding of one check.
#[derive(Debug)]
pub struct Check {
    pub name: String,
    pub severity: Severity,
    pub detail: String,
    pub fix: Option<String>,
}

/// A [`Check`] by the characters of its texts.
pub struct CheckView {
    pub name: Seq<char>,
    pub severity: Severity,
    pub detail: Seq<char>,
    pub fix: Option<Seq<char>>,
}

impl View for Check {
    type V = CheckView;

    open spec fn view(&self) -> CheckView {
        CheckView {
            name: self.name@,
            severity: self.severity,
            detail: self.detail@,
            fix: opt_text(self.fix),
        }
    }
}

impl CheckView {
    /// All is well.
    pub open spec fn ok(name: Seq<char>, detail: Seq<char>) -> CheckView {
        CheckView { name, severity: Severity::Okay, detail, fix: None }
    }

    /// Something may be wrong.
    pub open spec fn warn(name: Seq<char>, detail: Seq<char>, fix: Seq<char>) -> CheckView {
        CheckView { name, severity: Severity::Warn, detail, fix: Some(fix) }
    }

    /// Something is wrong.
    pub open spec fn fail(name: Seq<char>, detail: Seq<char>, fix: Seq<char>) -> CheckView {
        CheckView { name, severity: Severity::Fail, detail, fix: Some(fix) }
    }
}

impl Check {
    /// A finding that all is well.
    pub fn ok(name: &str, detail: &str) -> (check: Self)
        ensures
            check@ == CheckView::ok(name@, detail@),
    {
        Check {
            name: name.to_owned(),
            severity: Severity::Okay,
            detail: detail.to_owned(),
            fix: None,
        }
    }

    /// A finding that something may be wrong.
    pub fn warn(name: &str, detail: &str, fix: &str) -> (check: Self)
        ensures
            check@ == CheckView::warn(name@, detail@, fix@),
    {
        Check {
            name: name.to_owned(),
            severity: Severity::Warn,
            detail: detail.to_owned(),
            fix: Some(fix.to_owned()),
        }
    }

    /// A finding that something is wrong.
    pub fn fail(name: &str, detail: &str, fix: &str) -> (check: Self)
        ensures
            check@ == CheckView::fail(name@, detail@, fix@),
    {
        Check {
            name: name.to_owned(),
            severity: Severity::Fail,
            detail: detail.to_owned(),
            fix: Some(fix.to_owned()),
        }
    }
}

impl Clone for Check {
    fn clone(&self) -> (copy: Self)
        ensures
            copy@ == self@,
    {
        Check {
            name: self.name.clone(),
            severity: self.severity,
            detail: self.detail.clone(),
            fix: match &self.fix {
                Some(f) => Some(f.clone()),
                None => None,
            },
        }
    }
}

/// Findings by their views.
pub open spec fn check_views(checks: Seq<Check>) -> Seq<CheckView> {
    checks.map_values(|c: Check| c@)
}

/// The output of a program that may not have run, by its bytes.
pub open spec fn opt_bytes(out: Option<Vec<u8>>) -> Option<Seq<u8>> {
    match out {
        Some(b) => Some(b@),
        None => None,
    }
}

/// Whether the thing at a place of a list was found.
pub open spec fn present_at(present: Seq<bool>, i: int) -> bool {
    0 <= i < present.len() && present[i]
}

fn is_present(present: &Vec<bool>, i: usize) -> (yes: bool)
    ensures
        yes == present_at(present@, i as int),
{
    i < present.len() && present[i]
}

// ---------------------------------------------------------------------------
// Kernel
// ---------------------------------------------------------------------------

/// The version in a kernel release text: its first two numbers, and the third
/// where there is one.
pub open spec fn kver(s: Seq<char>) -> Option<(u32, u32, u32)> {
    let parts = tokens(s, TokenClass::Digits);
    if parts.len() >= 2 && u32_of(parts[0]) is Some && u32_of(parts[1]) is Some {
        let patch = if parts.len() >= 3 && u32_of(parts[2]) is Some {
            u32_of(parts[2])->0
        } else {
            0
        };
        Some((u32_of(parts[0])->0, u32_of(parts[1])->0, patch))
    } else {
        None
    }
}

/// Reads the version out of a kernel release text.
pub fn parse_kver(s: &str) -> (out: Option<(u32, u32, u32)>)
    ensures
        out == kver(s@),
{
    let parts: Vec<String> = split_tokens(s, TokenClass::Digits);
    let ghost t = tokens(s@, TokenClass::Digits);
    assert(t.len() == parts@.len());
    assert(forall|i: int| 0 <= i < t.len() ==> #[trigger] t[i] == parts@[i]@);
    if parts.len() < 2 {
        return None;
    }
    let major: u32 = match parse_u32(parts[0].as_str()) {
        Some(n) => n,
        None => {
            return None;
        },
    };
    let minor: u32 = match parse_u32(parts[1].as_str()) {
        Some(n) => n,
        None => {
            return None;
        },
    };
    let patch: u32 = if parts.len() >= 3 {
        match parse_u32(parts[2].as_str()) {
            Some(n) => n,
            None => 0,
        }
    } else {
        0
    };
    Some((major, minor, patch))
}

/// Kernels that drive a Moza R5: 6.12.24 and later in the 6.12 line, 6.13.12
/// and later in the 6.13 line, 6.14.3 and later in the 6.14 line, and all from
/// 6.15 on.
pub open spec fn new_enough(version: (u32, u32, u32)) -> bool {
    let (major, minor, patch) = version;
    ||| major > 6
    ||| major == 6 && minor >= 15
    ||| major == 6 && minor == 14 && patch >= 3
    ||| major == 6 && minor == 13 && patch >= 12
    ||| major == 6 && minor == 12 && patch >= 24
}

/// Later kernels of a line stay new enough.
pub proof fn law_later_patches_stay_new_enough(major: u32, minor: u32, patch: u32, later: u32)
    requires
        new_enough((major, minor, patch)),
        patch <= later,
    ensures
        new_enough((major, minor, later)),
{
}

/// What the kernel check finds. `release` is the output of `uname -r`.
pub open spec fn kernel_finding(release: Option<Seq<u8>>) -> CheckView {
    match release {
        None => CheckView::warn(
            "kernel-version"@,
            "could not run `uname -r`"@,
            "install coreutils"@,
        ),
        Some(bytes) => {
            let ver = trimmed(utf8_lossy(bytes));
            if kver(ver) is Some && new_enough(kver(ver)->0) {
                CheckView::ok("kernel-version"@, "kernel "@ + ver + " is new enough"@)
            } else {
                CheckView::warn(
                    "kernel-version"@,
                    "running kernel "@ + ver + " (Moza R5 FFB wants 6.12.24+, 6.13.12+, 6.14.3+ or 6.15+)"@,
                    "on CachyOS: `sudo pacman -S linux-cachyos` (6.14+) and reboot"@,
                )
            }
        },
    }
}

/// Judges the text of a kernel release.
pub fn judge_kernel(ver: &str) -> (new: bool)
    ensures
        new == (kver(ver@) is Some && new_enough(kver(ver@)->0)),
{
    match parse_kver(ver) {
        Some((major, minor, patch)) => major > 6 || (major == 6 && (minor >= 15 || (minor == 14
            && patch >= 3) || (minor == 13 && patch >= 12) || (minor == 12 && patch >= 24))),
        None => false,
    }
}

/// Checks that the kernel is new enough.
pub fn check_kernel_version(release: &Option<Vec<u8>>) -> (check: Check)
    ensures
        check@ == kernel_finding(opt_bytes(*release)),
{
    let bytes: &Vec<u8> = match release {
        Some(b) => b,
        None => {
            return Check::warn("kernel-version", "could not run `uname -r`", "install coreutils");
        },
    };
    let text: String = from_utf8_lossy(bytes.as_slice());
    let ver: &str = trim(text.as_str());
    if judge_kernel(ver) {
        let detail: String = "kernel ".to_owned().concat(ver).concat(" is new enough");
        Check::ok("kernel-version", detail.as_str())
    } else {
        let detail: String = "running kernel ".to_owned().concat(ver).concat(
            " (Moza R5 FFB wants 6.12.24+, 6.13.12+, 6.14.3+ or 6.15+)",
        );
        Check::warn(
            "kernel-version",
            detail.as_str(),
            "on CachyOS: `sudo pacman -S linux-cachyos` (6.14+) and reboot",
        )
    }
}

// ---------------------------------------------------------------------------
// Permissions
// ---------------------------------------------------------------------------

/// A word stands in a text.
pub open spec fn has_word(s: Seq<char>, word: Seq<char>) -> bool {
    tokens(s, TokenClass::Words).contains(word)
}

/// Whether a word stands in a text.
pub fn find_word(s: &str, word: &str) -> (found: bool)
    ensures
        found == has_word(s@, word@),
{
    let words: Vec<String> = split_tokens(s, TokenClass::Words);
    let ghost t = tokens(s@, TokenClass::Words);
    assert(forall|j: int| 0 <= j < t.len() ==> #[trigger] t[j] == words@[j]@);
    let mut i: usize = 0;
    while i < words.len()
        invariant
            i <= words@.len(),
            t == tokens(s@, TokenClass::Words),
            t.len() == words@.len(),
            forall|j: int| 0 <= j < t.len() ==> #[trigger] t[j] == words@[j]@,
            forall|j: int| 0 <= j < i ==> #[trigger] t[j] != word@,
        decreases words@.len() - i,
    {
        if same_text(words[i].as_str(), word) {
            assert(t[i as int] == word@);
            return true;
        }
        i = i + 1;
    }
    false
}

/// What the group check finds. `groups` is the output of `id -Gn`.
pub open spec fn group_finding(groups: Option<Seq<u8>>) -> CheckView {
    match groups {
        None => CheckView::warn(
            "input-group"@,
            "could not run `id -Gn`"@,
            "install coreutils"@,
        ),
        Some(bytes) => if has_word(utf8_lossy(bytes), "input"@) {
            CheckView::ok("input-group"@, "user is in `input` group"@)
        } else {
            CheckView::warn(
                "input-group"@,
                "user is NOT in `input` group"@,
                "`sudo gpasswd -a $USER input` and log out / back in"@,
            )
        },
    }
}

/// Checks that the user is in the `input` group.
pub fn check_user_in_input_group(groups: &Option<Vec<u8>>) -> (check: Check)
    ensures
        check@ == group_finding(opt_bytes(*groups)),
{
    let bytes: &Vec<u8> = match groups {
        Some(b) => b,
        None => {
            return Check::warn("input-group", "could not run `id -Gn`", "install coreutils");
        },
    };
    let text: String = from_utf8_lossy(bytes.as_slice());
    if find_word(text.as_str(), "input") {
        Check::ok("input-group", "user is in `input` group")
    } else {
        Check::warn(
            "input-group",
            "user is NOT in `input` group",
            "`sudo gpasswd -a $USER input` and log out / back in",
        )
    }
}

/// What the check of the input directory finds. `error` says why it could not
/// be read.
pub open spec fn input_dir_finding(error: Option<Seq<char>>) -> CheckView {
    match error {
        None => CheckView::ok("dev-input"@, "/dev/input is readable"@),
        Some(e) => CheckView::fail(
            "dev-input"@,
            "cannot read /dev/input: "@ + e,
            "check udev, input group membership, or apparmor/SELinux"@,
        ),
    }
}

/// Checks that the input directory can be read.
pub fn check_dev_input_readable(error: &Option<String>) -> (check: Check)
    ensures
        check@ == input_dir_finding(opt_text(*error)),
{
    match error {
        None => Check::ok("dev-input", "/dev/input is readable"),
        Some(e) => Check::fail(
            "dev-input",
            "cannot read /dev/input: ".to_owned().concat(e.as_str()).as_str(),
            "check udev, input group membership, or apparmor/SELinux",
        ),
    }
}

/// Where the udev rule may be installed.
pub open spec fn udev_rules() -> Seq<Seq<char>> {
    seq!["/etc/udev/rules.d/99-fs25-ffb.rules"@, "/usr/lib/udev/rules.d/99-fs25-ffb.rules"@]
}

/// Where the udev rule may be installed.
pub fn udev_rule_paths() -> (paths: Vec<String>)
    ensures
        texts(paths@) == udev_rules(),
{
    let mut paths: Vec<String> = Vec::new();
    paths.push("/etc/udev/rules.d/99-fs25-ffb.rules".to_owned());
    paths.push("/usr/lib/udev/rules.d/99-fs25-ffb.rules".to_owned());
    assert(texts(paths@) =~= udev_rules());
    paths
}

/// What the check of the udev rule finds. `present` says of each place whether
/// the rule is there.
pub open spec fn udev_finding(present: Seq<bool>) -> CheckView {
    if present_at(present, 0) || present_at(present, 1) {
        CheckView::ok("udev-rule"@, "99-fs25-ffb.rules installed"@)
    } else {
        CheckView::warn(
            "udev-rule"@,
            "udev rule not installed (not always required, but recommended)"@,
            "`sudo install -m0644 packaging/99-fs25-ffb.rules /etc/udev/rules.d/ && sudo udevadm control --reload && sudo udevadm trigger`"@,
        )
    }
}

/// Checks that the udev rule is installed.
pub fn check_udev_rule_installed(present: &Vec<bool>) -> (check: Check)
    ensures
        check@ == udev_finding(present@),
{
    if is_present(present, 0) || is_present(present, 1) {
        Check::ok("udev-rule", "99-fs25-ffb.rules installed")
    } else {
        Check::warn(
            "udev-rule",
            "udev rule not installed (not always required, but recommended)",
            "`sudo install -m0644 packaging/99-fs25-ffb.rules /etc/udev/rules.d/ && sudo udevadm control --reload && sudo udevadm trigger`",
        )
    }
}

// ---------------------------------------------------------------------------
// Device
// ---------------------------------------------------------------------------

/// The name of an effect type, by its code.
pub open spec fn effect_type_name(code: u16) -> Seq<char> {
    if code == 0x50 {
        "FF_RUMBLE"@
    } else if code == 0x51 {
        "FF_PERIODIC"@
    } else if code == 0x52 {
        "FF_CONSTANT"@
    } else if code == 0x53 {
        "FF_SPRING"@
    } else if code == 0x54 {
        "FF_FRICTION"@
    } else if code == 0x55 {
        "FF_DAMPER"@
    } else if code == 0x56 {
        "FF_INERTIA"@
    } else if code == 0x57 {
        "FF_RAMP"@
    } else if code == 0x58 {
        "FF_SQUARE"@
    } else if code == 0x59 {
        "FF_TRIANGLE"@
    } else if code == 0x5a {
        "FF_SINE"@
    } else if code == 0x5b {
        "FF_SAW_UP"@
    } else if code == 0x5c {
        "FF_SAW_DOWN"@
    } else if code == 0x5d {
        "FF_CUSTOM"@
    } else if code == 0x60 {
        "FF_GAIN"@
    } else if code == 0x61 {
        "FF_AUTOCENTER"@
    } else {
        "unknown key: "@ + decimal(code as nat)
    }
}

/// Formats an effect type with the `Debug` form of `evdev::FFEffectType`: the
/// kernel's name of each type that it knows, and the bare code of any other.
#[verifier::external_body]
fn name_effect_type(code: u16) -> (name: String)
    ensures
        name@ == effect_type_name(code),
{
    format!("{:?}", evdev::FFEffectType(code))
}

/// What opening the chosen device gave: the codes of the effect types that it
/// advertises, where it advertises force feedback at all, or why it could not
/// be opened.
pub open spec fn opened_view(opened: Result<Option<Vec<u16>>, String>) -> Result<
    Option<Seq<u16>>,
    Seq<char>,
> {
    match opened {
        Ok(Some(codes)) => Ok(Some(codes@)),
        Ok(None) => Ok(None),
        Err(e) => Err(e@),
    }
}

/// How a device is named in a finding.
pub open spec fn sighting(d: DeviceInfoView) -> Seq<char> {
    "found "@ + d.name + " at "@ + quoted_path(d.path) + " (0x"@ + hex(
        d.vendor_id as nat,
        4,
        false,
    ) + ":0x"@ + hex(d.product_id as nat, 4, false) + ")"@
}

/// What the device check finds for a choice among the visible devices.
pub open spec fn device_finding(
    choice: Result<usize, DeviceError>,
    list: Seq<CandidateView>,
    opened: Result<Option<Seq<u16>>, Seq<char>>,
) -> CheckView {
    let missing = |why: Seq<char>|
        CheckView::fail(
            "device"@,
            "no FFB wheel detected: "@ + why,
            "plug the wheel in, power it on, run boxflat once to confirm firmware sees it, then re-run the daemon"@,
        );
    match (choice, opened) {
        (Err(e), _) => missing(e.message_text()),
        (Ok(_), Err(why)) => missing(why),
        (Ok(i), Ok(_)) => CheckView::ok("device"@, sighting(description(list[i as int]))),
    }
}

fn missing_device(why: &str) -> (check: Check)
    ensures
        check@ == CheckView::fail(
            "device"@,
            "no FFB wheel detected: "@ + why@,
            "plug the wheel in, power it on, run boxflat once to confirm firmware sees it, then re-run the daemon"@,
        ),
{
    Check::fail(
        "device",
        "no FFB wheel detected: ".to_owned().concat(why).as_str(),
        "plug the wheel in, power it on, run boxflat once to confirm firmware sees it, then re-run the daemon",
    )
}

/// Checks that a wheel is visible. `opened` is what opening the chosen device
/// gave.
pub fn check_device_visible(
    hint: &DeviceHint,
    list: &Vec<Candidate>,
    opened: &Result<Option<Vec<u16>>, String>,
) -> (check: Check)
    ensures
        check@ == device_finding(
            choice(hint@, views(list@)),
            views(list@),
            opened_view(*opened),
        ),
{
    let i: usize = match find_device(hint, list) {
        Ok(i) => i,
        Err(e) => {
            return missing_device(e.message());
        },
    };
    assert(views(list@)[i as int] == list@[i as int]@);
    match opened {
        Err(why) => missing_device(why.as_str()),
        Ok(_) => {
            let d: DeviceInfo = describe(&list[i]);
            let path: String = quote_path(d.path.as_str());
            let vendor: String = hex_text(d.vendor_id as u64, 4, false);
            let product: String = hex_text(d.product_id as u64, 4, false);
            let detail: String = "found ".to_owned().concat(d.name.as_str()).concat(
                " at ",
            ).concat(path.as_str()).concat(" (0x").concat(vendor.as_str()).concat(":0x").concat(
                product.as_str(),
            ).concat(")");
            Check::ok("device", detail.as_str())
        },
    }
}

/// Texts with commas between them.
pub open spec fn comma_joined(list: Seq<Seq<char>>) -> Seq<char>
    decreases list.len(),
{
    if list.len() == 0 {
        Seq::empty()
    } else if list.len() == 1 {
        list[0]
    } else {
        comma_joined(list.drop_last()) + ", "@ + list.last()
    }
}

fn comma_join(list: &Vec<String>) -> (out: String)
    ensures
        out@ == comma_joined(texts(list@)),
{
    let ghost t = texts(list@);
    if list.len() == 0 {
        return String::new();
    }
    let mut out: String = list[0].clone();
    assert(t.take(1).len() == 1);
    let mut i: usize = 1;
    while i < list.len()
        invariant
            1 <= i <= list@.len(),
            t == texts(list@),
            out@ == comma_joined(t.take(i as int)),
        decreases list@.len() - i,
    {
        assert(t.take(i + 1).drop_last() =~= t.take(i as int));
        assert(t.take(i + 1).last() == list@[i as int]@);
        out = out.concat(", ").concat(list[i].as_str());
        i = i + 1;
    }
    assert(t.take(i as int) =~= t);
    out
}

/// The names of effect types.
pub open spec fn type_names(codes: Seq<u16>) -> Seq<Seq<char>> {
    codes.map_values(|code: u16| effect_type_name(code))
}

fn name_effect_types(codes: &Vec<u16>) -> (names: Vec<String>)
    ensures
        texts(names@) == type_names(codes@),
{
    let mut names: Vec<String> = Vec::new();
    let mut i: usize = 0;
    while i < codes.len()
        invariant
            i <= codes@.len(),
            names@.len() == i,
            forall|j: int| 0 <= j < i ==> (#[trigger] names@[j])@ == effect_type_name(codes@[j]),
        decreases codes@.len() - i,
    {
        names.push(name_effect_type(codes[i]));
        i = i + 1;
    }
    assert(texts(names@) =~= type_names(codes@));
    names
}

/// What the capability check finds for a choice among the visible devices.
pub open spec fn capability_finding(
    choice: Result<usize, DeviceError>,
    opened: Result<Option<Seq<u16>>, Seq<char>>,
) -> CheckView {
    match (choice, opened) {
        (Ok(_), Ok(None)) => CheckView::fail(
            "ffb-capable"@,
            "device does not advertise any FFB bits"@,
            "check kernel module (hid-universal-pidff / hid-mozawheel / hid-logitech)"@,
        ),
        (Ok(_), Ok(Some(codes))) => if codes.len() == 0 {
            CheckView::fail(
                "ffb-capable"@,
                "device advertises FF event type but zero effect types"@,
                "upgrade kernel to 6.14+ or install hid-universal-pidff dkms"@,
            )
        } else {
            CheckView::ok("ffb-capable"@, "supports: ["@ + comma_joined(type_names(codes)) + "]"@)
        },
        _ => CheckView::warn("ffb-capable"@, "no device found to query"@, "see `device` above"@),
    }
}

/// Checks that the wheel plays effects. `opened` is what opening the chosen
/// device gave.
pub fn check_ffb_capable(
    hint: &DeviceHint,
    list: &Vec<Candidate>,
    opened: &Result<Option<Vec<u16>>, String>,
) -> (check: Check)
    ensures
        check@ == capability_finding(choice(hint@, views(list@)), opened_view(*opened)),
{
    match (find_device(hint, list), opened) {
        (Ok(_), Ok(None)) => Check::fail(
            "ffb-capable",
            "device does not advertise any FFB bits",
            "check kernel module (hid-universal-pidff / hid-mozawheel / hid-logitech)",
        ),
        (Ok(_), Ok(Some(codes))) => {
            if codes.len() == 0 {
                Check::fail(
                    "ffb-capable",
                    "device advertises FF event type but zero effect types",
                    "upgrade kernel to 6.14+ or install hid-universal-pidff dkms",
                )
            } else {
                let list: String = comma_join(&name_effect_types(codes));
                let detail: String = "supports: [".to_owned().concat(list.as_str()).concat("]");
                Check::ok("ffb-capable", detail.as_str())
            }
        },
        _ => Check::warn("ffb-capable", "no device found to query", "see `device` above"),
    }
}

// ---------------------------------------------------------------------------
// Steam and the game
// ---------------------------------------------------------------------------

/// The Proton prefixes that the game may have.
pub open spec fn prefixes(home: Seq<char>, appid: u32) -> Seq<Seq<char>> {
    seq![
        joined(home, ".local/share/Steam/steamapps/compatdata/"@ + decimal(appid as nat)),
        joined(home, ".steam/steam/steamapps/compatdata/"@ + decimal(appid as nat)),
    ]
}

/// The Proton prefixes that the game may have.
pub fn compatdata_candidates(home: &str, appid: u32) -> (paths: Vec<String>)
    ensures
        texts(paths@) == prefixes(home@, appid),
{
    let id: String = decimal_text(appid as u64);
    let first: String = ".local/share/Steam/steamapps/compatdata/".to_owned().concat(id.as_str());
    let second: String = ".steam/steam/steamapps/compatdata/".to_owned().concat(id.as_str());
    let mut paths: Vec<String> = Vec::new();
    paths.push(join_path(home, first.as_str()));
    paths.push(join_path(home, second.as_str()));
    assert(texts(paths@) =~= prefixes(home@, appid));
    paths
}

/// What the check of the Proton prefix finds. `present` says of each prefix
/// whether it is there.
pub open spec fn compatdata_finding(
    home: Option<Seq<char>>,
    appid: u32,
    present: Seq<bool>,
) -> CheckView {
    match home {
        None => CheckView::fail(
            "compatdata"@,
            "HOME not set"@,
            "run under a real user session"@,
        ),
        Some(home) => if present_at(present, 0) {
            CheckView::ok(
                "compatdata"@,
                "Proton prefix found at "@ + quoted_path(prefixes(home, appid)[0]),
            )
        } else if present_at(present, 1) {
            CheckView::ok(
                "compatdata"@,
                "Proton prefix found at "@ + quoted_path(prefixes(home, appid)[1]),
            )
        } else {
            CheckView::warn(
                "compatdata"@,
                "no Proton prefix for FS25 (AppID 2300320) yet"@,
                "launch FS25 once in Steam so Proton creates the prefix"@,
            )
        },
    }
}

fn prefix_found(path: &str) -> (check: Check)
    ensures
        check@ == CheckView::ok("compatdata"@, "Proton prefix found at "@ + quoted_path(path@)),
{
    let quoted: String = quote_path(path);
    Check::ok(
        "compatdata",
        "Proton prefix found at ".to_owned().concat(quoted.as_str()).as_str(),
    )
}

/// Checks that the game has a Proton prefix.
pub fn check_steam_compatdata(home: &Option<String>, appid: u32, present: &Vec<bool>) -> (check:
    Check)
    ensures
        check@ == compatdata_finding(opt_text(*home), appid, present@),
{
    let home: &String = match home {
        Some(h) => h,
        None => {
            return Check::fail("compatdata", "HOME not set", "run under a real user session");
        },
    };
    let paths: Vec<String> = compatdata_candidates(home.as_str(), appid);
    let ghost p = prefixes(home@, appid);
    assert(p.len() == 2 && texts(paths@).len() == paths@.len());
    assert(p[0] == paths@[0]@ && p[1] == paths@[1]@);
    if is_present(present, 0) {
        prefix_found(paths[0].as_str())
    } else if is_present(present, 1) {
        prefix_found(paths[1].as_str())
    } else {
        Check::warn(
            "compatdata",
            "no Proton prefix for FS25 (AppID 2300320) yet",
            "launch FS25 once in Steam so Proton creates the prefix",
        )
    }
}

/// The directory of the game's mods.
pub open spec fn mods_path(home: Seq<char>) -> Seq<char> {
    joined(
        home,
        ".local/share/Steam/steamapps/compatdata/2300320/pfx/drive_c/users/steamuser/Documents/My Games/FarmingSimulator2025/mods"@,
    )
}

/// The directory of the game's mods.
pub fn mods_dir(home: &str) -> (path: String)
    ensures
        path@ == mods_path(home@),
{
    join_path(
        home,
        ".local/share/Steam/steamapps/compatdata/2300320/pfx/drive_c/users/steamuser/Documents/My Games/FarmingSimulator2025/mods",
    )
}

/// Where the mod may be: packed, or as a directory.
pub open spec fn mod_paths(home: Seq<char>) -> Seq<Seq<char>> {
    seq![
        joined(mods_path(home), "FS25_FFBEnhancer.zip"@),
        joined(mods_path(home), "FS25_FFBEnhancer"@),
    ]
}

/// Where the mod may be: packed, or as a directory.
pub fn mod_locations(home: &str) -> (paths: Vec<String>)
    ensures
        texts(paths@) == mod_paths(home@),
{
    let mods: String = mods_dir(home);
    let mut paths: Vec<String> = Vec::new();
    paths.push(join_path(mods.as_str(), "FS25_FFBEnhancer.zip"));
    paths.push(join_path(mods.as_str(), "FS25_FFBEnhancer"));
    assert(texts(paths@) =~= mod_paths(home@));
    paths
}

/// What the check of the mod finds. `present` says of each place whether the
/// mod is there.
pub open spec fn mod_finding(home: Option<Seq<char>>, present: Seq<bool>) -> CheckView {
    match home {
        None => CheckView::warn("mod-installed"@, "HOME not set"@, ""@),
        Some(home) => if present_at(present, 0) || present_at(present, 1) {
            CheckView::ok("mod-installed"@, "mod present at "@ + quoted_path(mods_path(home)))
        } else {
            CheckView::warn(
                "mod-installed"@,
                "FS25_FFBEnhancer not found in "@ + quoted_path(mods_path(home)),
                "run `./packaging/install.sh` or copy mod/FS25_FFBEnhancer/ into the mods dir"@,
            )
        },
    }
}

/// Checks that the mod is installed.
pub fn check_mod_installed(home: &Option<String>, present: &Vec<bool>) -> (check: Check)
    ensures
        check@ == mod_finding(opt_text(*home), present@),
{
    let home: &String = match home {
        Some(h) => h,
        None => {
            return Check::warn("mod-installed", "HOME not set", "");
        },
    };
    let mods: String = quote_path(mods_dir(home.as_str()).as_str());
    if is_present(present, 0) || is_present(present, 1) {
        let detail: String = "mod present at ".to_owned().concat(mods.as_str());
        Check::ok("mod-installed", detail.as_str())
    } else {
        let detail: String = "FS25_FFBEnhancer not found in ".to_owned().concat(mods.as_str());
        Check::warn(
            "mod-installed",
            detail.as_str(),
            "run `./packaging/install.sh` or copy mod/FS25_FFBEnhancer/ into the mods dir",
        )
    }
}

/// The age from which on the telemetry file counts as stale, in nanoseconds.
pub const FILE_STALE_NANOS: u128 = 10_000_000_000;

/// What a telemetry file of unknown age is taken for, in seconds.
pub const UNKNOWN_AGE_SECONDS: u32 = 9999;

/// How old the telemetry file is.
#[derive(Debug)]
pub struct FileAge {
    /// The age in nanoseconds, where the system tells it.
    pub nanos: Option<u128>,
    /// The age in seconds with one decimal place.
    pub seconds_text: String,
}

/// A [`FileAge`] by the characters of its texts.
pub struct FileAgeView {
    pub nanos: Option<u128>,
    pub seconds_text: Seq<char>,
}

impl View for FileAge {
    type V = FileAgeView;

    open spec fn view(&self) -> FileAgeView {
        FileAgeView { nanos: self.nanos, seconds_text: self.seconds_text@ }
    }
}

/// A file is stale after ten seconds, and where its age is not known.
pub open spec fn file_stale(nanos: Option<u128>) -> bool {
    match nanos {
        Some(n) => n > FILE_STALE_NANOS,
        None => true,
    }
}

/// The age of a file in whole seconds, capped at the largest that fits.
pub open spec fn whole_seconds(nanos: Option<u128>) -> u32 {
    match nanos {
        Some(n) => if n / 1_000_000_000 <= u32::MAX {
            (n / 1_000_000_000) as u32
        } else {
            u32::MAX
        },
        None => UNKNOWN_AGE_SECONDS,
    }
}

fn seconds_of(nanos: Option<u128>) -> (seconds: u32)
    ensures
        seconds == whole_seconds(nanos),
{
    match nanos {
        Some(n) => {
            let seconds: u128 = n / 1_000_000_000;
            if seconds <= u32::MAX as u128 {
                seconds as u32
            } else {
                u32::MAX
            }
        },
        None => UNKNOWN_AGE_SECONDS,
    }
}

/// The age of a file that may not be there.
pub open spec fn opt_age(age: Option<FileAge>) -> Option<FileAgeView> {
    match age {
        Some(a) => Some(a@),
        None => None,
    }
}

/// What the telemetry check finds for a telemetry path and the age of the file
/// there.
pub open spec fn telemetry_finding(
    path: Result<Seq<char>, PathError>,
    age: Option<FileAgeView>,
) -> CheckView {
    match (path, age) {
        (Err(_), _) => CheckView::warn(
            "telemetry"@,
            "cannot resolve path: "@ + "HOME is not set"@,
            ""@,
        ),
        (Ok(path), None) => CheckView::warn(
            "telemetry"@,
            "telemetry file does not exist at "@ + quoted_path(path),
            "start FS25 with the mod active; the file is created on first vehicle"@,
        ),
        (Ok(path), Some(age)) => if file_stale(age.nanos) {
            CheckView::warn(
                "telemetry"@,
                "telemetry file "@ + decimal(whole_seconds(age.nanos) as nat) + " seconds stale at "@
                    + quoted_path(path),
                "FS25 is paused, not in a vehicle, or the Lua mod failed to load"@,
            )
        } else {
            CheckView::ok(
                "telemetry"@,
                "updated "@ + age.seconds_text + "s ago at "@ + quoted_path(path),
            )
        },
    }
}

/// Checks that telemetry is fresh at a telemetry path.
pub fn judge_telemetry(path: &Result<String, PathError>, age: &Option<FileAge>) -> (check: Check)
    ensures
        check@ == telemetry_finding(path_outcome(*path), opt_age(*age)),
{
    let path: &String = match path {
        Ok(p) => p,
        Err(e) => {
            let detail: String = "cannot resolve path: ".to_owned().concat(e.message());
            return Check::warn("telemetry", detail.as_str(), "");
        },
    };
    let quoted: String = quote_path(path.as_str());
    match age {
        None => {
            let detail: String = "telemetry file does not exist at ".to_owned().concat(
                quoted.as_str(),
            );
            Check::warn(
                "telemetry",
                detail.as_str(),
                "start FS25 with the mod active; the file is created on first vehicle",
            )
        },
        Some(age) => if age.nanos.is_none() || age.nanos.unwrap() > FILE_STALE_NANOS {
            let seconds: String = decimal_text(seconds_of(age.nanos) as u64);
            let detail: String = "telemetry file ".to_owned().concat(seconds.as_str()).concat(
                " seconds stale at ",
            ).concat(quoted.as_str());
            Check::warn(
                "telemetry",
                detail.as_str(),
                "FS25 is paused, not in a vehicle, or the Lua mod failed to load",
            )
        } else {
            let detail: String = "updated ".to_owned().concat(age.seconds_text.as_str()).concat(
                "s ago at ",
            ).concat(quoted.as_str());
            Check::ok("telemetry", detail.as_str())
        },
    }
}

/// Checks that telemetry is fresh. `present` says of each candidate for the
/// telemetry path whether its directory is there.
pub fn check_telemetry_fresh(
    cfg: &Config,
    home: &Option<String>,
    present: &Vec<bool>,
    age: &Option<FileAge>,
) -> (check: Check)
    ensures
        check@ == telemetry_finding(
            telemetry_path(cfg@.paths, opt_text(*home), present@),
            opt_age(*age),
        ),
{
    let base: Option<&str> = match home {
        Some(h) => Some(h.as_str()),
        None => None,
    };
    judge_telemetry(&resolve_telemetry_path(cfg, base, present), age)
}

/// The file that holds the version of Proton.
pub open spec fn proton_file(home: Seq<char>, appid: u32) -> Seq<char> {
    joined(
        home,
        ".local/share/Steam/steamapps/compatdata/"@ + decimal(appid as nat) + "/version"@,
    )
}

/// The file that holds the version of Proton.
pub fn proton_version_path(home: &str, appid: u32) -> (path: String)
    ensures
        path@ == proton_file(home@, appid),
{
    let id: String = decimal_text(appid as u64);
    let rest: String = ".local/share/Steam/steamapps/compatdata/".to_owned().concat(
        id.as_str(),
    ).concat("/version");
    join_path(home, rest.as_str())
}

/// A dot or a dash and another number follow the number at a position.
pub open spec fn continued(s: Seq<char>, at: int) -> bool {
    let end = run_end(s, at);
    &&& end + 1 < s.len()
    &&& s[end] == '.' || s[end] == '-'
    &&& is_digit(s[end + 1])
}

/// The number at a position, and the one behind it where it is continued.
pub open spec fn pair_at(s: Seq<char>, at: int) -> (nat, nat) {
    (
        number_from(s, at),
        if continued(s, at) {
            number_from(s, run_end(s, at) + 1)
        } else {
            0
        },
    )
}

/// A version stands at a position: two numbers, at the start of the text or
/// behind a dash.
pub open spec fn version_at(s: Seq<char>, at: int) -> bool {
    &&& 0 <= at < s.len()
    &&& is_digit(s[at])
    &&& at == 0 || s[at - 1] == '-'
    &&& continued(s, at)
}

/// The first version in a text, from a position on.
pub open spec fn version_from(s: Seq<char>, from: int) -> Option<(nat, nat)>
    decreases s.len() - from,
{
    if from < 0 || from >= s.len() {
        None
    } else if version_at(s, from) {
        Some(pair_at(s, from))
    } else {
        version_from(s, from + 1)
    }
}

/// A build of GE-Proton.
pub open spec fn is_ge(version: Seq<char>) -> bool {
    occurs_at(version, "GE-Proton"@, 0)
}

/// The numbers of a Proton version: those right behind `GE-Proton`, and else
/// the first version in the text.
pub open spec fn release_of(version: Seq<char>) -> Option<(nat, nat)> {
    if is_ge(version) {
        let at = "GE-Proton"@.len() as int;
        if at < version.len() && is_digit(version[at]) {
            Some(pair_at(version, at))
        } else {
            None
        }
    } else {
        version_from(version, 0)
    }
}

/// A version of Proton that is recommended: Proton 9 and later, and GE-Proton
/// from build 9-25 on.
pub open spec fn good_proton(version: Seq<char>) -> bool {
    match release_of(version) {
        Some((major, minor)) => if is_ge(version) {
            major > 9 || (major == 9 && minor >= 25)
        } else {
            major >= 9
        },
        None => false,
    }
}

/// A number, capped at the largest that fits.
pub open spec fn capped(n: nat) -> u32 {
    if n <= u32::MAX {
        n as u32
    } else {
        u32::MAX
    }
}

/// Reads the number at a position and the one behind it, and tells whether
/// there is one behind it.
fn read_pair(s: &str, at: usize) -> (out: (u32, u32, bool))
    requires
        at < s@.len(),
        is_digit(s@[at as int]),
    ensures
        out.0 == capped(pair_at(s@, at as int).0),
        out.1 == capped(pair_at(s@, at as int).1),
        out.2 == continued(s@, at as int),
{
    let (major, end): (u32, usize) = read_number(s, at);
    let len: usize = s.unicode_len();
    if end < len && len - end > 1 {
        let sign: char = s.get_char(end);
        let next: char = s.get_char(end + 1);
        if (sign == '.' || sign == '-') && '0' <= next && next <= '9' {
            let (minor, _): (u32, usize) = read_number(s, end + 1);
            return (major, minor, true);
        }
    }
    (major, 0, false)
}

/// The first number of the first version in a text.
fn first_major(s: &str) -> (out: Option<u32>)
    ensures
        match version_from(s@, 0) {
            Some(pair) => out == Some(capped(pair.0)),
            None => out is None,
        },
{
    let len: usize = s.unicode_len();
    let mut at: usize = 0;
    while at < len
        invariant
            len == s@.len(),
            at <= len,
            version_from(s@, 0) == version_from(s@, at as int),
        decreases len - at,
    {
        let c: char = s.get_char(at);
        if '0' <= c && c <= '9' && (at == 0 || s.get_char(at - 1) == '-') {
            let (major, _, two): (u32, u32, bool) = read_pair(s, at);
            if two {
                return Some(major);
            }
        }
        at = at + 1;
    }
    None
}

/// Judges a version of Proton.
pub fn judge_proton(version: &str) -> (good: bool)
    ensures
        good == good_proton(version@),
{
    if starts_with(version, "GE-Proton") {
        let at: usize = "GE-Proton".unicode_len();
        if at < version.unicode_len() {
            let c: char = version.get_char(at);
            if '0' <= c && c <= '9' {
                let (major, minor, _): (u32, u32, bool) = read_pair(version, at);
                return major > 9 || (major == 9 && minor >= 25);
            }
        }
        false
    } else {
        match first_major(version) {
            Some(major) => major >= 9,
            None => false,
        }
    }
}

/// What the Proton check finds. `version` is what the version file holds.
pub open spec fn proton_finding(home: Option<Seq<char>>, version: Option<Seq<char>>) -> CheckView {
    match (home, version) {
        (None, _) => CheckView::warn("proton"@, "HOME not set"@, ""@),
        (Some(_), None) => CheckView::warn(
            "proton"@,
            "could not read compatdata/version"@,
            "launch FS25 once to populate it"@,
        ),
        (Some(_), Some(text)) => {
            let v = trimmed(text);
            if good_proton(v) {
                CheckView::ok("proton"@, "Proton "@ + v)
            } else {
                CheckView::warn(
                    "proton"@,
                    "Proton "@ + v + " - may work but 9.0+/GE-Proton recommended"@,
                    "set FS25's Steam compatibility tool to Proton 9.0 or GE-Proton"@,
                )
            }
        },
    }
}

/// Checks the version of Proton.
pub fn check_proton_version(home: &Option<String>, version: &Option<String>) -> (check: Check)
    ensures
        check@ == proton_finding(opt_text(*home), opt_text(*version)),
{
    if home.is_none() {
        return Check::warn("proton", "HOME not set", "");
    }
    match version {
        Some(text) => {
            let v: &str = trim(text.as_str());
            if judge_proton(v) {
                Check::ok("proton", "Proton ".to_owned().concat(v).as_str())
            } else {
                Check::warn(
                    "proton",
                    "Proton ".to_owned().concat(v).concat(
                        " - may work but 9.0+/GE-Proton recommended",
                    ).as_str(),
                    "set FS25's Steam compatibility tool to Proton 9.0 or GE-Proton",
                )
            }
        },
        None => Check::warn(
            "proton",
            "could not read compatdata/version",
            "launch FS25 once to populate it",
        ),
    }
}

// ---------------------------------------------------------------------------
// Other programs and the system
// ---------------------------------------------------------------------------

/// The process id in the output of `pidof`: the first word, where it is a
/// number.
pub open spec fn pid_in(out: Option<Seq<u8>>) -> Option<u32> {
    match out {
        Some(bytes) => {
            let words = tokens(utf8_lossy(bytes), TokenClass::Words);
            if words.len() > 0 {
                u32_of(words[0])
            } else {
                None
            }
        },
        None => None,
    }
}

/// Reads a process id out of what `pidof` printed.
pub fn parse_pid(text: &str) -> (pid: Option<u32>)
    ensures
        ({
            let words = tokens(text@, TokenClass::Words);
            pid == if words.len() > 0 {
                u32_of(words[0])
            } else {
                None
            }
        }),
{
    let words: Vec<String> = split_tokens(text, TokenClass::Words);
    let ghost t = tokens(text@, TokenClass::Words);
    assert(t.len() == words@.len());
    if words.len() > 0 {
        assert(t[0] == words@[0]@);
        parse_u32(words[0].as_str())
    } else {
        None
    }
}

/// Reads a process id out of the output of `pidof`, which may not have run.
pub fn pidof(out: &Option<Vec<u8>>) -> (pid: Option<u32>)
    ensures
        pid == pid_in(opt_bytes(*out)),
{
    match out {
        Some(bytes) => {
            let text: String = from_utf8_lossy(bytes.as_slice());
            parse_pid(text.as_str())
        },
        None => None,
    }
}

/// What the check for boxflat finds. `out` is the output of `pidof boxflat`.
pub open spec fn boxflat_finding(out: Option<Seq<u8>>) -> CheckView {
    if pid_in(out) is Some {
        CheckView::ok("boxflat"@, "boxflat is running (OK, does not conflict with evdev FFB)"@)
    } else {
        CheckView::ok("boxflat"@, "boxflat not running (fine)"@)
    }
}

/// Checks whether boxflat is running. It talks to the wheel by another way, so
/// it is no trouble; to know of it helps to rule out effects that stack up.
pub fn check_boxflat_running(out: &Option<Vec<u8>>) -> (check: Check)
    ensures
        check@ == boxflat_finding(opt_bytes(*out)),
{
    if pidof(out).is_some() {
        Check::ok("boxflat", "boxflat is running (OK, does not conflict with evdev FFB)")
    } else {
        Check::ok("boxflat", "boxflat not running (fine)")
    }
}

/// Other programs that manage wheels.
pub open spec fn managers() -> Seq<Seq<char>> {
    seq!["oversteer"@, "new-lg4ff-loader"@, "fanatec-led"@]
}

/// Other programs that manage wheels.
pub fn manager_names() -> (names: Vec<String>)
    ensures
        texts(names@) == managers(),
{
    let mut names: Vec<String> = Vec::new();
    names.push("oversteer".to_owned());
    names.push("new-lg4ff-loader".to_owned());
    names.push("fanatec-led".to_owned());
    assert(texts(names@) =~= managers());
    names
}

/// The outputs of several programs, by their bytes.
pub open spec fn outputs(outs: Seq<Option<Vec<u8>>>) -> Seq<Option<Seq<u8>>> {
    outs.map_values(|o: Option<Vec<u8>>| opt_bytes(o))
}

/// Those of the first `n` managers that run, in quotes. `outs` holds the output
/// of `pidof` for each manager.
pub open spec fn running_managers(outs: Seq<Option<Seq<u8>>>, n: nat) -> Seq<Seq<char>>
    decreases n,
{
    if n == 0 {
        Seq::empty()
    } else {
        let before = running_managers(outs, (n - 1) as nat);
        if n <= outs.len() && pid_in(outs[n - 1]) is Some {
            before.push("\""@ + managers()[n - 1] + "\""@)
        } else {
            before
        }
    }
}

/// What the check for other managers finds.
pub open spec fn managers_finding(outs: Seq<Option<Seq<u8>>>) -> CheckView {
    let found = running_managers(outs, 3);
    if found.len() == 0 {
        CheckView::ok("other-drivers"@, "no conflicting wheel managers running"@)
    } else {
        CheckView::warn(
            "other-drivers"@,
            "running: ["@ + comma_joined(found) + "]"@,
            "these only manage config, they don't conflict with FFB writes; still worth disabling autocenter in them"@,
        )
    }
}

/// Checks whether other programs that manage wheels are running. `outs` holds
/// the output of `pidof` for each of them.
pub fn check_conflicting_processes(outs: &Vec<Option<Vec<u8>>>) -> (check: Check)
    ensures
        check@ == managers_finding(outputs(outs@)),
{
    let names: Vec<String> = manager_names();
    let ghost o = outputs(outs@);
    assert(managers().len() == 3 && texts(names@).len() == names@.len());
    let mut found: Vec<String> = Vec::new();
    let mut i: usize = 0;
    assert(texts(found@) =~= Seq::empty());
    while i < 3
        invariant
            i <= 3,
            names@.len() == 3,
            texts(names@) == managers(),
            o == outputs(outs@),
            texts(found@) == running_managers(o, i as nat),
        decreases 3 - i,
    {
        let ghost before = texts(found@);
        if i < outs.len() && pidof(&outs[i]).is_some() {
            assert(o[i as int] == opt_bytes(outs@[i as int]));
            assert(managers()[i as int] == names@[i as int]@);
            found.push("\"".to_owned().concat(names[i].as_str()).concat("\""));
            assert(texts(found@) =~= before.push("\""@ + managers()[i as int] + "\""@));
        } else {
            assert(i < outs@.len() ==> o[i as int] == opt_bytes(outs@[i as int]));
        }
        i = i + 1;
    }
    assert(texts(found@).len() == found@.len());
    if found.len() == 0 {
        Check::ok("other-drivers", "no conflicting wheel managers running")
    } else {
        let list: String = comma_join(&found);
        let detail: String = "running: [".to_owned().concat(list.as_str()).concat("]");
        Check::warn(
            "other-drivers",
            detail.as_str(),
            "these only manage config, they don't conflict with FFB writes; still worth disabling autocenter in them",
        )
    }
}

/// What the check of the joystick setting finds. `value` is the value of
/// `SDL_JOYSTICK_HIDAPI`.
pub open spec fn hidapi_finding(value: Option<Seq<char>>) -> CheckView {
    match value {
        Some(v) => if v == "0"@ {
            CheckView::ok(
                "sdl-hidapi"@,
                "SDL_JOYSTICK_HIDAPI=0 (recommended for Moza under Proton)"@,
            )
        } else {
            CheckView::warn(
                "sdl-hidapi"@,
                "SDL_JOYSTICK_HIDAPI="@ + v + " (set to 0 for best FFB)"@,
                "in Steam, set launch options: SDL_JOYSTICK_HIDAPI=0 %command%"@,
            )
        },
        None => CheckView::warn(
            "sdl-hidapi"@,
            "SDL_JOYSTICK_HIDAPI not set"@,
            "Steam launch options: SDL_JOYSTICK_HIDAPI=0 %command%"@,
        ),
    }
}

/// Checks that the joystick library leaves the wheel to the kernel.
pub fn check_sdl_hidapi_env(value: &Option<String>) -> (check: Check)
    ensures
        check@ == hidapi_finding(opt_text(*value)),
{
    match value {
        Some(v) => if same_text(v.as_str(), "0") {
            Check::ok("sdl-hidapi", "SDL_JOYSTICK_HIDAPI=0 (recommended for Moza under Proton)")
        } else {
            Check::warn(
                "sdl-hidapi",
                "SDL_JOYSTICK_HIDAPI=".to_owned().concat(v.as_str()).concat(
                    " (set to 0 for best FFB)",
                ).as_str(),
                "in Steam, set launch options: SDL_JOYSTICK_HIDAPI=0 %command%",
            )
        },
        None => Check::warn(
            "sdl-hidapi",
            "SDL_JOYSTICK_HIDAPI not set",
            "Steam launch options: SDL_JOYSTICK_HIDAPI=0 %command%",
        ),
    }
}

/// What the check of the frequency governor finds. `governor` is what the
/// kernel says of it.
pub open spec fn governor_finding(governor: Option<Seq<char>>) -> CheckView {
    match governor {
        Some(text) => {
            let g = trimmed(text);
            if g == "performance"@ || g == "schedutil"@ {
                CheckView::ok("cpu-governor"@, "governor = "@ + g)
            } else {
                CheckView::warn(
                    "cpu-governor"@,
                    "governor = "@ + g + " (may cause FFB jitter)"@,
                    "`sudo cpupower frequency-set -g performance` (CachyOS ships with schedutil by default which is fine)"@,
                )
            }
        },
        None => CheckView::ok("cpu-governor"@, "unknown (skipping)"@),
    }
}

/// Checks that the processor does not slow down between ticks.
pub fn check_cpu_governor(governor: &Option<String>) -> (check: Check)
    ensures
        check@ == governor_finding(opt_text(*governor)),
{
    match governor {
        Some(text) => {
            let g: &str = trim(text.as_str());
            if same_text(g, "performance") || same_text(g, "schedutil") {
                Check::ok("cpu-governor", "governor = ".to_owned().concat(g).as_str())
            } else {
                Check::warn(
                    "cpu-governor",
                    "governor = ".to_owned().concat(g).concat(" (may cause FFB jitter)").as_str(),
                    "`sudo cpupower frequency-set -g performance` (CachyOS ships with schedutil by default which is fine)",
                )
            }
        },
        None => Check::ok("cpu-governor", "unknown (skipping)"),
    }
}

// ---------------------------------------------------------------------------
// All checks
// ---------------------------------------------------------------------------

/// What was found out about the system.
#[derive(Debug)]
pub struct Facts {
    /// The output of `uname -r`.
    pub release: Option<Vec<u8>>,
    /// The output of `id -Gn`.
    pub groups: Option<Vec<u8>>,
    /// Why the input directory could not be read.
    pub input_dir_error: Option<String>,
    /// Which of [`udev_rule_paths`] are there.
    pub udev_rules: Vec<bool>,
    /// The visible input devices.
    pub devices: Vec<Candidate>,
    /// What opening the chosen device gave.
    pub opened: Result<Option<Vec<u16>>, String>,
    /// The home directory, where it is well-formed text.
    pub home: Option<String>,
    /// The home directory that telemetry is looked for in.
    pub telemetry_home: Option<String>,
    /// Which of [`compatdata_candidates`] are there.
    pub prefixes: Vec<bool>,
    /// Which of [`mod_locations`] are there.
    pub mods: Vec<bool>,
    /// Which of the candidates for the telemetry path have a directory.
    pub telemetry_dirs: Vec<bool>,
    /// The age of the telemetry file, where it is there.
    pub telemetry_age: Option<FileAge>,
    /// The output of `pidof boxflat`.
    pub boxflat: Option<Vec<u8>>,
    /// What the file at [`proton_version_path`] holds.
    pub proton_version: Option<String>,
    /// The output of `pidof` for each of [`manager_names`].
    pub managers: Vec<Option<Vec<u8>>>,
    /// The value of `SDL_JOYSTICK_HIDAPI`.
    pub sdl_hidapi: Option<String>,
    /// What the kernel says of the frequency governor.
    pub governor: Option<String>,
}

/// What all checks find, in order.
pub open spec fn findings(cfg: ConfigView, facts: Facts) -> Seq<CheckView> {
    let devices = views(facts.devices@);
    let chosen = choice(cfg.device_hint, devices);
    let opened = opened_view(facts.opened);
    let home = opt_text(facts.home);
    let appid = cfg.paths.fs25_steam_appid;
    seq![
        kernel_finding(opt_bytes(facts.release)),
        group_finding(opt_bytes(facts.groups)),
        input_dir_finding(opt_text(facts.input_dir_error)),
        udev_finding(facts.udev_rules@),
        device_finding(chosen, devices, opened),
        capability_finding(chosen, opened),
        compatdata_finding(home, appid, facts.prefixes@),
        mod_finding(home, facts.mods@),
        telemetry_finding(
            telemetry_path(cfg.paths, opt_text(facts.telemetry_home), facts.telemetry_dirs@),
            opt_age(facts.telemetry_age),
        ),
        boxflat_finding(opt_bytes(facts.boxflat)),
        proton_finding(home, opt_text(facts.proton_version)),
        managers_finding(outputs(facts.managers@)),
        hidapi_finding(opt_text(facts.sdl_hidapi)),
        governor_finding(opt_text(facts.governor)),
    ]
}

/// Runs all checks.
pub fn run_all(cfg: &Config, facts: &Facts) -> (checks: Vec<Check>)
    ensures
        check_views(checks@) == findings(cfg@, *facts),
{
    let mut out: Vec<Check> = Vec::new();
    out.push(check_kernel_version(&facts.release));
    out.push(check_user_in_input_group(&facts.groups));
    out.push(check_dev_input_readable(&facts.input_dir_error));
    out.push(check_udev_rule_installed(&facts.udev_rules));
    out.push(check_device_visible(&cfg.device_hint, &facts.devices, &facts.opened));
    out.push(check_ffb_capable(&cfg.device_hint, &facts.devices, &facts.opened));
    out.push(check_steam_compatdata(&facts.home, cfg.paths.fs25_steam_appid, &facts.prefixes));
    out.push(check_mod_installed(&facts.home, &facts.mods));
    out.push(
        check_telemetry_fresh(
            cfg,
            &facts.telemetry_home,
            &facts.telemetry_dirs,
            &facts.telemetry_age,
        ),
    );
    out.push(check_boxflat_running(&facts.boxflat));
    out.push(check_proton_version(&facts.home, &facts.proton_version));
    out.push(check_conflicting_processes(&facts.managers));
    out.push(check_sdl_hidapi_env(&facts.sdl_hidapi));
    out.push(check_cpu_governor(&facts.governor));
    assert(check_views(out@) =~= findings(cfg@, *facts));
    out
}

// ---------------------------------------------------------------------------
// The report
// ---------------------------------------------------------------------------

/// How many findings have a severity.
pub open spec fn count(checks: Seq<CheckView>, severity: Severity) -> nat
    decreases checks.len(),
{
    if checks.len() == 0 {
        0
    } else {
        count(checks.drop_last(), severity) + if checks.last().severity == severity {
            1nat
        } else {
            0nat
        }
    }
}

/// The mark of a severity in the report.
pub open spec fn report_tag(severity: Severity) -> Seq<char> {
    match severity {
        Severity::Okay => "  OK  "@,
        Severity::Warn => " WARN "@,
        Severity::Fail => " FAIL "@,
    }
}

/// The lines of a finding in the report.
pub open spec fn report_entry(c: CheckView) -> Seq<char> {
    let line = "["@ + report_tag(c.severity) + "] "@ + c.name + ": "@ + c.detail + "\n"@;
    match c.fix {
        Some(fix) => line + "        fix: "@ + fix + "\n"@,
        None => line,
    }
}

/// The lines of several findings in the report.
pub open spec fn report_body(checks: Seq<CheckView>) -> Seq<char>
    decreases checks.len(),
{
    if checks.len() == 0 {
        Seq::empty()
    } else {
        report_body(checks.drop_last()) + report_entry(checks.last())
    }
}

/// The last line of the report.
pub open spec fn report_summary(checks: Seq<CheckView>) -> Seq<char> {
    "summary: "@ + decimal(count(checks, Severity::Okay)) + " OK, "@ + decimal(
        count(checks, Severity::Warn),
    ) + " warnings, "@ + decimal(count(checks, Severity::Fail)) + " failures\n"@
}

/// The whole report. `config_path` is where the configuration was read.
pub open spec fn report(config_path: Seq<char>, checks: Seq<CheckView>) -> Seq<char> {
    "fs25-ffb diagnostic report\n  config: "@ + quoted_path(config_path) + "\n\n"@ + report_body(
        checks,
    ) + "\n"@ + report_summary(checks)
}

fn entry_text(c: &Check) -> (out: String)
    ensures
        out@ == report_entry(c@),
{
    let tag: &str = match c.severity {
        Severity::Okay => "  OK  ",
        Severity::Warn => " WARN ",
        Severity::Fail => " FAIL ",
    };
    let line: String = "[".to_owned().concat(tag).concat("] ").concat(c.name.as_str()).concat(
        ": ",
    ).concat(c.detail.as_str()).concat("\n");
    match &c.fix {
        Some(fix) => line.concat("        fix: ").concat(fix.as_str()).concat("\n"),
        None => line,
    }
}

/// A report and the exit code that goes with it.
#[derive(Debug)]
pub struct CliReport {
    pub text: String,
    pub exit_code: i32,
}

/// Writes the report of some findings. The exit code is 1 if something is
/// wrong, and 0 otherwise.
pub fn run_cli_report(config_path: &str, checks: &Vec<Check>) -> (out: CliReport)
    ensures
        out.text@ == report(config_path@, check_views(checks@)),
        out.exit_code == if count(check_views(checks@), Severity::Fail) > 0 {
            1int
        } else {
            0int
        },
{
    let ghost v = check_views(checks@);
    let mut ok: u64 = 0;
    let mut warnings: u64 = 0;
    let mut failures: u64 = 0;
    let mut body: String = String::new();
    let mut i: usize = 0;
    assert(v.take(0) =~= Seq::empty());
    while i < checks.len()
        invariant
            i <= checks@.len(),
            v == check_views(checks@),
            body@ == report_body(v.take(i as int)),
            ok == count(v.take(i as int), Severity::Okay),
            warnings == count(v.take(i as int), Severity::Warn),
            failures == count(v.take(i as int), Severity::Fail),
            ok + warnings + failures == i,
        decreases checks@.len() - i,
    {
        let c: &Check = &checks[i];
        assert(v.take(i + 1).drop_last() =~= v.take(i as int));
        assert(v.take(i + 1).last() == c@);
        let entry: String = entry_text(c);
        body = body.concat(entry.as_str());
        match c.severity {
            Severity::Okay => {
                ok = ok + 1;
            },
            Severity::Warn => {
                warnings = warnings + 1;
            },
            Severity::Fail => {
                failures = failures + 1;
            },
        }
        i = i + 1;
    }
    assert(v.take(i as int) =~= v);
    let path: String = quote_path(config_path);
    let ok_text: String = decimal_text(ok);
    let warn_text: String = decimal_text(warnings);
    let fail_text: String = decimal_text(failures);
    let summary: String = "summary: ".to_owned().concat(ok_text.as_str()).concat(" OK, ").concat(
        warn_text.as_str(),
    ).concat(" warnings, ").concat(fail_text.as_str()).concat(" failures\n");
    let text: String = "fs25-ffb diagnostic report\n  config: ".to_owned().concat(
        path.as_str(),
    ).concat("\n\n").concat(body.as_str()).concat("\n").concat(summary.as_str());
    CliReport {
        text,
        exit_code: if failures > 0 {
            1
        } else {
            0
        },
    }
}

// ---------------------------------------------------------------------------
// Laws
// ---------------------------------------------------------------------------

/// The counts of the summary add up to the number of findings.
pub proof fn law_counts_add_up(checks: Seq<CheckView>)
    ensures
        count(checks, Severity::Okay) + count(checks, Severity::Warn) + count(
            checks,
            Severity::Fail,
        ) == checks.len(),
    decreases checks.len(),
{
    if checks.len() > 0 {
        law_counts_add_up(checks.drop_last());
    }
}

/// Something is counted exactly if a finding has that severity.
pub proof fn law_counted_means_found(checks: Seq<CheckView>, severity: Severity)
    ensures
        count(checks, severity) > 0 <==> exists|i: int|
            0 <= i < checks.len() && (#[trigger] checks[i]).severity == severity,
    decreases checks.len(),
{
    if checks.len() > 0 {
        law_counted_means_found(checks.drop_last(), severity);
        let n = checks.len() - 1;
        if checks[n].severity == severity {
            assert(checks.last() == checks[n]);
        } else {
            if count(checks, severity) > 0 {
                let i = choose|i: int|
                    0 <= i < n && (#[trigger] checks.drop_last()[i]).severity == severity;
                assert(checks[i].severity == severity);
            }
            if exists|i: int|
                0 <= i < checks.len() && (#[trigger] checks[i]).severity == severity {
                let i = choose|i: int|
                    0 <= i < checks.len() && (#[trigger] checks[i]).severity == severity;
                assert(checks.drop_last()[i].severity == severity);
            }
        }
    }
}

/// Every check comes with a suggested fix exactly where something may be wrong.
pub proof fn law_trouble_comes_with_a_fix(cfg: ConfigView, facts: Facts, i: int)
    requires
        0 <= i < findings(cfg, facts).len(),
    ensures
        ({
            let c = findings(cfg, facts)[i];
            c.fix is Some <==> c.severity != Severity::Okay
        }),
{
}

proof fn lemma_body_holds_entry(checks: Seq<CheckView>, i: int) -> (around: (Seq<char>, Seq<char>))
    requires
        0 <= i < checks.len(),
    ensures
        report_body(checks) == around.0 + report_entry(checks[i]) + around.1,
    decreases checks.len(),
{
    let n = checks.len() - 1;
    if i == n {
        let front = report_body(checks.drop_last());
        assert(report_body(checks) =~= front + report_entry(checks[i]) + Seq::empty());
        (front, Seq::empty())
    } else {
        let (front, back) = lemma_body_holds_entry(checks.drop_last(), i);
        let tail = back + report_entry(checks.last());
        assert(report_body(checks) =~= front + report_entry(checks[i]) + tail);
        (front, tail)
    }
}

/// The report shows every finding.
pub proof fn law_report_shows_every_finding(
    config_path: Seq<char>,
    checks: Seq<CheckView>,
    i: int,
)
    requires
        0 <= i < checks.len(),
    ensures
        contains_text(report(config_path, checks), report_entry(checks[i])),
{
    let (front, back) = lemma_body_holds_entry(checks, i);
    let head = "fs25-ffb diagnostic report\n  config: "@ + quoted_path(config_path) + "\n\n"@;
    let whole = report(config_path, checks);
    let entry = report_entry(checks[i]);
    let at = (head + front).len() as int;
    assert(whole == head + report_body(checks) + "\n"@ + report_summary(checks));
    assert(whole.subrange(at, at + entry.len()) =~= entry);
    assert(occurs_at(whole, entry, at));
}

/// A later Proton is recommended wherever an earlier one of its kind is.
pub proof fn law_later_protons_stay_recommended(version: Seq<char>, later: Seq<char>)
    requires
        good_proton(version),
        is_ge(version) == is_ge(later),
        release_of(later) is Some,
        ({
            let (major, minor) = release_of(version)->0;
            let (later_major, later_minor) = release_of(later)->0;
            later_major > major || (later_major == major && later_minor >= minor)
        }),
    ensures
        good_proton(later),
{
}

/// A finding of a severity under a name, with its explanation and its fix.
pub open spec fn found(
    c: Check,
    severity: Severity,
    name: Seq<char>,
    detail: Seq<char>,
    fix: Option<Seq<char>>,
) -> bool {
    &&& c.severity == severity
    &&& c.name@ == name
    &&& c.detail@ == detail
    &&& match c.fix {
        Some(f) => fix == Some(f@),
        None => fix is None,
    }
}

/// Findings are made of what they are given.
pub proof fn law_findings_are_made_of_what_is_given(
    name: &str,
    detail: &str,
    fix: &str,
    fine: Check,
    doubtful: Check,
    bad: Check,
)
    requires
        call_ensures(Check::ok, (name, detail), fine),
        call_ensures(Check::warn, (name, detail, fix), doubtful),
        call_ensures(Check::fail, (name, detail, fix), bad),
    ensures
        found(fine, Severity::Okay, name@, detail@, None),
        found(doubtful, Severity::Warn, name@, detail@, Some(fix@)),
        found(bad, Severity::Fail, name@, detail@, Some(fix@)),
{
}

/// No character of a text is a digit.
pub open spec fn no_digits(s: Seq<char>) -> bool {
    forall|i: int| 0 <= i < s.len() ==> !(48 <= (#[trigger] s[i]) as int <= 57)
}

/// A text does not go on with a digit.
pub open spec fn no_digit_next(s: Seq<char>) -> bool {
    s.len() > 0 ==> !(48 <= s[0] as int <= 57)
}

proof fn lemma_no_number(s: Seq<char>)
    requires
        no_digits(s),
    ensures
        tokens(s, TokenClass::Digits).len() == 0,
{
    law_tokens_begin_behind_the_front(s, Seq::empty(), TokenClass::Digits);
    assert(s + Seq::<char>::empty() =~= s);
}

/// A row of one or more digits.
pub open spec fn digit_row(s: Seq<char>) -> bool {
    s.len() > 0 && all_in(s, TokenClass::Digits)
}

proof fn lemma_number_first(front: Seq<char>, row: Seq<char>, tail: Seq<char>)
    requires
        no_digits(front),
        digit_row(row),
        no_digit_next(tail),
    ensures
        tokens(front + row + tail, TokenClass::Digits) == seq![row] + tokens(
            tail,
            TokenClass::Digits,
        ),
{
    let class = TokenClass::Digits;
    law_tokens_begin_behind_the_front(front, row + tail, class);
    assert(front + row + tail =~= front + (row + tail));
    law_the_front_run_is_the_first_token(row, tail, class);
}

/// What two or three rows of digits make a version of: none where one of the
/// first two is too large; a third that is too large counts as zero.
pub open spec fn version_of(a: Seq<char>, b: Seq<char>, c: Seq<char>) -> Option<(u32, u32, u32)> {
    let (x, y, z) = (decimal_value(a), decimal_value(b), decimal_value(c));
    if x > 4_294_967_295 || y > 4_294_967_295 {
        None
    } else if z > 4_294_967_295 {
        Some((x as u32, y as u32, 0))
    } else {
        Some((x as u32, y as u32, z as u32))
    }
}

/// A version is made of the first two numbers of a text and of the third where
/// there is one, whatever stands in front of them, between them and behind
/// them. A text with fewer numbers has no version.
pub proof fn law_versions_are_read_as_written(
    front: Seq<char>,
    a: Seq<char>,
    dot: Seq<char>,
    b: Seq<char>,
    dash: Seq<char>,
    c: Seq<char>,
    tail: Seq<char>,
    s: &str,
    out: Option<(u32, u32, u32)>,
)
    requires
        call_ensures(parse_kver, (s,), out),
        no_digits(front),
        no_digits(dot),
        no_digits(dash),
        dot.len() > 0,
        dash.len() > 0,
        digit_row(a),
        digit_row(b),
        digit_row(c),
        no_digit_next(tail),
    ensures
        s@ == front + a + (dot + b + (dash + c + tail)) ==> out == version_of(a, b, c),
        s@ == front + a + (dot + b + dash) ==> out == version_of(a, b, Seq::empty()),
        s@ == front + a + (dot + b + Seq::<char>::empty()) ==> out == version_of(
            a,
            b,
            Seq::empty(),
        ),
        s@ == front + a + dot ==> out is None,
        s@ == front ==> out is None,
{
    law_digit_rows_are_numbers(a);
    law_digit_rows_are_numbers(b);
    law_digit_rows_are_numbers(c);
    lemma_no_number(front);
    lemma_no_number(dot);
    lemma_no_number(dash);
    lemma_no_number(Seq::empty());
    lemma_number_first(front, a, dot);
    let third = dash + c + tail;
    let second = dot + b + third;
    lemma_number_first(dash, c, tail);
    assert(third[0] == dash[0]);
    lemma_number_first(dot, b, third);
    assert(second[0] == dot[0]);
    lemma_number_first(front, a, second);
    let two = dot + b + dash;
    lemma_number_first(dot, b, dash);
    assert(two[0] == dot[0]);
    lemma_number_first(front, a, two);
    let last = dot + b + Seq::<char>::empty();
    lemma_number_first(dot, b, Seq::empty());
    assert(last[0] == dot[0]);
    lemma_number_first(front, a, last);
}

/// A kernel is new enough from 6.12.24 on in the 6.12 line, from 6.13.12 on in
/// the 6.13 line, from 6.14.3 on in the 6.14 line, and from 6.15 on. One without
/// a version is not.
pub proof fn law_kernels_are_judged_by_version(
    s: &str,
    version: Option<(u32, u32, u32)>,
    new: bool,
)
    requires
        call_ensures(parse_kver, (s,), version),
        call_ensures(judge_kernel, (s,), new),
    ensures
        version is None ==> !new,
        version matches Some((a, b, c)) ==> {
            &&& a < 6 ==> !new
            &&& a > 6 ==> new
            &&& a == 6 && b < 12 ==> !new
            &&& a == 6 && b == 12 ==> (new <==> c >= 24)
            &&& a == 6 && b == 13 ==> (new <==> c >= 12)
            &&& a == 6 && b == 14 ==> (new <==> c >= 3)
            &&& a == 6 && b >= 15 ==> new
        },
{
}

/// The kernel check is content exactly with a kernel that is new enough, and
/// names the kernel that runs.
pub proof fn law_kernel_check(release: Option<Vec<u8>>, s: &str, new: bool, check: Check)
    requires
        call_ensures(check_kernel_version, (&release,), check),
        release is Some ==> s@ == trimmed(utf8_lossy(release->0@)),
        call_ensures(judge_kernel, (s,), new),
    ensures
        release is None ==> found(
            check,
            Severity::Warn,
            "kernel-version"@,
            "could not run `uname -r`"@,
            Some("install coreutils"@),
        ),
        release is Some && new ==> found(
            check,
            Severity::Okay,
            "kernel-version"@,
            "kernel "@ + s@ + " is new enough"@,
            None,
        ),
        release is Some && !new ==> found(
            check,
            Severity::Warn,
            "kernel-version"@,
            "running kernel "@ + s@ + " (Moza R5 FFB wants 6.12.24+, 6.13.12+, 6.14.3+ or 6.15+)"@,
            Some("on CachyOS: `sudo pacman -S linux-cachyos` (6.14+) and reboot"@),
        ),
{
}

/// A word is found exactly where it stands alone in the text.
pub proof fn law_words_are_found_whole(s: &str, word: &str, out: bool)
    requires
        call_ensures(find_word, (s, word), out),
        word@.len() > 0,
        forall|i: int| 0 <= i < word@.len() ==> !is_space(#[trigger] word@[i]),
    ensures
        out <==> exists|at: int| #[trigger] stands_alone(s@, word@, at),
{
    law_words_stand_alone(s@, word@);
}

/// The group check is content exactly when the word `input` stands alone among
/// the groups.
pub proof fn law_group_check(groups: Option<Vec<u8>>, check: Check)
    requires
        call_ensures(check_user_in_input_group, (&groups,), check),
    ensures
        check.name@ == "input-group"@,
        check.severity == Severity::Okay <==> groups is Some && exists|at: int| #[trigger]
            stands_alone(utf8_lossy(groups->0@), "input"@, at),
        check.severity != Severity::Okay ==> check.severity == Severity::Warn,
        groups is None ==> found(
            check,
            Severity::Warn,
            "input-group"@,
            "could not run `id -Gn`"@,
            Some("install coreutils"@),
        ),
        groups is Some && check.severity == Severity::Okay ==> found(
            check,
            Severity::Okay,
            "input-group"@,
            "user is in `input` group"@,
            None,
        ),
        groups is Some && check.severity != Severity::Okay ==> found(
            check,
            Severity::Warn,
            "input-group"@,
            "user is NOT in `input` group"@,
            Some("`sudo gpasswd -a $USER input` and log out / back in"@),
        ),
{
    reveal_strlit("input");
    if groups is Some {
        law_words_stand_alone(utf8_lossy(groups->0@), "input"@);
    }
}

/// The input directory is fine exactly when reading it gave no error, and the
/// error is passed on.
pub proof fn law_input_dir_check(error: Option<String>, check: Check)
    requires
        call_ensures(check_dev_input_readable, (&error,), check),
    ensures
        match error {
            None => found(check, Severity::Okay, "dev-input"@, "/dev/input is readable"@, None),
            Some(e) => found(
                check,
                Severity::Fail,
                "dev-input"@,
                "cannot read /dev/input: "@ + e@,
                Some("check udev, input group membership, or apparmor/SELinux"@),
            ),
        },
{
}

/// One of so many listed things is there. What is not said to be there is not.
pub open spec fn some_there(present: Seq<bool>, listed: nat) -> bool {
    exists|i: int| 0 <= i < listed && i < present.len() && #[trigger] present[i]
}

/// The udev rule is installed exactly when one of the listed files is there.
pub proof fn law_udev_check(paths: Vec<String>, present: Vec<bool>, check: Check)
    requires
        call_ensures(udev_rule_paths, (), paths),
        call_ensures(check_udev_rule_installed, (&present,), check),
    ensures
        paths@.len() == 2,
        paths@[0]@ == "/etc/udev/rules.d/99-fs25-ffb.rules"@,
        paths@[1]@ == "/usr/lib/udev/rules.d/99-fs25-ffb.rules"@,
        some_there(present@, paths@.len()) ==> found(
            check,
            Severity::Okay,
            "udev-rule"@,
            "99-fs25-ffb.rules installed"@,
            None,
        ),
        !some_there(present@, paths@.len()) ==> found(
            check,
            Severity::Warn,
            "udev-rule"@,
            "udev rule not installed (not always required, but recommended)"@,
            Some(
                "`sudo install -m0644 packaging/99-fs25-ffb.rules /etc/udev/rules.d/ && sudo udevadm control --reload && sudo udevadm trigger`"@,
            ),
        ),
{
    let t = texts(paths@);
    assert(t.len() == paths@.len());
    assert(t[0] == paths@[0]@ && t[1] == paths@[1]@);
}

/// A wheel is visible exactly when a device is chosen and could be opened. The
/// finding names the chosen device, or why there is none.
pub proof fn law_device_check(
    hint: DeviceHint,
    list: Vec<Candidate>,
    opened: Result<Option<Vec<u16>>, String>,
    chosen: Result<usize, DeviceError>,
    check: Check,
)
    requires
        call_ensures(find_device, (&hint, &list), chosen),
        call_ensures(check_device_visible, (&hint, &list, &opened), check),
    ensures
        check.name@ == "device"@,
        check.severity == Severity::Okay <==> chosen is Ok && opened is Ok,
        check.severity != Severity::Okay ==> check.severity == Severity::Fail && opt_text(check.fix)
            == Some(
            "plug the wheel in, power it on, run boxflat once to confirm firmware sees it, then re-run the daemon"@,
        ),
        chosen matches Err(e) ==> check.detail@ == "no FFB wheel detected: "@ + e.message_text(),
        chosen is Ok && opened is Err ==> check.detail@ == "no FFB wheel detected: "@
            + opened->Err_0@,
        chosen is Ok && opened is Ok ==> check.fix is None && ({
            let d = list@[chosen->Ok_0 as int];
            let info = description(d@);
            check.detail@ == "found "@ + info.name + " at "@ + quoted_path(d.path@) + " (0x"@ + hex(
                info.vendor_id as nat,
                4,
                false,
            ) + ":0x"@ + hex(info.product_id as nat, 4, false) + ")"@
        }),
{
    if chosen is Ok {
        assert(views(list@)[chosen->Ok_0 as int] == list@[chosen->Ok_0 as int]@);
    }
}

/// Texts are joined by a comma and a blank between each two of them.
pub proof fn law_commas_stand_between(list: Seq<Seq<char>>, next: Seq<char>)
    ensures
        comma_joined(Seq::<Seq<char>>::empty()) == Seq::<char>::empty(),
        comma_joined(seq![next]) == next,
        list.len() > 0 ==> comma_joined(list.push(next)) == comma_joined(list) + ", "@ + next,
{
    assert(list.push(next).drop_last() =~= list);
}

/// A wheel is capable exactly when it is chosen, opened and advertises at least
/// one effect type. The finding names all types that it advertises, in order.
pub proof fn law_capability_check(
    hint: DeviceHint,
    list: Vec<Candidate>,
    opened: Result<Option<Vec<u16>>, String>,
    chosen: Result<usize, DeviceError>,
    names: Seq<Seq<char>>,
    check: Check,
)
    requires
        call_ensures(find_device, (&hint, &list), chosen),
        call_ensures(check_ffb_capable, (&hint, &list, &opened), check),
        opened matches Ok(Some(codes)) ==> names.len() == codes@.len() && forall|i: int|
            0 <= i < names.len() ==> #[trigger] names[i] == effect_type_name(codes@[i]),
    ensures
        chosen is Err || opened is Err ==> found(
            check,
            Severity::Warn,
            "ffb-capable"@,
            "no device found to query"@,
            Some("see `device` above"@),
        ),
        chosen is Ok && opened is Ok ==> match opened->Ok_0 {
            None => found(
                check,
                Severity::Fail,
                "ffb-capable"@,
                "device does not advertise any FFB bits"@,
                Some("check kernel module (hid-universal-pidff / hid-mozawheel / hid-logitech)"@),
            ),
            Some(codes) => if codes@.len() > 0 {
                found(
                    check,
                    Severity::Okay,
                    "ffb-capable"@,
                    "supports: ["@ + comma_joined(names) + "]"@,
                    None,
                )
            } else {
                found(
                    check,
                    Severity::Fail,
                    "ffb-capable"@,
                    "device advertises FF event type but zero effect types"@,
                    Some("upgrade kernel to 6.14+ or install hid-universal-pidff dkms"@),
                )
            },
        },
{
    match opened {
        Ok(Some(codes)) => {
            assert(type_names(codes@) =~= names);
        },
        _ => {},
    }
}

/// The game has a Proton prefix exactly when one of the listed directories is
/// there; the finding names the first of them.
pub proof fn law_prefix_check(
    home: Option<String>,
    base: &str,
    appid: u32,
    paths: Vec<String>,
    present: Vec<bool>,
    check: Check,
)
    requires
        call_ensures(compatdata_candidates, (base, appid), paths),
        call_ensures(check_steam_compatdata, (&home, appid, &present), check),
        home is Some ==> home->0@ == base@,
    ensures
        paths@.len() == 2,
        paths@[0]@ == joined(
            base@,
            ".local/share/Steam/steamapps/compatdata/"@ + decimal(appid as nat),
        ),
        paths@[1]@ == joined(base@, ".steam/steam/steamapps/compatdata/"@ + decimal(appid as nat)),
        home is None ==> found(
            check,
            Severity::Fail,
            "compatdata"@,
            "HOME not set"@,
            Some("run under a real user session"@),
        ),
        home is Some && !some_there(present@, paths@.len()) ==> found(
            check,
            Severity::Warn,
            "compatdata"@,
            "no Proton prefix for FS25 (AppID 2300320) yet"@,
            Some("launch FS25 once in Steam so Proton creates the prefix"@),
        ),
        forall|i: int|
            home is Some && 0 <= i < 2 && i < present@.len() && #[trigger] present@[i] && (forall|j: int|
                0 <= j < i ==> !#[trigger] present@[j]) ==> found(
                check,
                Severity::Okay,
                "compatdata"@,
                "Proton prefix found at "@ + quoted_path(paths@[i]@),
                None,
            ),
{
    let t = texts(paths@);
    assert(t.len() == paths@.len());
    assert(t[0] == paths@[0]@ && t[1] == paths@[1]@);
}

/// Where there is a home directory, the mod is installed exactly when at least
/// one of the listed places has it, packed or as a directory.
pub proof fn law_mod_check(
    home: Option<String>,
    base: &str,
    dir: String,
    paths: Vec<String>,
    present: Vec<bool>,
    check: Check,
)
    requires
        call_ensures(mods_dir, (base,), dir),
        call_ensures(mod_locations, (base,), paths),
        call_ensures(check_mod_installed, (&home, &present), check),
        home is Some ==> home->0@ == base@,
    ensures
        dir@ == joined(
            base@,
            ".local/share/Steam/steamapps/compatdata/2300320/pfx/drive_c/users/steamuser/Documents/My Games/FarmingSimulator2025/mods"@,
        ),
        paths@.len() == 2,
        paths@[0]@ == joined(dir@, "FS25_FFBEnhancer.zip"@),
        paths@[1]@ == joined(dir@, "FS25_FFBEnhancer"@),
        home is None ==> found(
            check,
            Severity::Warn,
            "mod-installed"@,
            "HOME not set"@,
            Some(""@),
        ),
        home is Some && some_there(present@, paths@.len()) ==> found(
            check,
            Severity::Okay,
            "mod-installed"@,
            "mod present at "@ + quoted_path(dir@),
            None,
        ),
        home is Some && !some_there(present@, paths@.len()) ==> found(
            check,
            Severity::Warn,
            "mod-installed"@,
            "FS25_FFBEnhancer not found in "@ + quoted_path(dir@),
            Some("run `./packaging/install.sh` or copy mod/FS25_FFBEnhancer/ into the mods dir"@),
        ),
{
    let t = texts(paths@);
    assert(t.len() == paths@.len());
    assert(t[0] == paths@[0]@ && t[1] == paths@[1]@);
}

/// Telemetry is fresh exactly when there is a path, the file is there and it is
/// at most ten seconds old. A file of another age is reported with the whole
/// seconds of its age, one of unknown age with 9999.
pub proof fn law_telemetry_file_check(
    path: Result<String, PathError>,
    age: Option<FileAge>,
    seconds: u32,
    check: Check,
)
    requires
        call_ensures(judge_telemetry, (&path, &age), check),
        age matches Some(FileAge { nanos: Some(n), .. }) ==> {
            ||| seconds as int * 1_000_000_000 <= n < (seconds + 1) * 1_000_000_000
            ||| seconds == 4_294_967_295 && n >= 4_294_967_296_000_000_000
        },
        age matches Some(FileAge { nanos: None, .. }) ==> seconds == 9999,
    ensures
        path is Err ==> found(
            check,
            Severity::Warn,
            "telemetry"@,
            "cannot resolve path: "@ + "HOME is not set"@,
            Some(""@),
        ),
        path is Ok && age is None ==> found(
            check,
            Severity::Warn,
            "telemetry"@,
            "telemetry file does not exist at "@ + quoted_path(path->Ok_0@),
            Some("start FS25 with the mod active; the file is created on first vehicle"@),
        ),
        path is Ok && age is Some ==> ({
            let fresh = match age->0.nanos {
                Some(n) => n <= 10_000_000_000,
                None => false,
            };
            &&& fresh ==> found(
                check,
                Severity::Okay,
                "telemetry"@,
                "updated "@ + age->0.seconds_text@ + "s ago at "@ + quoted_path(path->Ok_0@),
                None,
            )
            &&& !fresh ==> found(
                check,
                Severity::Warn,
                "telemetry"@,
                "telemetry file "@ + decimal(seconds as nat) + " seconds stale at "@ + quoted_path(
                    path->Ok_0@,
                ),
                Some("FS25 is paused, not in a vehicle, or the Lua mod failed to load"@),
            )
        }),
{
}

/// Telemetry is looked for where the daemon looks for it.
pub proof fn law_telemetry_is_checked_where_it_is_read(
    cfg: Config,
    home: Option<String>,
    base: Option<&str>,
    present: Vec<bool>,
    age: Option<FileAge>,
    path: Result<String, PathError>,
    judged: Check,
    check: Check,
)
    requires
        home is Some <==> base is Some,
        home is Some ==> home->0@ == base->0@,
        call_ensures(resolve_telemetry_path, (&cfg, base, &present), path),
        call_ensures(judge_telemetry, (&path, &age), judged),
        call_ensures(check_telemetry_fresh, (&cfg, &home, &present, &age), check),
    ensures
        check@ == judged@,
{
}

/// The first word of an output is the process id where it is a number that
/// fits, with a plus sign or without one, whatever words follow. Any other word
/// is none, and so is an output of blanks.
pub proof fn law_process_ids_are_read_as_printed(
    front: Seq<char>,
    row: Seq<char>,
    word: Seq<char>,
    tail: Seq<char>,
    text: &str,
    pid: Option<u32>,
)
    requires
        call_ensures(parse_pid, (text,), pid),
        blank(front),
        tail.len() > 0 ==> is_space(tail[0]),
        digit_row(row),
        word.len() > 0,
        forall|i: int| 0 <= i < word.len() ==> !is_space(#[trigger] word[i]),
        exists|i: int|
            0 <= i < word.len() && !(48 <= (#[trigger] word[i]) as int <= 57) && (i > 0
                || word[i] as int != 43),
    ensures
        text@ == front + (row + tail) || text@ == front + (seq!['+'] + row + tail) ==> {
            &&& decimal_value(row) <= 4_294_967_295 ==> pid == Some(decimal_value(row) as u32)
            &&& decimal_value(row) > 4_294_967_295 ==> pid is None
        },
        text@ == front + (word + tail) ==> pid is None,
        text@ == front + (seq!['+'] + tail) ==> pid is None,
        text@ == front ==> pid is None,
{
    let class = TokenClass::Words;
    let signed = seq!['+'] + row;
    let plus = seq!['+'];
    law_tokens_begin_behind_the_front(front, row + tail, class);
    law_tokens_begin_behind_the_front(front, signed + tail, class);
    law_tokens_begin_behind_the_front(front, plus + tail, class);
    law_tokens_begin_behind_the_front(front, word + tail, class);
    law_tokens_begin_behind_the_front(front, Seq::empty(), class);
    assert(front + Seq::<char>::empty() =~= front);
    assert forall|i: int| 0 <= i < row.len() implies class.has(#[trigger] row[i]) by {
        assert(TokenClass::Digits.has(row[i]));
    }
    assert forall|i: int| 0 <= i < signed.len() implies class.has(#[trigger] signed[i]) by {
        if i > 0 {
            assert(signed[i] == row[i - 1]);
        }
    }
    law_the_front_run_is_the_first_token(row, tail, class);
    law_the_front_run_is_the_first_token(signed, tail, class);
    law_the_front_run_is_the_first_token(plus, tail, class);
    law_the_front_run_is_the_first_token(word, tail, class);
    law_digit_rows_are_numbers(row);
    let i = choose|i: int|
        0 <= i < word.len() && !(48 <= (#[trigger] word[i]) as int <= 57) && (i > 0
            || word[i] as int != 43);
    law_other_texts_are_no_numbers(word, i);
}

/// A program that did not run has no process id; the output of one that did is
/// read.
pub proof fn law_process_ids_come_from_the_output(
    out: Option<Vec<u8>>,
    text: &str,
    read: Option<u32>,
    pid: Option<u32>,
)
    requires
        call_ensures(parse_pid, (text,), read),
        call_ensures(pidof, (&out,), pid),
        out is Some ==> text@ == utf8_lossy(out->0@),
    ensures
        out is None ==> pid is None,
        out is Some ==> pid == read,
{
}

/// The check for boxflat is always content, and says whether it runs.
pub proof fn law_boxflat_check(out: Option<Vec<u8>>, pid: Option<u32>, check: Check)
    requires
        call_ensures(pidof, (&out,), pid),
        call_ensures(check_boxflat_running, (&out,), check),
    ensures
        pid is Some ==> found(
            check,
            Severity::Okay,
            "boxflat"@,
            "boxflat is running (OK, does not conflict with evdev FFB)"@,
            None,
        ),
        pid is None ==> found(
            check,
            Severity::Okay,
            "boxflat"@,
            "boxflat not running (fine)"@,
            None,
        ),
{
}

/// A build of GE-Proton is recommended from 9-25 on, whatever the sign between
/// its two numbers and whatever follows them; one without a second number from
/// 10 on; one without a number never.
pub proof fn law_ge_protons_are_judged_by_build(
    major: Seq<char>,
    sign: char,
    minor: Seq<char>,
    tail: Seq<char>,
    version: &str,
    good: bool,
)
    requires
        call_ensures(judge_proton, (version,), good),
        digit_row(major),
        digit_row(minor),
        sign == '.' || sign == '-',
        no_digit_next(tail),
    ensures
        version@ == "GE-Proton"@ + major + (seq![sign] + minor + tail) ==> (good <==> decimal_value(
            major,
        ) > 9 || (decimal_value(major) == 9 && decimal_value(minor) >= 25)),
        version@ == "GE-Proton"@ + major + tail && (tail.len() < 2 || (tail[0] != '.' && tail[0]
            != '-') || !(48 <= tail[1] as int <= 57)) ==> (good <==> decimal_value(major) > 9),
        version@ == "GE-Proton"@ + tail ==> !good,
{
    let ge = "GE-Proton"@;
    let at = ge.len() as int;
    let rest = seq![sign] + minor + tail;
    assert(rest[0] == sign);
    law_digit_rows_are_found(ge, major, rest);
    law_digit_rows_are_found(ge, major, tail);
    law_digit_rows_are_found(ge + major + seq![sign], minor, tail);
    let s = ge + major + rest;
    assert(s =~= (ge + major + seq![sign]) + minor + tail);
    assert(s.subrange(0, at) =~= ge);
    assert(s[at + major.len()] == sign);
    let plain = ge + major + tail;
    assert(plain.subrange(0, at) =~= ge);
    if tail.len() > 0 {
        assert(plain[at + major.len()] == tail[0]);
    }
    if tail.len() > 1 {
        assert(plain[at + major.len() + 1] == tail[1]);
    }
    assert((ge + tail).subrange(0, at) =~= ge);
    if tail.len() > 0 {
        assert((ge + tail)[at] == tail[0]);
    }
}

/// A version of two numbers, the first of so many digits, stands at a position:
/// at the start of the text or behind a dash, with a dot or a dash between the
/// numbers.
pub open spec fn two_numbers_at(s: Seq<char>, at: int, digits: int) -> bool {
    &&& 0 <= at && 0 < digits && at + digits + 1 < s.len()
    &&& at > 0 ==> s[at - 1] == '-'
    &&& digit_row(s.subrange(at, at + digits))
    &&& s[at + digits] == '.' || s[at + digits] == '-'
    &&& 48 <= s[at + digits + 1] as int <= 57
}

proof fn lemma_two_numbers(s: Seq<char>, at: int, digits: int)
    requires
        two_numbers_at(s, at, digits),
    ensures
        version_at(s, at),
        pair_at(s, at).0 == decimal_value(s.subrange(at, at + digits)),
{
    let front = s.take(at);
    let row = s.subrange(at, at + digits);
    let tail = s.skip(at + digits);
    assert(front + row + tail =~= s);
    assert(tail[0] == s[at + digits]);
    law_digit_rows_are_found(front, row, tail);
}

proof fn lemma_version_has_two_numbers(s: Seq<char>, at: int)
    requires
        version_at(s, at),
    ensures
        two_numbers_at(s, at, run_end(s, at) - at),
{
    let rest = s.skip(at);
    law_runs_are_of_one_class(rest, TokenClass::Digits);
    let row = s.subrange(at, run_end(s, at));
    assert(rest[0] == s[at]);
    assert forall|i: int| 0 <= i < row.len() implies TokenClass::Digits.has(#[trigger] row[i]) by {
        assert(row[i] == rest[i]);
    }
}

proof fn lemma_first_version(s: Seq<char>, from: int, at: int)
    requires
        0 <= from <= at <= s.len(),
        forall|j: int| from <= j < at ==> !#[trigger] version_at(s, j),
    ensures
        version_from(s, from) == version_from(s, at),
    decreases at - from,
{
    if from < at {
        assert(!version_at(s, from));
        lemma_first_version(s, from + 1, at);
    }
}

/// Any other Proton is recommended from 9 on, by the first number of the first
/// version that stands in its text. One without a version never is.
pub proof fn law_other_protons_are_judged_by_version(
    at: int,
    digits: int,
    version: &str,
    good: bool,
)
    requires
        call_ensures(judge_proton, (version,), good),
        !occurs_at(version@, "GE-Proton"@, 0),
    ensures
        two_numbers_at(version@, at, digits) && (forall|j: int, n: int|
            j < at ==> !#[trigger] two_numbers_at(version@, j, n)) ==> (good <==> decimal_value(
            version@.subrange(at, at + digits),
        ) >= 9),
        (forall|j: int, n: int| !#[trigger] two_numbers_at(version@, j, n)) ==> !good,
{
    let s = version@;
    if two_numbers_at(s, at, digits) && (forall|j: int, n: int|
        j < at ==> !#[trigger] two_numbers_at(s, j, n)) {
        lemma_two_numbers(s, at, digits);
        assert forall|j: int| 0 <= j < at implies !#[trigger] version_at(s, j) by {
            if version_at(s, j) {
                lemma_version_has_two_numbers(s, j);
            }
        }
        lemma_first_version(s, 0, at);
    }
    if forall|j: int, n: int| !#[trigger] two_numbers_at(s, j, n) {
        assert forall|j: int| 0 <= j < s.len() implies !#[trigger] version_at(s, j) by {
            if version_at(s, j) {
                lemma_version_has_two_numbers(s, j);
            }
        }
        lemma_first_version(s, 0, s.len() as int);
    }
}

/// The Proton check is content exactly with a recommended version, and names
/// the version without the blanks around it.
pub proof fn law_proton_check(
    home: Option<String>,
    text: Option<String>,
    version: &str,
    good: bool,
    check: Check,
)
    requires
        call_ensures(check_proton_version, (&home, &text), check),
        call_ensures(judge_proton, (version,), good),
        text is Some ==> version@ == trimmed(text->0@),
    ensures
        home is None ==> found(check, Severity::Warn, "proton"@, "HOME not set"@, Some(""@)),
        home is Some && text is None ==> found(
            check,
            Severity::Warn,
            "proton"@,
            "could not read compatdata/version"@,
            Some("launch FS25 once to populate it"@),
        ),
        home is Some && text is Some && good ==> found(
            check,
            Severity::Okay,
            "proton"@,
            "Proton "@ + version@,
            None,
        ),
        home is Some && text is Some && !good ==> found(
            check,
            Severity::Warn,
            "proton"@,
            "Proton "@ + version@ + " - may work but 9.0+/GE-Proton recommended"@,
            Some("set FS25's Steam compatibility tool to Proton 9.0 or GE-Proton"@),
        ),
{
}

/// The version of Proton stands in a file of the game's prefix.
pub proof fn law_proton_version_file(home: &str, appid: u32, path: String)
    requires
        call_ensures(proton_version_path, (home, appid), path),
    ensures
        path@ == joined(
            home@,
            ".local/share/Steam/steamapps/compatdata/"@ + decimal(appid as nat) + "/version"@,
        ),
{
}

/// A text, where a program has a process id.
pub open spec fn if_running(pid: Option<u32>, name: Seq<char>) -> Seq<Seq<char>> {
    if pid is Some {
        seq![name]
    } else {
        Seq::empty()
    }
}

/// The check for other managers is content exactly when none of the three runs,
/// and names those that run, in order.
pub proof fn law_managers_check(
    names: Vec<String>,
    outs: Vec<Option<Vec<u8>>>,
    a: Option<u32>,
    b: Option<u32>,
    c: Option<u32>,
    check: Check,
)
    requires
        call_ensures(manager_names, (), names),
        call_ensures(check_conflicting_processes, (&outs,), check),
        outs@.len() >= 3,
        call_ensures(pidof, (&outs@[0],), a),
        call_ensures(pidof, (&outs@[1],), b),
        call_ensures(pidof, (&outs@[2],), c),
    ensures
        names@.len() == 3,
        names@[0]@ == "oversteer"@,
        names@[1]@ == "new-lg4ff-loader"@,
        names@[2]@ == "fanatec-led"@,
        a is None && b is None && c is None ==> found(
            check,
            Severity::Okay,
            "other-drivers"@,
            "no conflicting wheel managers running"@,
            None,
        ),
        a is Some || b is Some || c is Some ==> found(
            check,
            Severity::Warn,
            "other-drivers"@,
            "running: ["@ + comma_joined(
                if_running(a, "\""@ + "oversteer"@ + "\""@) + if_running(
                    b,
                    "\""@ + "new-lg4ff-loader"@ + "\""@,
                ) + if_running(c, "\""@ + "fanatec-led"@ + "\""@),
            ) + "]"@,
            Some(
                "these only manage config, they don't conflict with FFB writes; still worth disabling autocenter in them"@,
            ),
        ),
{
    let t = texts(names@);
    assert(t.len() == names@.len());
    assert(t[0] == names@[0]@ && t[1] == names@[1]@ && t[2] == names@[2]@);
    let o = outputs(outs@);
    assert(o[0] == opt_bytes(outs@[0]) && o[1] == opt_bytes(outs@[1]) && o[2] == opt_bytes(
        outs@[2],
    ));
    let all = if_running(a, "\""@ + "oversteer"@ + "\""@) + if_running(
        b,
        "\""@ + "new-lg4ff-loader"@ + "\""@,
    ) + if_running(c, "\""@ + "fanatec-led"@ + "\""@);
    reveal_with_fuel(running_managers, 4);
    assert(running_managers(o, 3) =~= all);
}

/// The joystick setting is right exactly when it is `0`; any other value is
/// shown.
pub proof fn law_hidapi_check(value: Option<String>, check: Check)
    requires
        call_ensures(check_sdl_hidapi_env, (&value,), check),
    ensures
        match value {
            None => found(
                check,
                Severity::Warn,
                "sdl-hidapi"@,
                "SDL_JOYSTICK_HIDAPI not set"@,
                Some("Steam launch options: SDL_JOYSTICK_HIDAPI=0 %command%"@),
            ),
            Some(v) => if v@.len() == 1 && v@[0] as int == 48 {
                found(
                    check,
                    Severity::Okay,
                    "sdl-hidapi"@,
                    "SDL_JOYSTICK_HIDAPI=0 (recommended for Moza under Proton)"@,
                    None,
                )
            } else {
                found(
                    check,
                    Severity::Warn,
                    "sdl-hidapi"@,
                    "SDL_JOYSTICK_HIDAPI="@ + v@ + " (set to 0 for best FFB)"@,
                    Some("in Steam, set launch options: SDL_JOYSTICK_HIDAPI=0 %command%"@),
                )
            },
        },
{
    reveal_strlit("0");
    if value is Some && value->0@.len() == 1 && value->0@[0] as int == 48 {
        assert(value->0@ =~= "0"@);
    }
}

/// A governor is fine when it is `performance` or `schedutil`, or not known;
/// any other one is a reason to warn.
pub proof fn law_governor_check(governor: Option<String>, check: Check)
    requires
        call_ensures(check_cpu_governor, (&governor,), check),
    ensures
        match governor {
            None => found(
                check,
                Severity::Okay,
                "cpu-governor"@,
                "unknown (skipping)"@,
                None,
            ),
            Some(text) => {
                let g = trimmed(text@);
                &&& g == "performance"@ || g == "schedutil"@ ==> found(
                    check,
                    Severity::Okay,
                    "cpu-governor"@,
                    "governor = "@ + g,
                    None,
                )
                &&& g != "performance"@ && g != "schedutil"@ ==> found(
                    check,
                    Severity::Warn,
                    "cpu-governor"@,
                    "governor = "@ + g + " (may cause FFB jitter)"@,
                    Some(
                        "`sudo cpupower frequency-set -g performance` (CachyOS ships with schedutil by default which is fine)"@,
                    ),
                )
            },
        },
{
}

/// All checks are made, on what was found out for each of them, and their
/// findings come in this order: kernel, group, input directory, udev rule,
/// device, capability, prefix.
pub proof fn law_every_system_check_is_made(
    cfg: Config,
    facts: Facts,
    checks: Vec<Check>,
    kernel: Check,
    group: Check,
    input: Check,
    udev: Check,
    device: Check,
    capable: Check,
    prefix: Check,
)
    requires
        call_ensures(run_all, (&cfg, &facts), checks),
        call_ensures(check_kernel_version, (&facts.release,), kernel),
        call_ensures(check_user_in_input_group, (&facts.groups,), group),
        call_ensures(check_dev_input_readable, (&facts.input_dir_error,), input),
        call_ensures(check_udev_rule_installed, (&facts.udev_rules,), udev),
        call_ensures(
            check_device_visible,
            (&cfg.device_hint, &facts.devices, &facts.opened),
            device,
        ),
        call_ensures(
            check_ffb_capable,
            (&cfg.device_hint, &facts.devices, &facts.opened),
            capable,
        ),
        call_ensures(
            check_steam_compatdata,
            (&facts.home, cfg.paths.fs25_steam_appid, &facts.prefixes),
            prefix,
        ),
    ensures
        checks@.len() == 14,
        checks@[0]@ == kernel@,
        checks@[1]@ == group@,
        checks@[2]@ == input@,
        checks@[3]@ == udev@,
        checks@[4]@ == device@,
        checks@[5]@ == capable@,
        checks@[6]@ == prefix@,
{
    let v = check_views(checks@);
    assert(v.len() == checks@.len());
    assert(forall|i: int| 0 <= i < v.len() ==> #[trigger] v[i] == checks@[i]@);
    assert(checks@[0]@ == v[0] && checks@[1]@ == v[1] && checks@[2]@ == v[2] && checks@[3]@ == v[3]);
    assert(checks@[4]@ == v[4] && checks@[5]@ == v[5] && checks@[6]@ == v[6]);
}

/// Behind them come, in this order: mod, telemetry, boxflat, Proton, managers,
/// joystick setting, governor.
pub proof fn law_every_game_check_is_made(
    cfg: Config,
    facts: Facts,
    checks: Vec<Check>,
    module: Check,
    telemetry: Check,
    boxflat: Check,
    proton: Check,
    managers: Check,
    hidapi: Check,
    governor: Check,
)
    requires
        call_ensures(run_all, (&cfg, &facts), checks),
        call_ensures(check_mod_installed, (&facts.home, &facts.mods), module),
        call_ensures(
            check_telemetry_fresh,
            (&cfg, &facts.telemetry_home, &facts.telemetry_dirs, &facts.telemetry_age),
            telemetry,
        ),
        call_ensures(check_boxflat_running, (&facts.boxflat,), boxflat),
        call_ensures(check_proton_version, (&facts.home, &facts.proton_version), proton),
        call_ensures(check_conflicting_processes, (&facts.managers,), managers),
        call_ensures(check_sdl_hidapi_env, (&facts.sdl_hidapi,), hidapi),
        call_ensures(check_cpu_governor, (&facts.governor,), governor),
    ensures
        checks@.len() == 14,
        checks@[7]@ == module@,
        checks@[8]@ == telemetry@,
        checks@[9]@ == boxflat@,
        checks@[10]@ == proton@,
        checks@[11]@ == managers@,
        checks@[12]@ == hidapi@,
        checks@[13]@ == governor@,
{
    let v = check_views(checks@);
    assert(v.len() == checks@.len());
    assert(forall|i: int| 0 <= i < v.len() ==> #[trigger] v[i] == checks@[i]@);
    assert(checks@[7]@ == v[7] && checks@[8]@ == v[8] && checks@[9]@ == v[9]);
    assert(checks@[10]@ == v[10] && checks@[11]@ == v[11] && checks@[12]@ == v[12]);
    assert(checks@[13]@ == v[13]);
}

/// How many findings of a list have a severity.
pub open spec fn tally(checks: Seq<Check>, severity: Severity) -> nat {
    checks.filter(|c: Check| c.severity == severity).len()
}

proof fn lemma_tally(checks: Seq<Check>, severity: Severity)
    ensures
        tally(checks, severity) == count(check_views(checks), severity),
    decreases checks.len(),
{
    reveal(Seq::filter);
    let v = check_views(checks);
    if checks.len() > 0 {
        lemma_tally(checks.drop_last(), severity);
        assert(check_views(checks.drop_last()) =~= v.drop_last());
        assert(v.last() == checks.last()@);
    }
}

/// A report fails exactly when something is wrong, and its last line counts the
/// findings of each severity.
pub proof fn law_reports_count_and_fail(config_path: &str, checks: Vec<Check>, out: CliReport)
    requires
        call_ensures(run_cli_report, (config_path, &checks), out),
    ensures
        (exists|i: int|
            0 <= i < checks@.len() && (#[trigger] checks@[i]).severity == Severity::Fail) ==> (
        out.exit_code == 1),
        !(exists|i: int|
            0 <= i < checks@.len() && (#[trigger] checks@[i]).severity == Severity::Fail) ==> (
        out.exit_code == 0),
        out.text@ == "fs25-ffb diagnostic report\n  config: "@ + quoted_path(config_path@) + "\n\n"@
            + report_body(check_views(checks@)) + "\n"@ + "summary: "@ + decimal(
            tally(checks@, Severity::Okay),
        ) + " OK, "@ + decimal(tally(checks@, Severity::Warn)) + " warnings, "@ + decimal(
            tally(checks@, Severity::Fail),
        ) + " failures\n"@,
{
    let v = check_views(checks@);
    lemma_tally(checks@, Severity::Okay);
    lemma_tally(checks@, Severity::Warn);
    lemma_tally(checks@, Severity::Fail);
    law_counted_means_found(v, Severity::Fail);
    assert(forall|i: int| 0 <= i < v.len() ==> #[trigger] v[i] == checks@[i]@);
    if exists|i: int| 0 <= i < checks@.len() && (#[trigger] checks@[i]).severity == Severity::Fail {
        let i = choose|i: int|
            0 <= i < checks@.len() && (#[trigger] checks@[i]).severity == Severity::Fail;
        assert(v[i].severity == Severity::Fail);
    }
    let front = "fs25-ffb diagnostic report\n  config: "@ + quoted_path(config_path@) + "\n\n"@
        + report_body(v) + "\n"@;
    let a = decimal(tally(checks@, Severity::Okay));
    let b = decimal(tally(checks@, Severity::Warn));
    let c = decimal(tally(checks@, Severity::Fail));
    assert(front + ("summary: "@ + a + " OK, "@ + b + " warnings, "@ + c + " failures\n"@)
        =~= front + "summary: "@ + a + " OK, "@ + b + " warnings, "@ + c + " failures\n"@);
}

/// A report of one finding more has the lines of that finding behind all
/// others: its mark, name and explanation, and on a line of its own the fix
/// where there is one.
pub proof fn law_reports_grow_by_one_entry(checks: Seq<CheckView>, c: CheckView)
    ensures
        report_body(Seq::<CheckView>::empty()) == Seq::<char>::empty(),
        ({
            let mark = match c.severity {
                Severity::Okay => "[  OK  ] "@,
                Severity::Warn => "[ WARN ] "@,
                Severity::Fail => "[ FAIL ] "@,
            };
            let line = mark + c.name + ": "@ + c.detail + "\n"@;
            report_body(checks.push(c)) == report_body(checks) + match c.fix {
                Some(fix) => line + "        fix: "@ + fix + "\n"@,
                None => line,
            }
        }),
{
    assert(checks.push(c).drop_last() =~= checks);
    reveal_strlit("[");
    reveal_strlit("] ");
    reveal_strlit("  OK  ");
    reveal_strlit(" WARN ");
    reveal_strlit(" FAIL ");
    reveal_strlit("[  OK  ] ");
    reveal_strlit("[ WARN ] ");
    reveal_strlit("[ FAIL ] ");
    let mark = match c.severity {
        Severity::Okay => "[  OK  ] "@,
        Severity::Warn => "[ WARN ] "@,
        Severity::Fail => "[ FAIL ] "@,
    };
    assert("["@ + report_tag(c.severity) + "] "@ =~= mark);
}

} // verus!
