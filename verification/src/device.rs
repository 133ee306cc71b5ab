//! Choosing the wheel among the visible input devices.

use crate::config::{DeviceHint, DeviceHintView};
use crate::ffb::{FF_CONSTANT, FF_DAMPER, FF_PERIODIC, FF_RUMBLE, FF_SPRING};
use crate::shared::{DeviceInfo, DeviceInfoView};
use crate::text::{
    contains, contains_text, law_containing_is_surrounding, lowercase, opt_text,
    same_text, to_lowercase,
};
use vstd::prelude::*;
use vstd::string::*;

verus! {

pub const MOZA_VENDOR_ID: u16 = 0x346e;

/// The vendors of wheels: Moza, Logitech, Thrustmaster, Fanatec, Simagic,
/// Simucube, Arduino-based wheels, Saitek.
pub open spec fn known_vendors() -> Seq<u16> {
    seq![MOZA_VENDOR_ID, 0x046d, 0x044f, 0x0eb7, 0x11ff, 0x16d0, 0x2341, 0x06a3]
}

/// Whether a vendor makes wheels.
pub fn known_vendor(vendor: u16) -> (yes: bool)
    ensures
        yes == known_vendors().contains(vendor),
{
    let yes: bool = vendor == MOZA_VENDOR_ID || vendor == 0x046d || vendor == 0x044f || vendor
        == 0x0eb7 || vendor == 0x11ff || vendor == 0x16d0 || vendor == 0x2341 || vendor == 0x06a3;
    proof {
        let k = known_vendors();
        assert(k[0] == MOZA_VENDOR_ID && k[1] == 0x046d && k[2] == 0x044f && k[3] == 0x0eb7);
        assert(k[4] == 0x11ff && k[5] == 0x16d0 && k[6] == 0x2341 && k[7] == 0x06a3);
    }
    yes
}

/// The effect types that a device advertises.
#[derive(Debug, Clone, Copy, PartialEq, Eq, Structural)]
pub struct FfSupport {
    pub constant: bool,
    pub spring: bool,
    pub damper: bool,
    pub periodic: bool,
    pub rumble: bool,
}

/// The effect types that a list of codes names.
pub open spec fn support_in(codes: Seq<u16>) -> FfSupport {
    FfSupport {
        constant: codes.contains(FF_CONSTANT),
        spring: codes.contains(FF_SPRING),
        damper: codes.contains(FF_DAMPER),
        periodic: codes.contains(FF_PERIODIC),
        rumble: codes.contains(FF_RUMBLE),
    }
}

/// Picks the effect types that matter out of the codes that a device
/// advertises.
pub fn ff_support(codes: &Vec<u16>) -> (support: FfSupport)
    ensures
        support == support_in(codes@),
{
    let mut support: FfSupport = FfSupport {
        constant: false,
        spring: false,
        damper: false,
        periodic: false,
        rumble: false,
    };
    let mut i: usize = 0;
    while i < codes.len()
        invariant
            i <= codes@.len(),
            support == support_in(codes@.take(i as int)),
        decreases codes@.len() - i,
    {
        let code: u16 = codes[i];
        let ghost before = codes@.take(i as int);
        let ghost after = codes@.take(i + 1);
        proof {
            assert(after =~= before.push(code));
            assert forall|c: u16| #[trigger] after.contains(c) == (before.contains(c) || c == code) by {
                if before.contains(c) {
                    let k = choose|k: int| 0 <= k < before.len() && before[k] == c;
                    assert(after[k] == c);
                }
                if c == code {
                    assert(after[i as int] == c);
                }
                if after.contains(c) && c != code {
                    let k = choose|k: int| 0 <= k < after.len() && after[k] == c;
                    assert(before[k] == c);
                }
            }
        }
        if code == FF_CONSTANT {
            support.constant = true;
        } else if code == FF_SPRING {
            support.spring = true;
        } else if code == FF_DAMPER {
            support.damper = true;
        } else if code == FF_PERIODIC {
            support.periodic = true;
        } else if code == FF_RUMBLE {
            support.rumble = true;
        }
        i = i + 1;
    }
    assert(codes@.take(i as int) =~= codes@);
    support
}

/// A visible input device.
#[derive(Debug)]
pub struct Candidate {
    pub path: String,
    pub name: Option<String>,
    pub vendor_id: u16,
    pub product_id: u16,
    /// Unset where the device does not advertise force feedback at all.
    pub ff: Option<FfSupport>,
    pub max_effects: usize,
}

/// A [`Candidate`] by the characters of its texts.
pub struct CandidateView {
    pub path: Seq<char>,
    pub name: Option<Seq<char>>,
    pub vendor_id: u16,
    pub product_id: u16,
    pub ff: Option<FfSupport>,
    pub max_effects: usize,
}

impl View for Candidate {
    type V = CandidateView;

    open spec fn view(&self) -> CandidateView {
        CandidateView {
            path: self.path@,
            name: opt_text(self.name),
            vendor_id: self.vendor_id,
            product_id: self.product_id,
            ff: self.ff,
            max_effects: self.max_effects,
        }
    }
}

/// Candidates by their views.
pub open spec fn views(list: Seq<Candidate>) -> Seq<CandidateView> {
    list.map_values(|c: Candidate| c@)
}

// ---------------------------------------------------------------------------
// Capabilities
// ---------------------------------------------------------------------------

/// A device is worth driving when it plays constant forces, periodic effects
/// or rumble.
pub open spec fn capable(ff: Option<FfSupport>) -> bool {
    match ff {
        Some(s) => s.constant || s.periodic || s.rumble,
        None => false,
    }
}

/// Whether a device is worth driving.
pub fn ffb_capable(ff: &Option<FfSupport>) -> (yes: bool)
    ensures
        yes == capable(*ff),
{
    match ff {
        Some(s) => s.constant || s.periodic || s.rumble,
        None => false,
    }
}

/// The description of a device.
pub open spec fn description(c: CandidateView) -> DeviceInfoView {
    DeviceInfoView {
        name: match c.name {
            Some(n) => n,
            None => "(unnamed)"@,
        },
        path: c.path,
        vendor_id: c.vendor_id,
        product_id: c.product_id,
        supports_constant: c.ff is Some && c.ff->0.constant,
        supports_spring: c.ff is Some && c.ff->0.spring,
        supports_damper: c.ff is Some && c.ff->0.damper,
        supports_periodic: c.ff is Some && c.ff->0.periodic,
        supports_rumble: c.ff is Some && c.ff->0.rumble,
        ff_effects_max: c.max_effects,
    }
}

/// Describes a device.
pub fn describe(c: &Candidate) -> (info: DeviceInfo)
    ensures
        info@ == description(c@),
{
    let name: String = match &c.name {
        Some(n) => n.clone(),
        None => "(unnamed)".to_owned(),
    };
    let ff: FfSupport = match c.ff {
        Some(s) => s,
        None => FfSupport {
            constant: false,
            spring: false,
            damper: false,
            periodic: false,
            rumble: false,
        },
    };
    DeviceInfo {
        name,
        path: c.path.clone(),
        vendor_id: c.vendor_id,
        product_id: c.product_id,
        supports_constant: ff.constant,
        supports_spring: ff.spring,
        supports_damper: ff.damper,
        supports_periodic: ff.periodic,
        supports_rumble: ff.rumble,
        ff_effects_max: c.max_effects,
    }
}

// ---------------------------------------------------------------------------
// Choosing
// ---------------------------------------------------------------------------

/// The rules by which a device is chosen, the strongest first.
#[derive(Debug, Clone, Copy, PartialEq, Eq, Structural)]
pub enum Rule {
    /// The path is the hinted one.
    Path,
    /// Vendor and product are the hinted ones.
    Ids,
    /// The name holds the hinted part, whatever the case of its letters.
    Name,
    /// A known vendor makes it, and it plays constant forces.
    KnownVendor,
    /// A known vendor makes it, and it is worth driving.
    KnownCapable,
    /// It is worth driving at all.
    Capable,
}

impl Rule {
    /// The place of a rule; lower places come first.
    pub open spec fn place(self) -> int {
        match self {
            Rule::Path => 0,
            Rule::Ids => 1,
            Rule::Name => 2,
            Rule::KnownVendor => 3,
            Rule::KnownCapable => 4,
            Rule::Capable => 5,
        }
    }
}

/// A device fits a rule.
pub open spec fn fits(rule: Rule, hint: DeviceHintView, c: CandidateView) -> bool {
    match rule {
        Rule::Path => hint.path == Some(c.path),
        Rule::Ids => hint.vendor_id == Some(c.vendor_id) && hint.product_id == Some(c.product_id),
        Rule::Name => match hint.name_contains {
            Some(part) => contains_text(
                lowercase(
                    match c.name {
                        Some(n) => n,
                        None => ""@,
                    },
                ),
                lowercase(part),
            ),
            None => false,
        },
        Rule::KnownVendor => known_vendors().contains(c.vendor_id) && c.ff is Some
            && c.ff->0.constant,
        Rule::KnownCapable => known_vendors().contains(c.vendor_id) && capable(c.ff),
        Rule::Capable => capable(c.ff),
    }
}

/// No device fits a rule.
pub open spec fn none_fits(rule: Rule, hint: DeviceHintView, list: Seq<CandidateView>) -> bool {
    forall|i: int| 0 <= i < list.len() ==> !fits(rule, hint, #[trigger] list[i])
}

/// Device `i` is the first that fits a rule.
pub open spec fn first_fit(rule: Rule, hint: DeviceHintView, list: Seq<CandidateView>, i: int) -> bool {
    &&& 0 <= i < list.len()
    &&& fits(rule, hint, list[i])
    &&& forall|j: int| 0 <= j < i ==> !fits(rule, hint, #[trigger] list[j])
}

/// Device `i` is the choice by a rule: the first that fits it, where no device
/// fits a stronger rule.
pub open spec fn chosen_by(rule: Rule, hint: DeviceHintView, list: Seq<CandidateView>, i: int) -> bool {
    &&& first_fit(rule, hint, list, i)
    &&& forall|stronger: Rule|
        stronger.place() < rule.place() ==> #[trigger] none_fits(stronger, hint, list)
}

/// Device `i` is the choice.
pub open spec fn chosen(hint: DeviceHintView, list: Seq<CandidateView>, i: int) -> bool {
    exists|rule: Rule| chosen_by(rule, hint, list, i)
}

/// Why no device is chosen.
#[derive(Debug, Clone, Copy, PartialEq, Eq, Structural)]
pub enum DeviceError {
    /// No input device is visible at all.
    NoDevices,
    /// None of the visible devices will do.
    NoneCapable,
}

impl DeviceError {
    /// The error in words.
    pub open spec fn message_text(self) -> Seq<char> {
        match self {
            DeviceError::NoDevices => "no /dev/input/eventX devices visible. Is your user in the 'input' group? Run `fs25-ffb --diagnose` for a checklist."@,
            DeviceError::NoneCapable => "no FFB-capable device found. Connect your wheel, ensure /dev/input/eventX is readable (udev rule), and check `fs25-ffb --diagnose`."@,
        }
    }

    /// The error in words.
    pub fn message(&self) -> (out: &'static str)
        ensures
            out@ == self.message_text(),
    {
        match *self {
            DeviceError::NoDevices => "no /dev/input/eventX devices visible. Is your user in the 'input' group? Run `fs25-ffb --diagnose` for a checklist.",
            DeviceError::NoneCapable => "no FFB-capable device found. Connect your wheel, ensure /dev/input/eventX is readable (udev rule), and check `fs25-ffb --diagnose`.",
        }
    }
}

fn does_fit(rule: Rule, hint: &DeviceHint, c: &Candidate) -> (yes: bool)
    ensures
        yes == fits(rule, hint@, c@),
{
    match rule {
        Rule::Path => match &hint.path {
            Some(p) => same_text(c.path.as_str(), p.as_str()),
            None => false,
        },
        Rule::Ids => match (hint.vendor_id, hint.product_id) {
            (Some(v), Some(p)) => c.vendor_id == v && c.product_id == p,
            _ => false,
        },
        Rule::Name => match &hint.name_contains {
            Some(part) => {
                let name: &str = match &c.name {
                    Some(n) => n.as_str(),
                    None => "",
                };
                contains(to_lowercase(name).as_str(), to_lowercase(part.as_str()).as_str())
            },
            None => false,
        },
        Rule::KnownVendor => known_vendor(c.vendor_id) && match c.ff {
            Some(s) => s.constant,
            None => false,
        },
        Rule::KnownCapable => known_vendor(c.vendor_id) && ffb_capable(&c.ff),
        Rule::Capable => ffb_capable(&c.ff),
    }
}

fn find_by(rule: Rule, hint: &DeviceHint, list: &Vec<Candidate>) -> (found: Option<usize>)
    ensures
        match found {
            Some(i) => first_fit(rule, hint@, views(list@), i as int),
            None => none_fits(rule, hint@, views(list@)),
        },
{
    let mut i: usize = 0;
    while i < list.len()
        invariant
            i <= list@.len(),
            forall|j: int| 0 <= j < i ==> !fits(rule, hint@, #[trigger] views(list@)[j]),
        decreases list@.len() - i,
    {
        assert(views(list@)[i as int] == list@[i as int]@);
        if does_fit(rule, hint, &list[i]) {
            return Some(i);
        }
        i = i + 1;
    }
    None
}

/// What looking for a device gives: the choice, or why there is none.
pub open spec fn found(
    hint: DeviceHintView,
    list: Seq<CandidateView>,
    out: Result<usize, DeviceError>,
) -> bool {
    match out {
        Ok(i) => chosen(hint, list, i as int),
        Err(DeviceError::NoDevices) => list.len() == 0,
        Err(DeviceError::NoneCapable) => list.len() > 0 && forall|rule: Rule| #[trigger]
            none_fits(rule, hint, list),
    }
}

/// The one thing that looking for a device can give.
pub open spec fn choice(hint: DeviceHintView, list: Seq<CandidateView>) -> Result<
    usize,
    DeviceError,
> {
    choose|out: Result<usize, DeviceError>| found(hint, list, out)
}

/// Picks the best device: the hinted path, else the hinted vendor and product,
/// else a hinted part of the name, else the first from a known vendor that
/// plays constant forces, else the first from a known vendor that is worth
/// driving, else the first that is worth driving.
pub fn find_device(hint: &DeviceHint, list: &Vec<Candidate>) -> (out: Result<usize, DeviceError>)
    ensures
        found(hint@, views(list@), out),
        out == choice(hint@, views(list@)),
{
    let out: Result<usize, DeviceError> = search(hint, list);
    proof {
        law_choice_is_the_only_outcome(hint@, views(list@), out, choice(hint@, views(list@)));
    }
    out
}

fn search(hint: &DeviceHint, list: &Vec<Candidate>) -> (out: Result<usize, DeviceError>)
    ensures
        found(hint@, views(list@), out),
{
    if list.len() == 0 {
        return Err(DeviceError::NoDevices);
    }
    if let Some(i) = find_by(Rule::Path, hint, list) {
        assert(chosen_by(Rule::Path, hint@, views(list@), i as int));
        return Ok(i);
    }
    if let Some(i) = find_by(Rule::Ids, hint, list) {
        assert(chosen_by(Rule::Ids, hint@, views(list@), i as int));
        return Ok(i);
    }
    if let Some(i) = find_by(Rule::Name, hint, list) {
        assert(chosen_by(Rule::Name, hint@, views(list@), i as int));
        return Ok(i);
    }
    if let Some(i) = find_by(Rule::KnownVendor, hint, list) {
        assert(chosen_by(Rule::KnownVendor, hint@, views(list@), i as int));
        return Ok(i);
    }
    if let Some(i) = find_by(Rule::KnownCapable, hint, list) {
        assert(chosen_by(Rule::KnownCapable, hint@, views(list@), i as int));
        return Ok(i);
    }
    if let Some(i) = find_by(Rule::Capable, hint, list) {
        assert(chosen_by(Rule::Capable, hint@, views(list@), i as int));
        return Ok(i);
    }
    assert forall|rule: Rule| #[trigger] none_fits(rule, hint@, views(list@)) by {
        match rule {
            Rule::Path => {},
            Rule::Ids => {},
            Rule::Name => {},
            Rule::KnownVendor => {},
            Rule::KnownCapable => {},
            Rule::Capable => {},
        }
    }
    Err(DeviceError::NoneCapable)
}

/// Picks the best device and describes it. A device that is not worth driving
/// is refused, even where a hint picks it.
pub fn open_matching(hint: &DeviceHint, list: &Vec<Candidate>) -> (out: Result<
    (String, DeviceInfo),
    DeviceError,
>)
    ensures
        match out {
            Ok((path, info)) => exists|i: int| #[trigger]
                chosen(hint@, views(list@), i) && capable(list@[i].ff) && path@ == list@[i].path@
                    && info@ == description(list@[i]@),
            Err(e) => choice(hint@, views(list@)) == Err::<usize, DeviceError>(e) || (e
                == DeviceError::NoneCapable && exists|i: int| #[trigger]
                chosen(hint@, views(list@), i) && !capable(list@[i].ff)),
        },
{
    match find_device(hint, list) {
        Ok(i) => {
            let ghost k: int = i as int;
            assert(views(list@)[k] == list@[k]@);
            assert(chosen(hint@, views(list@), k));
            if !ffb_capable(&list[i].ff) {
                return Err(DeviceError::NoneCapable);
            }
            let path: String = list[i].path.clone();
            let info: DeviceInfo = describe(&list[i]);
            Ok((path, info))
        },
        Err(e) => Err(e),
    }
}

// ---------------------------------------------------------------------------
// Laws
// ---------------------------------------------------------------------------

/// At most one device is the choice.
pub proof fn law_choice_is_unique(hint: DeviceHintView, list: Seq<CandidateView>, i: int, j: int)
    requires
        chosen(hint, list, i),
        chosen(hint, list, j),
    ensures
        i == j,
{
    let r = choose|rule: Rule| chosen_by(rule, hint, list, i);
    let s = choose|rule: Rule| chosen_by(rule, hint, list, j);
    if r.place() < s.place() {
        assert(none_fits(r, hint, list));
    } else if s.place() < r.place() {
        assert(none_fits(s, hint, list));
    } else {
        assert(r == s);
    }
}

/// Looking for a device can give one thing only.
pub proof fn law_choice_is_the_only_outcome(
    hint: DeviceHintView,
    list: Seq<CandidateView>,
    a: Result<usize, DeviceError>,
    b: Result<usize, DeviceError>,
)
    requires
        found(hint, list, a),
        found(hint, list, b),
    ensures
        a == b,
{
    match (a, b) {
        (Ok(i), Ok(j)) => {
            law_choice_is_unique(hint, list, i as int, j as int);
        },
        (Ok(i), Err(e)) => {
            let rule = choose|rule: Rule| chosen_by(rule, hint, list, i as int);
            assert(none_fits(rule, hint, list) || list.len() == 0);
        },
        (Err(e), Ok(j)) => {
            let rule = choose|rule: Rule| chosen_by(rule, hint, list, j as int);
            assert(none_fits(rule, hint, list) || list.len() == 0);
        },
        _ => {},
    }
}

/// A device that fits some rule leads to a choice.
pub proof fn law_a_fitting_device_leads_to_a_choice(
    hint: DeviceHintView,
    list: Seq<CandidateView>,
    rule: Rule,
    k: int,
)
    requires
        0 <= k < list.len(),
        fits(rule, hint, list[k]),
    ensures
        exists|i: int| chosen(hint, list, i),
    decreases rule.place(), k,
{
    if exists|j: int| 0 <= j < k && fits(rule, hint, #[trigger] list[j]) {
        let j = choose|j: int| 0 <= j < k && fits(rule, hint, #[trigger] list[j]);
        law_a_fitting_device_leads_to_a_choice(hint, list, rule, j);
    } else if exists|stronger: Rule|
        stronger.place() < rule.place() && !#[trigger] none_fits(stronger, hint, list) {
        let stronger = choose|stronger: Rule|
            stronger.place() < rule.place() && !#[trigger] none_fits(stronger, hint, list);
        let j = choose|j: int| 0 <= j < list.len() && fits(stronger, hint, #[trigger] list[j]);
        law_a_fitting_device_leads_to_a_choice(hint, list, stronger, j);
    } else {
        assert(chosen_by(rule, hint, list, k));
        assert(chosen(hint, list, k));
    }
}

/// A hinted path that is visible is always honoured.
pub proof fn law_hinted_path_wins(hint: DeviceHintView, list: Seq<CandidateView>, i: int, k: int)
    requires
        chosen(hint, list, i),
        0 <= k < list.len(),
        hint.path == Some(list[k].path),
    ensures
        hint.path == Some(list[i].path),
{
    let r = choose|rule: Rule| chosen_by(rule, hint, list, i);
    if r != Rule::Path {
        assert(Rule::Path.place() < r.place());
        assert(none_fits(Rule::Path, hint, list));
        assert(fits(Rule::Path, hint, list[k]));
    }
}

/// Without a hint, only devices that are worth driving are chosen.
pub proof fn law_unhinted_choice_is_capable(list: Seq<CandidateView>, i: int)
    requires
        chosen(DeviceHintView::none(), list, i),
    ensures
        capable(list[i].ff),
{
}

proof fn lemma_choice_by(hint: DeviceHintView, list: Seq<CandidateView>, out: Result<usize, DeviceError>, rule: Rule, k: int)
    requires
        found(hint, list, out),
        0 <= k < list.len(),
        fits(rule, hint, list[k]),
        forall|stronger: Rule|
            stronger.place() < rule.place() ==> #[trigger] none_fits(stronger, hint, list),
    ensures
        out matches Ok(i) && first_fit(rule, hint, list, i as int),
{
    assert(!none_fits(rule, hint, list));
    match out {
        Ok(i) => {
            let by = choose|by: Rule| chosen_by(by, hint, list, i as int);
            assert(fits(by, hint, list[i as int]));
            assert(!none_fits(by, hint, list));
            if by.place() > rule.place() {
                assert(none_fits(rule, hint, list));
            }
            assert(by == rule);
        },
        Err(DeviceError::NoDevices) => {},
        Err(DeviceError::NoneCapable) => {
            assert(none_fits(rule, hint, list));
        },
    }
}

/// Where some visible device has the hinted path, the first such device is
/// found.
pub proof fn law_finding_goes_by_the_hinted_path(
    hint: DeviceHint,
    list: Vec<Candidate>,
    out: Result<usize, DeviceError>,
    k: int,
)
    requires
        call_ensures(find_device, (&hint, &list), out),
        0 <= k < list@.len(),
        hint.path is Some,
        list@[k].path@ == hint.path->0@,
    ensures
        out is Ok,
        out->Ok_0 <= k,
        list@[out->Ok_0 as int].path@ == hint.path->0@,
        forall|j: int|
            0 <= j < out->Ok_0 ==> (#[trigger] list@[j]).path@ != hint.path->0@,
{
    let v = views(list@);
    assert(v[k] == list@[k]@);
    lemma_choice_by(hint@, v, out, Rule::Path, k);
    let i = out->Ok_0 as int;
    assert(v[i] == list@[i]@);
    if i > k {
        assert(!fits(Rule::Path, hint@, v[k]));
    }
    assert forall|j: int| 0 <= j < i implies (#[trigger] list@[j]).path@ != hint.path->0@ by {
        assert(v[j] == list@[j]@);
        assert(!fits(Rule::Path, hint@, v[j]));
    }
}

/// No visible device has the hinted path.
pub open spec fn path_is_missing(hint: DeviceHint, list: Seq<Candidate>) -> bool {
    hint.path is None || forall|j: int|
        0 <= j < list.len() ==> (#[trigger] list[j]).path@ != hint.path->0@
}

/// No visible device has both the hinted vendor and the hinted product.
pub open spec fn ids_are_missing(hint: DeviceHint, list: Seq<Candidate>) -> bool {
    hint.vendor_id is None || hint.product_id is None || forall|j: int|
        0 <= j < list.len() ==> (#[trigger] list[j]).vendor_id != hint.vendor_id->0
            || list[j].product_id != hint.product_id->0
}

/// The name of a device, in lower case; a device without one has an empty one.
pub open spec fn low_name(c: Candidate) -> Seq<char> {
    match c.name {
        Some(n) => lowercase(n@),
        None => lowercase(""@),
    }
}

/// The hinted part of a name occurs in a name, whatever the case of letters.
pub open spec fn named(hint: DeviceHint, c: Candidate) -> bool {
    hint.name_contains is Some && exists|front: Seq<char>, back: Seq<char>|
        low_name(c) == #[trigger] (front + lowercase(hint.name_contains->0@) + back)
}

/// No visible device has a name with the hinted part in it.
pub open spec fn name_is_missing(hint: DeviceHint, list: Seq<Candidate>) -> bool {
    forall|j: int| 0 <= j < list.len() ==> !named(hint, #[trigger] list[j])
}

proof fn lemma_missing(hint: DeviceHint, list: Seq<Candidate>)
    ensures
        path_is_missing(hint, list) ==> none_fits(Rule::Path, hint@, views(list)),
        ids_are_missing(hint, list) ==> none_fits(Rule::Ids, hint@, views(list)),
        name_is_missing(hint, list) ==> none_fits(Rule::Name, hint@, views(list)),
{
    let v = views(list);
    assert(forall|j: int| 0 <= j < v.len() ==> #[trigger] v[j] == list[j]@);
    if ids_are_missing(hint, list) {
        assert forall|j: int| 0 <= j < v.len() implies !fits(
            Rule::Ids,
            hint@,
            #[trigger] v[j],
        ) by {
            assert(v[j].vendor_id == list[j].vendor_id);
        }
    }
    if path_is_missing(hint, list) {
        assert forall|j: int| 0 <= j < v.len() implies !fits(
            Rule::Path,
            hint@,
            #[trigger] v[j],
        ) by {
            assert(v[j].path == list[j].path@);
        }
    }
    if name_is_missing(hint, list) {
        assert forall|j: int| 0 <= j < v.len() implies !fits(
            Rule::Name,
            hint@,
            #[trigger] v[j],
        ) by {
            assert(!named(hint, list[j]));
            if hint.name_contains is Some {
                law_containing_is_surrounding(
                    low_name(list[j]),
                    lowercase(hint.name_contains->0@),
                );
            }
        }
    }
}

/// Without a device at the hinted path, the first one with both the hinted
/// vendor and the hinted product is found.
pub proof fn law_finding_goes_by_the_hinted_ids(
    hint: DeviceHint,
    list: Vec<Candidate>,
    out: Result<usize, DeviceError>,
    k: int,
)
    requires
        call_ensures(find_device, (&hint, &list), out),
        path_is_missing(hint, list@),
        0 <= k < list@.len(),
        hint.vendor_id == Some(list@[k].vendor_id),
        hint.product_id == Some(list@[k].product_id),
    ensures
        out is Ok,
        out->Ok_0 <= k,
        list@[out->Ok_0 as int].vendor_id == list@[k].vendor_id,
        list@[out->Ok_0 as int].product_id == list@[k].product_id,
        forall|j: int|
            0 <= j < out->Ok_0 ==> (#[trigger] list@[j]).vendor_id != list@[k].vendor_id
                || list@[j].product_id != list@[k].product_id,
{
    let v = views(list@);
    lemma_missing(hint, list@);
    assert(v[k] == list@[k]@);
    assert forall|stronger: Rule| stronger.place() < 1 implies #[trigger] none_fits(
        stronger,
        hint@,
        v,
    ) by {
        assert(stronger == Rule::Path);
    }
    lemma_choice_by(hint@, v, out, Rule::Ids, k);
    let i = out->Ok_0 as int;
    assert(v[i] == list@[i]@);
    assert forall|j: int| 0 <= j < i implies (#[trigger] list@[j]).vendor_id != list@[k].vendor_id
        || list@[j].product_id != list@[k].product_id by {
        assert(v[j] == list@[j]@);
        assert(!fits(Rule::Ids, hint@, v[j]));
    }
    if i > k {
        assert(list@[k].vendor_id != list@[k].vendor_id || list@[k].product_id
            != list@[k].product_id);
    }
}

/// Without a device at the hinted path or with the hinted ids, the first one
/// with the hinted part in its name is found.
pub proof fn law_finding_goes_by_the_hinted_name(
    hint: DeviceHint,
    list: Vec<Candidate>,
    out: Result<usize, DeviceError>,
    k: int,
)
    requires
        call_ensures(find_device, (&hint, &list), out),
        path_is_missing(hint, list@),
        ids_are_missing(hint, list@),
        0 <= k < list@.len(),
        named(hint, list@[k]),
    ensures
        out is Ok,
        out->Ok_0 <= k,
        named(hint, list@[out->Ok_0 as int]),
        forall|j: int| 0 <= j < out->Ok_0 ==> !named(hint, #[trigger] list@[j]),
{
    let v = views(list@);
    let part = lowercase(hint.name_contains->0@);
    lemma_missing(hint, list@);
    assert(v[k] == list@[k]@);
    assert forall|stronger: Rule| stronger.place() < 2 implies #[trigger] none_fits(
        stronger,
        hint@,
        v,
    ) by {
        assert(stronger == Rule::Path || stronger == Rule::Ids);
    }
    law_containing_is_surrounding(low_name(list@[k]), part);
    lemma_choice_by(hint@, v, out, Rule::Name, k);
    let i = out->Ok_0 as int;
    assert(v[i] == list@[i]@);
    law_containing_is_surrounding(low_name(list@[i]), part);
    assert forall|j: int| 0 <= j < i implies !named(hint, #[trigger] list@[j]) by {
        assert(v[j] == list@[j]@);
        assert(!fits(Rule::Name, hint@, v[j]));
        law_containing_is_surrounding(low_name(list@[j]), part);
    }
    if i > k {
        assert(!named(hint, list@[k]));
    }
}

/// Nothing that is hinted is visible.
pub open spec fn hint_is_void(hint: DeviceHint, list: Seq<Candidate>) -> bool {
    path_is_missing(hint, list) && ids_are_missing(hint, list) && name_is_missing(hint, list)
}

/// How much a device is worth without a hint: 3 for constant forces from a
/// maker of wheels, 2 for any force from one, 1 for any force, else 0.
pub open spec fn worth(c: Candidate) -> int {
    let v = c.vendor_id;
    let maker = v == 0x346e || v == 0x046d || v == 0x044f || v == 0x0eb7 || v == 0x11ff || v
        == 0x16d0 || v == 0x2341 || v == 0x06a3;
    match c.ff {
        Some(ff) => if maker && ff.constant {
            3
        } else if ff.constant || ff.periodic || ff.rumble {
            if maker {
                2
            } else {
                1
            }
        } else {
            0
        },
        None => 0,
    }
}

/// Where nothing that is hinted is visible, the first of the devices that are
/// worth most is found; devices that are worth nothing are never found.
pub proof fn law_finding_goes_by_worth(
    hint: DeviceHint,
    list: Vec<Candidate>,
    out: Result<usize, DeviceError>,
)
    requires
        call_ensures(find_device, (&hint, &list), out),
        hint_is_void(hint, list@),
    ensures
        match out {
            Ok(i) => {
                &&& i < list@.len()
                &&& worth(list@[i as int]) > 0
                &&& forall|j: int|
                    0 <= j < list@.len() ==> worth(#[trigger] list@[j]) <= worth(list@[i as int])
                &&& forall|j: int|
                    0 <= j < i ==> worth(#[trigger] list@[j]) < worth(list@[i as int])
            },
            Err(e) => {
                &&& e == DeviceError::NoDevices <==> list@.len() == 0
                &&& forall|j: int| 0 <= j < list@.len() ==> worth(#[trigger] list@[j]) == 0
            },
        },
{
    let v = views(list@);
    lemma_missing(hint, list@);
    assert(forall|j: int| 0 <= j < v.len() ==> #[trigger] v[j] == list@[j]@);
    assert forall|j: int| 0 <= j < v.len() implies {
        let c = #[trigger] list@[j];
        &&& worth(c) == 3 <==> fits(Rule::KnownVendor, hint@, v[j])
        &&& worth(c) >= 2 <==> fits(Rule::KnownVendor, hint@, v[j]) || fits(
            Rule::KnownCapable,
            hint@,
            v[j],
        )
        &&& worth(c) >= 1 <==> fits(Rule::Capable, hint@, v[j])
        &&& fits(Rule::KnownVendor, hint@, v[j]) ==> fits(Rule::KnownCapable, hint@, v[j])
        &&& 0 <= worth(c) <= 3
    } by {
        let k = known_vendors();
        assert(k[0] == 0x346e && k[1] == 0x046d && k[2] == 0x044f && k[3] == 0x0eb7);
        assert(k[4] == 0x11ff && k[5] == 0x16d0 && k[6] == 0x2341 && k[7] == 0x06a3);
        assert(v[j] == list@[j]@);
    }
    match out {
        Ok(i) => {
            let by = choose|by: Rule| chosen_by(by, hint@, v, i as int);
            assert(first_fit(by, hint@, v, i as int));
            assert(!none_fits(by, hint@, v));
            assert(v[i as int] == list@[i as int]@);
            if by == Rule::KnownCapable {
                assert(none_fits(Rule::KnownVendor, hint@, v));
            }
            if by == Rule::Capable {
                assert(none_fits(Rule::KnownVendor, hint@, v));
                assert(none_fits(Rule::KnownCapable, hint@, v));
            }
            assert forall|j: int| 0 <= j < list@.len() implies worth(#[trigger] list@[j]) <= worth(
                list@[i as int],
            ) by {
                assert(v[j] == list@[j]@);
            }
            assert forall|j: int| 0 <= j < i implies worth(#[trigger] list@[j]) < worth(
                list@[i as int],
            ) by {
                assert(v[j] == list@[j]@);
                assert(!fits(by, hint@, v[j]));
            }
        },
        Err(e) => {
            if list@.len() > 0 {
                assert(none_fits(Rule::Capable, hint@, v));
                assert forall|j: int| 0 <= j < list@.len() implies worth(#[trigger] list@[j])
                    == 0 by {
                    assert(v[j] == list@[j]@);
                }
            }
        },
    }
}

/// A device is found exactly where one is hinted at or worth driving, and the
/// error tells apart whether any device is visible at all.
pub proof fn law_finding_fails_only_without_a_device(
    hint: DeviceHint,
    list: Vec<Candidate>,
    out: Result<usize, DeviceError>,
)
    requires
        call_ensures(find_device, (&hint, &list), out),
    ensures
        out is Err <==> hint_is_void(hint, list@) && forall|j: int|
            0 <= j < list@.len() ==> worth(#[trigger] list@[j]) == 0,
        out is Ok ==> out->Ok_0 < list@.len(),
        out == Err::<usize, DeviceError>(DeviceError::NoDevices) <==> list@.len() == 0,
{
    let v = views(list@);
    assert(forall|j: int| 0 <= j < v.len() ==> #[trigger] v[j] == list@[j]@);
    if out is Err && list@.len() > 0 {
        if !path_is_missing(hint, list@) {
            let k = choose|k: int|
                0 <= k < list@.len() && (#[trigger] list@[k]).path@ == hint.path->0@;
            law_finding_goes_by_the_hinted_path(hint, list, out, k);
        } else if !ids_are_missing(hint, list@) {
            let k = choose|k: int|
                0 <= k < list@.len() && (#[trigger] list@[k]).vendor_id == hint.vendor_id->0
                    && list@[k].product_id == hint.product_id->0;
            law_finding_goes_by_the_hinted_ids(hint, list, out, k);
        } else if !name_is_missing(hint, list@) {
            let k = choose|k: int| 0 <= k < list@.len() && named(hint, #[trigger] list@[k]);
            law_finding_goes_by_the_hinted_name(hint, list, out, k);
        }
    }
    if hint_is_void(hint, list@) {
        law_finding_goes_by_worth(hint, list, out);
    }
}

/// A description says of each of the five effect types that it is supported
/// exactly when the device advertises the code of that very type, and takes
/// over path, ids, slots and name.
pub proof fn law_descriptions_say_what_is_advertised(
    codes: Vec<u16>,
    support: FfSupport,
    c: Candidate,
    info: DeviceInfo,
)
    requires
        call_ensures(ff_support, (&codes,), support),
        c.ff == Some(support),
        call_ensures(describe, (&c,), info),
    ensures
        info.supports_constant <==> codes@.contains(0x52),
        info.supports_spring <==> codes@.contains(0x53),
        info.supports_damper <==> codes@.contains(0x55),
        info.supports_periodic <==> codes@.contains(0x51),
        info.supports_rumble <==> codes@.contains(0x50),
        info.path@ == c.path@,
        info.vendor_id == c.vendor_id,
        info.product_id == c.product_id,
        info.ff_effects_max == c.max_effects,
        c.name is Some ==> info.name@ == c.name->0@,
        c.name is None ==> info.name@ == "(unnamed)"@,
{
    assert(info@ == description(c@));
}

/// The description of a device takes over each effect type as it is, and a
/// device without force feedback supports none.
pub proof fn law_descriptions_keep_effect_types_apart(c: Candidate, info: DeviceInfo)
    requires
        call_ensures(describe, (&c,), info),
    ensures
        info.supports_constant <==> c.ff is Some && c.ff->0.constant,
        info.supports_spring <==> c.ff is Some && c.ff->0.spring,
        info.supports_damper <==> c.ff is Some && c.ff->0.damper,
        info.supports_periodic <==> c.ff is Some && c.ff->0.periodic,
        info.supports_rumble <==> c.ff is Some && c.ff->0.rumble,
{
    assert(info@ == description(c@));
}

/// A device is worth driving exactly when it plays constant forces, periodic
/// effects or rumble.
pub proof fn law_capable_devices_play_something(ff: Option<FfSupport>, yes: bool)
    requires
        call_ensures(ffb_capable, (&ff,), yes),
    ensures
        yes <==> ff is Some && (ff->0.constant || ff->0.periodic || ff->0.rumble),
{
}

/// Opening hands out the device that is found, described as it is, and refuses
/// it exactly when it plays neither constant forces nor periodic effects nor
/// rumble.
pub proof fn law_opening_hands_out_what_is_found(
    hint: DeviceHint,
    list: Vec<Candidate>,
    found: Result<usize, DeviceError>,
    out: Result<(String, DeviceInfo), DeviceError>,
)
    requires
        call_ensures(find_device, (&hint, &list), found),
        call_ensures(open_matching, (&hint, &list), out),
    ensures
        match found {
            Ok(i) => {
                let c = list@[i as int];
                if c.ff is Some && (c.ff->0.constant || c.ff->0.periodic || c.ff->0.rumble) {
                    &&& out is Ok
                    &&& out->Ok_0.0@ == c.path@
                    &&& out->Ok_0.1.path@ == c.path@
                    &&& out->Ok_0.1.name@ == (match c.name {
                        Some(n) => n@,
                        None => "(unnamed)"@,
                    })
                    &&& out->Ok_0.1.ff_effects_max == c.max_effects
                    &&& out->Ok_0.1.vendor_id == c.vendor_id
                    &&& out->Ok_0.1.product_id == c.product_id
                    &&& out->Ok_0.1.supports_constant == c.ff->0.constant
                    &&& out->Ok_0.1.supports_spring == c.ff->0.spring
                    &&& out->Ok_0.1.supports_damper == c.ff->0.damper
                    &&& out->Ok_0.1.supports_periodic == c.ff->0.periodic
                    &&& out->Ok_0.1.supports_rumble == c.ff->0.rumble
                } else {
                    out is Err && out->Err_0 == DeviceError::NoneCapable
                }
            },
            Err(e) => out is Err && out->Err_0 == e,
        },
{
    let v = views(list@);
    assert(self::found(hint@, v, found));
    match out {
        Ok((path, info)) => {
            let k = choose|k: int| #[trigger]
                chosen(hint@, v, k) && capable(list@[k].ff) && path@ == list@[k].path@ && info@
                    == description(list@[k]@);
            assert(v[k] == list@[k]@) by {
                let by = choose|by: Rule| chosen_by(by, hint@, v, k);
                assert(first_fit(by, hint@, v, k));
            }
            match found {
                Ok(i) => {
                    law_choice_is_unique(hint@, v, i as int, k);
                },
                Err(e) => {
                    let by = choose|by: Rule| chosen_by(by, hint@, v, k);
                    assert(first_fit(by, hint@, v, k));
                    assert(none_fits(by, hint@, v) || v.len() == 0);
                },
            }
        },
        Err(e) => {
            law_choice_is_the_only_outcome(hint@, v, found, choice(hint@, v));
            if exists|k: int| #[trigger] chosen(hint@, v, k) && !capable(list@[k].ff) {
                let k = choose|k: int| #[trigger] chosen(hint@, v, k) && !capable(list@[k].ff);
                let by = choose|by: Rule| chosen_by(by, hint@, v, k);
                assert(first_fit(by, hint@, v, k));
                match found {
                    Ok(i) => {
                        law_choice_is_unique(hint@, v, i as int, k);
                    },
                    Err(e2) => {
                        assert(none_fits(by, hint@, v) || v.len() == 0);
                    },
                }
            }
        },
    }
}

/// Exactly eight vendors make wheels.
pub proof fn law_eight_vendors_make_wheels(vendor: u16, yes: bool)
    requires
        call_ensures(known_vendor, (vendor,), yes),
    ensures
        yes <==> vendor == 13422 || vendor == 1133 || vendor == 1103 || vendor == 3767 || vendor
            == 4607 || vendor == 5840 || vendor == 9025 || vendor == 1699,
{
    let k = known_vendors();
    assert(k[0] == 0x346e && k[1] == 0x046d && k[2] == 0x044f && k[3] == 0x0eb7);
    assert(k[4] == 0x11ff && k[5] == 0x16d0 && k[6] == 0x2341 && k[7] == 0x06a3);
}

/// The errors in words.
pub proof fn law_device_errors_in_words(e: DeviceError, out: &'static str)
    requires
        call_ensures(DeviceError::message, (&e,), out),
    ensures
        e is NoDevices ==> out@
            == "no /dev/input/eventX devices visible. Is your user in the 'input' group? Run `fs25-ffb --diagnose` for a checklist."@,
        e is NoneCapable ==> out@
            == "no FFB-capable device found. Connect your wheel, ensure /dev/input/eventX is readable (udev rule), and check `fs25-ffb --diagnose`."@,
{
}

} // verus!
