//! Which control a setting's row gets, and how the row is labelled: the
//! schema-driven part that means no widget is written by hand per setting.

use vstd::prelude::*;
use crate::settings::schema::SettingSpec;
use crate::settings::value::ValueKind;

verus! {

/// The control a setting is edited with.
#[derive(Debug, Clone, Copy, PartialEq, Eq, Structural)]
pub enum ControlKind {
    Switch,
    Dropdown,
    IntSpin,
    FloatSpin,
    Entry,
}

/// A switch for booleans, a drop-down for text with fixed choices, spin
/// buttons for numbers, and a text entry for other text and lists.
pub open spec fn control_of(kind: ValueKind, has_choices: bool) -> ControlKind {
    match kind {
        ValueKind::Bool => ControlKind::Switch,
        ValueKind::Str => if has_choices {
            ControlKind::Dropdown
        } else {
            ControlKind::Entry
        },
        ValueKind::Int => ControlKind::IntSpin,
        ValueKind::Float => ControlKind::FloatSpin,
        ValueKind::StrList => ControlKind::Entry,
    }
}

/// The control `spec`'s row gets.
pub fn control_for(spec: &SettingSpec) -> (r: ControlKind)
    ensures
        r == control_of(spec.kind, spec.choices is Some),
{
    match spec.kind {
        ValueKind::Bool => ControlKind::Switch,
        ValueKind::Str => if spec.choices.is_some() {
            ControlKind::Dropdown
        } else {
            ControlKind::Entry
        },
        ValueKind::Int => ControlKind::IntSpin,
        ValueKind::Float => ControlKind::FloatSpin,
        ValueKind::StrList => ControlKind::Entry,
    }
}

/// The label of `spec`'s row: settings that demand more than a user's
/// privilege say `(admin)` after it.
pub fn row_label(spec: &SettingSpec) -> (r: String)
    ensures
        r@ == (if spec.privilege.rank() > 0 {
            spec.label@ + " (admin)"@
        } else {
            spec.label@
        }),
{
    let mut out = String::from_str(spec.label);
    if spec.privilege.is_elevated() {
        out.append(" (admin)");
    }
    out
}

/// Position of the first of `choices` equal to `current`, if any.
pub open spec fn first_position(choices: Seq<Seq<char>>, current: Seq<char>) -> Option<int>
    decreases choices.len(),
{
    if choices.len() == 0 {
        None
    } else if choices[0] == current {
        Some(0)
    } else {
        match first_position(choices.drop_first(), current) {
            Some(i) => Some(i + 1),
            None => None,
        }
    }
}

/// The entry a drop-down starts on: the current value's position among the
/// choices, or the first entry when the current value is none of them.
pub fn dropdown_index(choices: &[&'static str], current: &str) -> (r: u32)
    ensures
        r == (match first_position(crate::settings::schema::strs_view(choices@), current@) {
            Some(i) => i,
            None => 0,
        }) as u32,
{
    let ghost cv = crate::settings::schema::strs_view(choices@);
    let mut i: usize = 0;
    assert(cv.skip(0) =~= cv);
    while i < choices.len()
        invariant
            cv == crate::settings::schema::strs_view(choices@),
            i <= choices@.len(),
            first_position(cv, current@) == (match first_position(cv.skip(i as int), current@) {
                Some(k) => Some(k + i),
                None => None::<int>,
            }),
        decreases choices.len() - i,
    {
        assert(cv.skip(i as int)[0] == choices@[i as int]@);
        if crate::text::str_eq(choices[i], current) {
            return i as u32;
        }
        assert(cv.skip(i as int).drop_first() =~= cv.skip(i + 1));
        i += 1;
    }
    assert(cv.skip(choices@.len() as int) =~= Seq::<Seq<char>>::empty());
    0
}

/// The hint a text entry shows when empty: colour settings show the form
/// they take.
pub fn entry_placeholder(spec: &SettingSpec) -> (r: Option<&'static str>)
    ensures
        spec.format is Some ==> r is Some && r->0@ == "#RRGGBB"@,
        spec.format is None ==> r is None,
{
    if spec.format.is_some() {
        Some("#RRGGBB")
    } else {
        None
    }
}

/// What happens to a boolean setting's switch: it is flipped, or its
/// Apply button is clicked.
#[derive(Debug, Clone, Copy, PartialEq, Eq, Structural)]
pub enum SwitchEvent {
    Toggled,
    ApplyClicked,
}

/// One step of a boolean setting's switch, where `active` is the switch's
/// position after the event and `apply_enabled` whether its Apply button can
/// be clicked. Gives whether Apply can be clicked afterwards and the value
/// to write, if any. An ordinary switch writes its position at once. A
/// dangerous one only stages it: flipping enables Apply and writes nothing,
/// and clicking Apply writes the position once and disables Apply again, so
/// a single stray tap changes nothing. Flipping it back before Apply just
/// stages the old position.
pub fn switch_step(dangerous: bool, active: bool, apply_enabled: bool, e: SwitchEvent) -> (r: (bool, Option<bool>))
    ensures
        !dangerous && e == SwitchEvent::Toggled ==> r == (apply_enabled, Some(active)),
        !dangerous && e == SwitchEvent::ApplyClicked ==> r == (apply_enabled, None::<bool>),
        dangerous && e == SwitchEvent::Toggled ==> r == (true, None::<bool>),
        dangerous && e == SwitchEvent::ApplyClicked && apply_enabled ==> r == (false, Some(active)),
        dangerous && e == SwitchEvent::ApplyClicked && !apply_enabled ==> r == (false, None::<bool>),
{
    match e {
        SwitchEvent::Toggled => if dangerous {
            (true, None)
        } else {
            (apply_enabled, Some(active))
        },
        SwitchEvent::ApplyClicked => if dangerous && apply_enabled {
            (false, Some(active))
        } else if dangerous {
            (false, None)
        } else {
            (apply_enabled, None)
        },
    }
}

} // verus!
