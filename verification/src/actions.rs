//! The decision half of tray-event handling: mapping a clicked entry
//! identifier to the action the host should perform, and finding the preset a
//! selection names. Performing the action (window calls, process exit,
//! persisting) stays with the host.

use vstd::prelude::*;

use crate::model::ConfigPreset;
use crate::strutil::starts_with_seq;

verus! {

/// What the host should do for a clicked menu entry.
#[derive(Debug, Clone)]
pub enum MenuAction {
    Quit,
    ShowWindow,
    HideWindow,
    SwitchPreset(String),
    Ignored,
}

/// The mathematical model of a menu action.
pub enum MenuActionModel {
    Quit,
    ShowWindow,
    HideWindow,
    SwitchPreset(Seq<char>),
    Ignored,
}

impl View for MenuAction {
    type V = MenuActionModel;

    open spec fn view(&self) -> MenuActionModel {
        match *self {
            MenuAction::Quit => MenuActionModel::Quit,
            MenuAction::ShowWindow => MenuActionModel::ShowWindow,
            MenuAction::HideWindow => MenuActionModel::HideWindow,
            MenuAction::SwitchPreset(name) => MenuActionModel::SwitchPreset(name@),
            MenuAction::Ignored => MenuActionModel::Ignored,
        }
    }
}

/// The action for an entry identifier: the three fixed entries by exact
/// identifier, a preset switch for a `preset_`-prefixed identifier (the rest
/// of the identifier names the preset), and nothing otherwise.
pub open spec fn spec_menu_action(id: Seq<char>) -> MenuActionModel {
    if id == "quit"@ {
        MenuActionModel::Quit
    } else if id == "show"@ {
        MenuActionModel::ShowWindow
    } else if id == "hide"@ {
        MenuActionModel::HideWindow
    } else if starts_with_seq(id, "preset_"@) {
        MenuActionModel::SwitchPreset(id.skip("preset_"@.len() as int))
    } else {
        MenuActionModel::Ignored
    }
}

/// Decides the action for a clicked entry identifier.
pub fn menu_action(id: &str) -> (r: MenuAction)
    ensures
        r@ == spec_menu_action(id@),
{
    if crate::strutil::str_eq(id, "quit") {
        MenuAction::Quit
    } else if crate::strutil::str_eq(id, "show") {
        MenuAction::ShowWindow
    } else if crate::strutil::str_eq(id, "hide") {
        MenuAction::HideWindow
    } else if crate::strutil::str_starts_with(id, "preset_") {
        proof {
            reveal_strlit("preset_");
        }
        let name = id.substring_char(7, id.unicode_len());
        assert(name@ =~= id@.skip("preset_"@.len() as int));
        MenuAction::SwitchPreset(String::from_str(name))
    } else {
        MenuAction::Ignored
    }
}

/// Index `i` holds the first preset with display name `name`.
pub open spec fn is_first_named(presets: Seq<ConfigPreset>, name: Seq<char>, i: int) -> bool {
    &&& 0 <= i < presets.len()
    &&& presets[i].name@ == name
    &&& forall|j: int| 0 <= j < i ==> presets[j].name@ != name
}

/// Some stored preset has display name `name`.
pub open spec fn has_named(presets: Seq<ConfigPreset>, name: Seq<char>) -> bool {
    exists|i: int| 0 <= i < presets.len() && presets[i].name@ == name
}

/// Finds the first stored preset carrying the given display name.
pub fn find_preset_by_name<'a>(presets: &'a Vec<ConfigPreset>, name: &str) -> (r: Option<
    &'a ConfigPreset,
>)
    ensures
        match r {
            Some(p) => exists|i: int| is_first_named(presets@, name@, i) && *p == presets@[i],
            None => !has_named(presets@, name@),
        },
{
    let n = presets.len();
    let mut i: usize = 0;
    while i < n
        invariant
            i <= n,
            n == presets@.len(),
            forall|j: int| 0 <= j < i ==> presets@[j].name@ != name@,
        decreases n - i,
    {
        if crate::strutil::str_eq(presets[i].name.as_str(), name) {
            proof {
                assert(is_first_named(presets@, name@, i as int));
            }
            return Some(&presets[i]);
        }
        i += 1;
    }
    None
}

} // verus!
