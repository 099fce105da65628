//! The menu-state builder: the ordered, capped list of entries a host tray UI
//! renders, rebuilt from scratch on every request.

use vstd::prelude::*;

use crate::model::{ConfigPreset, ConfigStatus, PresetModel};
use crate::reconcile::{spec_display_label, tuple_eq};

verus! {

/// One entry of the derived menu: a separator, or an interactive item with a
/// stable identifier, a display label, and an enabled flag.
#[derive(Debug, Clone)]
pub enum MenuEntry {
    Separator,
    Item { id: String, label: String, enabled: bool },
}

/// The mathematical model of a menu entry, over character sequences.
pub enum MenuEntryModel {
    Separator,
    Item { id: Seq<char>, label: Seq<char>, enabled: bool },
}

impl View for MenuEntry {
    type V = MenuEntryModel;

    open spec fn view(&self) -> MenuEntryModel {
        match *self {
            MenuEntry::Separator => MenuEntryModel::Separator,
            MenuEntry::Item { id, label, enabled } => MenuEntryModel::Item {
                id: id@,
                label: label@,
                enabled,
            },
        }
    }
}

/// Shorthand for an item entry model.
pub open spec fn entry_item(id: Seq<char>, label: Seq<char>, enabled: bool) -> MenuEntryModel {
    MenuEntryModel::Item { id, label, enabled }
}

/// The models of a list of menu entries.
pub open spec fn entry_views(s: Seq<MenuEntry>) -> Seq<MenuEntryModel> {
    s.map_values(|e: MenuEntry| e@)
}

/// How many presets the menu shows: list order, capped at the first five.
pub open spec fn preset_cap(n: int) -> int {
    if n < 5 {
        n
    } else {
        5
    }
}

/// The selectable entry for one stored preset: a check-mark glyph when it is
/// the currently matched preset (exact 4-tuple equality), an arrow glyph
/// otherwise.
pub open spec fn preset_entry_view(p: PresetModel, cur: PresetModel) -> MenuEntryModel {
    entry_item(
        "preset_"@ + p.name,
        (if tuple_eq(p, cur) {
            "✓ "@
        } else {
            "→ "@
        }) + p.name,
        true,
    )
}

/// The selectable preset entries: the first five presets in list order.
pub open spec fn switch_section_view(presets: Seq<ConfigPreset>, cur: PresetModel) -> Seq<
    MenuEntryModel,
> {
    Seq::new(preset_cap(presets.len() as int) as nat, |i: int| preset_entry_view(presets[i]@, cur))
}

/// The menu up to (not including) the trailing separator and quit entry.
pub open spec fn menu_body_view(
    presets: Seq<ConfigPreset>,
    cur: PresetModel,
    status: ConfigStatus,
) -> Seq<MenuEntryModel> {
    seq![
        entry_item("show"@, "Show Window"@, true),
        entry_item("hide"@, "Hide Window"@, true),
        MenuEntryModel::Separator,
        entry_item("status"@, status.status_message@, false),
    ] + (if status.is_configured {
        seq![entry_item("current"@, "Current: "@ + spec_display_label(presets, cur), false)]
    } else {
        Seq::<MenuEntryModel>::empty()
    }) + (if presets.len() > 0 && status.is_configured {
        seq![MenuEntryModel::Separator, entry_item("switch_label"@, "Switch to:"@, false)]
            + switch_section_view(presets, cur)
    } else if presets.len() > 0 {
        seq![
            MenuEntryModel::Separator,
            entry_item("config_needed"@, "⚠️ Configure API credentials first"@, false),
        ]
    } else {
        Seq::<MenuEntryModel>::empty()
    })
}

/// The full derived menu, in its fixed order: the navigation entries, the
/// status entry, the current-state entry when configured, exactly one of the
/// two preset sections (or neither when the preset list is empty), and the
/// trailing quit entry.
pub open spec fn menu_view(
    presets: Seq<ConfigPreset>,
    cur: PresetModel,
    status: ConfigStatus,
) -> Seq<MenuEntryModel> {
    menu_body_view(presets, cur, status) + seq![
        MenuEntryModel::Separator,
        entry_item("quit"@, "Quit"@, true),
    ]
}

/// An entry is a selectable preset entry: an enabled item whose identifier
/// carries the preset prefix.
pub open spec fn is_preset_entry(e: MenuEntryModel) -> bool {
    match e {
        MenuEntryModel::Item { id, label, enabled } => enabled && crate::strutil::starts_with_seq(
            id,
            "preset_"@,
        ),
        MenuEntryModel::Separator => false,
    }
}

/// With a non-empty preset list and a configured state, the menu's selectable
/// preset entries are exactly the entries at the fixed offset, one per preset
/// in original list order, capped at five; no other entry of the menu is a
/// preset entry.
pub proof fn lemma_menu_preset_entries(
    presets: Seq<ConfigPreset>,
    cur: PresetModel,
    status: ConfigStatus,
)
    requires
        status.is_configured,
        presets.len() > 0,
    ensures
        ({
            let m = menu_view(presets, cur, status);
            let k = preset_cap(presets.len() as int);
            &&& m.len() == 9 + k
            &&& forall|j: int|
                0 <= j < k ==> m[7 + j] == preset_entry_view(presets[j]@, cur) && is_preset_entry(
                    m[7 + j],
                )
            &&& forall|i: int| 0 <= i < m.len() && is_preset_entry(m[i]) ==> 7 <= i < 7 + k
        }),
{
    let m = menu_view(presets, cur, status);
    let k = preset_cap(presets.len() as int);
    reveal_strlit("preset_");
    reveal_strlit("show");
    reveal_strlit("hide");
    reveal_strlit("status");
    reveal_strlit("current");
    reveal_strlit("switch_label");
    reveal_strlit("quit");
    assert forall|j: int| 0 <= j < k implies m[7 + j] == preset_entry_view(presets[j]@, cur)
        && is_preset_entry(m[7 + j]) by {
        let p = preset_entry_view(presets[j]@, cur);
        assert(crate::strutil::starts_with_seq("preset_"@ + presets[j]@.name, "preset_"@));
    }
    assert forall|i: int| 0 <= i < m.len() && is_preset_entry(m[i]) implies 7 <= i < 7 + k by {
        if i == 0 || i == 1 || i == 3 || i == 4 || i == 6 || i == 8 + k {
            assert(!is_preset_entry(m[i]));
        }
    }
}

/// With an empty preset list, neither preset-related branch appears: no entry
/// of the menu carries the switch-section label or the configure-first
/// warning.
pub proof fn lemma_menu_empty_presets(
    presets: Seq<ConfigPreset>,
    cur: PresetModel,
    status: ConfigStatus,
)
    requires
        presets.len() == 0,
    ensures
        forall|i: int|
            #![trigger menu_view(presets, cur, status)[i]]
            0 <= i < menu_view(presets, cur, status).len() ==> (menu_view(
                presets,
                cur,
                status,
            )[i] matches MenuEntryModel::Item { id, .. } ==> id != "switch_label"@ && id
                != "config_needed"@),
{
    let m = menu_view(presets, cur, status);
    reveal_strlit("show");
    reveal_strlit("hide");
    reveal_strlit("status");
    reveal_strlit("current");
    reveal_strlit("quit");
    reveal_strlit("switch_label");
    reveal_strlit("config_needed");
    assert("switch_label"@.len() == 12);
    assert("config_needed"@.len() == 13);
    assert forall|i: int|
        #![trigger m[i]]
        0 <= i < m.len() implies (m[i] matches MenuEntryModel::Item { id, .. } ==> id
        != "switch_label"@ && id != "config_needed"@) by {
        if status.is_configured {
            assert(m.len() == 7);
        } else {
            assert(m.len() == 6);
        }
    }
}

fn lit_item(id: &str, label: &str, enabled: bool) -> (r: MenuEntry)
    ensures
        r@ == entry_item(id@, label@, enabled),
{
    MenuEntry::Item { id: String::from_str(id), label: String::from_str(label), enabled }
}

fn push_preset_entries(
    entries: &mut Vec<MenuEntry>,
    presets: &Vec<ConfigPreset>,
    current: &ConfigPreset,
)
    ensures
        final(entries)@.len() == old(entries)@.len() + preset_cap(presets@.len() as int),
        forall|j: int| 0 <= j < old(entries)@.len() ==> final(entries)@[j] == old(entries)@[j],
        forall|j: int|
            0 <= j < preset_cap(presets@.len() as int) ==> final(entries)@[old(entries)@.len()
                + j]@ == preset_entry_view(presets@[j]@, current@),
{
    let count = if presets.len() < 5 {
        presets.len()
    } else {
        5
    };
    let mut i: usize = 0;
    while i < count
        invariant
            i <= count,
            count == preset_cap(presets@.len() as int),
            count <= presets@.len(),
            entries@.len() == old(entries)@.len() + i,
            forall|j: int| 0 <= j < old(entries)@.len() ==> entries@[j] == old(entries)@[j],
            forall|j: int|
                0 <= j < i ==> entries@[old(entries)@.len() + j]@ == preset_entry_view(
                    presets@[j]@,
                    current@,
                ),
        decreases count - i,
    {
        let active = crate::reconcile::preset_matches(&presets[i], current);
        let marker = if active {
            "✓ "
        } else {
            "→ "
        };
        let label = String::from_str(marker).concat(presets[i].name.as_str());
        let id = String::from_str("preset_").concat(presets[i].name.as_str());
        entries.push(MenuEntry::Item { id, label, enabled: true });
        i += 1;
    }
}

/// Derives the full menu for the current state. The entries come in the fixed
/// documented order; presets beyond the fifth are silently omitted.
pub fn build_menu_state(
    presets: &Vec<ConfigPreset>,
    current: &ConfigPreset,
    status: &ConfigStatus,
) -> (r: Vec<MenuEntry>)
    ensures
        entry_views(r@) == menu_view(presets@, current@, *status),
{
    let ghost body = menu_body_view(presets@, current@, *status);
    let mut entries: Vec<MenuEntry> = Vec::new();
    entries.push(lit_item("show", "Show Window", true));
    entries.push(lit_item("hide", "Hide Window", true));
    entries.push(MenuEntry::Separator);
    entries.push(
        MenuEntry::Item {
            id: String::from_str("status"),
            label: status.status_message.clone(),
            enabled: false,
        },
    );

    if status.is_configured {
        let name = crate::reconcile::current_display_label(current, presets);
        let label = String::from_str("Current: ").concat(name.as_str());
        entries.push(MenuEntry::Item { id: String::from_str("current"), label, enabled: false });
    }

    if presets.len() > 0 && status.is_configured {
        entries.push(MenuEntry::Separator);
        entries.push(lit_item("switch_label", "Switch to:", false));
        push_preset_entries(&mut entries, presets, current);
        assert(entry_views(entries@) =~= body);
    } else if presets.len() > 0 {
        entries.push(MenuEntry::Separator);
        entries.push(lit_item("config_needed", "⚠️ Configure API credentials first", false));
        assert(entry_views(entries@) =~= body);
    } else {
        assert(entry_views(entries@) =~= body);
    }

    entries.push(MenuEntry::Separator);
    entries.push(lit_item("quit", "Quit", true));
    proof {
        assert(entry_views(entries@) =~= menu_view(presets@, current@, *status));
    }
    entries
}

/// The fixed menu shown before the first full derivation: the navigation
/// entries, a separator, and the quit entry.
pub fn startup_menu() -> (r: Vec<MenuEntry>)
    ensures
        entry_views(r@) == seq![
            entry_item("show"@, "Show Window"@, true),
            entry_item("hide"@, "Hide Window"@, true),
            MenuEntryModel::Separator,
            entry_item("quit"@, "Quit"@, true),
        ],
{
    let mut entries: Vec<MenuEntry> = Vec::new();
    entries.push(lit_item("show", "Show Window", true));
    entries.push(lit_item("hide", "Hide Window", true));
    entries.push(MenuEntry::Separator);
    entries.push(lit_item("quit", "Quit", true));
    proof {
        assert(entry_views(entries@) =~= seq![
            entry_item("show"@, "Show Window"@, true),
            entry_item("hide"@, "Hide Window"@, true),
            MenuEntryModel::Separator,
            entry_item("quit"@, "Quit"@, true),
        ]);
    }
    entries
}

} // verus!
