//! The tray menu description: an immutable tree the host tray subsystem is
//! asked to realize. It holds one submenu (two labeled entries around a
//! separator) and three flat items with fixed, stable ids.

use vstd::prelude::*;

verus! {

/// One entry of a menu: a labeled item with a stable id, or a visual
/// separator.
#[derive(Clone, Debug)]
pub enum MenuEntry {
    Text { id: String, label: String },
    Separator,
}

/// Mathematical value of a `MenuEntry`.
pub enum EntryView {
    Text { id: Seq<char>, label: Seq<char> },
    Separator,
}

impl View for MenuEntry {
    type V = EntryView;

    open spec fn view(&self) -> EntryView {
        match self {
            MenuEntry::Text { id, label } => EntryView::Text { id: id@, label: label@ },
            MenuEntry::Separator => EntryView::Separator,
        }
    }
}

/// A labeled submenu with its own entries.
#[derive(Clone, Debug)]
pub struct SubmenuSpec {
    pub label: String,
    pub entries: Vec<MenuEntry>,
}

/// Mathematical value of a `SubmenuSpec`.
#[verifier::ext_equal]
pub struct SubmenuView {
    pub label: Seq<char>,
    pub entries: Seq<EntryView>,
}

impl View for SubmenuSpec {
    type V = SubmenuView;

    open spec fn view(&self) -> SubmenuView {
        SubmenuView {
            label: self.label@,
            entries: self.entries@.map_values(|e: MenuEntry| e@),
        }
    }
}

/// The whole tray menu: a submenu followed by flat items.
#[derive(Clone, Debug)]
pub struct MenuSpec {
    pub submenu: SubmenuSpec,
    pub items: Vec<MenuEntry>,
}

/// Mathematical value of a `MenuSpec`.
#[verifier::ext_equal]
pub struct MenuView {
    pub submenu: SubmenuView,
    pub items: Seq<EntryView>,
}

impl View for MenuSpec {
    type V = MenuView;

    open spec fn view(&self) -> MenuView {
        MenuView {
            submenu: self.submenu@,
            items: self.items@.map_values(|e: MenuEntry| e@),
        }
    }
}

/// The one menu this tray uses. The labels are fixed English text: the
/// language tag of `create_tray_menu` is accepted for future localization
/// but has no effect yet.
pub open spec fn spec_tray_menu() -> MenuView {
    MenuView {
        submenu: SubmenuView {
            label: "Sub Menu!"@,
            entries: seq![
                EntryView::Text { id: "bf-sep"@, label: "Before Separator"@ },
                EntryView::Separator,
                EntryView::Text { id: "af-sep"@, label: "After Separator"@ },
            ],
        },
        items: seq![
            EntryView::Text { id: "quit"@, label: "Quit"@ },
            EntryView::Text { id: "toggle-visibility"@, label: "Hide Window"@ },
            EntryView::Text { id: "toggle-tray-icon"@, label: "Toggle the tray icon"@ },
        ],
    }
}

/// Builds the tray menu for the given language tag. Whatever the tag, the
/// result is exactly `spec_tray_menu()`: the tag is an inert pass-through
/// until localization is added.
pub fn create_tray_menu(lang: &str) -> (m: MenuSpec)
    ensures
        m@ == spec_tray_menu(),
{
    let mut entries: Vec<MenuEntry> = Vec::new();
    entries.push(MenuEntry::Text {
        id: "bf-sep".to_owned(),
        label: "Before Separator".to_owned(),
    });
    entries.push(MenuEntry::Separator);
    entries.push(MenuEntry::Text {
        id: "af-sep".to_owned(),
        label: "After Separator".to_owned(),
    });
    let mut items: Vec<MenuEntry> = Vec::new();
    items.push(MenuEntry::Text { id: "quit".to_owned(), label: "Quit".to_owned() });
    items.push(MenuEntry::Text {
        id: "toggle-visibility".to_owned(),
        label: "Hide Window".to_owned(),
    });
    items.push(MenuEntry::Text {
        id: "toggle-tray-icon".to_owned(),
        label: "Toggle the tray icon".to_owned(),
    });
    let m = MenuSpec {
        submenu: SubmenuSpec { label: "Sub Menu!".to_owned(), entries },
        items,
    };
    proof {
        assert(m.submenu@.entries =~= spec_tray_menu().submenu.entries);
        assert(m@.items =~= spec_tray_menu().items);
        assert(m@ =~~= spec_tray_menu());
    }
    m
}

/// The ids of the labeled entries of a sequence, in order; separators
/// contribute none.
pub open spec fn spec_entry_ids(es: Seq<EntryView>) -> Seq<Seq<char>>
    decreases es.len(),
{
    if es.len() == 0 {
        Seq::empty()
    } else {
        let rest = spec_entry_ids(es.skip(1));
        match es[0] {
            EntryView::Text { id, label } => seq![id] + rest,
            EntryView::Separator => rest,
        }
    }
}

/// All ids of a menu: submenu entries first, then the flat items.
pub open spec fn spec_menu_ids(m: MenuView) -> Seq<Seq<char>> {
    spec_entry_ids(m.submenu.entries) + spec_entry_ids(m.items)
}

/// Law: the built menu has no id collision, so the host menu system is
/// never handed two entries with the same id.
pub proof fn lemma_menu_ids_unique()
    ensures
        spec_menu_ids(spec_tray_menu()).no_duplicates(),
{
    reveal_strlit("bf-sep");
    reveal_strlit("af-sep");
    reveal_strlit("quit");
    reveal_strlit("toggle-visibility");
    reveal_strlit("toggle-tray-icon");
    let ids = spec_menu_ids(spec_tray_menu());
    reveal_with_fuel(spec_entry_ids, 5);
    assert(ids =~= seq![
        "bf-sep"@,
        "af-sep"@,
        "quit"@,
        "toggle-visibility"@,
        "toggle-tray-icon"@,
    ]);
    assert("bf-sep"@[0] == 'b' && "af-sep"@[0] == 'a');
    assert("quit"@.len() == 4 && "bf-sep"@.len() == 6 && "af-sep"@.len() == 6);
    assert("toggle-visibility"@.len() == 17 && "toggle-tray-icon"@.len() == 16);
    assert forall|i: int, j: int|
        0 <= i < ids.len() && 0 <= j < ids.len() && i != j implies ids[i] != ids[j] by {
        assert(ids[i] != ids[j]);
    }
    assert(ids.no_duplicates());
}

} // verus!
