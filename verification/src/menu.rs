//! The menu factory: builds the fixed three-item context menu attached
//! to the tray icon (`show`, `hide`, a separator, `quit`).

use vstd::prelude::*;

verus! {

/// One entry of the tray icon's context menu.
#[derive(Debug)]
pub enum MenuEntry {
    /// A selectable entry, identified for event dispatch by a stable id.
    Item { id: String, label: String, enabled: bool },
    /// A visual separator; carries no id and dispatches nothing.
    Separator,
}

/// Mathematical model of a menu entry.
pub ghost enum MenuEntryModel {
    Item { id: Seq<char>, label: Seq<char>, enabled: bool },
    Separator,
}

impl View for MenuEntry {
    type V = MenuEntryModel;

    open spec fn view(&self) -> MenuEntryModel {
        match self {
            MenuEntry::Item { id, label, enabled } => MenuEntryModel::Item {
                id: id@,
                label: label@,
                enabled: *enabled,
            },
            MenuEntry::Separator => MenuEntryModel::Separator,
        }
    }
}

/// An ordered menu, produced by the factory and consumed once per
/// tray-resource construction; menus are never shared across tray
/// instances.
#[derive(Debug)]
pub struct MenuSpec {
    pub entries: Vec<MenuEntry>,
}

impl View for MenuSpec {
    type V = Seq<MenuEntryModel>;

    open spec fn view(&self) -> Seq<MenuEntryModel> {
        self.entries@.map_values(|e: MenuEntry| e@)
    }
}

/// The fixed menu layout: `show` and `hide`, a separator, then `quit`,
/// every selectable entry enabled.
pub open spec fn standard_menu() -> Seq<MenuEntryModel> {
    seq![
        MenuEntryModel::Item { id: "show"@, label: "Show"@, enabled: true },
        MenuEntryModel::Item { id: "hide"@, label: "Hide"@, enabled: true },
        MenuEntryModel::Separator,
        MenuEntryModel::Item { id: "quit"@, label: "Quit"@, enabled: true },
    ]
}

/// Constructs the fixed menu, in order: `show`, `hide`, separator,
/// `quit`. Pure construction; the platform binding that can fail while
/// allocating the real menu primitives lives outside the library.
pub fn build_menu() -> (m: MenuSpec)
    ensures
        m@ == standard_menu(),
{
    let mut entries: Vec<MenuEntry> = Vec::new();
    entries.push(MenuEntry::Item { id: "show".to_owned(), label: "Show".to_owned(), enabled: true });
    entries.push(MenuEntry::Item { id: "hide".to_owned(), label: "Hide".to_owned(), enabled: true });
    entries.push(MenuEntry::Separator);
    entries.push(MenuEntry::Item { id: "quit".to_owned(), label: "Quit".to_owned(), enabled: true });
    let m = MenuSpec { entries };
    proof {
        assert(m@ =~= standard_menu());
    }
    m
}

} // verus!
