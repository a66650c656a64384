//! The static tray description built once at startup: three menu items with
//! fixed identifiers and labels, a separator before the quit item, and the
//! tray icon's identifier and tooltip.

use vstd::prelude::*;
use vstd::string::StringExecFns;

verus! {

/// One entry of the context menu: identifier, display label, enabled flag.
#[derive(Clone, Debug)]
pub struct MenuEntry {
    pub id: String,
    pub label: String,
    pub enabled: bool,
}

/// One part of the context menu, in display order.
#[derive(Clone, Debug)]
pub enum MenuPart {
    Item(MenuEntry),
    Separator,
}

/// The tray icon as handed to the GUI host: its identifier, its tooltip and
/// its context menu.
#[derive(Clone, Debug)]
pub struct TrayDescription {
    pub tray_id: String,
    pub tooltip: String,
    pub menu: Vec<MenuPart>,
}

/// The identifiers of the menu items among the parts, in display order.
pub open spec fn menu_ids(parts: Seq<MenuPart>) -> Seq<Seq<char>>
    decreases parts.len(),
{
    if parts.len() == 0 {
        Seq::empty()
    } else {
        let rest = menu_ids(parts.drop_first());
        match parts[0] {
            MenuPart::Item(e) => seq![e.id@] + rest,
            MenuPart::Separator => rest,
        }
    }
}

/// A menu entry with the given identifier and label, enabled.
fn enabled_entry(id: &str, label: &str) -> (e: MenuEntry)
    ensures
        e.id@ == id@,
        e.label@ == label@,
        e.enabled,
{
    MenuEntry { id: String::from_str(id), label: String::from_str(label), enabled: true }
}

/// Builds the tray description: identifier "main-tray", the fixed tooltip,
/// and the menu [show, hide, separator, quit] with the localized labels, all
/// items enabled.
pub fn tray_description() -> (t: TrayDescription)
    ensures
        t.tray_id@ == "main-tray"@,
        t.tooltip@ == "Tiklay - Sistema de Gestión"@,
        t.menu@.len() == 4,
        (t.menu@[0] matches MenuPart::Item(e)
            && e.id@ == "show"@ && e.label@ == "Mostrar Tiklay"@ && e.enabled),
        (t.menu@[1] matches MenuPart::Item(e)
            && e.id@ == "hide"@ && e.label@ == "Ocultar Tiklay"@ && e.enabled),
        t.menu@[2] is Separator,
        (t.menu@[3] matches MenuPart::Item(e)
            && e.id@ == "quit"@ && e.label@ == "Salir"@ && e.enabled),
        menu_ids(t.menu@) == seq!["show"@, "hide"@, "quit"@],
{
    let mut menu: Vec<MenuPart> = Vec::new();
    menu.push(MenuPart::Item(enabled_entry("show", "Mostrar Tiklay")));
    menu.push(MenuPart::Item(enabled_entry("hide", "Ocultar Tiklay")));
    menu.push(MenuPart::Separator);
    menu.push(MenuPart::Item(enabled_entry("quit", "Salir")));
    proof {
        lemma_menu_ids_unfold(menu@);
    }
    TrayDescription {
        tray_id: String::from_str("main-tray"),
        tooltip: String::from_str("Tiklay - Sistema de Gestión"),
        menu,
    }
}

/// Unfolds `menu_ids` over the concrete four-part menu shape.
proof fn lemma_menu_ids_unfold(parts: Seq<MenuPart>)
    requires
        parts.len() == 4,
        parts[0] is Item,
        parts[1] is Item,
        parts[2] is Separator,
        parts[3] is Item,
    ensures
        menu_ids(parts) == seq![parts[0]->Item_0.id@, parts[1]->Item_0.id@, parts[3]->Item_0.id@],
{
    let p1 = parts.drop_first();
    let p2 = p1.drop_first();
    let p3 = p2.drop_first();
    let p4 = p3.drop_first();
    assert(p4.len() == 0);
    assert(menu_ids(p4) == Seq::<Seq<char>>::empty());
    assert(p3[0] == parts[3]);
    assert(p2[0] == parts[2]);
    assert(p1[0] == parts[1]);
    assert(menu_ids(p3) == seq![parts[3]->Item_0.id@] + menu_ids(p4));
    assert(menu_ids(p2) == menu_ids(p3));
    assert(menu_ids(p1) == seq![parts[1]->Item_0.id@] + menu_ids(p2));
    assert(menu_ids(parts) == seq![parts[0]->Item_0.id@] + menu_ids(p1));
    assert(menu_ids(parts) =~= seq![parts[0]->Item_0.id@, parts[1]->Item_0.id@, parts[3]->Item_0.id@]);
}

/// The identifiers of the three menu items are unique within the menu.
pub proof fn lemma_tray_menu_ids_unique(ids: Seq<Seq<char>>)
    requires
        ids == seq!["show"@, "hide"@, "quit"@],
    ensures
        ids.no_duplicates(),
{
    crate::router::lemma_menu_ids_distinct();
}

} // verus!
