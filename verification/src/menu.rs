//! The application's native menu, as an immutable description.
//!
//! The menu is a fixed two-level tree: a File submenu (Open, Save, Save As,
//! Close, a separator, Quit) and a Help submenu (Keyboard Shortcuts). Each
//! leaf carries a stable identifier — the only correlation between a native
//! menu click and application semantics — and a platform-conventional
//! accelerator. The description is built once during setup and must be
//! installed on the native window before the window is first shown, so that
//! accelerator registration pre-empts the embedded renderer's own key
//! handling.

use vstd::prelude::*;

verus! {

/// One activatable menu leaf: a stable identifier, a display label, an
/// enabled flag and an optional accelerator binding.
pub struct MenuItemSpec {
    pub id: String,
    pub label: String,
    pub enabled: bool,
    pub accelerator: Option<String>,
}

/// One entry of a submenu: an activatable item or a separator line.
pub enum MenuEntry {
    Item(MenuItemSpec),
    Separator,
}

/// A named submenu holding its entries in display order.
pub struct SubmenuSpec {
    pub label: String,
    pub entries: Vec<MenuEntry>,
}

/// The whole menu: its submenus in display order.
pub struct MenuSpec {
    pub submenus: Vec<SubmenuSpec>,
}

/// Whether `e` is an enabled item with exactly this identifier, label and
/// accelerator.
pub open spec fn is_item(e: MenuEntry, id: Seq<char>, label: Seq<char>, accel: Seq<char>) -> bool {
    &&& e matches MenuEntry::Item(it)
    &&& it.id@ == id
    &&& it.label@ == label
    &&& it.enabled
    &&& (it.accelerator matches Some(a) && a@ == accel)
}

/// The fixed shape of the application menu: a File submenu with Open,
/// Save, Save As, Close, a separator and Quit, then a Help submenu with
/// Keyboard Shortcuts, every item enabled, with these identifiers, labels
/// and accelerators and no others.
pub open spec fn is_standard_menu(m: MenuSpec) -> bool {
    &&& m.submenus@.len() == 2
    &&& m.submenus@[0].label@ == "File"@
    &&& m.submenus@[0].entries@.len() == 6
    &&& is_item(m.submenus@[0].entries@[0], "open"@, "Open\u{2026}"@, "CmdOrCtrl+O"@)
    &&& is_item(m.submenus@[0].entries@[1], "save"@, "Save"@, "CmdOrCtrl+S"@)
    &&& is_item(m.submenus@[0].entries@[2], "save_as"@, "Save As\u{2026}"@, "CmdOrCtrl+Shift+S"@)
    &&& is_item(m.submenus@[0].entries@[3], "close"@, "Close"@, "CmdOrCtrl+W"@)
    &&& m.submenus@[0].entries@[4] is Separator
    &&& is_item(m.submenus@[0].entries@[5], "quit"@, "Quit"@, "CmdOrCtrl+Q"@)
    &&& m.submenus@[1].label@ == "Help"@
    &&& m.submenus@[1].entries@.len() == 1
    &&& is_item(m.submenus@[1].entries@[0], "help"@, "Keyboard Shortcuts"@, "F1"@)
}

/// One enabled item with an accelerator.
fn item(id: &str, label: &str, accel: &str) -> (e: MenuEntry)
    ensures
        is_item(e, id@, label@, accel@),
{
    MenuEntry::Item(
        MenuItemSpec {
            id: id.to_owned(),
            label: label.to_owned(),
            enabled: true,
            accelerator: Some(accel.to_owned()),
        },
    )
}

/// Builds the application menu in its fixed shape.
pub fn build_menu() -> (m: MenuSpec)
    ensures
        is_standard_menu(m),
{
    let mut file_entries: Vec<MenuEntry> = Vec::new();
    file_entries.push(item("open", "Open\u{2026}", "CmdOrCtrl+O"));
    file_entries.push(item("save", "Save", "CmdOrCtrl+S"));
    file_entries.push(item("save_as", "Save As\u{2026}", "CmdOrCtrl+Shift+S"));
    file_entries.push(item("close", "Close", "CmdOrCtrl+W"));
    file_entries.push(MenuEntry::Separator);
    file_entries.push(item("quit", "Quit", "CmdOrCtrl+Q"));
    let file_menu = SubmenuSpec { label: "File".to_owned(), entries: file_entries };

    let mut help_entries: Vec<MenuEntry> = Vec::new();
    help_entries.push(item("help", "Keyboard Shortcuts", "F1"));
    let help_menu = SubmenuSpec { label: "Help".to_owned(), entries: help_entries };

    let mut submenus: Vec<SubmenuSpec> = Vec::new();
    submenus.push(file_menu);
    submenus.push(help_menu);
    MenuSpec { submenus }
}

/// The identifiers of the items among `entries`, in order; separators
/// contribute none.
pub open spec fn entry_ids(entries: Seq<MenuEntry>) -> Seq<Seq<char>>
    decreases entries.len(),
{
    if entries.len() == 0 {
        Seq::empty()
    } else {
        match entries[0] {
            MenuEntry::Item(it) => seq![it.id@] + entry_ids(entries.skip(1)),
            MenuEntry::Separator => entry_ids(entries.skip(1)),
        }
    }
}

/// The identifiers of all items of `subs`, submenu by submenu, in order.
pub open spec fn submenu_ids(subs: Seq<SubmenuSpec>) -> Seq<Seq<char>>
    decreases subs.len(),
{
    if subs.len() == 0 {
        Seq::empty()
    } else {
        entry_ids(subs[0].entries@) + submenu_ids(subs.skip(1))
    }
}

/// The identifiers of all items of the menu, in display order.
pub open spec fn menu_ids(m: MenuSpec) -> Seq<Seq<char>> {
    submenu_ids(m.submenus@)
}

/// The menu's identifiers are exactly open, save, save_as, close, quit,
/// help, in this order; no identifier repeats; and any two menus of the
/// standard shape carry identical identifiers, so rebuilding the menu
/// never changes them.
pub proof fn lemma_standard_menu_ids(m1: MenuSpec, m2: MenuSpec)
    requires
        is_standard_menu(m1),
        is_standard_menu(m2),
    ensures
        menu_ids(m1) == seq!["open"@, "save"@, "save_as"@, "close"@, "quit"@, "help"@],
        menu_ids(m1).no_duplicates(),
        menu_ids(m1) == menu_ids(m2),
{
    lemma_standard_menu_ids_single(m1);
    lemma_standard_menu_ids_single(m2);
    reveal_strlit("open");
    reveal_strlit("save");
    reveal_strlit("save_as");
    reveal_strlit("close");
    reveal_strlit("quit");
    reveal_strlit("help");
    let ids = seq!["open"@, "save"@, "save_as"@, "close"@, "quit"@, "help"@];
    assert("open"@[0] == 'o' && "save"@[0] == 's' && "save_as"@[0] == 's' && "close"@[0] == 'c'
        && "quit"@[0] == 'q' && "help"@[0] == 'h');
    assert("open"@.len() == 4 && "save"@.len() == 4 && "save_as"@.len() == 7 && "close"@.len()
        == 5 && "quit"@.len() == 4 && "help"@.len() == 4);
    assert(ids.no_duplicates()) by {
        assert(ids.len() == 6);
    }
}

/// The identifiers of one menu of the standard shape, read off entry by
/// entry.
proof fn lemma_standard_menu_ids_single(m: MenuSpec)
    requires
        is_standard_menu(m),
    ensures
        menu_ids(m) == seq!["open"@, "save"@, "save_as"@, "close"@, "quit"@, "help"@],
{
    let subs = m.submenus@;
    let f = subs[0].entries@;
    let h = subs[1].entries@;

    assert(entry_ids(h) =~= seq!["help"@]) by {
        assert(h.skip(1).len() == 0);
        assert(entry_ids(h.skip(1)) =~= Seq::<Seq<char>>::empty());
    }

    assert(f.skip(1)[0] == f[1]);
    assert(f.skip(1).skip(1) =~= f.skip(2));
    assert(f.skip(2)[0] == f[2]);
    assert(f.skip(2).skip(1) =~= f.skip(3));
    assert(f.skip(3)[0] == f[3]);
    assert(f.skip(3).skip(1) =~= f.skip(4));
    assert(f.skip(4)[0] == f[4]);
    assert(f.skip(4).skip(1) =~= f.skip(5));
    assert(f.skip(5)[0] == f[5]);
    assert(f.skip(5).skip(1) =~= f.skip(6));
    assert(f.skip(6).len() == 0);
    assert(entry_ids(f.skip(6)) =~= Seq::<Seq<char>>::empty());
    assert(entry_ids(f.skip(5)) =~= seq!["quit"@]);
    assert(entry_ids(f.skip(4)) =~= seq!["quit"@]);
    assert(entry_ids(f.skip(3)) =~= seq!["close"@, "quit"@]);
    assert(entry_ids(f.skip(2)) =~= seq!["save_as"@, "close"@, "quit"@]);
    assert(entry_ids(f.skip(1)) =~= seq!["save"@, "save_as"@, "close"@, "quit"@]);
    assert(entry_ids(f) =~= seq!["open"@, "save"@, "save_as"@, "close"@, "quit"@]);

    assert(subs.skip(1)[0] == subs[1]);
    assert(subs.skip(1).skip(1) =~= subs.skip(2));
    assert(subs.skip(2).len() == 0);
    assert(submenu_ids(subs.skip(2)) =~= Seq::<Seq<char>>::empty());
    assert(submenu_ids(subs.skip(1)) =~= seq!["help"@]);
    assert(menu_ids(m) =~= seq!["open"@, "save"@, "save_as"@, "close"@, "quit"@, "help"@]);
}

} // verus!
