//! The static application menu.
//!
//! The menu is an ordered forest of four top-level branches — Application,
//! File, Edit, Window — each an ordered sequence of platform-predefined
//! leaf items or separators.  It is built once at startup and never
//! mutated; the host toolkit supplies the behavior of every item.

use vstd::prelude::*;

verus! {

/// The predefined, platform-semantic menu entries the shell uses, plus
/// the separator.  The triggered behavior of each entry is supplied by
/// the host platform, not by the shell.
#[derive(Clone, Copy, PartialEq, Eq, Structural, Debug)]
pub enum MenuItemKind {
    About,
    Separator,
    Services,
    Hide,
    HideOthers,
    ShowAll,
    Quit,
    CloseWindow,
    Undo,
    Redo,
    Cut,
    Copy,
    Paste,
    SelectAll,
    Minimize,
}

/// One top-level branch of the menu: a title and its ordered leaf items.
#[derive(Debug)]
pub struct SubmenuModel {
    pub title: &'static str,
    pub items: Vec<MenuItemKind>,
}

/// The whole static menu: the ordered top-level branches, together with
/// the product name configured as the About item's metadata (its only
/// metadata field that is not left at the platform default).
#[derive(Debug)]
pub struct MenuModel {
    pub about_name: &'static str,
    pub submenus: Vec<SubmenuModel>,
}

/// The items of the Application branch, in their fixed order.
pub open spec fn application_items() -> Seq<MenuItemKind> {
    seq![
        MenuItemKind::About,
        MenuItemKind::Separator,
        MenuItemKind::Services,
        MenuItemKind::Separator,
        MenuItemKind::Hide,
        MenuItemKind::HideOthers,
        MenuItemKind::ShowAll,
        MenuItemKind::Separator,
        MenuItemKind::Quit,
    ]
}

/// The items of the File branch.
pub open spec fn file_items() -> Seq<MenuItemKind> {
    seq![MenuItemKind::CloseWindow]
}

/// The items of the Edit branch, in their fixed order.
pub open spec fn edit_items() -> Seq<MenuItemKind> {
    seq![
        MenuItemKind::Undo,
        MenuItemKind::Redo,
        MenuItemKind::Separator,
        MenuItemKind::Cut,
        MenuItemKind::Copy,
        MenuItemKind::Paste,
        MenuItemKind::SelectAll,
    ]
}

/// The items of the Window branch.
pub open spec fn window_items() -> Seq<MenuItemKind> {
    seq![MenuItemKind::Minimize]
}

/// The menu the shell installs: exactly four branches, in the fixed
/// order Application (titled with the product name), File, Edit, Window,
/// each holding exactly its fixed items, and the product name configured
/// on the About item.
pub open spec fn is_shell_menu(m: MenuModel) -> bool {
    &&& m.about_name@ == "Google Gemini"@
    &&& m.submenus@.len() == 4
    &&& m.submenus@[0].title@ == "Google Gemini"@
    &&& m.submenus@[0].items@ == application_items()
    &&& m.submenus@[1].title@ == "File"@
    &&& m.submenus@[1].items@ == file_items()
    &&& m.submenus@[2].title@ == "Edit"@
    &&& m.submenus@[2].items@ == edit_items()
    &&& m.submenus@[3].title@ == "Window"@
    &&& m.submenus@[3].items@ == window_items()
}

/// Build the Application branch: About (carrying the product name) —
/// separator — Services — separator — Hide — Hide Others — Show All —
/// separator — Quit.
fn application_submenu() -> (sub: SubmenuModel)
    ensures
        sub.title@ == "Google Gemini"@,
        sub.items@ == application_items(),
{
    let mut items: Vec<MenuItemKind> = Vec::new();
    items.push(MenuItemKind::About);
    items.push(MenuItemKind::Separator);
    items.push(MenuItemKind::Services);
    items.push(MenuItemKind::Separator);
    items.push(MenuItemKind::Hide);
    items.push(MenuItemKind::HideOthers);
    items.push(MenuItemKind::ShowAll);
    items.push(MenuItemKind::Separator);
    items.push(MenuItemKind::Quit);
    proof {
        assert(items@ =~= application_items());
    }
    SubmenuModel { title: "Google Gemini", items }
}

/// Build the File branch: Close Window.
fn file_submenu() -> (sub: SubmenuModel)
    ensures
        sub.title@ == "File"@,
        sub.items@ == file_items(),
{
    let mut items: Vec<MenuItemKind> = Vec::new();
    items.push(MenuItemKind::CloseWindow);
    proof {
        assert(items@ =~= file_items());
    }
    SubmenuModel { title: "File", items }
}

/// Build the Edit branch: Undo — Redo — separator — Cut — Copy — Paste —
/// Select All.
fn edit_submenu() -> (sub: SubmenuModel)
    ensures
        sub.title@ == "Edit"@,
        sub.items@ == edit_items(),
{
    let mut items: Vec<MenuItemKind> = Vec::new();
    items.push(MenuItemKind::Undo);
    items.push(MenuItemKind::Redo);
    items.push(MenuItemKind::Separator);
    items.push(MenuItemKind::Cut);
    items.push(MenuItemKind::Copy);
    items.push(MenuItemKind::Paste);
    items.push(MenuItemKind::SelectAll);
    proof {
        assert(items@ =~= edit_items());
    }
    SubmenuModel { title: "Edit", items }
}

/// Build the Window branch: Minimize.
fn window_submenu() -> (sub: SubmenuModel)
    ensures
        sub.title@ == "Window"@,
        sub.items@ == window_items(),
{
    let mut items: Vec<MenuItemKind> = Vec::new();
    items.push(MenuItemKind::Minimize);
    proof {
        assert(items@ =~= window_items());
    }
    SubmenuModel { title: "Window", items }
}

/// Build the shell's whole menu.  The four branches are appended, in
/// order, to a single root; the result is exactly the fixed tree that
/// [`is_shell_menu`] describes, built once at startup and never mutated.
pub fn menu_blueprint() -> (m: MenuModel)
    ensures
        is_shell_menu(m),
{
    let mut submenus: Vec<SubmenuModel> = Vec::new();
    submenus.push(application_submenu());
    submenus.push(file_submenu());
    submenus.push(edit_submenu());
    submenus.push(window_submenu());
    MenuModel { about_name: "Google Gemini", submenus }
}

/// Once built, the menu holds exactly four top-level branches in the
/// fixed order Application, File, Edit, Window, with item counts 9
/// (three of them separators), 1, 7 (one of them a separator) and 1.
pub proof fn lemma_shell_menu_shape(m: MenuModel)
    requires
        is_shell_menu(m),
    ensures
        m.submenus@.len() == 4,
        m.submenus@[0].title@ == "Google Gemini"@,
        m.submenus@[1].title@ == "File"@,
        m.submenus@[2].title@ == "Edit"@,
        m.submenus@[3].title@ == "Window"@,
        m.submenus@[0].items@.len() == 9,
        m.submenus@[1].items@.len() == 1,
        m.submenus@[2].items@.len() == 7,
        m.submenus@[3].items@.len() == 1,
        separator_count(m.submenus@[0].items@) == 3,
        separator_count(m.submenus@[1].items@) == 0,
        separator_count(m.submenus@[2].items@) == 1,
        separator_count(m.submenus@[3].items@) == 0,
{
    lemma_separator_counts();
}

/// How many separators a sequence of items holds.
pub open spec fn separator_count(items: Seq<MenuItemKind>) -> nat
    decreases items.len(),
{
    if items.len() == 0 {
        0
    } else {
        (if items[0] is Separator { 1 as nat } else { 0 as nat })
            + separator_count(items.drop_first())
    }
}

/// The separator counts of the four fixed branches.
pub proof fn lemma_separator_counts()
    ensures
        separator_count(application_items()) == 3,
        separator_count(file_items()) == 0,
        separator_count(edit_items()) == 1,
        separator_count(window_items()) == 0,
{
    reveal_with_fuel(separator_count, 10);
}

} // verus!
