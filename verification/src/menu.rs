//! The menu bar of the shell: a fixed tree, built once.

use vstd::prelude::*;
use crate::command::Command;

verus! {

/// A menu item whose text, behaviour and key binding the host supplies.
#[derive(Clone, Copy, Debug, PartialEq, Eq, Structural)]
pub enum Predefined {
    About,
    Quit,
    CloseWindow,
    Undo,
    Redo,
    Cut,
    Copy,
    Paste,
    SelectAll,
    Minimize,
}

/// One entry of a submenu.
#[derive(Clone, Copy, Debug, PartialEq, Eq)]
pub enum MenuItem {
    /// An item of the host, with the text that replaces the host's own, if any.
    Predefined(Predefined, Option<&'static str>),
    /// An item of the shell. Its text, identifier and key binding are those of
    /// the command.
    Custom(Command),
    /// A line between two groups of items.
    Separator,
}

/// What a menu item is, with its text as characters.
pub enum MenuItemView {
    Predefined(Predefined, Option<Seq<char>>),
    Custom(Command),
    Separator,
}

impl View for MenuItem {
    type V = MenuItemView;

    open spec fn view(&self) -> MenuItemView {
        match *self {
            MenuItem::Predefined(kind, None) => MenuItemView::Predefined(kind, None),
            MenuItem::Predefined(kind, Some(text)) => MenuItemView::Predefined(kind, Some(text@)),
            MenuItem::Custom(command) => MenuItemView::Custom(command),
            MenuItem::Separator => MenuItemView::Separator,
        }
    }
}

/// A titled list of items under the menu bar.
#[derive(Debug, PartialEq, Eq)]
pub struct Submenu {
    pub title: &'static str,
    pub items: Vec<MenuItem>,
}

/// What a submenu is: its title and its items, in order.
pub struct SubmenuView {
    pub title: Seq<char>,
    pub items: Seq<MenuItemView>,
}

impl View for Submenu {
    type V = SubmenuView;

    open spec fn view(&self) -> SubmenuView {
        SubmenuView { title: self.title@, items: self.items@.map_values(|item: MenuItem| item@) }
    }
}

/// The menu bar: its submenus from left to right.
#[derive(Debug, PartialEq, Eq)]
pub struct Menu {
    pub submenus: Vec<Submenu>,
}

impl View for Menu {
    type V = Seq<SubmenuView>;

    open spec fn view(&self) -> Seq<SubmenuView> {
        self.submenus@.map_values(|submenu: Submenu| submenu@)
    }
}

/// The application menu: about, then quit under the application's name.
pub open spec fn app_menu_layout() -> SubmenuView {
    SubmenuView {
        title: "Google Messages"@,
        items: seq![
            MenuItemView::Predefined(Predefined::About, None),
            MenuItemView::Separator,
            MenuItemView::Predefined(Predefined::Quit, Some("Quit Google Messages"@)),
        ],
    }
}

/// The File menu.
pub open spec fn file_menu_layout() -> SubmenuView {
    SubmenuView {
        title: "File"@,
        items: seq![
            MenuItemView::Custom(Command::NewWindow),
            MenuItemView::Predefined(Predefined::CloseWindow, Some("Close Window"@)),
        ],
    }
}

/// The Edit menu, all of it the host's.
pub open spec fn edit_menu_layout() -> SubmenuView {
    SubmenuView {
        title: "Edit"@,
        items: seq![
            MenuItemView::Predefined(Predefined::Undo, None),
            MenuItemView::Predefined(Predefined::Redo, None),
            MenuItemView::Separator,
            MenuItemView::Predefined(Predefined::Cut, None),
            MenuItemView::Predefined(Predefined::Copy, None),
            MenuItemView::Predefined(Predefined::Paste, None),
            MenuItemView::Predefined(Predefined::SelectAll, None),
        ],
    }
}

/// The View menu: reload, then the three zoom commands.
pub open spec fn view_menu_layout() -> SubmenuView {
    SubmenuView {
        title: "View"@,
        items: seq![
            MenuItemView::Custom(Command::ViewReload),
            MenuItemView::Separator,
            MenuItemView::Custom(Command::ViewActualSize),
            MenuItemView::Custom(Command::ViewZoomIn),
            MenuItemView::Custom(Command::ViewZoomOut),
        ],
    }
}

/// The History menu.
pub open spec fn history_menu_layout() -> SubmenuView {
    SubmenuView {
        title: "History"@,
        items: seq![
            MenuItemView::Custom(Command::HistoryHome),
            MenuItemView::Custom(Command::HistoryBack),
            MenuItemView::Custom(Command::HistoryForward),
        ],
    }
}

/// The Window menu.
pub open spec fn window_menu_layout() -> SubmenuView {
    SubmenuView {
        title: "Window"@,
        items: seq![
            MenuItemView::Predefined(Predefined::Minimize, None),
            MenuItemView::Custom(Command::WindowZoom),
            MenuItemView::Separator,
            MenuItemView::Custom(Command::WindowBringAllToFront),
        ],
    }
}

/// The whole menu bar.
pub open spec fn menu_layout() -> Seq<SubmenuView> {
    seq![
        app_menu_layout(),
        file_menu_layout(),
        edit_menu_layout(),
        view_menu_layout(),
        history_menu_layout(),
        window_menu_layout(),
    ]
}

/// Builds the menu bar. It depends on nothing and is the same on every call.
pub fn build_menu() -> (menu: Menu)
    ensures
        menu@ == menu_layout(),
{
    let app_menu = Submenu {
        title: "Google Messages",
        items: vec![
            MenuItem::Predefined(Predefined::About, None),
            MenuItem::Separator,
            MenuItem::Predefined(Predefined::Quit, Some("Quit Google Messages")),
        ],
    };
    let file_menu = Submenu {
        title: "File",
        items: vec![
            MenuItem::Custom(Command::NewWindow),
            MenuItem::Predefined(Predefined::CloseWindow, Some("Close Window")),
        ],
    };
    let edit_menu = Submenu {
        title: "Edit",
        items: vec![
            MenuItem::Predefined(Predefined::Undo, None),
            MenuItem::Predefined(Predefined::Redo, None),
            MenuItem::Separator,
            MenuItem::Predefined(Predefined::Cut, None),
            MenuItem::Predefined(Predefined::Copy, None),
            MenuItem::Predefined(Predefined::Paste, None),
            MenuItem::Predefined(Predefined::SelectAll, None),
        ],
    };
    let view_menu = Submenu {
        title: "View",
        items: vec![
            MenuItem::Custom(Command::ViewReload),
            MenuItem::Separator,
            MenuItem::Custom(Command::ViewActualSize),
            MenuItem::Custom(Command::ViewZoomIn),
            MenuItem::Custom(Command::ViewZoomOut),
        ],
    };
    let history_menu = Submenu {
        title: "History",
        items: vec![
            MenuItem::Custom(Command::HistoryHome),
            MenuItem::Custom(Command::HistoryBack),
            MenuItem::Custom(Command::HistoryForward),
        ],
    };
    let window_menu = Submenu {
        title: "Window",
        items: vec![
            MenuItem::Predefined(Predefined::Minimize, None),
            MenuItem::Custom(Command::WindowZoom),
            MenuItem::Separator,
            MenuItem::Custom(Command::WindowBringAllToFront),
        ],
    };
    assert(app_menu@.items =~= app_menu_layout().items);
    assert(file_menu@.items =~= file_menu_layout().items);
    assert(edit_menu@.items =~= edit_menu_layout().items);
    assert(view_menu@.items =~= view_menu_layout().items);
    assert(history_menu@.items =~= history_menu_layout().items);
    assert(window_menu@.items =~= window_menu_layout().items);
    let menu = Menu {
        submenus: vec![app_menu, file_menu, edit_menu, view_menu, history_menu, window_menu],
    };
    assert(menu@ =~= menu_layout());
    menu
}

} // verus!
