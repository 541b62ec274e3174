use app_lib::command::Command;
use app_lib::menu::{build_menu, MenuItem, Predefined};
use app_lib::window::{Shell, Visibility, Window};
use app_lib::{plan_setup, setup, SetupError};

const ABOUT: MenuItem = MenuItem::Predefined(Predefined::About, None);

fn titles() -> Vec<&'static str> {
    build_menu().submenus.iter().map(|submenu| submenu.title).collect()
}

fn commands() -> Vec<Command> {
    let mut found = Vec::new();
    for submenu in build_menu().submenus {
        for item in submenu.items {
            if let MenuItem::Custom(command) = item {
                found.push(command);
            }
        }
    }
    found
}

#[test]
fn menu_bar_has_six_submenus() {
    assert_eq!(titles(), vec!["Google Messages", "File", "Edit", "View", "History", "Window"]);
}

#[test]
fn app_menu() {
    let menu = build_menu();
    assert_eq!(
        menu.submenus[0].items,
        vec![
            ABOUT,
            MenuItem::Separator,
            MenuItem::Predefined(Predefined::Quit, Some("Quit Google Messages")),
        ]
    );
}

#[test]
fn file_menu() {
    let menu = build_menu();
    assert_eq!(
        menu.submenus[1].items,
        vec![
            MenuItem::Custom(Command::NewWindow),
            MenuItem::Predefined(Predefined::CloseWindow, Some("Close Window")),
        ]
    );
}

#[test]
fn edit_menu() {
    let menu = build_menu();
    assert_eq!(
        menu.submenus[2].items,
        vec![
            MenuItem::Predefined(Predefined::Undo, None),
            MenuItem::Predefined(Predefined::Redo, None),
            MenuItem::Separator,
            MenuItem::Predefined(Predefined::Cut, None),
            MenuItem::Predefined(Predefined::Copy, None),
            MenuItem::Predefined(Predefined::Paste, None),
            MenuItem::Predefined(Predefined::SelectAll, None),
        ]
    );
}

#[test]
fn view_menu() {
    let menu = build_menu();
    assert_eq!(
        menu.submenus[3].items,
        vec![
            MenuItem::Custom(Command::ViewReload),
            MenuItem::Separator,
            MenuItem::Custom(Command::ViewActualSize),
            MenuItem::Custom(Command::ViewZoomIn),
            MenuItem::Custom(Command::ViewZoomOut),
        ]
    );
}

#[test]
fn history_menu() {
    let menu = build_menu();
    assert_eq!(
        menu.submenus[4].items,
        vec![
            MenuItem::Custom(Command::HistoryHome),
            MenuItem::Custom(Command::HistoryBack),
            MenuItem::Custom(Command::HistoryForward),
        ]
    );
}

#[test]
fn window_menu() {
    let menu = build_menu();
    assert_eq!(
        menu.submenus[5].items,
        vec![
            MenuItem::Predefined(Predefined::Minimize, None),
            MenuItem::Custom(Command::WindowZoom),
            MenuItem::Separator,
            MenuItem::Custom(Command::WindowBringAllToFront),
        ]
    );
}

#[test]
fn menu_is_the_same_on_every_call() {
    assert_eq!(build_menu(), build_menu());
}

#[test]
fn every_command_is_behind_exactly_one_item() {
    let found = commands();
    assert_eq!(
        found,
        vec![
            Command::NewWindow,
            Command::ViewReload,
            Command::ViewActualSize,
            Command::ViewZoomIn,
            Command::ViewZoomOut,
            Command::HistoryHome,
            Command::HistoryBack,
            Command::HistoryForward,
            Command::WindowZoom,
            Command::WindowBringAllToFront,
        ]
    );
}

#[test]
fn every_item_of_the_menu_is_dispatched() {
    for command in commands() {
        assert_eq!(Command::from_id(command.id()), Some(command));
    }
}

#[test]
fn labels() {
    assert_eq!(Command::NewWindow.label(), "New Window");
    assert_eq!(Command::ViewReload.label(), "Reload This Page");
    assert_eq!(Command::ViewActualSize.label(), "Actual Size");
    assert_eq!(Command::ViewZoomIn.label(), "Zoom In");
    assert_eq!(Command::ViewZoomOut.label(), "Zoom Out");
    assert_eq!(Command::HistoryHome.label(), "Home");
    assert_eq!(Command::HistoryBack.label(), "Back");
    assert_eq!(Command::HistoryForward.label(), "Forward");
    assert_eq!(Command::WindowZoom.label(), "Zoom");
    assert_eq!(Command::WindowBringAllToFront.label(), "Bring All to Front");
}

#[test]
fn accelerators() {
    assert_eq!(Command::ViewReload.accelerator(), Some("CmdOrCtrl+R"));
    assert_eq!(Command::ViewActualSize.accelerator(), Some("CmdOrCtrl+0"));
    assert_eq!(Command::ViewZoomIn.accelerator(), Some("CmdOrCtrl+Equal"));
    assert_eq!(Command::ViewZoomOut.accelerator(), Some("CmdOrCtrl+-"));
    assert_eq!(Command::HistoryHome.accelerator(), Some("CmdOrCtrl+H"));
    assert_eq!(Command::HistoryBack.accelerator(), Some("CmdOrCtrl+["));
    assert_eq!(Command::HistoryForward.accelerator(), Some("CmdOrCtrl+]"));
    assert_eq!(Command::NewWindow.accelerator(), None);
    assert_eq!(Command::WindowZoom.accelerator(), None);
    assert_eq!(Command::WindowBringAllToFront.accelerator(), None);
}

#[test]
fn setup_with_the_window_gives_the_plan() {
    let shell = Shell {
        window: Some(Window { visibility: Visibility::Visible, focused: true, resizable: true }),
    };
    let plan = setup(&shell).unwrap();
    assert_eq!(plan.menu, build_menu());
    assert_eq!(plan.navigate_to, "https://messages.google.com/web");
    assert!(url::Url::parse(plan.navigate_to).is_ok());
}

#[test]
fn setup_without_the_window_fails() {
    assert_eq!(setup(&Shell::new()), Err(SetupError::MissingMainWindow));
}

#[test]
fn plan_setup_covers_the_four_cases() {
    let plan = plan_setup(true, true).unwrap();
    assert_eq!(plan.menu, build_menu());
    assert_eq!(plan.navigate_to, "https://messages.google.com/web");
    assert_eq!(plan_setup(true, false), Err(SetupError::InvalidUrl));
    assert_eq!(plan_setup(false, true), Err(SetupError::MissingMainWindow));
    assert_eq!(plan_setup(false, false), Err(SetupError::MissingMainWindow));
}

#[test]
fn setup_error_messages() {
    assert_eq!(SetupError::MissingMainWindow.message(), "Failed to get main window");
    assert_eq!(SetupError::InvalidUrl.message(), "Invalid URL");
}
