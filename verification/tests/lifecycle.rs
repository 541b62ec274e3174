use app_lib::config::{WindowConfig, WINDOW_HEIGHT, WINDOW_LABEL, WINDOW_TITLE, WINDOW_URL, WINDOW_WIDTH};
use app_lib::event::{RunEvent, WindowEvent};
use app_lib::window::{HostOp, OnFailure, Shell, Visibility, Window};
use app_lib::{create_window, on_run_event, on_window_event};

fn window(visibility: Visibility, focused: bool, resizable: bool) -> Shell {
    Shell { window: Some(Window { visibility, focused, resizable }) }
}

#[test]
fn fixed_settings() {
    assert_eq!(WINDOW_URL, "https://messages.google.com/web");
    assert_eq!(WINDOW_TITLE, "Google Messages");
    assert_eq!(WINDOW_LABEL, "main");
    assert_eq!(WINDOW_WIDTH, 1024);
    assert_eq!(WINDOW_HEIGHT, 768);
    assert_eq!(
        WindowConfig::fixed(),
        WindowConfig {
            label: "main",
            title: "Google Messages",
            url: "https://messages.google.com/web",
            width: 1024,
            height: 768,
            resizable: true,
        }
    );
}

#[test]
fn fixed_address_is_a_url() {
    let url = url::Url::parse(WindowConfig::fixed().url).unwrap();
    assert_eq!(url.scheme(), "https");
    assert_eq!(url.host_str(), Some("messages.google.com"));
    assert_eq!(url.path(), "/web");
}

#[test]
fn fresh_launch_creates_the_window() {
    let mut shell = Shell::new();
    assert!(!shell.has_window());
    let ops = create_window(&mut shell);
    assert_eq!(ops, vec![HostOp::CreateWindow(WindowConfig::fixed()), HostOp::Show]);
    match ops[0] {
        HostOp::CreateWindow(config) => {
            assert_eq!(config.width, 1024);
            assert_eq!(config.height, 768);
            assert_eq!(config.title, "Google Messages");
            assert_eq!(config.url, "https://messages.google.com/web");
            assert!(config.resizable);
        }
        _ => panic!("the first operation creates the window"),
    }
    assert_eq!(shell, window(Visibility::Visible, true, true));
}

#[test]
fn create_window_twice_creates_once() {
    let mut shell = Shell::new();
    let first = create_window(&mut shell);
    let second = create_window(&mut shell);
    let created = first
        .iter()
        .chain(second.iter())
        .filter(|op| matches!(op, HostOp::CreateWindow(_)))
        .count();
    assert_eq!(created, 1);
    assert_eq!(second, vec![HostOp::Show, HostOp::Focus]);
    assert_eq!(shell, window(Visibility::Visible, true, true));
}

#[test]
fn existing_window_is_shown_and_focused() {
    let mut shell = window(Visibility::Hidden, false, false);
    assert_eq!(create_window(&mut shell), vec![HostOp::Show, HostOp::Focus]);
    assert_eq!(shell, window(Visibility::Visible, true, false));
}

#[test]
fn closing_hides_the_window_and_keeps_it() {
    let mut shell = window(Visibility::Visible, true, true);
    let ops = on_window_event(&mut shell, WindowEvent::CloseRequested);
    assert_eq!(ops, vec![HostOp::Hide, HostOp::PreventClose]);
    assert_eq!(shell, window(Visibility::Hidden, false, true));
}

#[test]
fn closing_a_hidden_window_leaves_it_hidden() {
    let mut shell = window(Visibility::Hidden, false, false);
    let ops = on_window_event(&mut shell, WindowEvent::CloseRequested);
    assert_eq!(ops, vec![HostOp::Hide, HostOp::PreventClose]);
    assert_eq!(shell, window(Visibility::Hidden, false, false));
}

#[test]
fn other_window_events_are_ignored() {
    let mut shell = window(Visibility::Visible, true, false);
    assert_eq!(on_window_event(&mut shell, WindowEvent::Other), vec![]);
    assert_eq!(shell, window(Visibility::Visible, true, false));

    let mut empty = Shell::new();
    assert_eq!(on_window_event(&mut empty, WindowEvent::Other), vec![]);
    assert_eq!(empty, Shell::new());
}

#[test]
fn reopen_after_close_brings_the_same_window_back() {
    let mut shell = window(Visibility::Visible, true, true);
    on_window_event(&mut shell, WindowEvent::CloseRequested);
    let ops = on_run_event(&mut shell, RunEvent::ReopenRequested);
    assert_eq!(ops, vec![HostOp::Show, HostOp::Focus]);
    assert!(!ops.iter().any(|op| matches!(op, HostOp::CreateWindow(_) | HostOp::Eval(_))));
    assert_eq!(shell, window(Visibility::Visible, true, true));
}

#[test]
fn reopen_without_window_creates_one() {
    let mut shell = Shell::new();
    let ops = on_run_event(&mut shell, RunEvent::ReopenRequested);
    assert_eq!(ops, vec![HostOp::CreateWindow(WindowConfig::fixed()), HostOp::Show]);
    assert!(shell.has_window());
    assert_eq!(shell.window.unwrap().visibility, Visibility::Visible);
}

#[test]
fn other_run_events_are_ignored() {
    let mut shell = Shell::new();
    assert_eq!(on_run_event(&mut shell, RunEvent::Other), vec![]);
    assert_eq!(shell, Shell::new());

    let mut hidden = window(Visibility::Hidden, false, true);
    assert_eq!(on_run_event(&mut hidden, RunEvent::Other), vec![]);
    assert_eq!(hidden, window(Visibility::Hidden, false, true));
}

#[test]
fn apply_follows_each_operation() {
    let mut shell = Shell::new();
    shell.apply(&HostOp::Show);
    shell.apply(&HostOp::Focus);
    shell.apply(&HostOp::Hide);
    shell.apply(&HostOp::SetResizable(true));
    assert_eq!(shell, Shell::new());

    let config = WindowConfig { resizable: false, ..WindowConfig::fixed() };
    shell.apply(&HostOp::CreateWindow(config));
    assert_eq!(shell, window(Visibility::Visible, true, false));
    shell.apply(&HostOp::CreateWindow(WindowConfig::fixed()));
    assert_eq!(shell, window(Visibility::Visible, true, false));
    shell.apply(&HostOp::Hide);
    assert_eq!(shell, window(Visibility::Hidden, false, false));
    shell.apply(&HostOp::PreventClose);
    assert_eq!(shell, window(Visibility::Hidden, false, false));
    shell.apply(&HostOp::Focus);
    assert_eq!(shell, window(Visibility::Hidden, false, false));
    shell.apply(&HostOp::Show);
    assert_eq!(shell, window(Visibility::Visible, false, false));
    shell.apply(&HostOp::Focus);
    assert_eq!(shell, window(Visibility::Visible, true, false));
    shell.apply(&HostOp::SetResizable(true));
    assert_eq!(shell, window(Visibility::Visible, true, true));
    shell.apply(&HostOp::SetResizable(false));
    assert_eq!(shell, window(Visibility::Visible, true, false));
}

#[test]
fn apply_all_is_apply_in_order() {
    let ops = vec![
        HostOp::CreateWindow(WindowConfig::fixed()),
        HostOp::Hide,
        HostOp::Show,
        HostOp::PreventClose,
    ];
    let mut all = Shell::new();
    all.apply_all(&ops);
    let mut one_by_one = Shell::new();
    for op in &ops {
        one_by_one.apply(op);
    }
    assert_eq!(all, one_by_one);
    assert_eq!(all, window(Visibility::Visible, false, true));

    let mut untouched = window(Visibility::Hidden, false, true);
    untouched.apply_all(&vec![]);
    assert_eq!(untouched, window(Visibility::Hidden, false, true));
}

#[test]
fn a_hidden_window_never_has_focus() {
    let ops = [
        HostOp::CreateWindow(WindowConfig::fixed()),
        HostOp::Show,
        HostOp::Focus,
        HostOp::Hide,
        HostOp::PreventClose,
        HostOp::SetResizable(false),
    ];
    for first in ops {
        for second in ops {
            for third in ops {
                for start in [Shell::new(), window(Visibility::Hidden, false, true)] {
                    let mut shell = start;
                    shell.apply_all(&vec![first, second, third]);
                    if let Some(window) = shell.window {
                        assert!(!window.focused || window.visibility == Visibility::Visible);
                    }
                }
            }
        }
    }
}

#[test]
fn only_creating_the_window_is_fatal() {
    assert_eq!(HostOp::CreateWindow(WindowConfig::fixed()).on_failure(), OnFailure::Fatal);
    for op in [
        HostOp::Show,
        HostOp::Focus,
        HostOp::Hide,
        HostOp::PreventClose,
        HostOp::SetResizable(true),
    ] {
        assert_eq!(op.on_failure(), OnFailure::Ignore);
    }
}
