//! The core of a desktop shell that shows one web application in one native window.
//!
//! The host runtime owns the window, the menu bar and the web view. This crate
//! owns the decisions: which menu the shell has, what a menu command does, and
//! what happens when the window is closed or the application is reopened. Every
//! entry point takes the shell's record of its window and answers with the
//! operations the host has to carry out, in order.
//!
//! - [`setup`] plans startup: the menu of [`menu`] and the address of [`config`].
//! - [`on_menu_event`] answers a menu item by the table of [`command`], with a
//!   script of [`script`] or an operation on the window.
//! - [`on_window_event`] and [`on_run_event`] keep the window alive: closing
//!   hides it, reopening brings it back.
//! - [`create_window`] brings the window to the front, and creates it if it is
//!   gone.
//!
//! [`window`] holds the record of the window and says what each operation does
//! to it; [`laws`] holds what follows for the shell as a whole.

use vstd::prelude::*;

pub mod address;
pub mod command;
pub mod config;
pub mod event;
pub mod laws;
pub mod menu;
pub mod script;
pub mod text;
pub mod window;

use crate::address::{is_url, url_parses};
use crate::command::{dispatch, dispatch_spec, Action};
use crate::config::{fixed_window_config, WindowConfig, WINDOW_URL};
use crate::event::{RunEvent, WindowEvent};
use crate::menu::{build_menu, menu_layout, Menu};
use crate::window::{
    lemma_after_short_lists, ops_view, HostOp, HostOpView, Shell, Visibility, Window,
};

verus! {

/// Why the shell cannot start.
#[derive(Clone, Copy, Debug, PartialEq, Eq, Structural)]
pub enum SetupError {
    /// The host has not made the window that the shell is to show.
    MissingMainWindow,
    /// The address of the web application is not a URL.
    InvalidUrl,
}

impl SetupError {
    /// The diagnostic that startup ends with.
    pub fn message(self) -> (text: &'static str)
        ensures
            text@ == (match self {
                SetupError::MissingMainWindow => "Failed to get main window"@,
                SetupError::InvalidUrl => "Invalid URL"@,
            }),
    {
        match self {
            SetupError::MissingMainWindow => "Failed to get main window",
            SetupError::InvalidUrl => "Invalid URL",
        }
    }
}

/// What the host does at startup: install the menu, then send the window to the
/// address.
#[derive(Debug, PartialEq, Eq)]
pub struct SetupPlan {
    pub menu: Menu,
    pub navigate_to: &'static str,
}

/// Whether `outcome` is what startup comes to, given whether the host has made
/// the window and whether the address is a URL. A missing window is reported
/// before a bad address.
pub open spec fn setup_outcome(
    window_present: bool,
    url_ok: bool,
    outcome: Result<SetupPlan, SetupError>,
) -> bool {
    match outcome {
        Ok(plan) => {
            &&& window_present
            &&& url_ok
            &&& plan.menu@ == menu_layout()
            &&& plan.navigate_to@ == WINDOW_URL@
        },
        Err(SetupError::MissingMainWindow) => !window_present,
        Err(SetupError::InvalidUrl) => window_present && !url_ok,
    }
}

/// Plans startup from what is known of the host: whether it has made the
/// window, and whether the address of the web application is a URL.
pub fn plan_setup(window_present: bool, url_ok: bool) -> (outcome: Result<SetupPlan, SetupError>)
    ensures
        setup_outcome(window_present, url_ok, outcome),
{
    if !window_present {
        Err(SetupError::MissingMainWindow)
    } else if !url_ok {
        Err(SetupError::InvalidUrl)
    } else {
        Ok(SetupPlan { menu: build_menu(), navigate_to: WINDOW_URL })
    }
}

/// Plans startup. The plan holds the menu to install and the address to send
/// the window to; it is owed exactly when the host has made the window and the
/// address is a URL.
pub fn setup(shell: &Shell) -> (outcome: Result<SetupPlan, SetupError>)
    ensures
        setup_outcome(shell.window is Some, url_parses(WINDOW_URL@), outcome),
{
    let url_ok = is_url(WINDOW_URL);
    plan_setup(shell.has_window(), url_ok)
}

/// The operations that bring the window to the front: show it and give it input
/// focus where it exists, create it with the fixed configuration and show it
/// where it does not.
pub open spec fn create_or_show_ops(window_present: bool) -> Seq<HostOpView> {
    if window_present {
        seq![HostOpView::Show, HostOpView::Focus]
    } else {
        seq![HostOpView::CreateWindow(fixed_window_config()), HostOpView::Show]
    }
}

/// The operations that carry out `action`. Bringing the window to the front
/// works with or without a window; the other three need one and come to nothing
/// without it.
pub open spec fn action_ops(window_present: bool, action: Action) -> Seq<HostOpView> {
    match action {
        Action::CreateOrShow => create_or_show_ops(window_present),
        Action::Inject(script) => if window_present {
            seq![HostOpView::Eval(script)]
        } else {
            seq![]
        },
        Action::MakeResizable => if window_present {
            seq![HostOpView::SetResizable(true)]
        } else {
            seq![]
        },
        Action::Focus => if window_present {
            seq![HostOpView::Focus]
        } else {
            seq![]
        },
    }
}

/// The operations that answer the activation of the menu item `id`: those of
/// the action that `id` asks for, and none where it asks for nothing.
pub open spec fn menu_event_ops(window_present: bool, id: Seq<char>) -> Seq<HostOpView> {
    match dispatch_spec(id) {
        Some(action) => action_ops(window_present, action),
        None => seq![],
    }
}

/// The operations that answer a window event: a request to close hides the
/// window and keeps it; nothing else is answered.
pub open spec fn window_event_ops(event: WindowEvent) -> Seq<HostOpView> {
    match event {
        WindowEvent::CloseRequested => seq![HostOpView::Hide, HostOpView::PreventClose],
        WindowEvent::Other => seq![],
    }
}

/// The operations that answer an event of the application: a request to reopen
/// brings the window to the front; nothing else is answered.
pub open spec fn run_event_ops(window_present: bool, event: RunEvent) -> Seq<HostOpView> {
    match event {
        RunEvent::ReopenRequested => create_or_show_ops(window_present),
        RunEvent::Other => seq![],
    }
}

/// Brings the window to the front, creating it if there is none. Returns the
/// operations for the host and records them in `shell`: afterwards there is
/// exactly one window, on screen and with input focus.
pub fn create_window(shell: &mut Shell) -> (ops: Vec<HostOp>)
    ensures
        ops_view(ops@) == create_or_show_ops(old(shell).window is Some),
        *final(shell) == old(shell).after_all(ops_view(ops@)),
        old(shell).wf() ==> final(shell).wf(),
        final(shell).window == Some(
            Window {
                visibility: Visibility::Visible,
                focused: true,
                resizable: match old(shell).window {
                    Some(window) => window.resizable,
                    None => true,
                },
            },
        ),
{
    let ops = if shell.has_window() {
        vec![HostOp::Show, HostOp::Focus]
    } else {
        vec![HostOp::CreateWindow(WindowConfig::fixed()), HostOp::Show]
    };
    proof {
        assert(ops_view(ops@) =~= create_or_show_ops(shell.window is Some));
        lemma_after_short_lists(*shell, ops_view(ops@)[0], ops_view(ops@)[1]);
    }
    shell.apply_all(&ops);
    ops
}

/// Answers the activation of the menu item `id`. Returns the operations for
/// the host and records them in `shell`.
pub fn on_menu_event(shell: &mut Shell, id: &str) -> (ops: Vec<HostOp>)
    ensures
        ops_view(ops@) == menu_event_ops(old(shell).window is Some, id@),
        *final(shell) == old(shell).after_all(ops_view(ops@)),
        old(shell).wf() ==> final(shell).wf(),
{
    let present = shell.has_window();
    let ops = match dispatch(id) {
        Some(Action::CreateOrShow) => {
            return create_window(shell);
        },
        Some(Action::Inject(script)) => if present {
            vec![HostOp::Eval(script)]
        } else {
            vec![]
        },
        Some(Action::MakeResizable) => if present {
            vec![HostOp::SetResizable(true)]
        } else {
            vec![]
        },
        Some(Action::Focus) => if present {
            vec![HostOp::Focus]
        } else {
            vec![]
        },
        None => vec![],
    };
    assert(ops_view(ops@) =~= menu_event_ops(present, id@));
    shell.apply_all(&ops);
    ops
}

/// Answers a window event. Returns the operations for the host and records
/// them in `shell`: a request to close leaves the window hidden and otherwise
/// as it was, and any other event leaves everything as it was.
pub fn on_window_event(shell: &mut Shell, event: WindowEvent) -> (ops: Vec<HostOp>)
    ensures
        ops_view(ops@) == window_event_ops(event),
        *final(shell) == old(shell).after_all(ops_view(ops@)),
        old(shell).wf() ==> final(shell).wf(),
        final(shell).window == (match (event, old(shell).window) {
            (WindowEvent::CloseRequested, Some(window)) => Some(
                Window { visibility: Visibility::Hidden, focused: false, ..window },
            ),
            _ => old(shell).window,
        }),
{
    let ops = match event {
        WindowEvent::CloseRequested => vec![HostOp::Hide, HostOp::PreventClose],
        WindowEvent::Other => vec![],
    };
    proof {
        assert(ops_view(ops@) =~= window_event_ops(event));
        lemma_after_short_lists(*shell, HostOpView::Hide, HostOpView::PreventClose);
    }
    shell.apply_all(&ops);
    ops
}

/// Answers an event of the application. Returns the operations for the host
/// and records them in `shell`.
pub fn on_run_event(shell: &mut Shell, event: RunEvent) -> (ops: Vec<HostOp>)
    ensures
        ops_view(ops@) == run_event_ops(old(shell).window is Some, event),
        *final(shell) == old(shell).after_all(ops_view(ops@)),
        old(shell).wf() ==> final(shell).wf(),
{
    match event {
        RunEvent::ReopenRequested => create_window(shell),
        RunEvent::Other => {
            let ops: Vec<HostOp> = vec![];
            assert(ops_view(ops@) =~= seq![]);
            ops
        },
    }
}

} // verus!
