//! What holds of the shell as a whole.

use vstd::prelude::*;
use crate::command::{dispatch_spec, lemma_id_round_trip, Action, Command};
use crate::config::fixed_window_config;
use crate::event::{RunEvent, WindowEvent};
use crate::menu::{menu_layout, MenuItemView};
use crate::script::Script;
use crate::window::{lemma_after_short_lists, HostOpView, Shell, Visibility};
use crate::{action_ops, create_or_show_ops, menu_event_ops, run_event_ops, window_event_ops};

verus! {

/// The identifier of a command asks for that command's action and for no
/// other: its operations are those of that one action. With the window there,
/// the action is carried out: by one operation, or, to bring the window to the
/// front, by two.
pub proof fn law_valid_identifier_has_one_action(id: Seq<char>, window_present: bool)
    requires
        Command::from_id_spec(id) is Some,
    ensures
        dispatch_spec(id) == Some(Command::from_id_spec(id)->0.action_spec()),
        menu_event_ops(window_present, id) == action_ops(
            window_present,
            Command::from_id_spec(id)->0.action_spec(),
        ),
        window_present ==> menu_event_ops(window_present, id).len() == (if dispatch_spec(id)
            == Some(Action::CreateOrShow) {
            2nat
        } else {
            1nat
        }),
{
}

/// Every command's identifier is valid, names that command alone, and so asks
/// for that command's action.
pub proof fn law_every_command_is_dispatched(command: Command)
    ensures
        Command::from_id_spec(command.id_spec()) == Some(command),
        dispatch_spec(command.id_spec()) == Some(command.action_spec()),
        forall|other: Command| other.id_spec() == command.id_spec() ==> other == command,
{
    lemma_id_round_trip(command, command.id_spec());
    assert forall|other: Command| other.id_spec() == command.id_spec() implies other
        == command by {
        lemma_id_round_trip(other, command.id_spec());
    }
}

/// An identifier that names no command asks the host for nothing and leaves
/// the shell as it is: no operation on the window, no script in the page.
pub proof fn law_unknown_identifier_does_nothing(shell: Shell, id: Seq<char>)
    requires
        Command::from_id_spec(id) is None,
    ensures
        dispatch_spec(id) is None,
        menu_event_ops(shell.window is Some, id) == Seq::<HostOpView>::empty(),
        shell.after_all(menu_event_ops(shell.window is Some, id)) == shell,
{
    assert(menu_event_ops(shell.window is Some, id) =~= Seq::<HostOpView>::empty());
}

/// A request to close hides the window and keeps it, and touches nothing in
/// its page. Bringing the window to the front afterwards shows that same
/// window and gives it input focus: nothing is created, so no address is
/// loaded again, and no script runs.
pub proof fn law_close_hides_and_keeps_the_page(shell: Shell)
    requires
        shell.window is Some,
    ensures
        ({
            let closing = window_event_ops(WindowEvent::CloseRequested);
            let closed = shell.after_all(closing);
            let reopening = create_or_show_ops(closed.window is Some);
            let reopened = closed.after_all(reopening);
            &&& closed.window is Some
            &&& closed.window->0.visibility == Visibility::Hidden
            &&& !closed.window->0.focused
            &&& closed.window->0.resizable == shell.window->0.resizable
            &&& forall|i: int| 0 <= i < closing.len() ==> !(#[trigger] closing[i]).touches_page()
            &&& reopening == seq![HostOpView::Show, HostOpView::Focus]
            &&& forall|i: int|
                0 <= i < reopening.len() ==> !(#[trigger] reopening[i]).touches_page()
            &&& reopened.window is Some
            &&& reopened.window->0.visibility == Visibility::Visible
            &&& reopened.window->0.focused
            &&& reopened.window->0.resizable == shell.window->0.resizable
        }),
{
    lemma_after_short_lists(shell, HostOpView::Hide, HostOpView::PreventClose);
    let closed = shell.after_all(window_event_ops(WindowEvent::CloseRequested));
    lemma_after_short_lists(closed, HostOpView::Show, HostOpView::Focus);
}

/// A request to reopen where there is no window creates exactly one window,
/// with the fixed configuration, and leaves it on screen.
pub proof fn law_reopen_without_window_creates_one(shell: Shell)
    requires
        shell.window is None,
    ensures
        ({
            let ops = run_event_ops(shell.window is Some, RunEvent::ReopenRequested);
            let after = shell.after_all(ops);
            &&& ops == seq![HostOpView::CreateWindow(fixed_window_config()), HostOpView::Show]
            &&& forall|i: int|
                0 <= i < ops.len() && (#[trigger] ops[i]) is CreateWindow ==> i == 0
            &&& after.window is Some
            &&& after.window->0.visibility == Visibility::Visible
            &&& after.window->0.resizable
        }),
{
    lemma_after_short_lists(
        shell,
        HostOpView::CreateWindow(fixed_window_config()),
        HostOpView::Show,
    );
}

/// Whatever the host is asked to do, a window that is off screen never has
/// input focus.
pub proof fn law_hidden_window_has_no_focus(shell: Shell, ops: Seq<HostOpView>)
    requires
        shell.wf(),
    ensures
        shell.after_all(ops).wf(),
    decreases ops.len(),
{
    if ops.len() > 0 {
        law_hidden_window_has_no_focus(shell, ops.drop_last());
    }
}

/// Zooming in and then at once zooming out leaves the page showing the zoom
/// that it showed before.
pub proof fn law_zoom_in_then_out_restores(shown: int)
    ensures
        dispatch_spec(Command::ViewZoomIn.id_spec()) == Some(Action::Inject(Script::ZoomIn)),
        dispatch_spec(Command::ViewZoomOut.id_spec()) == Some(Action::Inject(Script::ZoomOut)),
        Script::ZoomOut.zoom_after(Script::ZoomIn.zoom_after(shown)) == shown,
{
    law_every_command_is_dispatched(Command::ViewZoomIn);
    law_every_command_is_dispatched(Command::ViewZoomOut);
}

/// The zoom that the page shows after every script of `scripts` has run, first
/// to last.
pub open spec fn zoom_after_all(scripts: Seq<Script>, shown: int) -> int
    decreases scripts.len(),
{
    if scripts.len() == 0 {
        shown
    } else {
        scripts.last().zoom_after(zoom_after_all(scripts.drop_last(), shown))
    }
}

/// However often "Actual Size" is chosen, the page shows a zoom of exactly 1
/// after each time.
pub proof fn law_actual_size_is_idempotent(times: nat, shown: int)
    requires
        times >= 1,
    ensures
        dispatch_spec(Command::ViewActualSize.id_spec()) == Some(
            Action::Inject(Script::ActualSize),
        ),
        zoom_after_all(Seq::new(times, |i: int| Script::ActualSize), shown) == 100,
{
    law_every_command_is_dispatched(Command::ViewActualSize);
}

/// Every command is behind exactly one item of the menu, so no two items of
/// the shell's own share an identifier.
pub proof fn law_menu_has_each_command_once(command: Command)
    ensures
        exists|i: int, j: int|
            0 <= i < menu_layout().len() && 0 <= j < menu_layout()[i].items.len()
                && #[trigger] menu_layout()[i].items[j] == MenuItemView::Custom(command),
        forall|i: int, j: int, k: int, l: int|
            0 <= i < menu_layout().len() && 0 <= j < menu_layout()[i].items.len() && 0 <= k
                < menu_layout().len() && 0 <= l < menu_layout()[k].items.len()
                && #[trigger] menu_layout()[i].items[j] == MenuItemView::Custom(command)
                && #[trigger] menu_layout()[k].items[l] == MenuItemView::Custom(command) ==> i == k
                && j == l,
{
    let menu = menu_layout();
    match command {
        Command::NewWindow => assert(menu[1].items[0] == MenuItemView::Custom(command)),
        Command::ViewReload => assert(menu[3].items[0] == MenuItemView::Custom(command)),
        Command::ViewActualSize => assert(menu[3].items[2] == MenuItemView::Custom(command)),
        Command::ViewZoomIn => assert(menu[3].items[3] == MenuItemView::Custom(command)),
        Command::ViewZoomOut => assert(menu[3].items[4] == MenuItemView::Custom(command)),
        Command::HistoryHome => assert(menu[4].items[0] == MenuItemView::Custom(command)),
        Command::HistoryBack => assert(menu[4].items[1] == MenuItemView::Custom(command)),
        Command::HistoryForward => assert(menu[4].items[2] == MenuItemView::Custom(command)),
        Command::WindowZoom => assert(menu[5].items[1] == MenuItemView::Custom(command)),
        Command::WindowBringAllToFront => assert(menu[5].items[3] == MenuItemView::Custom(
            command,
        )),
    }
}

} // verus!
