//! The commands that the shell's own menu items stand for.

use vstd::prelude::*;
use crate::script::Script;
use crate::text::str_eq;

verus! {

/// A command behind one of the shell's own menu items.
#[derive(Clone, Copy, Debug, PartialEq, Eq, Structural)]
pub enum Command {
    /// "New Window" in the File menu. There is one window only: the command
    /// brings it to the front, and creates it if it is gone.
    NewWindow,
    /// "Reload This Page" in the View menu.
    ViewReload,
    /// "Actual Size" in the View menu: a zoom of 1.
    ViewActualSize,
    /// "Zoom In" in the View menu: a tenth more.
    ViewZoomIn,
    /// "Zoom Out" in the View menu: a tenth less.
    ViewZoomOut,
    /// "Home" in the History menu: back to the address of the web application.
    HistoryHome,
    /// "Back" in the History menu.
    HistoryBack,
    /// "Forward" in the History menu.
    HistoryForward,
    /// "Zoom" in the Window menu. It makes the window resizable; it does not
    /// make it larger.
    WindowZoom,
    /// "Bring All to Front" in the Window menu: input focus for the window.
    WindowBringAllToFront,
}

/// What a command asks for: one of four kinds of work.
#[derive(Clone, Copy, Debug, PartialEq, Eq, Structural)]
pub enum Action {
    /// See to it that the window exists, is on screen and has input focus.
    CreateOrShow,
    /// Run a script in the page.
    Inject(Script),
    /// Let the user resize the window.
    MakeResizable,
    /// Give the window input focus.
    Focus,
}

impl Command {
    /// The identifier under which the host reports an activation of this command.
    pub open spec fn id_spec(self) -> Seq<char> {
        match self {
            Command::NewWindow => "new_window"@,
            Command::ViewReload => "view_reload"@,
            Command::ViewActualSize => "view_actual_size"@,
            Command::ViewZoomIn => "view_zoom_in"@,
            Command::ViewZoomOut => "view_zoom_out"@,
            Command::HistoryHome => "history_home"@,
            Command::HistoryBack => "history_back"@,
            Command::HistoryForward => "history_forward"@,
            Command::WindowZoom => "window_zoom"@,
            Command::WindowBringAllToFront => "window_bring_all_to_front"@,
        }
    }

    /// The command that `id` names: the one whose identifier it is, if there is one.
    pub open spec fn from_id_spec(id: Seq<char>) -> Option<Command> {
        if id == Command::NewWindow.id_spec() {
            Some(Command::NewWindow)
        } else if id == Command::ViewReload.id_spec() {
            Some(Command::ViewReload)
        } else if id == Command::ViewActualSize.id_spec() {
            Some(Command::ViewActualSize)
        } else if id == Command::ViewZoomIn.id_spec() {
            Some(Command::ViewZoomIn)
        } else if id == Command::ViewZoomOut.id_spec() {
            Some(Command::ViewZoomOut)
        } else if id == Command::HistoryHome.id_spec() {
            Some(Command::HistoryHome)
        } else if id == Command::HistoryBack.id_spec() {
            Some(Command::HistoryBack)
        } else if id == Command::HistoryForward.id_spec() {
            Some(Command::HistoryForward)
        } else if id == Command::WindowZoom.id_spec() {
            Some(Command::WindowZoom)
        } else if id == Command::WindowBringAllToFront.id_spec() {
            Some(Command::WindowBringAllToFront)
        } else {
            None
        }
    }

    /// The identifier under which the host reports an activation of this command.
    pub fn id(self) -> (id: &'static str)
        ensures
            id@ == self.id_spec(),
    {
        match self {
            Command::NewWindow => "new_window",
            Command::ViewReload => "view_reload",
            Command::ViewActualSize => "view_actual_size",
            Command::ViewZoomIn => "view_zoom_in",
            Command::ViewZoomOut => "view_zoom_out",
            Command::HistoryHome => "history_home",
            Command::HistoryBack => "history_back",
            Command::HistoryForward => "history_forward",
            Command::WindowZoom => "window_zoom",
            Command::WindowBringAllToFront => "window_bring_all_to_front",
        }
    }

    /// The text that the menu shows for this command.
    pub open spec fn label_spec(self) -> Seq<char> {
        match self {
            Command::NewWindow => "New Window"@,
            Command::ViewReload => "Reload This Page"@,
            Command::ViewActualSize => "Actual Size"@,
            Command::ViewZoomIn => "Zoom In"@,
            Command::ViewZoomOut => "Zoom Out"@,
            Command::HistoryHome => "Home"@,
            Command::HistoryBack => "Back"@,
            Command::HistoryForward => "Forward"@,
            Command::WindowZoom => "Zoom"@,
            Command::WindowBringAllToFront => "Bring All to Front"@,
        }
    }

    /// The text that the menu shows for this command.
    pub fn label(self) -> (label: &'static str)
        ensures
            label@ == self.label_spec(),
    {
        match self {
            Command::NewWindow => "New Window",
            Command::ViewReload => "Reload This Page",
            Command::ViewActualSize => "Actual Size",
            Command::ViewZoomIn => "Zoom In",
            Command::ViewZoomOut => "Zoom Out",
            Command::HistoryHome => "Home",
            Command::HistoryBack => "Back",
            Command::HistoryForward => "Forward",
            Command::WindowZoom => "Zoom",
            Command::WindowBringAllToFront => "Bring All to Front",
        }
    }

    /// The key binding of this command, in the host's notation, where it has one.
    pub open spec fn accelerator_spec(self) -> Option<Seq<char>> {
        match self {
            Command::ViewReload => Some("CmdOrCtrl+R"@),
            Command::ViewActualSize => Some("CmdOrCtrl+0"@),
            Command::ViewZoomIn => Some("CmdOrCtrl+Equal"@),
            Command::ViewZoomOut => Some("CmdOrCtrl+-"@),
            Command::HistoryHome => Some("CmdOrCtrl+H"@),
            Command::HistoryBack => Some("CmdOrCtrl+["@),
            Command::HistoryForward => Some("CmdOrCtrl+]"@),
            Command::NewWindow | Command::WindowZoom | Command::WindowBringAllToFront => None,
        }
    }

    /// The key binding of this command, in the host's notation, where it has one.
    pub fn accelerator(self) -> (keys: Option<&'static str>)
        ensures
            match keys {
                Some(k) => self.accelerator_spec() == Some(k@),
                None => self.accelerator_spec() is None,
            },
    {
        match self {
            Command::ViewReload => Some("CmdOrCtrl+R"),
            Command::ViewActualSize => Some("CmdOrCtrl+0"),
            Command::ViewZoomIn => Some("CmdOrCtrl+Equal"),
            Command::ViewZoomOut => Some("CmdOrCtrl+-"),
            Command::HistoryHome => Some("CmdOrCtrl+H"),
            Command::HistoryBack => Some("CmdOrCtrl+["),
            Command::HistoryForward => Some("CmdOrCtrl+]"),
            Command::NewWindow | Command::WindowZoom | Command::WindowBringAllToFront => None,
        }
    }

    /// What this command asks for.
    pub open spec fn action_spec(self) -> Action {
        match self {
            Command::NewWindow => Action::CreateOrShow,
            Command::ViewReload => Action::Inject(Script::Reload),
            Command::ViewActualSize => Action::Inject(Script::ActualSize),
            Command::ViewZoomIn => Action::Inject(Script::ZoomIn),
            Command::ViewZoomOut => Action::Inject(Script::ZoomOut),
            Command::HistoryHome => Action::Inject(Script::Home),
            Command::HistoryBack => Action::Inject(Script::Back),
            Command::HistoryForward => Action::Inject(Script::Forward),
            Command::WindowZoom => Action::MakeResizable,
            Command::WindowBringAllToFront => Action::Focus,
        }
    }

    /// What this command asks for.
    pub fn action(self) -> (action: Action)
        ensures
            action == self.action_spec(),
    {
        match self {
            Command::NewWindow => Action::CreateOrShow,
            Command::ViewReload => Action::Inject(Script::Reload),
            Command::ViewActualSize => Action::Inject(Script::ActualSize),
            Command::ViewZoomIn => Action::Inject(Script::ZoomIn),
            Command::ViewZoomOut => Action::Inject(Script::ZoomOut),
            Command::HistoryHome => Action::Inject(Script::Home),
            Command::HistoryBack => Action::Inject(Script::Back),
            Command::HistoryForward => Action::Inject(Script::Forward),
            Command::WindowZoom => Action::MakeResizable,
            Command::WindowBringAllToFront => Action::Focus,
        }
    }

    /// Reads an identifier reported by the host. An identifier that belongs to
    /// no command gives `None`.
    pub fn from_id(id: &str) -> (command: Option<Command>)
        ensures
            command == Command::from_id_spec(id@),
    {
        if str_eq(id, "new_window") {
            Some(Command::NewWindow)
        } else if str_eq(id, "view_reload") {
            Some(Command::ViewReload)
        } else if str_eq(id, "view_actual_size") {
            Some(Command::ViewActualSize)
        } else if str_eq(id, "view_zoom_in") {
            Some(Command::ViewZoomIn)
        } else if str_eq(id, "view_zoom_out") {
            Some(Command::ViewZoomOut)
        } else if str_eq(id, "history_home") {
            Some(Command::HistoryHome)
        } else if str_eq(id, "history_back") {
            Some(Command::HistoryBack)
        } else if str_eq(id, "history_forward") {
            Some(Command::HistoryForward)
        } else if str_eq(id, "window_zoom") {
            Some(Command::WindowZoom)
        } else if str_eq(id, "window_bring_all_to_front") {
            Some(Command::WindowBringAllToFront)
        } else {
            None
        }
    }
}

/// What the identifier of an activated menu item asks for: the action of the
/// command that it names, and nothing where it names none.
pub open spec fn dispatch_spec(id: Seq<char>) -> Option<Action> {
    match Command::from_id_spec(id) {
        Some(command) => Some(command.action_spec()),
        None => None,
    }
}

/// What the identifier of an activated menu item asks for: the action of the
/// command that it names, and nothing where it names none.
pub fn dispatch(id: &str) -> (action: Option<Action>)
    ensures
        action == dispatch_spec(id@),
{
    match Command::from_id(id) {
        Some(command) => Some(command.action()),
        None => None,
    }
}

/// The length of a command's identifier and two of its characters, which
/// together tell the ten identifiers apart.
proof fn lemma_id_shape(command: Command)
    ensures
        (command.id_spec().len(), command.id_spec()[0], command.id_spec()[8]) == (match command {
            Command::NewWindow => (10nat, 'n', 'o'),
            Command::ViewReload => (11nat, 'v', 'o'),
            Command::ViewActualSize => (16nat, 'v', 'u'),
            Command::ViewZoomIn => (12nat, 'v', 'm'),
            Command::ViewZoomOut => (13nat, 'v', 'm'),
            Command::HistoryHome => (12nat, 'h', 'h'),
            Command::HistoryBack => (12nat, 'h', 'b'),
            Command::HistoryForward => (15nat, 'h', 'f'),
            Command::WindowZoom => (11nat, 'w', 'o'),
            Command::WindowBringAllToFront => (25nat, 'w', 'r'),
        }),
{
    reveal_strlit("new_window");
    reveal_strlit("view_reload");
    reveal_strlit("view_actual_size");
    reveal_strlit("view_zoom_in");
    reveal_strlit("view_zoom_out");
    reveal_strlit("history_home");
    reveal_strlit("history_back");
    reveal_strlit("history_forward");
    reveal_strlit("window_zoom");
    reveal_strlit("window_bring_all_to_front");
}

/// No two commands share an identifier.
pub proof fn lemma_ids_distinct(a: Command, b: Command)
    ensures
        a.id_spec() == b.id_spec() ==> a == b,
{
    lemma_id_shape(a);
    lemma_id_shape(b);
}

/// Reading a command's own identifier gives that command back, and no other
/// identifier gives it.
pub proof fn lemma_id_round_trip(command: Command, id: Seq<char>)
    ensures
        Command::from_id_spec(command.id_spec()) == Some(command),
        Command::from_id_spec(id) == Some(command) <==> id == command.id_spec(),
{
    lemma_ids_distinct(command, Command::NewWindow);
    lemma_ids_distinct(command, Command::ViewReload);
    lemma_ids_distinct(command, Command::ViewActualSize);
    lemma_ids_distinct(command, Command::ViewZoomIn);
    lemma_ids_distinct(command, Command::ViewZoomOut);
    lemma_ids_distinct(command, Command::HistoryHome);
    lemma_ids_distinct(command, Command::HistoryBack);
    lemma_ids_distinct(command, Command::HistoryForward);
    lemma_ids_distinct(command, Command::WindowZoom);
    lemma_ids_distinct(command, Command::WindowBringAllToFront);
}

} // verus!
