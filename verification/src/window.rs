//! The shell's one window, the operations that the shell asks of the host, and
//! what each operation does to the window.

use vstd::prelude::*;
use crate::config::{WindowConfig, WindowConfigView};
use crate::script::Script;

verus! {

/// Whether the window is on screen.
#[derive(Clone, Copy, Debug, PartialEq, Eq, Structural)]
pub enum Visibility {
    Visible,
    Hidden,
}

/// The state of the window, as far as the shell changes it. Its title, its
/// address and its size are fixed when it is created.
#[derive(Clone, Copy, Debug, PartialEq, Eq)]
pub struct Window {
    /// Whether the window is on screen.
    pub visibility: Visibility,
    /// Whether the window has input focus. Only a window on screen has it.
    pub focused: bool,
    /// Whether the user can resize the window.
    pub resizable: bool,
}

/// The owner of the window. There is at most one window, and none until the
/// first is created.
#[derive(Clone, Copy, Debug, PartialEq, Eq)]
pub struct Shell {
    pub window: Option<Window>,
}

/// One operation that the shell asks of the host.
#[derive(Clone, Copy, Debug, PartialEq, Eq)]
pub enum HostOp {
    /// Create the window, which then loads the configuration's address.
    CreateWindow(WindowConfig),
    /// Put the window on screen.
    Show,
    /// Give the window input focus.
    Focus,
    /// Take the window off screen, and keep it.
    Hide,
    /// Do not close the window whose closing was asked for.
    PreventClose,
    /// Run the script in the page of the window.
    Eval(Script),
    /// Let, or do not let, the user resize the window.
    SetResizable(bool),
}

/// What becomes of the shell when the host fails at an operation.
#[derive(Clone, Copy, Debug, PartialEq, Eq, Structural)]
pub enum OnFailure {
    /// The shell cannot go on: the process ends.
    Fatal,
    /// The failure is noted and the shell goes on.
    Ignore,
}

/// What an operation is, with the texts of a configuration as characters.
pub enum HostOpView {
    CreateWindow(WindowConfigView),
    Show,
    Focus,
    Hide,
    PreventClose,
    Eval(Script),
    SetResizable(bool),
}

impl View for HostOp {
    type V = HostOpView;

    open spec fn view(&self) -> HostOpView {
        match *self {
            HostOp::CreateWindow(config) => HostOpView::CreateWindow(config@),
            HostOp::Show => HostOpView::Show,
            HostOp::Focus => HostOpView::Focus,
            HostOp::Hide => HostOpView::Hide,
            HostOp::PreventClose => HostOpView::PreventClose,
            HostOp::Eval(script) => HostOpView::Eval(script),
            HostOp::SetResizable(resizable) => HostOpView::SetResizable(resizable),
        }
    }
}

/// The operations of a list, each as what it is.
pub open spec fn ops_view(ops: Seq<HostOp>) -> Seq<HostOpView> {
    ops.map_values(|op: HostOp| op@)
}

impl HostOpView {
    /// Whether the operation touches the page: creating the window loads its
    /// address, and a script runs in the page. No other operation loads
    /// anything or runs anything.
    pub open spec fn touches_page(self) -> bool {
        self is CreateWindow || self is Eval
    }
}

impl HostOp {
    /// What becomes of the shell when the host fails at this operation. The
    /// shell is nothing without its window, so failing to create it is fatal.
    /// Everything else is tried once and, on failure, let go.
    pub fn on_failure(&self) -> (policy: OnFailure)
        ensures
            policy == (if self@ is CreateWindow {
                OnFailure::Fatal
            } else {
                OnFailure::Ignore
            }),
    {
        match self {
            HostOp::CreateWindow(_) => OnFailure::Fatal,
            _ => OnFailure::Ignore,
        }
    }
}

impl Window {
    /// A window that is off screen does not have input focus.
    pub open spec fn wf(self) -> bool {
        self.focused ==> self.visibility == Visibility::Visible
    }

    /// The window after the host has carried out `op` on it. The host gives
    /// input focus only to a window that is on screen, and a window that leaves
    /// the screen loses it.
    pub open spec fn after(self, op: HostOpView) -> Window {
        match op {
            HostOpView::Show => Window { visibility: Visibility::Visible, ..self },
            HostOpView::Focus => Window {
                focused: self.focused || self.visibility == Visibility::Visible,
                ..self
            },
            HostOpView::Hide => Window { visibility: Visibility::Hidden, focused: false, ..self },
            HostOpView::SetResizable(resizable) => Window { resizable, ..self },
            HostOpView::CreateWindow(_) | HostOpView::PreventClose | HostOpView::Eval(_) => self,
        }
    }
}

impl Shell {
    /// The window, if there is one, is well formed.
    pub open spec fn wf(self) -> bool {
        match self.window {
            Some(window) => window.wf(),
            None => true,
        }
    }

    /// The shell after the host has carried out `op`. The host creates a window
    /// on screen and with input focus, and only where there is none; every other
    /// operation needs the window and does nothing without it.
    pub open spec fn after(self, op: HostOpView) -> Shell {
        match self.window {
            Some(window) => Shell { window: Some(window.after(op)) },
            None => match op {
                HostOpView::CreateWindow(config) => Shell {
                    window: Some(
                        Window {
                            visibility: Visibility::Visible,
                            focused: true,
                            resizable: config.resizable,
                        },
                    ),
                },
                _ => self,
            },
        }
    }

    /// The shell after the host has carried out `ops`, first to last.
    pub open spec fn after_all(self, ops: Seq<HostOpView>) -> Shell
        decreases ops.len(),
    {
        if ops.len() == 0 {
            self
        } else {
            self.after_all(ops.drop_last()).after(ops.last())
        }
    }

    /// A shell that has no window yet.
    pub fn new() -> (shell: Shell)
        ensures
            shell.window is None,
            shell.wf(),
    {
        Shell { window: None }
    }

    /// Whether the shell has its window.
    pub fn has_window(&self) -> (present: bool)
        ensures
            present == self.window is Some,
    {
        self.window.is_some()
    }

    /// Records that the host has carried out `op`.
    pub fn apply(&mut self, op: &HostOp)
        ensures
            *final(self) == old(self).after(op@),
            old(self).wf() ==> final(self).wf(),
    {
        match self.window {
            Some(window) => {
                let next = match *op {
                    HostOp::Show => Window { visibility: Visibility::Visible, ..window },
                    HostOp::Focus => match window.visibility {
                        Visibility::Visible => Window { focused: true, ..window },
                        Visibility::Hidden => window,
                    },
                    HostOp::Hide => Window {
                        visibility: Visibility::Hidden,
                        focused: false,
                        ..window
                    },
                    HostOp::SetResizable(resizable) => Window { resizable, ..window },
                    HostOp::CreateWindow(_) | HostOp::PreventClose | HostOp::Eval(_) => window,
                };
                self.window = Some(next);
            },
            None => {
                if let HostOp::CreateWindow(config) = *op {
                    self.window = Some(
                        Window {
                            visibility: Visibility::Visible,
                            focused: true,
                            resizable: config.resizable,
                        },
                    );
                }
            },
        }
    }

    /// Records that the host has carried out `ops`, first to last.
    pub fn apply_all(&mut self, ops: &Vec<HostOp>)
        ensures
            *final(self) == old(self).after_all(ops_view(ops@)),
            old(self).wf() ==> final(self).wf(),
    {
        let ghost all = ops_view(ops@);
        let mut i: usize = 0;
        while i < ops.len()
            invariant
                i <= ops.len(),
                all == ops_view(ops@),
                *self == old(self).after_all(all.take(i as int)),
                old(self).wf() ==> self.wf(),
            decreases ops.len() - i,
        {
            self.apply(&ops[i]);
            proof {
                assert(all.take(i + 1).drop_last() =~= all.take(i as int));
            }
            i += 1;
        }
        assert(all.take(i as int) =~= all);
    }
}

/// Carrying out no operation leaves the shell as it is; carrying out one or
/// two is carrying out each in turn.
pub proof fn lemma_after_short_lists(shell: Shell, first: HostOpView, second: HostOpView)
    ensures
        shell.after_all(seq![]) == shell,
        shell.after_all(seq![first]) == shell.after(first),
        shell.after_all(seq![first, second]) == shell.after(first).after(second),
{
    assert(seq![first].drop_last() =~= seq![]);
    assert(seq![first, second].drop_last() =~= seq![first]);
}

} // verus!
