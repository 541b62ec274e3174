//! The fixed settings of the shell's one window.

use vstd::prelude::*;

verus! {

/// The address of the web application, where the window starts and where
/// "Home" leads back to.
pub const WINDOW_URL: &'static str = "https://messages.google.com/web";

/// The title of the window.
pub const WINDOW_TITLE: &'static str = "Google Messages";

/// The name under which the host keeps the window.
pub const WINDOW_LABEL: &'static str = "main";

/// The width of a new window, in logical pixels.
pub const WINDOW_WIDTH: u32 = 1024;

/// The height of a new window, in logical pixels.
pub const WINDOW_HEIGHT: u32 = 768;

/// What the host needs to know to create the window.
#[derive(Clone, Copy, Debug, PartialEq, Eq)]
pub struct WindowConfig {
    pub label: &'static str,
    pub title: &'static str,
    pub url: &'static str,
    pub width: u32,
    pub height: u32,
    pub resizable: bool,
}

/// What a window configuration says, with its texts as characters.
pub struct WindowConfigView {
    pub label: Seq<char>,
    pub title: Seq<char>,
    pub url: Seq<char>,
    pub width: nat,
    pub height: nat,
    pub resizable: bool,
}

impl View for WindowConfig {
    type V = WindowConfigView;

    open spec fn view(&self) -> WindowConfigView {
        WindowConfigView {
            label: self.label@,
            title: self.title@,
            url: self.url@,
            width: self.width as nat,
            height: self.height as nat,
            resizable: self.resizable,
        }
    }
}

/// The one configuration that the shell ever creates its window with.
pub open spec fn fixed_window_config() -> WindowConfigView {
    WindowConfigView {
        label: "main"@,
        title: "Google Messages"@,
        url: "https://messages.google.com/web"@,
        width: 1024,
        height: 768,
        resizable: true,
    }
}

impl WindowConfig {
    /// The configuration of the shell's window.
    pub fn fixed() -> (config: WindowConfig)
        ensures
            config@ == fixed_window_config(),
    {
        WindowConfig {
            label: WINDOW_LABEL,
            title: WINDOW_TITLE,
            url: WINDOW_URL,
            width: WINDOW_WIDTH,
            height: WINDOW_HEIGHT,
            resizable: true,
        }
    }
}

} // verus!
