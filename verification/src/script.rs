//! The scripts that the shell runs inside the page, and what the zoom scripts
//! do to the zoom that the page shows.

use vstd::prelude::*;
use vstd::string::*;
use crate::config::WINDOW_URL;

verus! {

/// A script that the shell asks the web view to run in the page.
#[derive(Clone, Copy, Debug, PartialEq, Eq, Structural)]
pub enum Script {
    /// Load the current page again.
    Reload,
    /// Set the zoom of the page to 1.
    ActualSize,
    /// Raise the zoom of the page by a tenth.
    ZoomIn,
    /// Lower the zoom of the page by a tenth.
    ZoomOut,
    /// Go to the address of the web application.
    Home,
    /// Go one step back in the history of the page.
    Back,
    /// Go one step forward in the history of the page.
    Forward,
}

impl Script {
    /// The text of the script, as the web view gets it.
    pub open spec fn source_spec(self) -> Seq<char> {
        match self {
            Script::Reload => "window.location.reload();"@,
            Script::ActualSize => "document.body.style.zoom = 1;"@,
            Script::ZoomIn =>
                "document.body.style.zoom = (parseFloat(document.body.style.zoom || 1) + 0.1).toFixed(2);"@,
            Script::ZoomOut =>
                "document.body.style.zoom = (parseFloat(document.body.style.zoom || 1) - 0.1).toFixed(2);"@,
            Script::Home => "window.location.href = '"@ + WINDOW_URL@ + "';"@,
            Script::Back => "history.back();"@,
            Script::Forward => "history.forward();"@,
        }
    }

    /// The text of the script, as the web view gets it.
    pub fn source(self) -> (text: String)
        ensures
            text@ == self.source_spec(),
    {
        match self {
            Script::Reload => String::from_str("window.location.reload();"),
            Script::ActualSize => String::from_str("document.body.style.zoom = 1;"),
            Script::ZoomIn => String::from_str(
                "document.body.style.zoom = (parseFloat(document.body.style.zoom || 1) + 0.1).toFixed(2);",
            ),
            Script::ZoomOut => String::from_str(
                "document.body.style.zoom = (parseFloat(document.body.style.zoom || 1) - 0.1).toFixed(2);",
            ),
            Script::Home => {
                let mut text = String::from_str("window.location.href = '");
                text.append(WINDOW_URL);
                text.append("';");
                text
            },
            Script::Back => String::from_str("history.back();"),
            Script::Forward => String::from_str("history.forward();"),
        }
    }

    /// The zoom that the page shows after the script has run, where it showed
    /// `shown` before; both in hundredths. Only the three zoom scripts assign the
    /// zoom. The two steps have no bound: the zoom may fall to zero and below.
    pub open spec fn zoom_after(self, shown: int) -> int {
        match self {
            Script::ActualSize => 100,
            Script::ZoomIn => shown + 10,
            Script::ZoomOut => shown - 10,
            _ => shown,
        }
    }
}

/// The zoom of the page as its body's style holds it, in hundredths, with the
/// two decimals that the zoom scripts write. A page that has not been given a
/// zoom holds none and shows 1.
#[derive(Clone, Copy, Debug, PartialEq, Eq)]
pub struct Zoom {
    pub level: Option<i64>,
}

impl Zoom {
    /// The zoom that the page shows, in hundredths.
    pub open spec fn shown_spec(self) -> int {
        match self.level {
            Some(hundredths) => hundredths as int,
            None => 100,
        }
    }

    /// The zoom of a page that no script has touched.
    pub fn unset() -> (zoom: Zoom)
        ensures
            zoom.level is None,
    {
        Zoom { level: None }
    }

    /// The zoom that the page shows, in hundredths.
    pub fn shown(self) -> (hundredths: i64)
        ensures
            hundredths == self.shown_spec(),
    {
        match self.level {
            Some(hundredths) => hundredths,
            None => 100,
        }
    }

    /// The zoom of the page after `script` has run in it. A zoom script leaves
    /// the page with a zoom of its own; any other script leaves the zoom as it
    /// was.
    pub fn run(self, script: Script) -> (after: Zoom)
        requires
            i64::MIN <= script.zoom_after(self.shown_spec()) <= i64::MAX,
        ensures
            after.shown_spec() == script.zoom_after(self.shown_spec()),
            match script {
                Script::ActualSize | Script::ZoomIn | Script::ZoomOut => after.level is Some,
                _ => after == self,
            },
    {
        match script {
            Script::ActualSize => Zoom { level: Some(100) },
            Script::ZoomIn => Zoom { level: Some(self.shown() + 10) },
            Script::ZoomOut => Zoom { level: Some(self.shown() - 10) },
            _ => self,
        }
    }
}

} // verus!
