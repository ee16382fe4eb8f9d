//! The pages the application can show.

use vstd::prelude::*;

verus! {

/// The page on display.
#[derive(Clone, Copy, Debug, PartialEq, Eq, Structural)]
pub enum Page {
    Settings,
    Session,
    Complete,
    Error,
}

impl Page {
    /// The name under which the page is registered with the presentation.
    pub open spec fn name_text(self) -> Seq<char> {
        match self {
            Page::Settings => "settings"@,
            Page::Session => "session"@,
            Page::Complete => "complete"@,
            Page::Error => "error"@,
        }
    }

    /// The name under which the page is registered with the presentation.
    pub fn name(self) -> (name: &'static str)
        ensures
            name@ == self.name_text(),
    {
        match self {
            Page::Settings => "settings",
            Page::Session => "session",
            Page::Complete => "complete",
            Page::Error => "error",
        }
    }
}

} // verus!
