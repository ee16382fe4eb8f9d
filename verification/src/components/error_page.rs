//! The page that tells the user what went wrong.

use vstd::prelude::*;

verus! {

/// The error page with the text it shows.
#[derive(Debug)]
pub struct ErrorPage {
    message: String,
}

/// What the error page can be told.
#[derive(Debug, PartialEq, Eq)]
pub enum ErrorPageMsg {
    /// Show this text.
    ErrorMessage(String),
}

impl View for ErrorPage {
    type V = Seq<char>;

    closed spec fn view(&self) -> Seq<char> {
        self.message@
    }
}

impl ErrorPage {
    /// The page before anything went wrong: it shows no text.
    pub fn init_model() -> (page: ErrorPage)
        ensures
            page@.len() == 0,
    {
        ErrorPage { message: String::new() }
    }

    /// The text on the page.
    pub fn message(&self) -> (message: &String)
        ensures
            message@ == self@,
    {
        &self.message
    }

    /// Applies one message: the page shows the text it was sent.
    pub fn update(&mut self, msg: ErrorPageMsg)
        ensures
            msg matches ErrorPageMsg::ErrorMessage(text) && final(self)@ == text@,
    {
        match msg {
            ErrorPageMsg::ErrorMessage(text) => {
                self.message = text;
            },
        }
    }
}

} // verus!
