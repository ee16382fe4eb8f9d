//! The application: which page is on display, and what starts a session.

use rand::rngs::StdRng;
use vstd::prelude::*;

use crate::components::session_page::SessionPageEvent;
use crate::folder::{candidates, distinct_names, FolderEntry};
use crate::page::Page;
use crate::selection::selection_size;
use crate::session::{built_from, Session, SessionError};
use crate::settings::Settings;

verus! {

/// What the application can be told.
#[derive(Debug)]
pub enum AppMsg {
    /// Go back to the settings.
    ShowSettings,
    /// The session has shown its last image.
    ShowSessionComplete,
    /// Something went wrong; the text says what.
    ShowError(String),
    /// Start a session with these settings. With them comes the listing of
    /// their folder: `None` where the folder could not be listed.
    StartNewSession(Settings, Option<Vec<FolderEntry>>),
}

/// What the application hands to one of its pages.
#[derive(Debug)]
pub enum AppAction {
    /// For the session page: this session starts.
    NewSession(Session),
    /// For the error page: show this text.
    ErrorMessage(String),
}

impl AppMsg {
    /// The message by which an event of the session page reaches the
    /// application: an error is shown, a complete session is announced, and
    /// the wish to return leads to the settings. The other events stay on
    /// the session page.
    pub fn for_event(event: &SessionPageEvent) -> (msg: Option<AppMsg>)
        ensures
            msg == match *event {
                SessionPageEvent::ErrorOccurred(text) => Some(AppMsg::ShowError(text)),
                SessionPageEvent::SessionComplete => Some(AppMsg::ShowSessionComplete),
                SessionPageEvent::ReturnToSettings => Some(AppMsg::ShowSettings),
                _ => None,
            },
    {
        match event {
            SessionPageEvent::ErrorOccurred(text) => Some(AppMsg::ShowError(text.clone())),
            SessionPageEvent::SessionComplete => Some(AppMsg::ShowSessionComplete),
            SessionPageEvent::ReturnToSettings => Some(AppMsg::ShowSettings),
            _ => None,
        }
    }
}

/// The text reported when the folder of the settings cannot be listed.
pub open spec fn unreadable_folder_text() -> Seq<char> {
    "Folder unreadable"@
}

/// The application with the page it shows.
#[derive(Debug)]
pub struct App {
    pub page: Page,
}

impl App {
    /// The application as it starts, on the settings.
    pub fn new() -> (app: App)
        ensures
            app.page == Page::Settings,
    {
        App { page: Page::Settings }
    }

    /// Takes the outcome of building a session: a session goes to the
    /// session page, which comes on display; a folder that could not be
    /// read is reported on the error page.
    pub fn session_built(&mut self, built: Result<Session, SessionError>) -> (action: AppAction)
        ensures
            match built {
                Ok(session) => {
                    &&& final(self).page == Page::Session
                    &&& action == AppAction::NewSession(session)
                },
                Err(SessionError::FolderUnreadable) => {
                    &&& final(self).page == Page::Error
                    &&& action matches AppAction::ErrorMessage(text)
                    &&& text@ == unreadable_folder_text()
                },
            },
    {
        match built {
            Ok(session) => {
                self.page = Page::Session;
                AppAction::NewSession(session)
            },
            Err(SessionError::FolderUnreadable) => {
                self.page = Page::Error;
                AppAction::ErrorMessage("Folder unreadable".to_owned())
            },
        }
    }

    /// Applies one message: the page changes, and a page may be handed a
    /// new session or an error text. A session that starts is built from
    /// the listing that came with the settings, its images drawn at random
    /// from `rng`.
    pub fn update(&mut self, msg: AppMsg, rng: &mut StdRng) -> (action: Option<AppAction>)
        ensures
            match msg {
                AppMsg::ShowSettings => final(self).page == Page::Settings && action is None,
                AppMsg::ShowSessionComplete => final(self).page == Page::Complete
                    && action is None,
                AppMsg::ShowError(error) => final(self).page == Page::Error && action == Some(
                    AppAction::ErrorMessage(error),
                ),
                AppMsg::StartNewSession(settings, Some(entries)) => {
                    &&& final(self).page == Page::Session
                    &&& action matches Some(AppAction::NewSession(session))
                    &&& built_from(session@, settings, entries@)
                    &&& session@.images.len() == selection_size(
                        settings.images_number as nat,
                        candidates(settings.folder@, entries@).len(),
                    )
                    &&& forall|i: int|
                        0 <= i < session@.images.len() ==> candidates(
                            settings.folder@,
                            entries@,
                        ).contains(#[trigger] session@.images[i])
                    &&& distinct_names(entries@) ==> session@.images.no_duplicates()
                },
                AppMsg::StartNewSession(_, None) => {
                    &&& final(self).page == Page::Error
                    &&& action matches Some(AppAction::ErrorMessage(text))
                    &&& text@ == unreadable_folder_text()
                },
            },
    {
        match msg {
            AppMsg::ShowSettings => {
                self.page = Page::Settings;
                None
            },
            AppMsg::StartNewSession(settings, listing) => {
                let built = Session::from(&settings, listing, rng);
                Some(self.session_built(built))
            },
            AppMsg::ShowSessionComplete => {
                self.page = Page::Complete;
                None
            },
            AppMsg::ShowError(error) => {
                self.page = Page::Error;
                Some(AppAction::ErrorMessage(error))
            },
        }
    }
}

} // verus!
