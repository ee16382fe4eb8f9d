//! The form in which the user chooses the settings of a session.

use vstd::prelude::*;

use crate::decimal::{parse_number, parsed_number};
use crate::settings::{default_folder, resolved_folder, Settings};

verus! {

/// The settings form with the choices made so far.
#[derive(Debug)]
pub struct SettingsPage {
    settings: Settings,
}

/// What the form can be told.
#[derive(Debug, PartialEq, Eq)]
pub enum SettingsPageMsg {
    /// The user starts a session.
    Start,
    /// The user wants to pick a folder.
    SelectFolder,
    /// The user picked this folder.
    FolderChanged(String),
    /// The user chose this number of images.
    ImagesChanged(usize),
    /// The user chose this display time in seconds, or none.
    DurationChanged(Option<u64>),
    /// The user chose this rest in seconds, or none.
    PauseChanged(Option<u64>),
}

/// What the form asks of the application.
#[derive(Debug, PartialEq, Eq)]
pub enum SettingsPageAction {
    /// Start a session with these settings.
    StartNewSession(Settings),
    /// Open the folder dialog.
    ShowFolderPicker,
}

/// The number of images chosen when the form offers a choice that is not
/// a number.
pub const DEFAULT_IMAGES_NUMBER: usize = 5;

/// The text shown in place of the folder while none is chosen.
pub open spec fn no_folder_text() -> Seq<char> {
    "None"@
}

/// The number of images for a parsed choice: the number itself, and the
/// default where the choice was no number that the machine can count to.
pub open spec fn images_number_of(parsed: Option<u64>) -> usize {
    match parsed {
        Some(number) if number <= usize::MAX => number as usize,
        _ => DEFAULT_IMAGES_NUMBER,
    }
}

/// The number of images for a parsed choice.
pub fn images_number_or_default(parsed: Option<u64>) -> (number: usize)
    ensures
        number == images_number_of(parsed),
{
    match parsed {
        Some(number) => {
            if number <= usize::MAX as u64 {
                number as usize
            } else {
                DEFAULT_IMAGES_NUMBER
            }
        },
        None => DEFAULT_IMAGES_NUMBER,
    }
}

impl SettingsPageMsg {
    /// The message for the choice with this id in the list of image
    /// numbers.
    pub fn images_changed(id: &str) -> (msg: SettingsPageMsg)
        ensures
            msg == SettingsPageMsg::ImagesChanged(images_number_of(parsed_number(id@))),
    {
        SettingsPageMsg::ImagesChanged(images_number_or_default(parse_number(id)))
    }

    /// The message for the choice with this id in the list of display
    /// times: the seconds it names, or none where it names no number.
    pub fn duration_changed(id: &str) -> (msg: SettingsPageMsg)
        ensures
            msg == SettingsPageMsg::DurationChanged(parsed_number(id@)),
    {
        SettingsPageMsg::DurationChanged(parse_number(id))
    }

    /// The message for the choice with this id in the list of rests: the
    /// seconds it names, or none where it names no number.
    pub fn pause_changed(id: &str) -> (msg: SettingsPageMsg)
        ensures
            msg == SettingsPageMsg::PauseChanged(parsed_number(id@)),
    {
        SettingsPageMsg::PauseChanged(parse_number(id))
    }
}

impl View for SettingsPage {
    type V = Settings;

    closed spec fn view(&self) -> Settings {
        self.settings
    }
}

impl SettingsPage {
    /// The settings after one message: a changed choice replaces the one
    /// made before, and nothing else changes.
    pub open spec fn updated(settings: Settings, msg: SettingsPageMsg) -> Settings {
        match msg {
            SettingsPageMsg::FolderChanged(value) => Settings { folder: value, ..settings },
            SettingsPageMsg::ImagesChanged(value) => Settings { images_number: value, ..settings },
            SettingsPageMsg::DurationChanged(value) => Settings { duration: value, ..settings },
            SettingsPageMsg::PauseChanged(value) => Settings { pause: value, ..settings },
            _ => settings,
        }
    }

    /// What the form asks of the application after one message.
    pub open spec fn requested(settings: Settings, msg: SettingsPageMsg) -> Option<
        SettingsPageAction,
    > {
        match msg {
            SettingsPageMsg::Start => Some(SettingsPageAction::StartNewSession(settings)),
            SettingsPageMsg::SelectFolder => Some(SettingsPageAction::ShowFolderPicker),
            _ => None,
        }
    }

    /// The form as it opens, with the default settings for the home folder
    /// `home`.
    pub fn init_model(home: Option<&str>) -> (page: SettingsPage)
        ensures
            page@.folder@ == resolved_folder(default_folder(), home.deep_view()),
            page@.images_number == 10,
            page@.duration is None,
            page@.pause is None,
    {
        SettingsPage { settings: Settings::default(home) }
    }

    /// The choices made so far.
    pub fn settings(&self) -> (settings: &Settings)
        ensures
            *settings == self@,
    {
        &self.settings
    }

    /// The folder as the form shows it: its path, or `None` while no
    /// folder is chosen.
    pub fn get_folder_text(&self) -> (text: String)
        ensures
            text@ == if self@.folder@.len() == 0 {
                no_folder_text()
            } else {
                self@.folder@
            },
    {
        if self.settings.folder.as_str().is_empty() {
            return "None".to_owned();
        }
        self.settings.folder.clone()
    }

    /// Applies one message to the form and returns what it asks of the
    /// application.
    pub fn update(&mut self, msg: SettingsPageMsg) -> (action: Option<SettingsPageAction>)
        ensures
            final(self)@ == Self::updated(old(self)@, msg),
            action == Self::requested(old(self)@, msg),
    {
        match msg {
            SettingsPageMsg::Start => Some(
                SettingsPageAction::StartNewSession(self.settings.clone()),
            ),
            SettingsPageMsg::SelectFolder => Some(SettingsPageAction::ShowFolderPicker),
            SettingsPageMsg::FolderChanged(value) => {
                self.settings.folder = value;
                None
            },
            SettingsPageMsg::ImagesChanged(value) => {
                self.settings.images_number = value;
                None
            },
            SettingsPageMsg::DurationChanged(value) => {
                self.settings.duration = value;
                None
            },
            SettingsPageMsg::PauseChanged(value) => {
                self.settings.pause = value;
                None
            },
        }
    }
}

} // verus!
