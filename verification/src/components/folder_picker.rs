//! The dialog in which the user picks the folder of the images.

use vstd::prelude::*;

use crate::components::settings_page::SettingsPageMsg;

verus! {

/// The folder dialog: all it remembers is whether it is open.
#[derive(Debug)]
pub struct FolderPicker {
    visible: bool,
}

/// What the dialog can be told.
#[derive(Debug, PartialEq, Eq)]
pub enum FolderPickerMsg {
    /// Open the dialog.
    Show,
    /// Close the dialog.
    Close,
    /// The user picked this folder.
    SelectFolder(String),
}

impl View for FolderPicker {
    type V = bool;

    closed spec fn view(&self) -> bool {
        self.visible
    }
}

impl FolderPicker {
    /// The dialog before it was ever opened.
    pub fn init_model() -> (picker: FolderPicker)
        ensures
            !picker@,
    {
        FolderPicker { visible: false }
    }

    /// Whether the dialog is open.
    pub fn is_visible(&self) -> (visible: bool)
        ensures
            visible == self@,
    {
        self.visible
    }

    /// Applies one message. The dialog is open after `Show` and closed
    /// after anything else; a picked folder is passed on to the settings
    /// page.
    pub fn update(&mut self, msg: FolderPickerMsg) -> (forward: Option<SettingsPageMsg>)
        ensures
            final(self)@ == (msg is Show),
            match msg {
                FolderPickerMsg::SelectFolder(folder) => forward == Some(
                    SettingsPageMsg::FolderChanged(folder),
                ),
                _ => forward is None,
            },
    {
        match msg {
            FolderPickerMsg::Show => {
                self.visible = true;
                None
            },
            FolderPickerMsg::Close => {
                self.visible = false;
                None
            },
            FolderPickerMsg::SelectFolder(folder) => {
                self.visible = false;
                Some(SettingsPageMsg::FolderChanged(folder))
            },
        }
    }
}

} // verus!
