//! The pages of the application, each as a state with the messages it takes.

pub mod error_page;
pub mod folder_picker;
pub mod session_page;
pub mod session_timer;
pub mod settings_page;

pub use error_page::{ErrorPage, ErrorPageMsg};
pub use folder_picker::{FolderPicker, FolderPickerMsg};
pub use session_page::{
    ImageTransform, SessionPage, SessionPageEvent, SessionPageEventView, SessionPageMsg,
    SessionPageStep, SessionPageView,
};
pub use session_timer::{SessionTimer, SessionTimerMsg};
pub use settings_page::{SettingsPage, SettingsPageAction, SettingsPageMsg};
