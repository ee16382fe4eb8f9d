//! The engine of a timed image-viewing session: selecting the images of a
//! folder, walking through them, and counting down the seconds between them.

pub mod app;
pub mod components;
pub mod decimal;
pub mod folder;
pub mod page;
pub mod selection;
pub mod session;
pub mod settings;
pub mod timer;
