//! Turns text into a scannable QR-code image carried in a data URL, and keeps
//! the state of the page that offers it: the last result, the navigation
//! menu and the two legal-notice dialogs.

pub mod data_url;
pub mod encoder;
pub mod state;
