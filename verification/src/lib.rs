//! Multi-account ChatGPT auth: the saved-accounts index, account selection,
//! rate-limit classification, account rows for display, and the account picker.

pub mod clock;
pub mod text;
pub mod auth;
pub mod metadata;
pub mod account_id;
pub mod store;
pub mod laws;
pub mod limits;
pub mod snapshots;
pub mod display;
pub mod refresh;
pub mod picker;
