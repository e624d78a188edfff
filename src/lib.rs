//! Input-blocking session logic: key classification, passphrase digests,
//! the shared lock state machine, the event engine and its timer supervisors.

pub mod utils;
pub mod app_state;
pub mod auth;
pub mod input_blocking;
pub mod supervisors;
pub mod crypto;
pub mod config_file;
pub mod config;
pub mod status;
