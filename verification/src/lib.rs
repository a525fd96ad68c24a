//! The decisions of the CLI Pulse desktop app.

pub mod account;
pub mod alerts;
pub mod cache;
pub mod clock;
pub mod creds;
pub mod device;
pub mod notify;
pub mod number;
pub mod quota;
pub mod remote;
pub mod requests;
pub mod server;
pub mod startup;
pub mod sync;
pub mod terminal;
pub mod text;
pub mod tray;
pub mod upload;
pub mod usage;
