//! Rows the bot stores.
pub mod types;
