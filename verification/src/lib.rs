//! Decision logic of a Telegram bot that collects memes from users, lets an
//! administrator approve or decline them, and bans abusive senders.

pub mod text;
pub mod app;
pub mod bot;
pub mod types;
pub mod db;
