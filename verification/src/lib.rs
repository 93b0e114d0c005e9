//! Verified core of a Plex-to-Discord rich presence bridge: command-line
//! flag parsing, configuration values, the Plex session model, the activity
//! texts shown on Discord, and the decisions of the polling loop.

pub mod activity_monitor;
pub mod arguments;
pub mod config;
pub mod discord;
pub mod encoding;
pub mod plex;
pub mod text;
