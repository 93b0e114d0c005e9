//! The Plex side: the session model returned by the server, the activity
//! derived from it, and the request URLs.

pub mod activity;
pub mod client;
pub mod media;
