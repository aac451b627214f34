//! Verified core of a browser dashboard for a music-playback daemon.
//!
//! The crate holds the decisions and projections of the dashboard: the push
//! loop that mirrors daemon changes to a browser, the status and queue view
//! models, the library ordering rules, the artwork scaling rule and the
//! bounded artwork cache. Everything that touches a socket or a file lives
//! with the caller.

pub mod art;
pub mod cache;
pub mod control;
pub mod failure;
pub mod library;
pub mod mpd;
pub mod push;
pub mod ranking;
pub mod templates;
pub mod text;
