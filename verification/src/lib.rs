//! A notification relay for a social network's real-time post stream.
//!
//! The relay subscribes to the home timeline of a Misskey server, picks the
//! posts of one author that carry attachments, and forwards a summary of each
//! to a webhook. This crate holds the relay's rules: how an inbound event is
//! decoded and filtered, how the summary is written, what is sent over the
//! wire, and which step the relay loop takes next. Opening the connection,
//! reading from it, posting to the webhook and sleeping are left to the
//! program that drives the loop.

pub mod text;
pub mod event;
pub mod format;
pub mod json;
pub mod decode;
pub mod secrets;
pub mod filter;
pub mod connection;
pub mod delivery;
pub mod relay;
