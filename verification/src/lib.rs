//! A terminal service: pseudoterminals kept alive by a daemon, watched and steered by
//! any number of attachments, one of which is in control.
pub mod client;
pub mod daemon;
pub mod encoding;
pub mod error;
pub mod ghostty;
pub mod ownership;
pub mod protocol;
pub mod service;
pub mod text;
pub mod transport;
