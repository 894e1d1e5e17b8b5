//! Core of a client that shows a user's social graph: the asynchronous
//! work-and-cache subsystem that a single-threaded UI loop relies on.
//!
//! The UI thread never blocks: it asks the [`cache::AssetCache`] for decoded
//! textures, hands fetch and lookup work to background lanes as job values,
//! and once per frame drains the result channels and applies every completed
//! result to its own state in one reconciliation pass.

pub mod cache;
pub mod channels;
pub mod data;
pub mod image;
pub mod laws;
pub mod login;
pub mod runtime;
pub mod sessions;
pub mod threading;
pub mod updating;
pub mod users;
