//! Access to a running game client from the same machine: the session
//! with its local control endpoint and the routing to the regional
//! backend, and the gameplay events that its live log tells of.
//!
//! The library computes and decides; it reads no file and sends no
//! request. Its callers hand it what they read and carry out what it
//! answers.

pub mod auth;
pub mod client;
pub mod endpoints;
pub mod error;
pub mod event_bus;
pub mod json;
pub mod log_watcher;
pub mod models;
pub mod server;
pub mod text;

pub use client::ValorantClient;
pub use error::ValorantError;
pub use log_watcher::{LogEvent, LogWatcher};
pub use models::player::NameEntry;
