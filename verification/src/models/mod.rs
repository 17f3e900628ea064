//! The data that the backend answers with, as far as the library reads it.

pub mod player;
pub mod session;
