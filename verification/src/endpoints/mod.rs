//! The requests that the library knows, one file per service: where each
//! goes and what its answer means.

pub mod coregame;
pub mod local;
pub mod pd;
pub mod pregame;
