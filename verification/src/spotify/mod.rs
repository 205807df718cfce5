//! The Spotify side: the Connect device, its session's lifecycle and track
//! metadata.

pub mod metadata;
pub mod player;
pub mod session;
