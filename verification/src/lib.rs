//! A verified playback controller for a music player.

pub mod library;
pub mod models;
pub mod player;
pub mod selection;
pub mod state;
