//! The playback controller of a music player: it turns user interface events, media key events
//! and the player's own reports into orders for the player and into steps for the interface.

pub mod channel;
pub mod controller;
pub mod data;
pub mod duration;
pub mod event;
pub mod event_laws;
pub mod laws;
pub mod media;
pub mod model;
pub mod player;
pub mod queue;
