//! The decisions of the Spot music player: what each event sends to the
//! players, how the pages react, and how settings are stored and read.

pub mod actions;
pub mod components;
pub mod credits;
pub mod notifier;
pub mod playback;
pub mod settings;
pub mod spotify_id;
pub mod text;
