//! Playback state, navigation and presentation logic of a terminal music player.
pub mod ring;
pub mod text;
pub mod track;
pub mod app;
pub mod view;
pub mod cover;
pub mod player;
