//! TermTunes core: the verified logic of a terminal music player for Plex
//! Media Server.

pub mod text;
pub mod plex;
pub mod auth;
pub mod audio_setup;
pub mod player;
pub mod ui;
pub mod browser;
pub mod config;
pub mod shuffle;
pub mod app;
pub mod laws;
