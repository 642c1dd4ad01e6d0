//! A small music player: scanning a folder for audio files, a playlist,
//! and the decisions of the playback actor and of the transport controls.

pub mod controller;
pub mod library;
pub mod player;
pub mod playlist;
pub mod text;
