//! The verified core of a Discord music bot: queue state, playlists, commands and dashboard rules.

pub mod bot;
pub mod commands;
pub mod data;
pub mod playback;
pub mod playlists;
pub mod session;
pub mod text;
pub mod voice_idle;
pub mod web;
