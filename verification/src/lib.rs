//! Playback control for a chat bot that plays audio in voice channels, one
//! independent session per guild, with the data and text helpers that the
//! bot's commands share.

pub mod ai;
pub mod commands;
pub mod config;
pub mod events;
pub mod music;
pub mod tarkov;
pub mod text;
pub mod utils;
