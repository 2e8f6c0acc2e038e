//! Data of the game's data service and the texts made from it.

pub mod catalog;
pub mod client;
pub mod embed;
pub mod models;
