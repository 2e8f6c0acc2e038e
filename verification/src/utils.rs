//! Helpers for what is shown to users.

pub mod components;
pub mod embed;
