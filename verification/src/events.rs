//! Reactions to what happens around a guild's voice session.

pub mod component;
pub mod voice_state;
