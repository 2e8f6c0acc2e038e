//! The bot's settings.

use crate::text::{chars_of, parse_u64, parsed_u64};
use vstd::prelude::*;

verus! {

/// The settings with which the bot runs.
pub struct Config {
    pub discord_token: String,
    pub gemini_api_key: Option<String>,
    pub tv_channel_id: Option<u64>,
    pub db_path: String,
}

/// The channel that a setting names: the number it spells, or none where it
/// is missing or spells no number.
pub open spec fn channel_of(setting: Option<String>) -> Option<u64> {
    match setting {
        Some(text) => parsed_u64(text@),
        None => None,
    }
}

/// The path of the database that a setting names, or the usual one.
pub open spec fn path_of(setting: Option<String>) -> Seq<char> {
    match setting {
        Some(path) => path@,
        None => "everybot.db"@,
    }
}

impl Config {
    /// The settings that the given values make. The token and the key are
    /// taken as they are; the channel is the number that its setting spells;
    /// a missing path is the usual one.
    pub fn from_values(
        discord_token: String,
        gemini_api_key: Option<String>,
        tv_channel_id: Option<String>,
        db_path: Option<String>,
    ) -> (config: Config)
        ensures
            config.discord_token == discord_token,
            config.gemini_api_key == gemini_api_key,
            config.tv_channel_id == channel_of(tv_channel_id),
            config.db_path@ == path_of(db_path),
    {
        let channel = match &tv_channel_id {
            Some(text) => parse_u64(&chars_of(text.as_str())),
            None => None,
        };
        let path = match db_path {
            Some(path) => path,
            None => "everybot.db".to_owned(),
        };
        Config { discord_token, gemini_api_key, tv_channel_id: channel, db_path: path }
    }

    /// Whether the chat assistant can run: it needs both its key and its
    /// channel.
    pub fn assistant_enabled(&self) -> (enabled: bool)
        ensures
            enabled == (self.gemini_api_key is Some && self.tv_channel_id is Some),
    {
        self.gemini_api_key.is_some() && self.tv_channel_id.is_some()
    }
}

} // verus!
