//! The settings the bot starts with.

use crate::text::{trim, trim_spaces};
use log::LevelFilter;
use std::collections::HashMap;
use vstd::prelude::*;
use vstd::string::*;

verus! {

#[verifier::external_type_specification]
#[verifier::external_body]
pub struct ExLevelFilter(LevelFilter);

/// All settings.
pub struct Settings {
    pub bot: BotSettings,
    pub logging: LoggingSettings,
    pub database: DatabaseSettings,
}

/// The bot's account and its default prefix.
pub struct BotSettings {
    pub token: String,
    /// The prefix of guilds without a custom one.
    pub prefix: String,
    pub application_id: u64,
}

/// Log levels: one overall, and one per module path.
pub struct LoggingSettings {
    pub level: LevelFilter,
    pub filters: HashMap<String, LevelFilter>,
}

/// Where guild prefixes are stored.
pub struct DatabaseSettings {
    pub url: String,
    pub max_connections: u32,
}

/// A setting that cannot be used.
#[derive(Debug, Clone, Copy, PartialEq, Eq, Structural)]
pub enum SettingsError {
    /// The token is blank.
    MissingToken,
    /// The default prefix is blank.
    MissingPrefix,
    /// The database URL is blank.
    MissingDatabaseUrl,
    /// The connection pool would have no connection.
    NoConnections,
}

/// The first problem of settings with these values, checked in the order of
/// the variants of [`SettingsError`].
pub open spec fn settings_problem(token: Seq<char>, prefix: Seq<char>, url: Seq<char>, max_connections: u32) -> Option<
    SettingsError,
> {
    if trim(token).len() == 0 {
        Some(SettingsError::MissingToken)
    } else if trim(prefix).len() == 0 {
        Some(SettingsError::MissingPrefix)
    } else if trim(url).len() == 0 {
        Some(SettingsError::MissingDatabaseUrl)
    } else if max_connections == 0 {
        Some(SettingsError::NoConnections)
    } else {
        None
    }
}

impl Settings {
    /// Checks that the settings can be used; the process stops otherwise.
    pub fn check(&self) -> (r: Result<(), SettingsError>)
        ensures
            match settings_problem(self.bot.token@, self.bot.prefix@, self.database.url@, self.database.max_connections) {
                Some(e) => r == Err::<(), SettingsError>(e),
                None => r is Ok,
            },
    {
        if trim_spaces(self.bot.token.as_str()).unicode_len() == 0 {
            Err(SettingsError::MissingToken)
        } else if trim_spaces(self.bot.prefix.as_str()).unicode_len() == 0 {
            Err(SettingsError::MissingPrefix)
        } else if trim_spaces(self.database.url.as_str()).unicode_len() == 0 {
            Err(SettingsError::MissingDatabaseUrl)
        } else if self.database.max_connections == 0 {
            Err(SettingsError::NoConnections)
        } else {
            Ok(())
        }
    }
}

} // verus!
