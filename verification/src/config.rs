//! The settings of the bot, as they stand in its settings file. They are read once,
//! when the bot starts, and never changed.

use crate::text::text_eq;
use vstd::prelude::*;

verus! {

/// All settings.
#[derive(Clone, Debug)]
pub struct ConfigurationData {
    pub bot: BotConfig,
    pub api: ApiConfig,
}

/// The settings of the bot itself.
#[derive(Clone, Debug)]
pub struct BotConfig {
    pub general: GeneralConfig,
    pub database: DatabaseConfig,
    pub discord: DiscordConfig,
    pub denylist: DenylistConfig,
    pub logging: LoggingConfig,
}

#[derive(Clone, Debug)]
pub struct GeneralConfig {
    pub codename: String,
    pub prefix: String,
}

#[derive(Clone, Debug)]
pub struct LoggingConfig {
    pub enabled: bool,
    /// The name of the level: `error`, `warn`, `info` or `debug`. Any other name stands
    /// for the finest level.
    pub level: String,
}

#[derive(Clone, Debug)]
pub struct DatabaseConfig {
    pub url: String,
}

#[derive(Clone, Debug)]
pub struct DiscordConfig {
    pub appid: u64,
    pub token: String,
}

#[derive(Clone, Debug)]
pub struct DenylistConfig {
    pub spotify: DenylistSpotifyConfig,
}

#[derive(Clone, Debug)]
pub struct DenylistSpotifyConfig {
    pub ids: Vec<u64>,
}

/// The keys of the services that the commands ask.
#[derive(Clone, Debug)]
pub struct ApiConfig {
    pub entertainment: EntertainmentConfig,
    pub minecraft: MinecraftConfig,
    pub music: MusicConfig,
    pub services: ServicesConfig,
}

#[derive(Clone, Debug)]
pub struct EntertainmentConfig {
    /// The key of the film service.
    pub tmdb: String,
}

#[derive(Clone, Debug)]
pub struct MinecraftConfig {
    pub hypixel: String,
}

#[derive(Clone, Debug)]
pub struct MusicConfig {
    pub spotify: SpotifyConfig,
    pub lastfm: LastFmConfig,
    pub lavalink: LavalinkConfig,
}

#[derive(Clone, Debug)]
pub struct ServicesConfig {
    pub github: String,
    pub google: String,
}

#[derive(Clone, Debug)]
pub struct SpotifyConfig {
    pub client_id: String,
    pub client_secret: String,
}

#[derive(Clone, Debug)]
pub struct LastFmConfig {
    pub api_key: String,
}

#[derive(Clone, Debug)]
pub struct LavalinkConfig {
    pub host: String,
    pub port: u16,
    pub password: String,
}

/// How much is logged, from the least to the most.
#[derive(Clone, Copy, Debug, PartialEq, Eq)]
pub enum LogLevel {
    Error,
    Warn,
    Info,
    Debug,
    Trace,
}

/// The level that a name stands for. A name that is none of the four known ones stands
/// for the finest level.
pub open spec fn level_named(name: Seq<char>) -> LogLevel {
    if name == "error"@ {
        LogLevel::Error
    } else if name == "warn"@ {
        LogLevel::Warn
    } else if name == "info"@ {
        LogLevel::Info
    } else if name == "debug"@ {
        LogLevel::Debug
    } else {
        LogLevel::Trace
    }
}

impl LoggingConfig {
    /// The level that the settings name.
    pub fn level(&self) -> (level: LogLevel)
        ensures
            level == level_named(self.level@),
    {
        let name = self.level.as_str();
        if text_eq(name, "error") {
            LogLevel::Error
        } else if text_eq(name, "warn") {
            LogLevel::Warn
        } else if text_eq(name, "info") {
            LogLevel::Info
        } else if text_eq(name, "debug") {
            LogLevel::Debug
        } else {
            LogLevel::Trace
        }
    }
}

impl ConfigurationData {
    /// The key of the film service.
    pub fn tmdb_key(&self) -> (key: &str)
        ensures
            key@ == self.api.entertainment.tmdb@,
    {
        self.api.entertainment.tmdb.as_str()
    }
}

} // verus!
