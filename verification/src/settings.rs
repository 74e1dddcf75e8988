//! The settings of a run, read once and handed on.

use crate::text::{decimal_usize, parse_decimal};
use vstd::prelude::*;

verus! {

/// The variable that holds the key for the platform.
pub const API_KEY: &'static str = "API_KEY";

/// The variable that holds the largest number of requests under way.
pub const REQUEST_CONCURRENT: &'static str = "REQUEST_CONCURRENT";

/// The variable that holds the path of the cache file.
pub const CACHE_DEFAULT: &'static str = "CACHE_DEFAULT";

/// The variable that holds the address of the storage service.
pub const MATATABI_SERVER: &'static str = "MATATABI_SERVER";

/// The variable that holds the directory of the roster.
pub const CONFIG_PATH: &'static str = "CONFIG_PATH";

/// The variable that holds the address of the repository of the roster.
pub const CONFIG_REPO: &'static str = "CONFIG_REPO";

/// The largest number of requests under way where none is set.
pub const DEFAULT_CONCURRENCY: usize = 16;

/// The path of the cache file where none is set.
pub const DEFAULT_CACHE_PATH: &'static str = "./.cache.json";

/// The address of the storage service where none is set.
pub const DEFAULT_SERVER: &'static str = "http://[::1]:50051";

/// The directory of the roster where none is set.
pub const DEFAULT_CONFIG_PATH: &'static str = "./.config";

/// The address of the repository of the roster where none is set.
pub const DEFAULT_CONFIG_REPOSITORY: &'static str =
    "https://github.com/ReiRokusanami0010/NekomataLibrary";

/// The cache file of the search for upcoming videos.
pub const VIDEO_SEARCH_CACHE: &'static str = "./.cache/video_search_cache.json";

/// The cache file of the search for channels.
pub const CHANNEL_SEARCH_CACHE: &'static str = "./.cache/ch_search_cache.json";

/// Asks `dotenv::var` for the environment variable `name`, which first reads
/// the file of variables if there is one. `None` where the variable is not
/// set or is no text. Nothing is claimed of what is set.
#[verifier::external_body]
fn variable(name: &str) -> (r: Option<String>) {
    dotenv::var(name).ok()
}

/// The text that is set, or `default`.
pub open spec fn text_or(set: Option<String>, default: Seq<char>) -> Seq<char> {
    match set {
        Some(text) => text@,
        None => default,
    }
}

/// The limit that is set, where it reads as a number, and else the default.
pub open spec fn concurrency_of(set: Option<String>) -> usize {
    match set {
        Some(text) => match decimal_usize(text@) {
            Some(limit) => limit,
            None => DEFAULT_CONCURRENCY,
        },
        None => DEFAULT_CONCURRENCY,
    }
}

fn or_default(set: Option<String>, default: &str) -> (r: String)
    ensures
        r@ == text_or(set, default@),
{
    match set {
        Some(text) => text,
        None => default.to_owned(),
    }
}

/// The settings of a run.
#[derive(Debug, PartialEq, Eq, Hash)]
pub struct Settings {
    /// The key for the platform, if one is set. No request can be sent
    /// without it.
    pub api_key: Option<String>,
    /// The largest number of requests under way.
    pub concurrency: usize,
    /// The path of the cache file.
    pub cache_path: String,
    /// The address of the storage service.
    pub server: String,
    /// The directory of the roster.
    pub config_path: String,
    /// The address of the repository of the roster.
    pub config_repository: String,
}

impl Settings {
    /// The settings for what is set: whatever is not set has its default, but
    /// for the key, which has none.
    pub fn resolve(
        api_key: Option<String>,
        concurrency: Option<String>,
        cache_path: Option<String>,
        server: Option<String>,
        config_path: Option<String>,
        config_repository: Option<String>,
    ) -> (r: Settings)
        ensures
            r.api_key == api_key,
            r.concurrency == concurrency_of(concurrency),
            r.cache_path@ == text_or(cache_path, DEFAULT_CACHE_PATH@),
            r.server@ == text_or(server, DEFAULT_SERVER@),
            r.config_path@ == text_or(config_path, DEFAULT_CONFIG_PATH@),
            r.config_repository@ == text_or(config_repository, DEFAULT_CONFIG_REPOSITORY@),
    {
        let limit = match &concurrency {
            Some(text) => match parse_decimal(text.as_str()) {
                Some(limit) => limit,
                None => DEFAULT_CONCURRENCY,
            },
            None => DEFAULT_CONCURRENCY,
        };
        Settings {
            api_key,
            concurrency: limit,
            cache_path: or_default(cache_path, DEFAULT_CACHE_PATH),
            server: or_default(server, DEFAULT_SERVER),
            config_path: or_default(config_path, DEFAULT_CONFIG_PATH),
            config_repository: or_default(config_repository, DEFAULT_CONFIG_REPOSITORY),
        }
    }

    /// The settings that the environment holds.
    pub fn from_environment() -> (r: Settings) {
        Settings::resolve(
            variable(API_KEY),
            variable(REQUEST_CONCURRENT),
            variable(CACHE_DEFAULT),
            variable(MATATABI_SERVER),
            variable(CONFIG_PATH),
            variable(CONFIG_REPO),
        )
    }
}

} // verus!
