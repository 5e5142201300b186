//! Process configuration, constructed once at startup and passed by
//! reference into whatever needs it — no ambient global.

use vstd::prelude::*;

verus! {

#[derive(Debug, Clone, PartialEq, Eq)]
pub struct Config {
    pub bot_token: String,
    pub database_url: String,
    pub host: String,
    pub port: u16,
    pub default_imdb_api_key: String,
    pub help_page: String,
}

} // verus!
