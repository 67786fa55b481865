//! What is kept between runs: the watchlist.

use crate::text::texts;
use vstd::prelude::*;

verus! {

/// The stored settings.
#[derive(Debug, Clone)]
pub struct Config {
    /// Codes of the securities that are watched.
    pub watchlist: Vec<String>,
}

/// The watchlist of a first run.
pub open spec fn default_watchlist() -> Seq<Seq<char>> {
    seq!["sh600519"@, "sz000858"@, "sh601318"@]
}

impl Default for Config {
    /// The settings of a first run: three securities of the mainland.
    fn default() -> (config: Config)
        ensures
            texts(config.watchlist@) == default_watchlist(),
    {
        let mut watchlist: Vec<String> = Vec::new();
        watchlist.push(String::from_str("sh600519"));
        watchlist.push(String::from_str("sz000858"));
        watchlist.push(String::from_str("sh601318"));
        Config { watchlist }
    }
}

} // verus!
