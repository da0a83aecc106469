//! Explicit run configuration. The values are resolved outside the library
//! (environment, platform directories) and threaded in as plain values, so
//! tests can supply an isolated temporary cache root.

use vstd::prelude::*;
use vstd::string::StringExecFns;

verus! {

/// The resolved process configuration.
#[derive(Debug)]
pub struct Config {
    pub ankiconnect_url: String,
    pub deepl_api_key: Option<String>,
    pub libretranslate_url: String,
    pub cache_dir: String,
}

impl Config {
    pub fn new(
        ankiconnect_url: String,
        deepl_api_key: Option<String>,
        libretranslate_url: String,
        cache_dir: String,
    ) -> (r: Self)
        ensures
            r.ankiconnect_url == ankiconnect_url,
            r.deepl_api_key == deepl_api_key,
            r.libretranslate_url == libretranslate_url,
            r.cache_dir == cache_dir,
    {
        Config { ankiconnect_url, deepl_api_key, libretranslate_url, cache_dir }
    }

    /// The cache root.
    pub fn cache_dir(&self) -> (r: &String)
        ensures
            r == self.cache_dir,
    {
        &self.cache_dir
    }

    /// Where frequency snapshots live.
    pub fn frequency_cache_dir(&self) -> (r: String)
        ensures
            r@ == self.cache_dir@ + "/frequency"@,
    {
        let mut p = self.cache_dir.clone();
        p.append("/frequency");
        p
    }

    /// Where translation caches live.
    pub fn translation_cache_dir(&self) -> (r: String)
        ensures
            r@ == self.cache_dir@ + "/translations"@,
    {
        let mut p = self.cache_dir.clone();
        p.append("/translations");
        p
    }
}

} // verus!
