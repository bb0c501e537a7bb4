//! Application configuration: the persisted record and the manager that
//! resolves the cache directory from it.
//!
//! Field names are camelCase so that the persisted JSON keys match what the
//! player extension writes and reads.

use vstd::prelude::*;

verus! {

/// Default cache bound in gibibytes when the configuration gives none.
pub fn default_max_cache() -> (r: u32)
    ensures
        r == 10u32,
{
    10
}

/// Default UI language tag.
pub fn default_language() -> (r: String)
    ensures
        r@ == "en"@,
{
    String::from_str("en")
}

/// The persisted configuration record.
#[allow(non_snake_case)]
#[derive(Clone, Debug)]
pub struct AppConfig {
    pub setupComplete: bool,
    pub videoFolder: String,
    pub maxCacheGB: u32,
    pub startMinimized: bool,
    pub startOnBoot: bool,
    pub language: String,
    /// Path of a cookie-jar file for age-restricted content; empty when unset.
    pub cookiesFile: String,
}

/// The configuration all defaults produce: empty paths, a 10 GiB cache
/// bound and English UI.
pub open spec fn is_default_config(c: AppConfig) -> bool {
    &&& c.setupComplete == false
    &&& c.videoFolder@ == Seq::<char>::empty()
    &&& c.maxCacheGB == 10u32
    &&& c.startMinimized == false
    &&& c.startOnBoot == false
    &&& c.language@ == "en"@
    &&& c.cookiesFile@ == Seq::<char>::empty()
}

impl Default for AppConfig {
    fn default() -> (c: AppConfig)
        ensures
            is_default_config(c),
    {
        AppConfig {
            setupComplete: false,
            videoFolder: String::new(),
            maxCacheGB: 10,
            startMinimized: false,
            startOnBoot: false,
            language: String::from_str("en"),
            cookiesFile: String::new(),
        }
    }
}

impl AppConfig {
    /// A field-by-field copy, equal to the original.
    pub fn duplicate(&self) -> (c: AppConfig)
        ensures
            c == *self,
    {
        AppConfig {
            setupComplete: self.setupComplete,
            videoFolder: self.videoFolder.clone(),
            maxCacheGB: self.maxCacheGB,
            startMinimized: self.startMinimized,
            startOnBoot: self.startOnBoot,
            language: self.language.clone(),
            cookiesFile: self.cookiesFile.clone(),
        }
    }

    /// The cache bound in bytes: `maxCacheGB` gibibytes; zero means unbounded.
    pub fn max_cache_bytes(&self) -> (r: u64)
        ensures
            r == self.maxCacheGB as u64 * 0x4000_0000,
    {
        (self.maxCacheGB as u64) * 0x4000_0000
    }
}

/// Holds the current configuration together with the per-user data
/// directory it was loaded from.
pub struct ConfigManager {
    data_dir: String,
    config: AppConfig,
}

impl ConfigManager {
    /// Builds the manager from the data directory and the record read from
    /// disk; with no record, defaults apply and the video folder is placed
    /// under the data directory.
    pub fn new(data_dir: String, loaded: Option<AppConfig>) -> (m: ConfigManager)
        ensures
            m.data_dir() == data_dir@,
            match loaded {
                Some(c) => m.spec_config() == c,
                None => {
                    &&& m.spec_config().videoFolder@ == data_dir@ + "/videos"@
                    &&& m.spec_config().setupComplete == false
                    &&& m.spec_config().maxCacheGB == 10u32
                    &&& m.spec_config().startMinimized == false
                    &&& m.spec_config().startOnBoot == false
                    &&& m.spec_config().language@ == "en"@
                    &&& m.spec_config().cookiesFile@ == Seq::<char>::empty()
                },
            },
    {
        match loaded {
            Some(c) => ConfigManager { data_dir, config: c },
            None => {
                let mut folder = data_dir.clone();
                folder.append("/videos");
                let mut config = AppConfig::default();
                config.videoFolder = folder;
                ConfigManager { data_dir, config }
            },
        }
    }

    /// The data directory this manager was created with.
    pub closed spec fn data_dir(&self) -> Seq<char> {
        self.data_dir@
    }

    /// The configuration currently held.
    pub closed spec fn spec_config(&self) -> AppConfig {
        self.config
    }

    /// Read access to the current configuration.
    pub fn get_config(&self) -> (c: &AppConfig)
        ensures
            *c == self.spec_config(),
    {
        &self.config
    }

    /// The cache directory: the configured folder, or the default one under
    /// the data directory when the configured folder is empty.
    pub fn get_video_folder(&self) -> (r: String)
        ensures
            r@ == if self.spec_config().videoFolder@.len() == 0 {
                self.data_dir() + "/videos"@
            } else {
                self.spec_config().videoFolder@
            },
    {
        if self.config.videoFolder.as_str().is_empty() {
            self.get_default_video_folder()
        } else {
            self.config.videoFolder.clone()
        }
    }

    /// The default cache directory under the data directory.
    pub fn get_default_video_folder(&self) -> (r: String)
        ensures
            r@ == self.data_dir() + "/videos"@,
    {
        let mut r = self.data_dir.clone();
        r.append("/videos");
        r
    }

    /// Where the configuration record is persisted.
    pub fn config_path(&self) -> (r: String)
        ensures
            r@ == self.data_dir() + "/config.json"@,
    {
        let mut r = self.data_dir.clone();
        r.append("/config.json");
        r
    }

    /// Replaces the held configuration; the caller persists it.
    pub fn save_config(&mut self, config: &AppConfig)
        ensures
            final(self).spec_config() == *config,
            final(self).data_dir() == old(self).data_dir(),
    {
        self.config = config.duplicate();
    }
}

} // verus!
