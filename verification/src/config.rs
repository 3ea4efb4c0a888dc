use crate::text::strings;
use vstd::prelude::*;

verus! {

/// HTTP server settings.
#[derive(Debug, Clone)]
pub struct ServerConfig {
    /// Port to listen on.
    pub port: u16,
    /// Address to bind to.
    pub bind: String,
    /// Largest upload that is accepted, in bytes.
    pub max_upload_size: usize,
}

/// Search settings.
#[derive(Debug, Clone)]
pub struct SearchConfig {
    /// Number of results where the caller asks for none.
    pub default_limit: usize,
    /// Largest number of results.
    pub max_limit: usize,
    /// Size of the index writer's buffer, in bytes.
    pub index_buffer_size: usize,
    /// Language where the caller names none.
    pub default_lang: String,
}

/// Terminal interface settings.
#[derive(Debug, Clone)]
pub struct TuiConfig {
    /// How long to wait for an event, in milliseconds.
    pub poll_timeout_ms: u64,
    /// Number of log lines that are kept.
    pub log_buffer_size: usize,
    /// Lines by which the detail view scrolls.
    pub scroll_step: u16,
}

/// Storage settings.
#[derive(Debug, Clone)]
pub struct StorageConfig {
    /// Data directory; `None` for the default place.
    pub data_dir: Option<String>,
    /// File name of the database.
    pub db_filename: String,
    /// Directory name of the index.
    pub index_dirname: String,
    /// Directory name of the logs.
    pub log_dirname: String,
}

/// Logging settings.
#[derive(Debug, Clone)]
pub struct LoggingConfig {
    /// Log level.
    pub level: String,
    /// Log level in debug mode.
    pub debug_level: String,
}

/// Update settings.
#[derive(Debug, Clone)]
pub struct UpdateConfig {
    /// Where the latest release of the pages is asked for.
    pub github_api_url: String,
    /// Where a release is downloaded; `{version}` stands for its tag.
    pub download_url_template: String,
    /// User agent of the requests.
    pub user_agent: String,
    /// Release to take where the latest cannot be asked for.
    pub fallback_version: String,
    /// Languages to import; none for all.
    pub languages: Vec<String>,
}

/// All settings of the application.
#[derive(Debug, Clone)]
pub struct AppConfig {
    pub server: ServerConfig,
    pub search: SearchConfig,
    pub tui: TuiConfig,
    pub storage: StorageConfig,
    pub logging: LoggingConfig,
    pub update: UpdateConfig,
}

impl ServerConfig {
    /// Tells whether these are the settings that hold where none are
    /// given.
    pub open spec fn is_default(&self) -> bool {
        self.port == 3030 && self.bind@ == "127.0.0.1"@ && self.max_upload_size == 104857600
    }
}

impl Default for ServerConfig {
    fn default() -> (c: Self)
        ensures
            c.is_default(),
    {
        ServerConfig { port: 3030, bind: "127.0.0.1".to_owned(), max_upload_size: 104857600 }
    }
}

impl SearchConfig {
    /// Tells whether these are the settings that hold where none are
    /// given.
    pub open spec fn is_default(&self) -> bool {
        self.default_limit == 20 && self.max_limit == 100 && self.index_buffer_size == 50000000
            && self.default_lang@ == "en"@
    }
}

impl Default for SearchConfig {
    fn default() -> (c: Self)
        ensures
            c.is_default(),
    {
        SearchConfig {
            default_limit: 20,
            max_limit: 100,
            index_buffer_size: 50000000,
            default_lang: "en".to_owned(),
        }
    }
}

impl TuiConfig {
    /// Tells whether these are the settings that hold where none are
    /// given.
    pub open spec fn is_default(&self) -> bool {
        self.poll_timeout_ms == 100 && self.log_buffer_size == 100 && self.scroll_step == 1
    }
}

impl Default for TuiConfig {
    fn default() -> (c: Self)
        ensures
            c.is_default(),
    {
        TuiConfig { poll_timeout_ms: 100, log_buffer_size: 100, scroll_step: 1 }
    }
}

impl StorageConfig {
    /// Tells whether these are the settings that hold where none are
    /// given.
    pub open spec fn is_default(&self) -> bool {
        self.data_dir is None && self.db_filename@ == "data.redb"@ && self.index_dirname@
            == "index"@ && self.log_dirname@ == "logs"@
    }
}

impl Default for StorageConfig {
    fn default() -> (c: Self)
        ensures
            c.is_default(),
    {
        StorageConfig {
            data_dir: None,
            db_filename: "data.redb".to_owned(),
            index_dirname: "index".to_owned(),
            log_dirname: "logs".to_owned(),
        }
    }
}

impl LoggingConfig {
    /// Tells whether these are the settings that hold where none are
    /// given.
    pub open spec fn is_default(&self) -> bool {
        self.level@ == "info"@ && self.debug_level@ == "debug,tantivy=info"@
    }
}

impl Default for LoggingConfig {
    fn default() -> (c: Self)
        ensures
            c.is_default(),
    {
        LoggingConfig { level: "info".to_owned(), debug_level: "debug,tantivy=info".to_owned() }
    }
}

impl UpdateConfig {
    /// Tells whether these are the settings that hold where none are
    /// given.
    pub open spec fn is_default(&self) -> bool {
        self.github_api_url@ == "https://api.github.com/repos/tldr-pages/tldr/releases/latest"@
            && self.download_url_template@
            == "https://github.com/tldr-pages/tldr/archive/refs/tags/{version}.zip"@
            && self.user_agent@ == "Mozilla/5.0 (Windows NT 10.0; Win64; x64) AppleWebKit/537.36"@
            && self.fallback_version@ == "v2.3"@ && strings(self.languages@) == seq![
            "en"@,
            "zh"@,
        ]
    }
}

impl Default for UpdateConfig {
    fn default() -> (c: Self)
        ensures
            c.is_default(),
    {
        let mut languages: Vec<String> = Vec::new();
        languages.push("en".to_owned());
        languages.push("zh".to_owned());
        assert(strings(languages@) =~= seq!["en"@, "zh"@]);
        UpdateConfig {
            github_api_url: "https://api.github.com/repos/tldr-pages/tldr/releases/latest".to_owned(),
            download_url_template: "https://github.com/tldr-pages/tldr/archive/refs/tags/{version}.zip".to_owned(),
            user_agent: "Mozilla/5.0 (Windows NT 10.0; Win64; x64) AppleWebKit/537.36".to_owned(),
            fallback_version: "v2.3".to_owned(),
            languages,
        }
    }
}

impl Default for AppConfig {
    fn default() -> (c: Self)
        ensures
            c.is_default(),
    {
        AppConfig {
            server: ServerConfig::default(),
            search: SearchConfig::default(),
            tui: TuiConfig::default(),
            storage: StorageConfig::default(),
            logging: LoggingConfig::default(),
            update: UpdateConfig::default(),
        }
    }
}

impl AppConfig {
    /// Tells whether these are the settings that hold where none are
    /// given.
    pub open spec fn is_default(&self) -> bool {
        self.server.is_default() && self.search.is_default() && self.tui.is_default()
            && self.storage.is_default() && self.logging.is_default() && self.update.is_default()
    }

    /// The settings of a configuration file: those that were read from
    /// it, or the default ones where there is no file or it cannot be
    /// read.
    pub fn load(file: Option<AppConfig>) -> (c: AppConfig)
        ensures
            match file {
                Some(read) => c == read,
                None => c.is_default(),
            },
    {
        match file {
            Some(read) => read,
            None => AppConfig::default(),
        }
    }

    /// The settings from the usual places: those of the file in the
    /// current directory where there is one, `Some(None)` standing for a
    /// file that cannot be read; else those of the file in the data
    /// directory; else the default ones.
    pub fn load_default(current: Option<Option<AppConfig>>, data: Option<Option<AppConfig>>) -> (c:
        AppConfig)
        ensures
            match current {
                Some(Some(read)) => c == read,
                Some(None) => c.is_default(),
                None => match data {
                    Some(Some(read)) => c == read,
                    _ => c.is_default(),
                },
            },
    {
        match current {
            Some(file) => AppConfig::load(file),
            None => match data {
                Some(file) => AppConfig::load(file),
                None => AppConfig::default(),
            },
        }
    }

    /// The data directory: the one these settings name; else the one
    /// that the environment names, `from_env`; else the default one.
    pub fn get_data_dir(&self, from_env: Option<String>, default_dir: String) -> (dir: String)
        ensures
            dir@ == match self.storage.data_dir {
                Some(own) => own@,
                None => match from_env {
                    Some(named) => named@,
                    None => default_dir@,
                },
            },
    {
        match &self.storage.data_dir {
            Some(own) => own.clone(),
            None => match from_env {
                Some(named) => named,
                None => default_dir,
            },
        }
    }
}

} // verus!
