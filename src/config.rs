//! Reporter and collector settings. Loading and saving them is the host's
//! business; the library only reads them.

use vstd::prelude::*;

verus! {

/// Object-store settings for artwork uploads.
pub struct S3Config {
    pub s3_enable: bool,
    /// Directory template; `{year}`, `{month}` and `{day}` are substituted.
    pub upload_path: String,
    pub endpoint: String,
    pub region: String,
    pub bucket_name: String,
    pub access_key: String,
    pub secret_key: String,
    /// Public base URL; when empty, URLs are built from endpoint and bucket.
    pub custom_url: String,
}

/// Settings of the HTTP collector.
pub struct ServerConfig {
    pub endpoint: String,
    pub token: String,
    /// Seconds between two reports.
    pub report_time: i32,
    pub report_smtc: bool,
    pub skip_smtc_cover: bool,
    pub upload_smtc_cover: bool,
    pub log_base64: bool,
    pub s3_config: S3Config,
}

/// What a matching application is shown as.
pub struct Replace {
    pub application: String,
    pub description: String,
}

/// A renaming rule for application names.
pub struct Rule {
    pub match_application: String,
    pub replace: Replace,
}

/// The collector's whole configuration.
pub struct MainConfig {
    pub server_config: ServerConfig,
    pub rules: Vec<Rule>,
}

/// Settings of the streaming reporter.
pub struct ReporterConfig {
    pub enabled: bool,
    pub ws_url: String,
    pub token: String,
    pub enable_media_reporting: bool,
}

/// Settings the host persists.
pub struct AppConfig {
    pub reporter: ReporterConfig,
}

impl Default for ReporterConfig {
    fn default() -> (r: ReporterConfig)
        ensures
            !r.enabled,
            r.ws_url@.len() == 0,
            r.token@.len() == 0,
            !r.enable_media_reporting,
    {
        ReporterConfig {
            enabled: false,
            ws_url: String::new(),
            token: String::new(),
            enable_media_reporting: false,
        }
    }
}

impl Default for AppConfig {
    fn default() -> (r: AppConfig)
        ensures
            !r.reporter.enabled,
            r.reporter.ws_url@.len() == 0,
            r.reporter.token@.len() == 0,
            !r.reporter.enable_media_reporting,
    {
        AppConfig { reporter: ReporterConfig::default() }
    }
}

impl ReporterConfig {
    /// An independent copy with the same settings.
    pub fn copied(&self) -> (r: ReporterConfig)
        ensures
            r == *self,
    {
        ReporterConfig {
            enabled: self.enabled,
            ws_url: self.ws_url.clone(),
            token: self.token.clone(),
            enable_media_reporting: self.enable_media_reporting,
        }
    }
}

impl AppConfig {
    /// The configuration with its reporter settings replaced.
    pub fn with_reporter(self, reporter: ReporterConfig) -> (r: AppConfig)
        ensures
            r.reporter == reporter,
    {
        AppConfig { reporter }
    }
}

} // verus!
