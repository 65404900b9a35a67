//! The application's settings, and the application itself.

use vstd::prelude::*;

use std::sync::Arc;

verus! {

/// Where the proxy listens, and what it stands in front of.
#[derive(Clone, Debug)]
pub struct ServerConfig {
    pub listen_addr: String,
    pub upstream_base_url: String,
}

/// Where usage is kept.
#[derive(Clone, Debug)]
pub struct StorageConfig {
    pub database_path: String,
}

/// How much of the recent past is kept at hand.
#[derive(Clone, Debug)]
pub struct DisplayConfig {
    pub recent_events_capacity: usize,
}

/// Where session logs lie, and how often they are read.
#[derive(Clone, Debug)]
pub struct SessionsConfig {
    pub root_dir: String,
    pub poll_interval_secs: u64,
}

impl SessionsConfig {
    /// The seconds between two scans of the session logs: the configured
    /// number, but at least one.
    pub fn poll_secs(&self) -> (secs: u64)
        ensures
            secs == if self.poll_interval_secs == 0 { 1 } else { self.poll_interval_secs },
    {
        if self.poll_interval_secs == 0 {
            1
        } else {
            self.poll_interval_secs
        }
    }
}

/// The settings of the application.
#[derive(Clone, Debug)]
pub struct AppConfig {
    pub server: ServerConfig,
    pub storage: StorageConfig,
    pub display: DisplayConfig,
    pub sessions: SessionsConfig,
}

/// High-level application orchestrator.
pub struct App {
    pub config: Arc<AppConfig>,
}

impl App {
    /// The application with the given settings.
    pub fn new(config: AppConfig) -> (app: App)
        ensures
            *app.config == config,
    {
        App { config: Arc::new(config) }
    }
}

} // verus!
