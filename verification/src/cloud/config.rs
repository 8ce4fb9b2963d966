//! The cloud service's configuration: its defaults, what a settings file yields,
//! and the process-wide configuration that is set once.

use vstd::prelude::*;

verus! {

/// Default host of the WebSocket service.
pub const DEFAULT_WS_HOST: &'static str = "0.0.0.0";
/// Default port of the WebSocket service.
pub const DEFAULT_WS_PORT: u16 = 8088;

/// The early, minimal WebSocket service settings: where to listen.
#[derive(Debug, Clone)]
pub struct WsConfig {
    pub host: String,
    pub port: u16,
}

impl Default for WsConfig {
    /// Listens on [`DEFAULT_WS_HOST`] at [`DEFAULT_WS_PORT`].
    fn default() -> (c: Self)
        ensures
            c.host@ == DEFAULT_WS_HOST@,
            c.port == DEFAULT_WS_PORT,
    {
        WsConfig { host: DEFAULT_WS_HOST.to_owned(), port: DEFAULT_WS_PORT }
    }
}

impl WsConfig {
    /// The early settings are not read from anywhere: this gives the defaults.
    pub fn load() -> (c: Self)
        ensures
            c.host@ == DEFAULT_WS_HOST@,
            c.port == DEFAULT_WS_PORT,
    {
        WsConfig::default()
    }
}

/// The WebSocket service's settings.
#[derive(Debug, Clone)]
pub struct WebSocketConfig {
    /// Host the service binds to.
    pub host: String,
    /// Port the service listens on.
    pub port: u16,
    /// How often the heartbeat monitor checks the clients, in seconds.
    pub heartbeat_check_interval_seconds: u64,
    /// How long a client may stay silent before it is dropped, in seconds.
    pub client_timeout_seconds: u64,
}

/// Abstract value of a [`WebSocketConfig`].
pub struct WebSocketConfigView {
    pub host: Seq<char>,
    pub port: u16,
    pub heartbeat_check_interval_seconds: u64,
    pub client_timeout_seconds: u64,
}

impl View for WebSocketConfig {
    type V = WebSocketConfigView;

    open spec fn view(&self) -> WebSocketConfigView {
        WebSocketConfigView {
            host: self.host@,
            port: self.port,
            heartbeat_check_interval_seconds: self.heartbeat_check_interval_seconds,
            client_timeout_seconds: self.client_timeout_seconds,
        }
    }
}

/// The default WebSocket settings: the local loopback at port 8088, a check
/// every 15 seconds, and a 60-second client timeout.
pub open spec fn default_websocket_config() -> WebSocketConfigView {
    WebSocketConfigView {
        host: "127.0.0.1"@,
        port: 8088,
        heartbeat_check_interval_seconds: 15,
        client_timeout_seconds: 60,
    }
}

impl Default for WebSocketConfig {
    /// The settings [`default_websocket_config`] describes.
    fn default() -> (c: Self)
        ensures
            c@ == default_websocket_config(),
    {
        WebSocketConfig {
            host: "127.0.0.1".to_owned(),
            port: 8088,
            heartbeat_check_interval_seconds: 15,
            client_timeout_seconds: 60,
        }
    }
}

/// The whole configuration of the cloud service.
#[derive(Debug, Clone)]
pub struct AppConfig {
    pub websocket: WebSocketConfig,
}

/// Abstract value of an [`AppConfig`].
pub struct AppConfigView {
    pub websocket: WebSocketConfigView,
}

impl View for AppConfig {
    type V = AppConfigView;

    open spec fn view(&self) -> AppConfigView {
        AppConfigView { websocket: self.websocket@ }
    }
}

/// The default configuration.
pub open spec fn default_app_config() -> AppConfigView {
    AppConfigView { websocket: default_websocket_config() }
}

impl Default for AppConfig {
    /// The configuration [`default_app_config`] describes.
    fn default() -> (c: Self)
        ensures
            c@ == default_app_config(),
    {
        AppConfig { websocket: WebSocketConfig::default() }
    }
}

/// What an attempt to read the settings file found.
#[derive(Debug)]
pub enum ConfigFileOutcome {
    /// The directory for the settings could not be found or made.
    DirectoryUnavailable,
    /// The file could not be read (it is missing, or not readable).
    Unreadable,
    /// The file was read, but its contents are not a configuration.
    Malformed,
    /// The file held this configuration.
    Parsed(AppConfig),
}

/// The configuration that a settings file yields, and whether the defaults are
/// to be written back to it: a parsed file is used as it is; a missing,
/// unreadable or malformed file gives the defaults, which are then saved; when
/// there is no directory for the file, the defaults are used and nothing saved.
pub open spec fn loaded_config(outcome: ConfigFileOutcome) -> (AppConfigView, bool) {
    match outcome {
        ConfigFileOutcome::Parsed(c) => (c@, false),
        ConfigFileOutcome::DirectoryUnavailable => (default_app_config(), false),
        ConfigFileOutcome::Unreadable => (default_app_config(), true),
        ConfigFileOutcome::Malformed => (default_app_config(), true),
    }
}

/// Decides the configuration from what reading the settings file found; the
/// flag says whether the defaults are to be written to the file.
pub fn load_or_create_config(outcome: ConfigFileOutcome) -> (r: (AppConfig, bool))
    ensures
        (r.0@, r.1) == loaded_config(outcome),
{
    match outcome {
        ConfigFileOutcome::Parsed(c) => (c, false),
        ConfigFileOutcome::DirectoryUnavailable => (AppConfig::default(), false),
        ConfigFileOutcome::Unreadable => (AppConfig::default(), true),
        ConfigFileOutcome::Malformed => (AppConfig::default(), true),
    }
}

/// The process-wide configuration: empty until it is set, and never changed
/// once set.
#[derive(Debug)]
pub struct ConfigStore {
    config: Option<AppConfig>,
}

impl View for ConfigStore {
    type V = Option<AppConfigView>;

    closed spec fn view(&self) -> Option<AppConfigView> {
        match self.config {
            Some(c) => Some(c@),
            None => None,
        }
    }
}

impl ConfigStore {
    /// A store that holds no configuration yet.
    pub fn new() -> (s: Self)
        ensures
            s@ is None,
    {
        ConfigStore { config: None }
    }

    /// Whether a configuration has been set.
    pub fn is_initialized(&self) -> (b: bool)
        ensures
            b == self@ is Some,
    {
        self.config.is_some()
    }
}

/// Sets the process-wide configuration to `loaded`, unless one was set before,
/// which then stays. Returns whether `loaded` was taken.
pub fn init_config(store: &mut ConfigStore, loaded: AppConfig) -> (taken: bool)
    ensures
        taken == (old(store)@ is None),
        final(store)@ == (if old(store)@ is None {
            Some(loaded@)
        } else {
            old(store)@
        }),
{
    if store.config.is_none() {
        store.config = Some(loaded);
        true
    } else {
        false
    }
}

/// The process-wide configuration; it must have been set.
pub fn get_config(store: &ConfigStore) -> (c: &AppConfig)
    requires
        store@ is Some,
    ensures
        c@ == store@->0,
{
    match &store.config {
        Some(c) => c,
        None => {
            proof {
                assert(false);
            }
            unreached()
        },
    }
}

} // verus!
