//! The control center's settings: their defaults, and what a settings file
//! yields.

use vstd::prelude::*;

verus! {

/// The control center's settings.
#[derive(Debug, Clone)]
pub struct AppConfig {
    /// Address of the cloud's WebSocket service.
    pub cloud_ws_url: String,
    /// This control center's id.
    pub control_center_id: String,
    /// Log level name.
    pub log_level: String,
    /// Whether to connect to the cloud on start.
    pub auto_connect_cloud: bool,
    /// PLC scan period, in milliseconds.
    pub plc_scan_interval_ms: u64,
}

/// Abstract value of an [`AppConfig`].
pub struct AppConfigView {
    pub cloud_ws_url: Seq<char>,
    pub control_center_id: Seq<char>,
    pub log_level: Seq<char>,
    pub auto_connect_cloud: bool,
    pub plc_scan_interval_ms: u64,
}

impl View for AppConfig {
    type V = AppConfigView;

    open spec fn view(&self) -> AppConfigView {
        AppConfigView {
            cloud_ws_url: self.cloud_ws_url@,
            control_center_id: self.control_center_id@,
            log_level: self.log_level@,
            auto_connect_cloud: self.auto_connect_cloud,
            plc_scan_interval_ms: self.plc_scan_interval_ms,
        }
    }
}

/// The default settings: a cloud on the local machine, the default id, the
/// `info` level, connecting on start, and a one-second PLC scan.
pub open spec fn default_app_config() -> AppConfigView {
    AppConfigView {
        cloud_ws_url: "ws://localhost:8088/ws"@,
        control_center_id: "CC_Default_001"@,
        log_level: "info"@,
        auto_connect_cloud: true,
        plc_scan_interval_ms: 1000,
    }
}

impl Default for AppConfig {
    /// The settings [`default_app_config`] describes.
    fn default() -> (c: Self)
        ensures
            c@ == default_app_config(),
    {
        AppConfig {
            cloud_ws_url: "ws://localhost:8088/ws".to_owned(),
            control_center_id: "CC_Default_001".to_owned(),
            log_level: "info".to_owned(),
            auto_connect_cloud: true,
            plc_scan_interval_ms: 1000,
        }
    }
}

/// What reading the settings file found.
#[derive(Debug)]
pub enum ConfigFileRead {
    /// There is no file.
    Missing,
    /// The file exists but could not be read; the reader's error text.
    ReadFailed(String),
    /// The file was read: its contents decoded as settings, or the decoder's
    /// error text.
    Read(Result<AppConfig, String>),
}

/// The settings a read of the file at `path` yields, and whether the defaults
/// are to be saved there: a missing file gives the defaults, to be saved; an
/// unreadable or undecodable file is an error that names the file and the
/// cause.
pub open spec fn loaded_app_config(path: Seq<char>, read: ConfigFileRead) -> Result<(AppConfigView, bool), Seq<char>> {
    match read {
        ConfigFileRead::Missing => Ok((default_app_config(), true)),
        ConfigFileRead::ReadFailed(e) => Err("读取配置文件 '"@ + path + "' 失败: "@ + e@),
        ConfigFileRead::Read(Err(e)) => Err("解析配置文件 '"@ + path + "' 的内容失败: "@ + e@),
        ConfigFileRead::Read(Ok(c)) => Ok((c@, false)),
    }
}

/// Decides the settings from what reading the file at `path` found, as
/// [`loaded_app_config`] says; on success the flag says whether the defaults
/// are to be saved to the file.
pub fn load_app_config(path: &str, read: ConfigFileRead) -> (r: Result<(AppConfig, bool), String>)
    ensures
        match r {
            Ok((c, save)) => loaded_app_config(path@, read) == Ok::<(AppConfigView, bool), Seq<char>>((c@, save)),
            Err(e) => loaded_app_config(path@, read) == Err::<(AppConfigView, bool), Seq<char>>(e@),
        },
{
    match read {
        ConfigFileRead::Missing => Ok((AppConfig::default(), true)),
        ConfigFileRead::ReadFailed(e) => {
            let mut m = "读取配置文件 '".to_owned();
            m.append(path);
            m.append("' 失败: ");
            m.append(e.as_str());
            Err(m)
        },
        ConfigFileRead::Read(Err(e)) => {
            let mut m = "解析配置文件 '".to_owned();
            m.append(path);
            m.append("' 的内容失败: ");
            m.append(e.as_str());
            Err(m)
        },
        ConfigFileRead::Read(Ok(c)) => Ok((c, false)),
    }
}

/// The settings the control center starts with: those loaded, or the defaults
/// where loading failed.
pub fn init_app_config(loaded: Result<AppConfig, String>) -> (c: AppConfig)
    ensures
        c@ == (match loaded {
            Ok(x) => x@,
            Err(_) => default_app_config(),
        }),
{
    match loaded {
        Ok(x) => x,
        Err(_) => AppConfig::default(),
    }
}

} // verus!
