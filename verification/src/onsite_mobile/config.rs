//! The on-site client's WebSocket settings and what its settings file yields.

use vstd::prelude::*;

verus! {

/// The directory that holds the client's settings file.
pub const CONFIG_DIR: &'static str = "config";
/// The name of the client's settings file.
pub const CONFIG_FILE_NAME: &'static str = "onsite_client_config.json";

/// The client's WebSocket settings.
#[derive(Debug, Clone)]
pub struct WsClientConfig {
    /// Address of the cloud's WebSocket service.
    pub cloud_ws_url: String,
}

/// What reading the settings file found.
#[derive(Debug)]
pub enum ClientConfigRead {
    /// There is no file.
    Missing,
    /// The file exists but could not be read.
    ReadFailed,
    /// The file was read: its contents decoded as settings, or the decoder's
    /// error text.
    Read(Result<WsClientConfig, String>),
}

/// The settings a read of the file at `path` yields: the decoded settings, or
/// an error that names the file and says whether it is missing, unreadable or
/// malformed.
pub open spec fn loaded_client_config(path: Seq<char>, read: ClientConfigRead) -> Result<Seq<char>, Seq<char>> {
    match read {
        ClientConfigRead::Missing => Err(
            "客户端配置文件 '"@ + CONFIG_FILE_NAME@ + " ("@ + path + ")' 未找到。请确保配置文件存在于 '"@
                + CONFIG_DIR@ + "' 目录下，或在连接时通过参数提供 WebSocket URL。"@,
        ),
        ClientConfigRead::ReadFailed => Err(
            "无法读取配置文件 '"@ + CONFIG_FILE_NAME@ + " ("@ + path
                + ")' 的内容。请检查文件权限和路径是否正确。"@,
        ),
        ClientConfigRead::Read(Err(_)) => Err(
            "解析配置文件 '"@ + CONFIG_FILE_NAME@ + " ("@ + path
                + ")' 失败。请确保文件内容是有效的 JSON 格式且符合 WsClientConfig 结构。"@,
        ),
        ClientConfigRead::Read(Ok(c)) => Ok(c.cloud_ws_url@),
    }
}

impl WsClientConfig {
    /// Decides the settings from what reading the file at `path` found, as
    /// [`loaded_client_config`] says (by the settings' address).
    pub fn load(path: &str, read: ClientConfigRead) -> (r: Result<WsClientConfig, String>)
        ensures
            match r {
                Ok(c) => loaded_client_config(path@, read) == Ok::<Seq<char>, Seq<char>>(c.cloud_ws_url@),
                Err(e) => loaded_client_config(path@, read) == Err::<Seq<char>, Seq<char>>(e@),
            },
    {
        match read {
            ClientConfigRead::Missing => {
                let mut m = "客户端配置文件 '".to_owned();
                m.append(CONFIG_FILE_NAME);
                m.append(" (");
                m.append(path);
                m.append(")' 未找到。请确保配置文件存在于 '");
                m.append(CONFIG_DIR);
                m.append("' 目录下，或在连接时通过参数提供 WebSocket URL。");
                Err(m)
            },
            ClientConfigRead::ReadFailed => {
                let mut m = "无法读取配置文件 '".to_owned();
                m.append(CONFIG_FILE_NAME);
                m.append(" (");
                m.append(path);
                m.append(")' 的内容。请检查文件权限和路径是否正确。");
                Err(m)
            },
            ClientConfigRead::Read(Err(_)) => {
                let mut m = "解析配置文件 '".to_owned();
                m.append(CONFIG_FILE_NAME);
                m.append(" (");
                m.append(path);
                m.append(")' 失败。请确保文件内容是有效的 JSON 格式且符合 WsClientConfig 结构。");
                Err(m)
            },
            ClientConfigRead::Read(Ok(c)) => Ok(c),
        }
    }
}

} // verus!
