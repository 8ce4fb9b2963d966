//! The decisions behind the control center's front-end commands.

use vstd::prelude::*;
use crate::control_center::ws_client::{
    connect_spec, invalid_url_message, send_refusal, WebSocketClientService,
};
use crate::outside::formats::url_serialization;
use crate::models::enums::ClientRole;
use crate::models::message::WsMessage;
use crate::text::text_result;
use crate::models::payloads::{
    RegisterPayload, RegisterPayloadView, REGISTER_MESSAGE_TYPE, UPDATE_TASK_DEBUG_NOTE_MESSAGE_TYPE,
};

verus! {

/// Whether the main server can be reached, with details.
#[derive(Debug, Clone)]
pub struct ConnectivityStatus {
    pub can_connect: bool,
    pub details: String,
}

/// The connectivity check: for now it reports, as an example, that the main
/// server can be reached.
pub fn check_server_connectivity_cmd() -> (s: ConnectivityStatus)
    ensures
        s.can_connect,
        s.details@ == "Successfully connected to the main server (example)."@,
{
    ConnectivityStatus {
        can_connect: true,
        details: "Successfully connected to the main server (example).".to_owned(),
    }
}

/// A command's answer: whether it succeeded, with a message.
#[derive(Debug, Clone)]
pub struct GenericResponse {
    pub success: bool,
    pub message: Option<String>,
}

/// The address to connect to: the one given, else the one the client
/// configuration names; without either the command fails and says why.
pub open spec fn connect_url_spec(url: Option<Seq<char>>, configured: Result<Seq<char>, Seq<char>>) -> Result<Seq<char>, Seq<char>> {
    match url {
        Some(u) => Ok(u),
        None => match configured {
            Ok(c) => Ok(c),
            Err(e) => Err(
                "[中心端通用命令] 加载客户端配置 (WsClientConfig) 失败: "@ + e
                    + ". 请在调用时提供明确的 URL，或确保配置文件 'config/control_center_config.json' 存在且有效。"@,
            ),
        },
    }
}

/// Chooses the address to connect to, as [`connect_url_spec`] says;
/// `configured` is the address the loaded client configuration names, or the
/// loader's error text.
pub fn connect_url(url: Option<String>, configured: Result<String, String>) -> (r: Result<String, String>)
    ensures
        match r {
            Ok(u) => connect_url_spec(url.deep_view(), text_result(configured)) == Ok::<Seq<char>, Seq<char>>(u@),
            Err(e) => connect_url_spec(url.deep_view(), text_result(configured)) == Err::<Seq<char>, Seq<char>>(e@),
        },
{
    match url {
        Some(u) => Ok(u),
        None => match configured {
            Ok(c) => Ok(c),
            Err(e) => {
                let mut m = "[中心端通用命令] 加载客户端配置 (WsClientConfig) 失败: ".to_owned();
                m.append(e.as_str());
                m.append(". 请在调用时提供明确的 URL，或确保配置文件 'config/control_center_config.json' 存在且有效。");
                Err(m)
            },
        },
    }
}

/// Why the connect command fails once the address was chosen: the attempt
/// could not be started.
pub open spec fn start_failure_message(why: Seq<char>) -> Seq<char> {
    "启动到云服务的连接过程失败: "@ + why
}

/// The connect command: chooses the address as [`connect_url`] does and starts
/// a connection attempt to it. Fails, changing nothing, where no address can be
/// chosen, or where the chosen one is no URL; otherwise gives the address and
/// whether a previous connection task is to be cancelled first.
pub fn connect_to_cloud(
    service: &mut WebSocketClientService,
    url: Option<String>,
    configured: Result<String, String>,
) -> (r: Result<(String, bool), String>)
    ensures
        match connect_url_spec(url.deep_view(), text_result(configured)) {
            Err(why) => r matches Err(e) && e@ == why && final(service)@ == old(service)@,
            Ok(u) => if url_serialization(u) is None {
                &&& r matches Err(e) && e@ == start_failure_message(invalid_url_message(u))
                &&& final(service)@ == old(service)@
            } else {
                &&& r matches Ok((chosen, cancel_previous)) && chosen@ == u
                    && cancel_previous == old(service)@.connection_task_running
                &&& final(service)@ == connect_spec(old(service)@)
            },
        },
{
    let u = match connect_url(url, configured) {
        Ok(u) => u,
        Err(e) => {
            return Err(e);
        },
    };
    match service.connect(u.as_str()) {
        Ok(cancel_previous) => Ok((u, cancel_previous)),
        Err(why) => {
            let mut e = "启动到云服务的连接过程失败: ".to_owned();
            e.append(why.as_str());
            Err(e)
        },
    }
}

/// The registration the control center sends for a group and a task.
pub fn register_payload(group_id: String, task_id: String) -> (p: RegisterPayload)
    ensures
        p@ == (RegisterPayloadView { group_id: group_id@, role: ClientRole::ControlCenter, task_id: task_id@ }),
{
    RegisterPayload { group_id, role: ClientRole::ControlCenter, task_id }
}

/// Frames the registration whose JSON text is `payload_json` (that of
/// [`register_payload`]) and checks it can be handed to the link; a refusal is
/// the link's own, as [`send_refusal`] says.
pub fn register_client_with_task(service: &WebSocketClientService, payload_json: String) -> (r: Result<
    WsMessage,
    String,
>)
    ensures
        match r {
            Ok(m) => send_refusal(service@) is None && m.message_type@ == REGISTER_MESSAGE_TYPE@
                && m.payload@ == payload_json@,
            Err(e) => send_refusal(service@) == Some(e@),
        },
{
    let m = crate::client_link::compose_message(REGISTER_MESSAGE_TYPE, payload_json);
    service.send_ws_message(m)
}

/// Frames a debug-note update around `payload_json` (the JSON text of an
/// [`crate::models::payloads::UpdateTaskDebugNotePayload`]) for sending. A
/// client that is not connected refuses it; a message the link cannot take is
/// refused with the link's reason behind the command's own words.
pub fn update_task_debug_note_cmd(
    service: &WebSocketClientService,
    payload_json: String,
) -> (r: Result<WsMessage, String>)
    ensures
        match r {
            Ok(m) => service@.is_connected && send_refusal(service@) is None
                && m.message_type@ == UPDATE_TASK_DEBUG_NOTE_MESSAGE_TYPE@ && m.payload@ == payload_json@,
            Err(e) => if !service@.is_connected {
                e@ == "无法更新调试备注：WebSocket未连接。"@
            } else {
                send_refusal(service@) matches Some(why) && e@ == "发送更新备注命令失败: "@ + why
            },
        },
{
    if !service.is_connected() {
        return Err("无法更新调试备注：WebSocket未连接。".to_owned());
    }
    let m = crate::client_link::compose_message(UPDATE_TASK_DEBUG_NOTE_MESSAGE_TYPE, payload_json);
    match service.send_ws_message(m) {
        Ok(m) => Ok(m),
        Err(why) => {
            let mut e = "发送更新备注命令失败: ".to_owned();
            e.append(why.as_str());
            Err(e)
        },
    }
}

/// The answer once a debug-note update was handed to the link.
pub fn note_update_sent() -> (r: GenericResponse)
    ensures
        r.success,
        r.message.deep_view() == Some("更新备注请求已发送"@),
{
    GenericResponse { success: true, message: Some("更新备注请求已发送".to_owned()) }
}

} // verus!
