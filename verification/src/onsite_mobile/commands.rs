//! The decisions behind the on-site client's front-end commands.

use vstd::prelude::*;
use crate::client_link::compose_message;
use crate::models::enums::ClientRole;
use crate::models::message::WsMessage;
use crate::models::payloads::{
    RegisterPayload, RegisterPayloadView, UpdateTaskDebugNotePayload, ECHO_MESSAGE_TYPE,
    REGISTER_MESSAGE_TYPE,
};
use crate::onsite_mobile::ws_client::{
    connect_spec, invalid_url_message, send_refusal, WebSocketClientService,
};
use crate::outside::formats::{json_reading, read_json_value, trim_text, trimmed, url_serialization};
use crate::text::text_result;

verus! {

/// A command's answer: whether it succeeded, with a message.
#[derive(Debug, Clone)]
pub struct GenericResponse {
    pub success: bool,
    pub message: String,
}

/// The connectivity check: for now a fixed answer that the check succeeded.
pub fn check_server_connectivity_cmd() -> (s: String)
    ensures
        s@ == "Mock server connectivity check: Success"@,
{
    "Mock server connectivity check: Success".to_owned()
}

/// The address to connect to: the one given, else the one the client
/// configuration names; without either the command fails and says why.
pub open spec fn connect_url_spec(url: Option<Seq<char>>, configured: Result<Seq<char>, Seq<char>>) -> Result<Seq<char>, Seq<char>> {
    match url {
        Some(u) => Ok(u),
        None => match configured {
            Ok(c) => Ok(c),
            Err(e) => Err(
                "[SatOnSiteMobile] 加载客户端配置 (WsClientConfig) 失败: "@ + e
                    + "。请在调用时提供明确的 URL，或确保配置文件存在且有效。"@,
            ),
        },
    }
}

/// Chooses the address to connect to, as [`connect_url_spec`] says;
/// `configured` is the address the loaded client configuration names, or the
/// loader's error text.
pub fn connect_url(url: Option<String>, configured: Result<String, String>) -> (r: Result<String, String>)
    ensures
        text_result(r) == connect_url_spec(url.deep_view(), text_result(configured)),
{
    match url {
        Some(u) => Ok(u),
        None => match configured {
            Ok(c) => Ok(c),
            Err(e) => {
                let mut m = "[SatOnSiteMobile] 加载客户端配置 (WsClientConfig) 失败: ".to_owned();
                m.append(e.as_str());
                m.append("。请在调用时提供明确的 URL，或确保配置文件存在且有效。");
                Err(m)
            },
        },
    }
}

/// Why the connect command fails once the address was chosen: the attempt
/// could not be started.
pub open spec fn start_failure_message(why: Seq<char>) -> Seq<char> {
    "连接到云服务失败: "@ + why
}

/// The connect command: chooses the address as [`connect_url`] does and starts
/// a connection attempt to it. Fails, changing nothing, where no address can be
/// chosen, or where the chosen one is no URL; otherwise gives the address and
/// whether a previous connection task is to be cancelled first.
pub fn connect_to_cloud(
    service: &mut WebSocketClientService,
    url: Option<String>,
    configured: Result<String, String>,
) -> (r: Result<(String, bool), String>)
    ensures
        match connect_url_spec(url.deep_view(), text_result(configured)) {
            Err(why) => r matches Err(e) && e@ == why && final(service)@ == old(service)@,
            Ok(u) => if url_serialization(u) is None {
                &&& r matches Err(e) && e@ == start_failure_message(invalid_url_message(u))
                &&& final(service)@ == old(service)@
            } else {
                &&& r matches Ok((chosen, cancel_previous)) && chosen@ == u
                    && cancel_previous == old(service)@.connection_task_running
                &&& final(service)@ == connect_spec(old(service)@)
            },
        },
{
    let u = match connect_url(url, configured) {
        Ok(u) => u,
        Err(e) => {
            return Err(e);
        },
    };
    match service.connect(u.as_str()) {
        Ok(cancel_previous) => Ok((u, cancel_previous)),
        Err(why) => {
            let mut e = "连接到云服务失败: ".to_owned();
            e.append(why.as_str());
            Err(e)
        },
    }
}

/// The registration the on-site client sends for a group and a task.
pub fn register_payload(group_id: String, task_id: String) -> (p: RegisterPayload)
    ensures
        p@ == (RegisterPayloadView { group_id: group_id@, role: ClientRole::OnSiteMobile, task_id: task_id@ }),
{
    RegisterPayload { group_id, role: ClientRole::OnSiteMobile, task_id }
}

/// Frames a message of type `message_type` around `payload_json` and checks it
/// can be sent; a refusal is given behind `prefix`.
fn frame_and_check(
    service: &WebSocketClientService,
    message_type: &str,
    payload_json: String,
    prefix: &str,
) -> (r: Result<WsMessage, String>)
    ensures
        match r {
            Ok(m) => m.message_type@ == message_type@ && m.payload@ == payload_json@
                && send_refusal(service@, m.message_type@, m.message_id@) is None,
            Err(e) => exists|id: Seq<char>|
                #[trigger] send_refusal(service@, message_type@, id) matches Some(why) && e@ == prefix@
                    + why,
        },
{
    let m = compose_message(message_type, payload_json);
    let ghost id = m.message_id@;
    match service.send_ws_message(m) {
        Ok(m) => Ok(m),
        Err(why) => {
            let mut e = prefix.to_owned();
            e.append(why.as_str());
            proof {
                assert(send_refusal(service@, message_type@, id) matches Some(w) && e@ == prefix@ + w);
            }
            Err(e)
        },
    }
}

/// Frames an echo request around `payload_json` (the JSON text of an
/// [`crate::models::payloads::EchoPayload`]) for sending; a refusal of the link
/// is given behind the command's own words.
pub fn send_ws_echo(service: &WebSocketClientService, payload_json: String) -> (r: Result<WsMessage, String>)
    ensures
        match r {
            Ok(m) => m.message_type@ == ECHO_MESSAGE_TYPE@ && m.payload@ == payload_json@
                && send_refusal(service@, m.message_type@, m.message_id@) is None,
            Err(e) => exists|id: Seq<char>|
                #[trigger] send_refusal(service@, ECHO_MESSAGE_TYPE@, id) matches Some(why) && e@
                    == "发送 Echo 消息失败: "@ + why,
        },
{
    frame_and_check(service, ECHO_MESSAGE_TYPE, payload_json, "发送 Echo 消息失败: ")
}

/// Frames a registration around `payload_json` (the JSON text of the
/// [`RegisterPayload`] that [`register_payload`] builds) for sending; a refusal
/// of the link is given behind the command's own words.
pub fn register_client_with_task(service: &WebSocketClientService, payload_json: String) -> (r: Result<WsMessage, String>)
    ensures
        match r {
            Ok(m) => m.message_type@ == REGISTER_MESSAGE_TYPE@ && m.payload@ == payload_json@
                && send_refusal(service@, m.message_type@, m.message_id@) is None,
            Err(e) => exists|id: Seq<char>|
                #[trigger] send_refusal(service@, REGISTER_MESSAGE_TYPE@, id) matches Some(why) && e@
                    == "发送注册消息失败: "@ + why,
        },
{
    frame_and_check(service, REGISTER_MESSAGE_TYPE, payload_json, "发送注册消息失败: ")
}

/// The debug-note update a site sends: refused while the client is not
/// connected; shared data that is blank after trimming is left out; shared
/// data that is not JSON is refused with the parser's reason and the content;
/// otherwise the update carries the note and the shared data as `serde_json`
/// writes it back.
pub open spec fn debug_note_spec(
    connected: bool,
    group_id: Seq<char>,
    new_note: Seq<char>,
    custom: Option<Seq<char>>,
) -> Result<(Seq<char>, Seq<char>, Option<Seq<char>>), Seq<char>> {
    if !connected {
        Err("WebSocket client is not connected. Cannot send debug note."@)
    } else {
        match custom {
            Some(j) => if trimmed(j).len() != 0 {
                match json_reading(j) {
                    Ok(v) => Ok((group_id, new_note, Some(v))),
                    Err(e) => Err(
                        "Invalid JSON format for custom_shared_data: "@ + e + ". Content: '"@ + j + "'"@,
                    ),
                }
            } else {
                Ok((group_id, new_note, None))
            },
            None => Ok((group_id, new_note, None)),
        }
    }
}

/// Builds the debug-note update a site sends, as [`debug_note_spec`] says (the
/// update by its group, note and shared data).
pub fn send_debug_note_from_site_cmd(
    service: &WebSocketClientService,
    group_id: String,
    new_note: String,
    custom_shared_data_json_string: Option<String>,
) -> (r: Result<UpdateTaskDebugNotePayload, String>)
    ensures
        match r {
            Ok(p) => debug_note_spec(
                service@.is_connected,
                group_id@,
                new_note@,
                custom_shared_data_json_string.deep_view(),
            ) == Ok::<(Seq<char>, Seq<char>, Option<Seq<char>>), Seq<char>>(
                (p.group_id@, p.new_note@, p.custom_shared_data.deep_view()),
            ),
            Err(e) => debug_note_spec(
                service@.is_connected,
                group_id@,
                new_note@,
                custom_shared_data_json_string.deep_view(),
            ) == Err::<(Seq<char>, Seq<char>, Option<Seq<char>>), Seq<char>>(e@),
        },
{
    if !service.is_connected() {
        return Err("WebSocket client is not connected. Cannot send debug note.".to_owned());
    }
    let custom = match custom_shared_data_json_string {
        Some(j) => {
            let t = trim_text(j.as_str());
            if t.as_bytes().len() != 0 {
                match read_json_value(j.as_str()) {
                    Ok(v) => Some(v),
                    Err(e) => {
                        let mut m = "Invalid JSON format for custom_shared_data: ".to_owned();
                        m.append(e.as_str());
                        m.append(". Content: '");
                        m.append(j.as_str());
                        m.append("'");
                        return Err(m);
                    },
                }
            } else {
                None
            }
        },
        None => None,
    };
    Ok(UpdateTaskDebugNotePayload { group_id, new_note, custom_shared_data: custom })
}

/// The answer once a debug note was handed to the link for `group_id`.
pub fn debug_note_sent(group_id: &str) -> (r: GenericResponse)
    ensures
        r.success,
        r.message@ == "Debug note message sent successfully to server for group '"@ + group_id@ + "'."@,
{
    let mut m = "Debug note message sent successfully to server for group '".to_owned();
    m.append(group_id);
    m.append("'.");
    GenericResponse { success: true, message: m }
}

} // verus!
