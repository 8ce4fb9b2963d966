//! The decisions of the on-site client's WebSocket client: what each step of a
//! connection's life does to the client's state, and which events and
//! messages it calls for. The transport itself runs outside the library and
//! reports each step here.

use vstd::prelude::*;
use crate::client_link::{
    compose_message, id_text, id_to_text, SendFailure, ServerPayload, ServerPayloadView,
};
use crate::models::enums::role_name;
use crate::models::message::WsMessage;
use crate::models::task_models::{TaskDebugState, TaskDebugStateView};
use crate::onsite_mobile::event::{
    ui_events_view, EchoResponseEventPayload, LocalTaskStateUpdatedEventPayload, UiEvent,
    UiEventView, WsConnectionStatusEvent, WsConnectionStatusEventView,
    WsPartnerStatusEventPayload, WsPartnerStatusEventPayloadView,
    WsRegistrationStatusEventPayload, WsRegistrationStatusEventPayloadView,
};
use crate::models::payloads::PING_MESSAGE_TYPE;
use crate::outside::clock::{elapsed_exceeds, uuid_text, uuid_to_string};
use crate::outside::formats::{parse_url, url_serialization};

verus! {

/// Seconds between two heartbeats.
pub const HEARTBEAT_INTERVAL_SECONDS: u64 = 30;
/// Seconds a pong may be late beyond the heartbeat interval.
pub const PONG_TIMEOUT_SECONDS: u64 = 10;
/// The nanoseconds a pong may be missing before the link counts as lost
/// (`chrono::Duration::seconds` of the interval and the timeout together).
pub const PONG_DEADLINE_NANOS: i128 = 40_000_000_000;

/// Abstract value of a [`WebSocketClientService`].
pub struct ClientStateView {
    pub is_connected: bool,
    pub send_channel_open: bool,
    pub cloud_assigned_client_id: Option<u128>,
    pub last_pong_received_at: Option<i128>,
    pub local_task_state_cache: Option<TaskDebugStateView>,
    pub connection_task_running: bool,
}

/// The state of a client that has never connected.
pub open spec fn initial_client_state() -> ClientStateView {
    ClientStateView {
        is_connected: false,
        send_channel_open: false,
        cloud_assigned_client_id: None,
        last_pong_received_at: None,
        local_task_state_cache: None,
        connection_task_running: false,
    }
}

/// A connection-status event.
pub open spec fn status_event(
    connected: bool,
    client_id: Option<Seq<char>>,
    message: Seq<char>,
) -> WsConnectionStatusEventView {
    WsConnectionStatusEventView { connected, client_id, error_message: Some(message) }
}

/// What a new connection attempt does: a connection task that is still held
/// is cancelled, and with it the link, the assigned id and the pong time are
/// dropped; then a new connection task runs.
pub open spec fn connect_spec(s: ClientStateView) -> ClientStateView {
    let s1 = if s.connection_task_running {
        ClientStateView {
            is_connected: false,
            send_channel_open: false,
            cloud_assigned_client_id: None,
            last_pong_received_at: None,
            ..s
        }
    } else {
        s
    };
    ClientStateView { connection_task_running: true, ..s1 }
}

/// What an opened connection does at `now`: the client is connected, the link
/// can send, and the pong clock starts at `now`.
pub open spec fn opened_spec(s: ClientStateView, now: i128) -> ClientStateView {
    ClientStateView {
        is_connected: true,
        send_channel_open: true,
        last_pong_received_at: Some(now),
        ..s
    }
}

/// What a message from the server does at `now`. A pong restarts the pong
/// clock. A registration answer is passed on; on success the assigned id is
/// kept and the connection status reports it; an answer that did not decode
/// is reported as an internal error with the current connection state. A
/// partner change and an echo are passed on; a task state replaces the cached
/// one and is passed on; an error report from the cloud is reported through the
/// connection status. Anything else changes nothing.
pub open spec fn receive_spec(
    s: ClientStateView,
    payload: ServerPayloadView,
    now: i128,
) -> (ClientStateView, Seq<UiEventView>) {
    let current = s.cloud_assigned_client_id;
    match payload {
        ServerPayloadView::Pong => (ClientStateView { last_pong_received_at: Some(now), ..s }, seq![]),
        ServerPayloadView::RegisterResponse(Ok(r)) => if r.success {
            let id = Some(uuid_text(r.assigned_client_id));
            (
                ClientStateView { cloud_assigned_client_id: Some(r.assigned_client_id), ..s },
                seq![
                    UiEventView::ConnectionStatus(
                        status_event(true, id, "客户端注册成功，已从云端获取并分配客户端ID。"@),
                    ),
                    UiEventView::RegistrationStatus(
                        WsRegistrationStatusEventPayloadView {
                            success: true,
                            message: r.message,
                            assigned_client_id: id,
                            group_id: r.effective_group_id,
                            task_id: None,
                        },
                    ),
                ],
            )
        } else {
            (
                s,
                seq![
                    UiEventView::RegistrationStatus(
                        WsRegistrationStatusEventPayloadView {
                            success: false,
                            message: r.message,
                            assigned_client_id: None,
                            group_id: None,
                            task_id: None,
                        },
                    ),
                ],
            )
        },
        ServerPayloadView::RegisterResponse(Err(e)) => (
            s,
            seq![
                UiEventView::ConnectionStatus(
                    status_event(
                        current is Some,
                        id_text(current),
                        "处理来自云端的注册响应消息时发生内部错误: "@ + e,
                    ),
                ),
            ],
        ),
        ServerPayloadView::PartnerStatusUpdate(Ok(p)) => (
            s,
            seq![
                UiEventView::PartnerStatus(
                    WsPartnerStatusEventPayloadView {
                        partner_role: role_name(p.partner_role),
                        is_online: p.is_online,
                        partner_client_id: Some(uuid_text(p.partner_client_id)),
                        group_id: Some(p.group_id),
                    },
                ),
            ],
        ),
        ServerPayloadView::TaskStateUpdate(Ok(st)) => (
            ClientStateView { local_task_state_cache: Some(st), ..s },
            seq![UiEventView::LocalTaskStateUpdated(st)],
        ),
        ServerPayloadView::Echo(Ok(p)) => (s, seq![UiEventView::EchoResponse(p.content)]),
        ServerPayloadView::ErrorResponse(Ok(e)) => (
            s,
            seq![
                UiEventView::ConnectionStatus(
                    status_event(
                        current is Some,
                        id_text(current),
                        "收到来自云端服务的错误报告: "@ + e.error,
                    ),
                ),
            ],
        ),
        _ => (s, seq![]),
    }
}

/// The state after a connection task ended: the link, the assigned id and the
/// pong time are dropped, and the task is no longer held.
pub open spec fn closed_state(s: ClientStateView) -> ClientStateView {
    ClientStateView {
        is_connected: false,
        send_channel_open: false,
        cloud_assigned_client_id: None,
        last_pong_received_at: None,
        connection_task_running: false,
        ..s
    }
}

/// The event owed when a connection task ends: where the attempt never
/// connected, or the client was connected until now, the loss is reported with
/// the reason, or a default; otherwise nothing is reported.
pub open spec fn closed_event(
    s: ClientStateView,
    attempt_successful: bool,
    reason: Option<Seq<char>>,
) -> Option<WsConnectionStatusEventView> {
    if !attempt_successful || s.is_connected {
        Some(
            WsConnectionStatusEventView {
                connected: false,
                client_id: None,
                error_message: Some(
                    match reason {
                        Some(r) => r,
                        None => "连接已关闭或意外断开"@,
                    },
                ),
            },
        )
    } else {
        None
    }
}

/// The state after a user's disconnect: a connected client stops counting as
/// connected; a client that is not connected stays as it is.
pub open spec fn disconnect_spec(s: ClientStateView) -> ClientStateView {
    ClientStateView { is_connected: false, ..s }
}

/// What the transport is to do on a user's disconnect, and what to report.
#[derive(Debug, Clone)]
pub struct DisconnectPlan {
    /// Close the sending half of the link.
    pub close_sender: bool,
    /// Cancel the connection task.
    pub stop_connection: bool,
    /// The event to raise, if any.
    pub event: Option<WsConnectionStatusEvent>,
}

/// What one beat of the heartbeat is to do.
#[derive(Debug, Clone)]
pub enum HeartbeatStep {
    /// The heartbeat ends.
    Stop,
    /// The pong is overdue: the link counts as lost, this event is raised, and
    /// the heartbeat ends.
    PongTimedOut(WsConnectionStatusEvent),
    /// This ping is sent.
    SendPing(WsMessage),
}

/// Abstract value of a [`HeartbeatStep`]: what the beat decides. The ping
/// itself is described by [`is_ping`].
pub enum HeartbeatStepView {
    Stop,
    PongTimedOut(WsConnectionStatusEventView),
    SendPing,
}

impl View for HeartbeatStep {
    type V = HeartbeatStepView;

    open spec fn view(&self) -> HeartbeatStepView {
        match self {
            HeartbeatStep::Stop => HeartbeatStepView::Stop,
            HeartbeatStep::PongTimedOut(e) => HeartbeatStepView::PongTimedOut(e@),
            HeartbeatStep::SendPing(_) => HeartbeatStepView::SendPing,
        }
    }
}

/// A ping: a message of type `Ping` whose payload is the empty JSON object,
/// under a fresh message id.
pub open spec fn is_ping(m: WsMessage) -> bool {
    &&& m.message_type@ == PING_MESSAGE_TYPE@
    &&& m.payload@ == "{}"@
    &&& exists|id: u128| m.message_id@ == #[trigger] uuid_text(id)
}

/// Why a connection attempt to `url` is refused at once: the text is no URL.
pub open spec fn invalid_url_message(url: Seq<char>) -> Seq<char> {
    "无效的 WebSocket URL: '"@ + url + "'"@
}

/// The reason reported when the connection to the server could not be made,
/// given the transport's error text.
pub open spec fn connect_failure_message(error: Seq<char>) -> Seq<char> {
    "连接到 WebSocket 服务器失败: "@ + error
}

/// What one beat of the heartbeat at `now` does: it stops once the client is
/// no longer connected; a pong older than the deadline marks the link as lost
/// and ends the heartbeat with an event; otherwise a ping is sent where the
/// link can send, and the heartbeat ends where it cannot.
pub open spec fn heartbeat_spec(s: ClientStateView, now: i128) -> (ClientStateView, HeartbeatStepView) {
    if !s.is_connected {
        (s, HeartbeatStepView::Stop)
    } else if s.last_pong_received_at matches Some(t) && now - t > PONG_DEADLINE_NANOS {
        (
            ClientStateView { is_connected: false, ..s },
            HeartbeatStepView::PongTimedOut(
                status_event(false, None, "与云端服务的心跳响应超时，连接可能已丢失。"@),
            ),
        )
    } else if s.send_channel_open {
        (s, HeartbeatStepView::SendPing)
    } else {
        (s, HeartbeatStepView::Stop)
    }
}

/// Why a message could not be handed to the link.
pub open spec fn send_refusal(s: ClientStateView, message_type: Seq<char>, message_id: Seq<char>) -> Option<Seq<char>> {
    if !s.is_connected {
        Some("无法发送 WebSocket 消息：当前未连接到云端服务。"@)
    } else if !s.send_channel_open {
        Some(no_channel_message(message_type, message_id))
    } else {
        None
    }
}

/// What a send answers when the transport refused the message of type
/// `message_type` and id `message_id`, giving `error`.
pub open spec fn transport_failure_message(message_type: Seq<char>, message_id: Seq<char>, error: Seq<char>) -> Seq<char> {
    "发送 WebSocket 消息 (类型: '"@ + message_type + "', ID: '"@ + message_id + "') 失败: "@ + error
        + ". 可能连接已中断。"@
}

/// What a send answers when the message of type `message_type` and id
/// `message_id` could not be written as JSON, the writer giving `error`.
pub open spec fn serialize_failure_message(message_type: Seq<char>, message_id: Seq<char>, error: Seq<char>) -> Seq<char> {
    "序列化 WebSocket 消息 (类型: '"@ + message_type + "', ID: '"@ + message_id + "') 为 JSON 时失败: "@
        + error
}

/// What a send answers when the link has no sending half.
pub open spec fn no_channel_message(message_type: Seq<char>, message_id: Seq<char>) -> Seq<char> {
    "无法发送 WebSocket 消息 (类型: '"@ + message_type + "', ID: '"@ + message_id
        + "')：发送通道不可用 (可能连接已关闭或正在关闭)。"@
}

/// The on-site client's WebSocket client: whether it is connected and can
/// send, the id the cloud assigned it, when the last pong came, the last task
/// state the cloud pushed, and whether its connection task is held.
#[derive(Debug)]
pub struct WebSocketClientService {
    is_connected: bool,
    send_channel_open: bool,
    cloud_assigned_client_id: Option<u128>,
    last_pong_received_at: Option<i128>,
    local_task_state_cache: Option<TaskDebugState>,
    connection_task_running: bool,
}

impl View for WebSocketClientService {
    type V = ClientStateView;

    closed spec fn view(&self) -> ClientStateView {
        ClientStateView {
            is_connected: self.is_connected,
            send_channel_open: self.send_channel_open,
            cloud_assigned_client_id: self.cloud_assigned_client_id,
            last_pong_received_at: self.last_pong_received_at,
            local_task_state_cache: match self.local_task_state_cache {
                Some(st) => Some(st@),
                None => None,
            },
            connection_task_running: self.connection_task_running,
        }
    }
}

/// Builds a connection-status event.
fn make_status_event(connected: bool, client_id: Option<String>, message: String) -> (e: WsConnectionStatusEvent)
    ensures
        e@ == status_event(connected, client_id.deep_view(), message@),
{
    WsConnectionStatusEvent { connected, client_id, error_message: Some(message) }
}

impl WebSocketClientService {
    /// A client that has never connected.
    pub fn new() -> (c: Self)
        ensures
            c@ == initial_client_state(),
    {
        WebSocketClientService {
            is_connected: false,
            send_channel_open: false,
            cloud_assigned_client_id: None,
            last_pong_received_at: None,
            local_task_state_cache: None,
            connection_task_running: false,
        }
    }

    /// Starts a connection attempt to `url_str`. A text that `url::Url::parse`
    /// refuses is refused at once, and nothing changes. Otherwise the attempt
    /// starts as [`connect_spec`] says, and the answer says whether a previous
    /// connection task is to be cancelled first.
    pub fn connect(&mut self, url_str: &str) -> (r: Result<bool, String>)
        ensures
            match r {
                Ok(cancel_previous) => {
                    &&& url_serialization(url_str@) is Some
                    &&& cancel_previous == old(self)@.connection_task_running
                    &&& final(self)@ == connect_spec(old(self)@)
                },
                Err(e) => {
                    &&& url_serialization(url_str@) is None
                    &&& e@ == invalid_url_message(url_str@)
                    &&& final(self)@ == old(self)@
                },
            },
    {
        if parse_url(url_str).is_none() {
            let mut e = "无效的 WebSocket URL: '".to_owned();
            e.append(url_str);
            e.append("'");
            return Err(e);
        }
        let cancel_previous = self.connection_task_running;
        if cancel_previous {
            self.is_connected = false;
            self.send_channel_open = false;
            self.cloud_assigned_client_id = None;
            self.last_pong_received_at = None;
        }
        self.connection_task_running = true;
        Ok(cancel_previous)
    }

    /// Records that the connection opened at `now`, as [`opened_spec`] says, and
    /// gives the event that reports it.
    pub fn on_connection_opened(&mut self, now: i128) -> (e: WsConnectionStatusEvent)
        ensures
            final(self)@ == opened_spec(old(self)@, now),
            e@ == status_event(true, None, "成功连接到云端WebSocket服务"@),
    {
        self.is_connected = true;
        self.send_channel_open = true;
        self.last_pong_received_at = Some(now);
        make_status_event(true, None, "成功连接到云端WebSocket服务".to_owned())
    }

    /// Handles a message from the server, decoded as its type says, at `now`,
    /// as [`receive_spec`] says; returns the events to raise, in order.
    pub fn process_received_message(&mut self, payload: ServerPayload, now: i128) -> (events: Vec<UiEvent>)
        ensures
            (final(self)@, ui_events_view(events@)) == receive_spec(old(self)@, payload@, now),
    {
        let ghost pv = payload@;
        let mut events: Vec<UiEvent> = Vec::new();
        match payload {
            ServerPayload::Pong => {
                self.last_pong_received_at = Some(now);
            },
            ServerPayload::RegisterResponse(Ok(r)) => {
                if r.success {
                    self.cloud_assigned_client_id = Some(r.assigned_client_id);
                    let e = make_status_event(
                        true,
                        Some(uuid_to_string(r.assigned_client_id)),
                        "客户端注册成功，已从云端获取并分配客户端ID。".to_owned(),
                    );
                    events.push(UiEvent::ConnectionStatus(e));
                    let reg = WsRegistrationStatusEventPayload {
                        success: true,
                        message: r.message,
                        assigned_client_id: Some(uuid_to_string(r.assigned_client_id)),
                        group_id: r.effective_group_id,
                        task_id: None,
                    };
                    events.push(UiEvent::RegistrationStatus(reg));
                } else {
                    let reg = WsRegistrationStatusEventPayload {
                        success: false,
                        message: r.message,
                        assigned_client_id: None,
                        group_id: None,
                        task_id: None,
                    };
                    events.push(UiEvent::RegistrationStatus(reg));
                }
            },
            ServerPayload::RegisterResponse(Err(err)) => {
                let mut text = "处理来自云端的注册响应消息时发生内部错误: ".to_owned();
                text.append(err.as_str());
                let e = make_status_event(
                    self.cloud_assigned_client_id.is_some(),
                    id_to_text(self.cloud_assigned_client_id),
                    text,
                );
                events.push(UiEvent::ConnectionStatus(e));
            },
            ServerPayload::PartnerStatusUpdate(Ok(p)) => {
                let e = WsPartnerStatusEventPayload {
                    partner_role: p.partner_role.to_string(),
                    is_online: p.is_online,
                    partner_client_id: Some(uuid_to_string(p.partner_client_id)),
                    group_id: Some(p.group_id),
                };
                events.push(UiEvent::PartnerStatus(e));
            },
            ServerPayload::TaskStateUpdate(Ok(st)) => {
                self.local_task_state_cache = Some(st.duplicate());
                events.push(UiEvent::LocalTaskStateUpdated(LocalTaskStateUpdatedEventPayload { new_state: st }));
            },
            ServerPayload::Echo(Ok(p)) => {
                events.push(UiEvent::EchoResponse(EchoResponseEventPayload { content: p.content }));
            },
            ServerPayload::ErrorResponse(Ok(e)) => {
                let mut text = "收到来自云端服务的错误报告: ".to_owned();
                text.append(e.error.as_str());
                let ev = make_status_event(
                    self.cloud_assigned_client_id.is_some(),
                    id_to_text(self.cloud_assigned_client_id),
                    text,
                );
                events.push(UiEvent::ConnectionStatus(ev));
            },
            _ => {},
        }
        assert(ui_events_view(events@) =~= receive_spec(old(self)@, pv, now).1);
        events
    }

    /// Records that the connection task ended, as [`closed_state`] says;
    /// `attempt_successful` says whether the connection had opened, and
    /// `final_error_message` why it ended. Gives the event [`closed_event`]
    /// describes.
    pub fn on_connection_closed(
        &mut self,
        attempt_successful: bool,
        final_error_message: Option<String>,
    ) -> (e: Option<WsConnectionStatusEvent>)
        ensures
            final(self)@ == closed_state(old(self)@),
            match e {
                Some(ev) => closed_event(old(self)@, attempt_successful, final_error_message.deep_view())
                    == Some(ev@),
                None => closed_event(old(self)@, attempt_successful, final_error_message.deep_view())
                    is None,
            },
    {
        let was_connected = self.is_connected;
        self.is_connected = false;
        self.cloud_assigned_client_id = None;
        self.send_channel_open = false;
        self.last_pong_received_at = None;
        self.connection_task_running = false;
        if !attempt_successful || was_connected {
            let msg = match final_error_message {
                Some(m) => m,
                None => "连接已关闭或意外断开".to_owned(),
            };
            Some(WsConnectionStatusEvent { connected: false, client_id: None, error_message: Some(msg) })
        } else {
            None
        }
    }

    /// Records that the connection to the server could not be made, the
    /// transport giving `error`: the connection task ends, as
    /// [`closed_state`] says, and the failure is reported with
    /// [`connect_failure_message`].
    pub fn on_connect_failed(&mut self, error: String) -> (e: WsConnectionStatusEvent)
        ensures
            final(self)@ == closed_state(old(self)@),
            e@ == (WsConnectionStatusEventView {
                connected: false,
                client_id: None,
                error_message: Some(connect_failure_message(error@)),
            }),
    {
        let mut msg = "连接到 WebSocket 服务器失败: ".to_owned();
        msg.append(error.as_str());
        match self.on_connection_closed(false, Some(msg)) {
            Some(e) => e,
            None => {
                proof {
                    assert(false);
                }
                unreached()
            },
        }
    }

    /// One beat of the heartbeat at `now`, as [`heartbeat_spec`] says; a ping
    /// step carries the ping to send.
    pub fn heartbeat_tick(&mut self, now: i128) -> (step: HeartbeatStep)
        ensures
            (final(self)@, step@) == heartbeat_spec(old(self)@, now),
            step matches HeartbeatStep::SendPing(ping) ==> is_ping(ping),
    {
        if !self.is_connected {
            return HeartbeatStep::Stop;
        }
        match self.last_pong_received_at {
            Some(t) => {
                if elapsed_exceeds(now, t, PONG_DEADLINE_NANOS) {
                    self.is_connected = false;
                    return HeartbeatStep::PongTimedOut(
                        make_status_event(false, None, "与云端服务的心跳响应超时，连接可能已丢失。".to_owned()),
                    );
                }
            },
            None => {},
        }
        if self.send_channel_open {
            HeartbeatStep::SendPing(compose_message(PING_MESSAGE_TYPE, "{}".to_owned()))
        } else {
            HeartbeatStep::Stop
        }
    }

    /// Records that a ping could not be sent: the link counts as lost.
    pub fn on_ping_failed(&mut self)
        ensures
            final(self)@ == (ClientStateView { is_connected: false, ..old(self)@ }),
    {
        self.is_connected = false;
    }

    /// A user's disconnect. A connected client stops counting as connected,
    /// the link is closed and the connection task cancelled (its own ending
    /// clears the rest), and the disconnect is reported; a client that is not
    /// connected does nothing.
    pub fn disconnect(&mut self) -> (plan: DisconnectPlan)
        ensures
            final(self)@ == disconnect_spec(old(self)@),
            old(self)@.is_connected ==> {
                &&& plan.close_sender == old(self)@.send_channel_open
                &&& plan.stop_connection == old(self)@.connection_task_running
                &&& plan.event matches Some(ev) && ev@ == status_event(
                    false,
                    None,
                    "客户端已主动发起断开 WebSocket 连接的操作。"@,
                )
            },
            !old(self)@.is_connected ==> {
                &&& !plan.close_sender
                &&& !plan.stop_connection
                &&& plan.event is None
            },
    {
        if self.is_connected {
            self.is_connected = false;
            DisconnectPlan {
                close_sender: self.send_channel_open,
                stop_connection: self.connection_task_running,
                event: Some(
                    make_status_event(false, None, "客户端已主动发起断开 WebSocket 连接的操作。".to_owned()),
                ),
            }
        } else {
            DisconnectPlan { close_sender: false, stop_connection: false, event: None }
        }
    }

    /// Whether the client is connected.
    pub fn is_connected(&self) -> (b: bool)
        ensures
            b == self@.is_connected,
    {
        self.is_connected
    }

    /// A copy of the cached task state, if there is one.
    pub fn get_cached_task_state(&self) -> (st: Option<TaskDebugState>)
        ensures
            match st {
                Some(x) => self@.local_task_state_cache == Some(x@),
                None => self@.local_task_state_cache is None,
            },
    {
        match &self.local_task_state_cache {
            Some(x) => Some(x.duplicate()),
            None => None,
        }
    }

    /// The answer to sending `message` once the link has tried it: success
    /// where it went out; otherwise the reason, as the link gave it, naming
    /// the message's type and id.
    pub fn send_answer(message: &WsMessage, outcome: Result<(), SendFailure>) -> (r: Result<(), String>)
        ensures
            match outcome {
                Ok(()) => r is Ok,
                Err(SendFailure::NoChannel) => r matches Err(e) && e@ == no_channel_message(
                    message.message_type@,
                    message.message_id@,
                ),
                Err(SendFailure::Serialize(why)) => r matches Err(e) && e@ == serialize_failure_message(
                    message.message_type@,
                    message.message_id@,
                    why@,
                ),
                Err(SendFailure::Transport(why)) => r matches Err(e) && e@ == transport_failure_message(
                    message.message_type@,
                    message.message_id@,
                    why@,
                ),
            },
    {
        match outcome {
            Ok(()) => Ok(()),
            Err(SendFailure::NoChannel) => {
                let mut e = "无法发送 WebSocket 消息 (类型: '".to_owned();
                e.append(message.message_type.as_str());
                e.append("', ID: '");
                e.append(message.message_id.as_str());
                e.append("')：发送通道不可用 (可能连接已关闭或正在关闭)。");
                Err(e)
            },
            Err(SendFailure::Serialize(why)) => {
                let mut e = "序列化 WebSocket 消息 (类型: '".to_owned();
                e.append(message.message_type.as_str());
                e.append("', ID: '");
                e.append(message.message_id.as_str());
                e.append("') 为 JSON 时失败: ");
                e.append(why.as_str());
                Err(e)
            },
            Err(SendFailure::Transport(why)) => {
                let mut e = "发送 WebSocket 消息 (类型: '".to_owned();
                e.append(message.message_type.as_str());
                e.append("', ID: '");
                e.append(message.message_id.as_str());
                e.append("') 失败: ");
                e.append(why.as_str());
                e.append(". 可能连接已中断。");
                Err(e)
            },
        }
    }

    /// Checks that `message` can be handed to the link: refused, as
    /// [`send_refusal`] says, when the client is not connected or the link
    /// cannot send; otherwise the message is given back to be sent.
    pub fn send_ws_message(&self, message: WsMessage) -> (r: Result<WsMessage, String>)
        ensures
            match r {
                Ok(m) => send_refusal(self@, message.message_type@, message.message_id@) is None
                    && m == message,
                Err(e) => send_refusal(self@, message.message_type@, message.message_id@) == Some(e@),
            },
    {
        if !self.is_connected {
            Err("无法发送 WebSocket 消息：当前未连接到云端服务。".to_owned())
        } else if !self.send_channel_open {
            let mut e = "无法发送 WebSocket 消息 (类型: '".to_owned();
            e.append(message.message_type.as_str());
            e.append("', ID: '");
            e.append(message.message_id.as_str());
            e.append("')：发送通道不可用 (可能连接已关闭或正在关闭)。");
            Err(e)
        } else {
            Ok(message)
        }
    }
}

} // verus!
