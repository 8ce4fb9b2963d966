//! The decisions of the control center's WebSocket client: what each step of a
//! connection's life does to the client's state, and which events and
//! messages it calls for. The transport itself runs outside the library and
//! reports each step here.

use vstd::prelude::*;
use crate::client_link::{compose_message, SendFailure, ServerPayload, ServerPayloadView};
use crate::control_center::event::{
    ui_events_view, EchoResponseEventPayload, LocalTaskStateUpdatedEventPayload, UiEvent,
    UiEventView, WsConnectionStatusEvent, WsConnectionStatusEventView,
    WsPartnerStatusEventPayload, WsPartnerStatusEventPayloadView,
    WsRegistrationStatusEventPayload, WsRegistrationStatusEventPayloadView,
    WsServerErrorEventPayload, WsServerErrorEventPayloadView,
};
use crate::models::enums::{role_name, ClientRole};
use crate::models::message::WsMessage;
use crate::models::payloads::{ECHO_MESSAGE_TYPE, PING_MESSAGE_TYPE};
use crate::models::task_models::{TaskDebugState, TaskDebugStateView};
use crate::outside::clock::{
    elapsed_exceeds, seconds_as_chrono_millis, uuid_text, uuid_to_string, NANOS_PER_SECOND,
};
use crate::outside::formats::{parse_url, url_serialization};

verus! {

/// Seconds between two heartbeats.
pub const HEARTBEAT_INTERVAL_SECONDS: u64 = 30;
/// Seconds a pong may be late beyond the heartbeat interval.
pub const PONG_TIMEOUT_SECONDS: u64 = 10;

/// Abstract value of a [`WebSocketClientService`].
pub struct ClientStateView {
    pub is_connected: bool,
    pub send_channel_open: bool,
    pub cloud_assigned_client_id: Option<u128>,
    pub last_pong_received_at: Option<i128>,
    pub local_task_state_cache: Option<TaskDebugStateView>,
    pub connection_task_running: bool,
    pub heartbeat_task_running: bool,
}

/// The state of a client that has never connected.
pub open spec fn initial_client_state() -> ClientStateView {
    ClientStateView {
        is_connected: false,
        send_channel_open: false,
        cloud_assigned_client_id: None,
        last_pong_received_at: None,
        local_task_state_cache: None,
        connection_task_running: false,
        heartbeat_task_running: false,
    }
}

/// A connection-status event.
pub open spec fn status_event(
    connected: bool,
    client_id: Option<Seq<char>>,
    message: Seq<char>,
) -> WsConnectionStatusEventView {
    WsConnectionStatusEventView { connected, client_id, error_message: Some(message) }
}

/// What a new connection attempt does: a connection task that is still held
/// is cancelled, and with it the link, the heartbeat, the assigned id and the
/// pong time are dropped; then a new connection task runs.
pub open spec fn connect_spec(s: ClientStateView) -> ClientStateView {
    let s1 = if s.connection_task_running {
        ClientStateView {
            is_connected: false,
            send_channel_open: false,
            cloud_assigned_client_id: None,
            heartbeat_task_running: false,
            last_pong_received_at: None,
            ..s
        }
    } else {
        s
    };
    ClientStateView { connection_task_running: true, ..s1 }
}

/// Why a connection attempt to `url` is refused at once: the text is no URL.
pub open spec fn invalid_url_message(url: Seq<char>) -> Seq<char> {
    "无效的 WebSocket URL: '"@ + url + "'"@
}

/// The reason reported when the connection to the server could not be made,
/// given the transport's error text.
pub open spec fn connect_failure_message(error: Seq<char>) -> Seq<char> {
    "连接到 WebSocket 服务器失败: "@ + error
}

/// What an opened connection does at `now`: the client is connected, the link
/// can send, the heartbeat runs, and the pong clock starts at `now`.
pub open spec fn opened_spec(s: ClientStateView, now: i128) -> ClientStateView {
    ClientStateView {
        is_connected: true,
        send_channel_open: true,
        heartbeat_task_running: true,
        last_pong_received_at: Some(now),
        ..s
    }
}

/// The text form of an optional role.
pub open spec fn role_text(role: Option<ClientRole>) -> Option<Seq<char>> {
    match role {
        Some(r) => Some(role_name(r)),
        None => None,
    }
}

/// What a message from the server does at `now`. An echo is passed on; a
/// registration answer is passed on, and on success the assigned id is kept
/// and the connection status reports it; a partner change is passed on; a task
/// state replaces the cached one and is passed on; a pong restarts the pong
/// clock; an error report is passed on. A payload that did not decode, and a
/// message of unknown type, change nothing.
pub open spec fn receive_spec(
    s: ClientStateView,
    payload: ServerPayloadView,
    now: i128,
) -> (ClientStateView, Seq<UiEventView>) {
    match payload {
        ServerPayloadView::Echo(Ok(p)) => (s, seq![UiEventView::EchoResponse(p.content)]),
        ServerPayloadView::RegisterResponse(Ok(r)) => {
            let id = Some(uuid_text(r.assigned_client_id));
            let reg = UiEventView::RegistrationStatus(
                WsRegistrationStatusEventPayloadView {
                    success: r.success,
                    message: r.message,
                    assigned_client_id: id,
                    group_id: r.effective_group_id,
                    task_id: None,
                    role: role_text(r.effective_role),
                },
            );
            if r.success {
                (
                    ClientStateView { cloud_assigned_client_id: Some(r.assigned_client_id), ..s },
                    seq![
                        UiEventView::ConnectionStatus(status_event(true, id, "客户端注册成功"@)),
                        reg,
                    ],
                )
            } else {
                (s, seq![reg])
            }
        },
        ServerPayloadView::PartnerStatusUpdate(Ok(p)) => (
            s,
            seq![
                UiEventView::PartnerStatus(
                    WsPartnerStatusEventPayloadView {
                        partner_role: role_name(p.partner_role),
                        is_online: p.is_online,
                        partner_client_id: Some(uuid_text(p.partner_client_id)),
                        group_id: Some(p.group_id),
                    },
                ),
            ],
        ),
        ServerPayloadView::TaskStateUpdate(Ok(st)) => (
            ClientStateView { local_task_state_cache: Some(st), ..s },
            seq![UiEventView::LocalTaskStateUpdated(st)],
        ),
        ServerPayloadView::Pong => (ClientStateView { last_pong_received_at: Some(now), ..s }, seq![]),
        ServerPayloadView::ErrorResponse(Ok(e)) => (
            s,
            seq![
                UiEventView::ServerError(
                    WsServerErrorEventPayloadView {
                        error_message: e.error,
                        original_message_type: e.original_message_type,
                    },
                ),
            ],
        ),
        _ => (s, seq![]),
    }
}

/// The state after a connection task ended: the heartbeat stops, and the
/// link, the assigned id and the pong time are dropped. The task stays held
/// until the next connection attempt or disconnect cancels it.
pub open spec fn closed_state(s: ClientStateView) -> ClientStateView {
    ClientStateView {
        is_connected: false,
        send_channel_open: false,
        cloud_assigned_client_id: None,
        last_pong_received_at: None,
        heartbeat_task_running: false,
        ..s
    }
}

/// The event owed when a connection task ends: a connection that was up and is
/// now down is reported with the reason, or a default; an attempt that never
/// connected is reported as failed, with the reason or a default; otherwise
/// nothing is reported.
pub open spec fn closed_event(
    s: ClientStateView,
    attempt_successful: bool,
    reason: Option<Seq<char>>,
) -> Option<WsConnectionStatusEventView> {
    if attempt_successful && s.is_connected {
        Some(
            WsConnectionStatusEventView {
                connected: false,
                client_id: None,
                error_message: Some(
                    match reason {
                        Some(r) => r,
                        None => "WebSocket 连接已断开"@,
                    },
                ),
            },
        )
    } else if !attempt_successful {
        Some(
            WsConnectionStatusEventView {
                connected: false,
                client_id: None,
                error_message: Some(
                    match reason {
                        Some(r) => r,
                        None => "连接 WebSocket 失败，请检查网络或URL。"@,
                    },
                ),
            },
        )
    } else {
        None
    }
}

/// The state after a user's disconnect: not connected, no link, no heartbeat,
/// no connection task, no assigned id and no pong time.
pub open spec fn disconnect_spec(s: ClientStateView) -> ClientStateView {
    ClientStateView {
        is_connected: false,
        send_channel_open: false,
        cloud_assigned_client_id: None,
        last_pong_received_at: None,
        connection_task_running: false,
        heartbeat_task_running: false,
        ..s
    }
}

/// What the transport is to do on a user's disconnect, and what to report.
#[derive(Debug)]
pub struct DisconnectPlan {
    /// Cancel the heartbeat task.
    pub stop_heartbeat: bool,
    /// Close the sending half of the link.
    pub close_sender: bool,
    /// Cancel the connection task.
    pub stop_connection: bool,
    /// The event to raise, if any.
    pub event: Option<WsConnectionStatusEvent>,
    /// What the disconnect answers: an error where no link was held.
    pub result: Result<(), String>,
}

/// What a disconnect answers where no link is held.
pub open spec fn no_link_message() -> Seq<char> {
    "[SatControlCenter] 断开连接失败：WebSocket 发送通道不存在。"@
}

/// What a disconnect answers where closing the link failed, given the
/// transport's error text.
pub open spec fn close_failure_message(error: Seq<char>) -> Seq<char> {
    "[SatControlCenter] 断开连接失败：关闭 WebSocket 发送通道时出错: "@ + error
}

/// What one beat of the heartbeat finds about the pong.
#[derive(Debug, Clone, Copy, PartialEq, Eq, Structural)]
pub enum PongStatus {
    /// A pong came within the allowed time.
    Fresh,
    /// The last pong is older than the allowed time.
    Overdue,
    /// No pong has been received since the clock was reset.
    NeverReceived,
}

/// What one beat of the heartbeat is to do.
#[derive(Debug, Clone)]
pub enum HeartbeatStep {
    /// The heartbeat ends.
    Stop,
    /// The ping is sent (where the link can send); the pong status is reported.
    SendPing { pong: PongStatus, channel_open: bool, ping: WsMessage },
}

/// Abstract value of a [`HeartbeatStep`]: what the beat decides. The ping
/// itself is described by [`is_ping`].
pub enum HeartbeatStepView {
    Stop,
    SendPing { pong: PongStatus, channel_open: bool },
}

impl View for HeartbeatStep {
    type V = HeartbeatStepView;

    open spec fn view(&self) -> HeartbeatStepView {
        match self {
            HeartbeatStep::Stop => HeartbeatStepView::Stop,
            HeartbeatStep::SendPing { pong, channel_open, .. } => HeartbeatStepView::SendPing {
                pong: *pong,
                channel_open: *channel_open,
            },
        }
    }
}

/// A ping: a message of type `Ping` whose payload is the empty JSON object,
/// under a fresh message id.
pub open spec fn is_ping(m: WsMessage) -> bool {
    &&& m.message_type@ == PING_MESSAGE_TYPE@
    &&& m.payload@ == "{}"@
    &&& exists|id: u128| m.message_id@ == #[trigger] uuid_text(id)
}

/// The nanoseconds a pong may be missing before it is overdue: the heartbeat
/// interval and the pong timeout together.
pub open spec fn pong_deadline_nanos() -> int {
    (HEARTBEAT_INTERVAL_SECONDS + PONG_TIMEOUT_SECONDS) * NANOS_PER_SECOND
}

/// What one beat of the heartbeat at `now` does: it stops once the client is
/// no longer connected; otherwise it judges the last pong against the deadline
/// and sends a ping.
pub open spec fn heartbeat_spec(s: ClientStateView, now: i128) -> HeartbeatStepView {
    if !s.is_connected {
        HeartbeatStepView::Stop
    } else {
        let pong = match s.last_pong_received_at {
            Some(t) => if now - t > pong_deadline_nanos() {
                PongStatus::Overdue
            } else {
                PongStatus::Fresh
            },
            None => PongStatus::NeverReceived,
        };
        HeartbeatStepView::SendPing { pong, channel_open: s.send_channel_open }
    }
}

/// Why a message could not be handed to the link.
pub open spec fn send_refusal(s: ClientStateView) -> Option<Seq<char>> {
    if !s.is_connected {
        Some("[SatControlCenter] 发送 WebSocket 消息失败：未连接到服务器。"@)
    } else if !s.send_channel_open {
        Some("[SatControlCenter] 发送 WebSocket 消息失败：发送通道不可用 (可能已断开)。"@)
    } else {
        None
    }
}

/// What a send answers when the transport refused the message of type
/// `message_type`, giving `error`.
pub open spec fn transport_failure_message(message_type: Seq<char>, error: Seq<char>) -> Seq<char> {
    "[SatControlCenter] 发送 WebSocket 消息 (类型='"@ + message_type + "') 失败: "@ + error
}

/// What a send answers when the message of type `message_type` could not be
/// written as JSON, the writer giving `error`.
pub open spec fn serialize_failure_message(message_type: Seq<char>, error: Seq<char>) -> Seq<char> {
    "[SatControlCenter] 序列化 WebSocket 消息 (类型='"@ + message_type + "') 失败: "@ + error
}

/// The control center's WebSocket client: whether it is connected and can
/// send, the id the cloud assigned it, when the last pong came, the last task
/// state the cloud pushed, and which of its background tasks are held.
#[derive(Debug)]
pub struct WebSocketClientService {
    is_connected: bool,
    send_channel_open: bool,
    cloud_assigned_client_id: Option<u128>,
    last_pong_received_at: Option<i128>,
    local_task_state_cache: Option<TaskDebugState>,
    connection_task_running: bool,
    heartbeat_task_running: bool,
}

impl View for WebSocketClientService {
    type V = ClientStateView;

    closed spec fn view(&self) -> ClientStateView {
        ClientStateView {
            is_connected: self.is_connected,
            send_channel_open: self.send_channel_open,
            cloud_assigned_client_id: self.cloud_assigned_client_id,
            last_pong_received_at: self.last_pong_received_at,
            local_task_state_cache: match self.local_task_state_cache {
                Some(st) => Some(st@),
                None => None,
            },
            connection_task_running: self.connection_task_running,
            heartbeat_task_running: self.heartbeat_task_running,
        }
    }
}

/// Builds a connection-status event.
fn make_status_event(connected: bool, client_id: Option<String>, message: &str) -> (e: WsConnectionStatusEvent)
    ensures
        e@ == status_event(connected, client_id.deep_view(), message@),
{
    WsConnectionStatusEvent { connected, client_id, error_message: Some(message.to_owned()) }
}

/// The reason a connection ended when the stream of messages ran out: the
/// reason already known, or that the other side closed it.
pub fn stream_end_reason(current: Option<String>) -> (r: Option<String>)
    ensures
        r.deep_view() == (match current.deep_view() {
            Some(c) => Some(c),
            None => Some("WebSocket 连接已由对方关闭"@),
        }),
{
    match current {
        Some(c) => Some(c),
        None => Some("WebSocket 连接已由对方关闭".to_owned()),
    }
}

impl WebSocketClientService {
    /// A client that has never connected.
    pub fn new() -> (c: Self)
        ensures
            c@ == initial_client_state(),
    {
        WebSocketClientService {
            is_connected: false,
            send_channel_open: false,
            cloud_assigned_client_id: None,
            last_pong_received_at: None,
            local_task_state_cache: None,
            connection_task_running: false,
            heartbeat_task_running: false,
        }
    }

    /// Starts a connection attempt to `url_str`. A text that `url::Url::parse`
    /// refuses is refused at once, and nothing changes. Otherwise the attempt
    /// starts as [`connect_spec`] says, and the answer says whether a previous
    /// connection task (and its heartbeat) is to be cancelled first.
    pub fn connect(&mut self, url_str: &str) -> (r: Result<bool, String>)
        ensures
            match r {
                Ok(cancel_previous) => {
                    &&& url_serialization(url_str@) is Some
                    &&& cancel_previous == old(self)@.connection_task_running
                    &&& final(self)@ == connect_spec(old(self)@)
                },
                Err(e) => {
                    &&& url_serialization(url_str@) is None
                    &&& e@ == invalid_url_message(url_str@)
                    &&& final(self)@ == old(self)@
                },
            },
    {
        if parse_url(url_str).is_none() {
            let mut e = "无效的 WebSocket URL: '".to_owned();
            e.append(url_str);
            e.append("'");
            return Err(e);
        }
        let cancel_previous = self.connection_task_running;
        if cancel_previous {
            self.is_connected = false;
            self.send_channel_open = false;
            self.cloud_assigned_client_id = None;
            self.heartbeat_task_running = false;
            self.last_pong_received_at = None;
        }
        self.connection_task_running = true;
        Ok(cancel_previous)
    }

    /// Records that the connection opened at `now`, as [`opened_spec`] says, and
    /// gives the event that reports it.
    pub fn on_connection_opened(&mut self, now: i128) -> (e: WsConnectionStatusEvent)
        ensures
            final(self)@ == opened_spec(old(self)@, now),
            e@ == status_event(true, None, "成功连接到云端WebSocket服务"@),
    {
        self.is_connected = true;
        self.send_channel_open = true;
        self.heartbeat_task_running = true;
        self.last_pong_received_at = Some(now);
        make_status_event(true, None, "成功连接到云端WebSocket服务")
    }

    /// Handles a message from the server, decoded as its type says, at `now`,
    /// as [`receive_spec`] says; returns the events to raise, in order.
    pub fn process_received_message(&mut self, payload: ServerPayload, now: i128) -> (events: Vec<UiEvent>)
        ensures
            (final(self)@, ui_events_view(events@)) == receive_spec(old(self)@, payload@, now),
    {
        let ghost pv = payload@;
        let mut events: Vec<UiEvent> = Vec::new();
        match payload {
            ServerPayload::Echo(Ok(p)) => {
                events.push(UiEvent::EchoResponse(EchoResponseEventPayload { content: p.content }));
            },
            ServerPayload::RegisterResponse(Ok(r)) => {
                if r.success {
                    self.cloud_assigned_client_id = Some(r.assigned_client_id);
                    let e = make_status_event(
                        true,
                        Some(uuid_to_string(r.assigned_client_id)),
                        "客户端注册成功",
                    );
                    events.push(UiEvent::ConnectionStatus(e));
                }
                let role = match r.effective_role {
                    Some(x) => Some(x.to_string()),
                    None => None,
                };
                let reg = WsRegistrationStatusEventPayload {
                    success: r.success,
                    message: r.message,
                    assigned_client_id: Some(uuid_to_string(r.assigned_client_id)),
                    group_id: r.effective_group_id,
                    task_id: None,
                    role,
                };
                events.push(UiEvent::RegistrationStatus(reg));
            },
            ServerPayload::PartnerStatusUpdate(Ok(p)) => {
                let e = WsPartnerStatusEventPayload {
                    partner_role: p.partner_role.to_string(),
                    is_online: p.is_online,
                    partner_client_id: Some(uuid_to_string(p.partner_client_id)),
                    group_id: Some(p.group_id),
                };
                events.push(UiEvent::PartnerStatus(e));
            },
            ServerPayload::TaskStateUpdate(Ok(st)) => {
                self.local_task_state_cache = Some(st.duplicate());
                events.push(UiEvent::LocalTaskStateUpdated(LocalTaskStateUpdatedEventPayload { new_state: st }));
            },
            ServerPayload::Pong => {
                self.last_pong_received_at = Some(now);
            },
            ServerPayload::ErrorResponse(Ok(e)) => {
                let ev = WsServerErrorEventPayload {
                    error_message: e.error,
                    original_message_type: e.original_message_type,
                };
                events.push(UiEvent::ServerError(ev));
            },
            _ => {},
        }
        assert(ui_events_view(events@) =~= receive_spec(old(self)@, pv, now).1);
        events
    }

    /// Records that the connection task ended, as [`closed_state`] says;
    /// `attempt_successful` says whether the connection had opened, and
    /// `final_error_message` why it ended. Gives the event [`closed_event`]
    /// describes.
    pub fn on_connection_closed(
        &mut self,
        attempt_successful: bool,
        final_error_message: Option<String>,
    ) -> (e: Option<WsConnectionStatusEvent>)
        ensures
            final(self)@ == closed_state(old(self)@),
            match e {
                Some(ev) => closed_event(old(self)@, attempt_successful, final_error_message.deep_view())
                    == Some(ev@),
                None => closed_event(old(self)@, attempt_successful, final_error_message.deep_view())
                    is None,
            },
    {
        let was_connected = self.is_connected;
        self.heartbeat_task_running = false;
        self.is_connected = false;
        self.send_channel_open = false;
        self.cloud_assigned_client_id = None;
        self.last_pong_received_at = None;
        if attempt_successful && was_connected {
            let msg = match final_error_message {
                Some(m) => m,
                None => "WebSocket 连接已断开".to_owned(),
            };
            Some(WsConnectionStatusEvent { connected: false, client_id: None, error_message: Some(msg) })
        } else if !attempt_successful {
            let msg = match final_error_message {
                Some(m) => m,
                None => "连接 WebSocket 失败，请检查网络或URL。".to_owned(),
            };
            Some(WsConnectionStatusEvent { connected: false, client_id: None, error_message: Some(msg) })
        } else {
            None
        }
    }

    /// Records that the connection to the server could not be made, the
    /// transport giving `error`: the connection task ends, as
    /// [`closed_state`] says, and the failure is reported with
    /// [`connect_failure_message`].
    pub fn on_connect_failed(&mut self, error: String) -> (e: WsConnectionStatusEvent)
        ensures
            final(self)@ == closed_state(old(self)@),
            e@ == (WsConnectionStatusEventView {
                connected: false,
                client_id: None,
                error_message: Some(connect_failure_message(error@)),
            }),
    {
        let mut msg = "连接到 WebSocket 服务器失败: ".to_owned();
        msg.append(error.as_str());
        match self.on_connection_closed(false, Some(msg)) {
            Some(e) => e,
            None => {
                proof {
                    assert(false);
                }
                unreached()
            },
        }
    }

    /// One beat of the heartbeat at `now`, as [`heartbeat_spec`] says; a ping
    /// step carries the ping to send.
    pub fn heartbeat_tick(&self, now: i128) -> (step: HeartbeatStep)
        ensures
            step@ == heartbeat_spec(self@, now),
            step matches HeartbeatStep::SendPing { ping, .. } ==> is_ping(ping),
    {
        if !self.is_connected {
            return HeartbeatStep::Stop;
        }
        let pong = match self.last_pong_received_at {
            Some(t) => {
                match seconds_as_chrono_millis(HEARTBEAT_INTERVAL_SECONDS + PONG_TIMEOUT_SECONDS) {
                    Some(deadline) => {
                        if elapsed_exceeds(now, t, deadline as i128 * 1_000_000) {
                            PongStatus::Overdue
                        } else {
                            PongStatus::Fresh
                        }
                    },
                    None => {
                        return HeartbeatStep::Stop;
                    },
                }
            },
            None => PongStatus::NeverReceived,
        };
        let ping = compose_message(PING_MESSAGE_TYPE, "{}".to_owned());
        HeartbeatStep::SendPing { pong, channel_open: self.send_channel_open, ping }
    }

    /// A user's disconnect, as [`disconnect_spec`] says: the heartbeat and the
    /// connection task are cancelled, the link is closed, and the disconnect is
    /// reported. The answer is an error where no link was held; where closing
    /// the link fails, the transport answers [`close_failure_message`] instead.
    pub fn disconnect(&mut self) -> (plan: DisconnectPlan)
        ensures
            final(self)@ == disconnect_spec(old(self)@),
            plan.stop_heartbeat == old(self)@.heartbeat_task_running,
            plan.close_sender == old(self)@.send_channel_open,
            plan.stop_connection == old(self)@.connection_task_running,
            plan.event matches Some(ev) && ev@ == status_event(false, None, "用户请求断开连接"@),
            old(self)@.send_channel_open ==> plan.result is Ok,
            !old(self)@.send_channel_open ==> (plan.result matches Err(e) && e@ == no_link_message()),
    {
        let plan_heartbeat = self.heartbeat_task_running;
        let plan_sender = self.send_channel_open;
        let plan_connection = self.connection_task_running;
        self.is_connected = false;
        self.heartbeat_task_running = false;
        self.send_channel_open = false;
        self.connection_task_running = false;
        self.cloud_assigned_client_id = None;
        self.last_pong_received_at = None;
        DisconnectPlan {
            stop_heartbeat: plan_heartbeat,
            close_sender: plan_sender,
            stop_connection: plan_connection,
            event: Some(make_status_event(false, None, "用户请求断开连接")),
            result: if plan_sender {
                Ok(())
            } else {
                Err("[SatControlCenter] 断开连接失败：WebSocket 发送通道不存在。".to_owned())
            },
        }
    }

    /// The answer to a disconnect whose closing of the link failed, the
    /// transport giving `error`.
    pub fn close_failed(error: String) -> (e: String)
        ensures
            e@ == close_failure_message(error@),
    {
        let mut e = "[SatControlCenter] 断开连接失败：关闭 WebSocket 发送通道时出错: ".to_owned();
        e.append(error.as_str());
        e
    }

    /// Whether the client is connected.
    pub fn is_connected(&self) -> (b: bool)
        ensures
            b == self@.is_connected,
    {
        self.is_connected
    }

    /// The id the cloud assigned, once registered.
    pub fn get_cloud_assigned_client_id(&self) -> (id: Option<u128>)
        ensures
            id == self@.cloud_assigned_client_id,
    {
        self.cloud_assigned_client_id
    }

    /// A copy of the cached task state, if there is one.
    pub fn get_cached_task_state(&self) -> (st: Option<TaskDebugState>)
        ensures
            match st {
                Some(x) => self@.local_task_state_cache == Some(x@),
                None => self@.local_task_state_cache is None,
            },
    {
        match &self.local_task_state_cache {
            Some(x) => Some(x.duplicate()),
            None => None,
        }
    }

    /// Checks that `message` can be handed to the link: refused, as
    /// [`send_refusal`] says, when the client is not connected or the link
    /// cannot send; otherwise the message is given back to be sent.
    pub fn send_ws_message(&self, message: WsMessage) -> (r: Result<WsMessage, String>)
        ensures
            match r {
                Ok(m) => send_refusal(self@) is None && m == message,
                Err(e) => send_refusal(self@) == Some(e@),
            },
    {
        if !self.is_connected {
            Err("[SatControlCenter] 发送 WebSocket 消息失败：未连接到服务器。".to_owned())
        } else if !self.send_channel_open {
            Err("[SatControlCenter] 发送 WebSocket 消息失败：发送通道不可用 (可能已断开)。".to_owned())
        } else {
            Ok(message)
        }
    }

    /// The answer to sending `message` once the link has tried it: success
    /// where it went out; otherwise the reason, as the link gave it. A link
    /// that lost its sending half answers as [`send_refusal`] does for it.
    pub fn send_answer(message: &WsMessage, outcome: Result<(), SendFailure>) -> (r: Result<(), String>)
        ensures
            match outcome {
                Ok(()) => r is Ok,
                Err(SendFailure::NoChannel) => r matches Err(e)
                    && e@ == "[SatControlCenter] 发送 WebSocket 消息失败：发送通道不可用 (可能已断开)。"@,
                Err(SendFailure::Serialize(why)) => r matches Err(e) && e@ == serialize_failure_message(
                    message.message_type@,
                    why@,
                ),
                Err(SendFailure::Transport(why)) => r matches Err(e) && e@ == transport_failure_message(
                    message.message_type@,
                    why@,
                ),
            },
    {
        match outcome {
            Ok(()) => Ok(()),
            Err(SendFailure::NoChannel) => Err(
                "[SatControlCenter] 发送 WebSocket 消息失败：发送通道不可用 (可能已断开)。".to_owned(),
            ),
            Err(SendFailure::Serialize(why)) => {
                let mut e = "[SatControlCenter] 序列化 WebSocket 消息 (类型='".to_owned();
                e.append(message.message_type.as_str());
                e.append("') 失败: ");
                e.append(why.as_str());
                Err(e)
            },
            Err(SendFailure::Transport(why)) => {
                let mut e = "[SatControlCenter] 发送 WebSocket 消息 (类型='".to_owned();
                e.append(message.message_type.as_str());
                e.append("') 失败: ");
                e.append(why.as_str());
                Err(e)
            },
        }
    }

    /// Frames an echo request around `payload_json` (the JSON text of an
    /// [`crate::models::payloads::EchoPayload`]) and checks it can be sent: a
    /// client that is not connected refuses it first; otherwise as
    /// [`Self::send_ws_message`].
    pub fn send_echo_message(&self, payload_json: String) -> (r: Result<WsMessage, String>)
        ensures
            match r {
                Ok(m) => send_refusal(self@) is None && m.message_type@ == ECHO_MESSAGE_TYPE@
                    && m.payload@ == payload_json@,
                Err(e) => if !self@.is_connected {
                    e@ == "WebSocket 未连接，无法发送 Echo 消息。"@
                } else {
                    send_refusal(self@) == Some(e@)
                },
            },
    {
        if !self.is_connected {
            return Err("WebSocket 未连接，无法发送 Echo 消息。".to_owned());
        }
        let m = compose_message(ECHO_MESSAGE_TYPE, payload_json);
        self.send_ws_message(m)
    }

    /// Frames a message of type `message_type` around `payload_json` and checks
    /// it can be sent: a client that is not connected refuses it first;
    /// otherwise as [`Self::send_ws_message`].
    pub fn send_specific_message(&self, message_type: &str, payload_json: String) -> (r: Result<WsMessage, String>)
        ensures
            match r {
                Ok(m) => send_refusal(self@) is None && m.message_type@ == message_type@
                    && m.payload@ == payload_json@,
                Err(e) => if !self@.is_connected {
                    e@ == "WebSocket 未连接，无法发送类型为 '"@ + message_type@ + "' 的消息。"@
                } else {
                    send_refusal(self@) == Some(e@)
                },
            },
    {
        if !self.is_connected {
            let mut e = "WebSocket 未连接，无法发送类型为 '".to_owned();
            e.append(message_type);
            e.append("' 的消息。");
            return Err(e);
        }
        let m = compose_message(message_type, payload_json);
        self.send_ws_message(m)
    }
}

} // verus!
