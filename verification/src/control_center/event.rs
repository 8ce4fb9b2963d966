//! The events the control center's WebSocket client raises for its front end.

use vstd::prelude::*;
use crate::models::task_models::{TaskDebugState, TaskDebugStateView};

verus! {

/// Event raised when the connection to the cloud changes.
pub const WS_CONNECTION_STATUS_EVENT: &'static str = "ws_connection_status";
/// Event raised when an echo comes back.
pub const ECHO_RESPONSE_EVENT: &'static str = "echo_response_event";
/// Event raised when the cloud answers a registration.
pub const WS_REGISTRATION_STATUS_EVENT: &'static str = "ws_registration_status_event";
/// Event raised when the partner in the group comes online or goes offline.
pub const WS_PARTNER_STATUS_EVENT: &'static str = "ws_partner_status_event";
/// Event raised when the cached task state was replaced.
pub const LOCAL_TASK_STATE_UPDATED_EVENT: &'static str = "local_task_state_updated_event";
/// Event raised when the cloud reports an error.
pub const WS_SERVER_ERROR_EVENT: &'static str = "ws_server_error_event";
/// Event name for a lost cloud connection.
pub const EVENT_CLOUD_WS_DISCONNECTED: &'static str = "cloud-ws-disconnected";
/// Event name for a cloud connection error.
pub const EVENT_CLOUD_WS_ERROR: &'static str = "cloud-ws-error";

/// The state of the connection to the cloud.
#[derive(Debug, Clone)]
pub struct WsConnectionStatusEvent {
    pub connected: bool,
    /// The id the cloud assigned, once registered.
    pub client_id: Option<String>,
    /// What happened, in words.
    pub error_message: Option<String>,
}

/// Abstract value of a [`WsConnectionStatusEvent`].
pub struct WsConnectionStatusEventView {
    pub connected: bool,
    pub client_id: Option<Seq<char>>,
    pub error_message: Option<Seq<char>>,
}

impl View for WsConnectionStatusEvent {
    type V = WsConnectionStatusEventView;

    open spec fn view(&self) -> WsConnectionStatusEventView {
        WsConnectionStatusEventView {
            connected: self.connected,
            client_id: self.client_id.deep_view(),
            error_message: self.error_message.deep_view(),
        }
    }
}

/// The content of an echo that came back.
#[derive(Debug, Clone)]
pub struct EchoResponseEventPayload {
    pub content: String,
}

/// The cloud's answer to a registration.
#[derive(Debug, Clone)]
pub struct WsRegistrationStatusEventPayload {
    pub success: bool,
    pub message: Option<String>,
    pub assigned_client_id: Option<String>,
    pub group_id: Option<String>,
    pub task_id: Option<String>,
    pub role: Option<String>,
}

/// Abstract value of a [`WsRegistrationStatusEventPayload`].
pub struct WsRegistrationStatusEventPayloadView {
    pub success: bool,
    pub message: Option<Seq<char>>,
    pub assigned_client_id: Option<Seq<char>>,
    pub group_id: Option<Seq<char>>,
    pub task_id: Option<Seq<char>>,
    pub role: Option<Seq<char>>,
}

impl View for WsRegistrationStatusEventPayload {
    type V = WsRegistrationStatusEventPayloadView;

    open spec fn view(&self) -> WsRegistrationStatusEventPayloadView {
        WsRegistrationStatusEventPayloadView {
            success: self.success,
            message: self.message.deep_view(),
            assigned_client_id: self.assigned_client_id.deep_view(),
            group_id: self.group_id.deep_view(),
            task_id: self.task_id.deep_view(),
            role: self.role.deep_view(),
        }
    }
}

/// The partner in the group came online or went offline.
#[derive(Debug, Clone)]
pub struct WsPartnerStatusEventPayload {
    pub partner_role: String,
    pub is_online: bool,
    pub partner_client_id: Option<String>,
    pub group_id: Option<String>,
}

/// Abstract value of a [`WsPartnerStatusEventPayload`].
pub struct WsPartnerStatusEventPayloadView {
    pub partner_role: Seq<char>,
    pub is_online: bool,
    pub partner_client_id: Option<Seq<char>>,
    pub group_id: Option<Seq<char>>,
}

impl View for WsPartnerStatusEventPayload {
    type V = WsPartnerStatusEventPayloadView;

    open spec fn view(&self) -> WsPartnerStatusEventPayloadView {
        WsPartnerStatusEventPayloadView {
            partner_role: self.partner_role@,
            is_online: self.is_online,
            partner_client_id: self.partner_client_id.deep_view(),
            group_id: self.group_id.deep_view(),
        }
    }
}

/// The task state that now stands in the local cache.
#[derive(Debug, Clone)]
pub struct LocalTaskStateUpdatedEventPayload {
    pub new_state: TaskDebugState,
}

/// An error that the cloud reported.
#[derive(Debug, Clone)]
pub struct WsServerErrorEventPayload {
    pub error_message: String,
    pub original_message_type: Option<String>,
}

/// Abstract value of a [`WsServerErrorEventPayload`].
pub struct WsServerErrorEventPayloadView {
    pub error_message: Seq<char>,
    pub original_message_type: Option<Seq<char>>,
}

impl View for WsServerErrorEventPayload {
    type V = WsServerErrorEventPayloadView;

    open spec fn view(&self) -> WsServerErrorEventPayloadView {
        WsServerErrorEventPayloadView {
            error_message: self.error_message@,
            original_message_type: self.original_message_type.deep_view(),
        }
    }
}

/// An event for the front end, under its event name.
#[derive(Debug, Clone)]
pub enum UiEvent {
    ConnectionStatus(WsConnectionStatusEvent),
    EchoResponse(EchoResponseEventPayload),
    RegistrationStatus(WsRegistrationStatusEventPayload),
    PartnerStatus(WsPartnerStatusEventPayload),
    LocalTaskStateUpdated(LocalTaskStateUpdatedEventPayload),
    ServerError(WsServerErrorEventPayload),
}

/// Abstract value of a [`UiEvent`].
pub enum UiEventView {
    ConnectionStatus(WsConnectionStatusEventView),
    EchoResponse(Seq<char>),
    RegistrationStatus(WsRegistrationStatusEventPayloadView),
    PartnerStatus(WsPartnerStatusEventPayloadView),
    LocalTaskStateUpdated(TaskDebugStateView),
    ServerError(WsServerErrorEventPayloadView),
}

impl View for UiEvent {
    type V = UiEventView;

    open spec fn view(&self) -> UiEventView {
        match self {
            UiEvent::ConnectionStatus(e) => UiEventView::ConnectionStatus(e@),
            UiEvent::EchoResponse(e) => UiEventView::EchoResponse(e.content@),
            UiEvent::RegistrationStatus(e) => UiEventView::RegistrationStatus(e@),
            UiEvent::PartnerStatus(e) => UiEventView::PartnerStatus(e@),
            UiEvent::LocalTaskStateUpdated(e) => UiEventView::LocalTaskStateUpdated(e.new_state@),
            UiEvent::ServerError(e) => UiEventView::ServerError(e@),
        }
    }
}

/// The name under which an event is raised.
pub open spec fn ui_event_name(e: UiEventView) -> Seq<char> {
    match e {
        UiEventView::ConnectionStatus(_) => WS_CONNECTION_STATUS_EVENT@,
        UiEventView::EchoResponse(_) => ECHO_RESPONSE_EVENT@,
        UiEventView::RegistrationStatus(_) => WS_REGISTRATION_STATUS_EVENT@,
        UiEventView::PartnerStatus(_) => WS_PARTNER_STATUS_EVENT@,
        UiEventView::LocalTaskStateUpdated(_) => LOCAL_TASK_STATE_UPDATED_EVENT@,
        UiEventView::ServerError(_) => WS_SERVER_ERROR_EVENT@,
    }
}

impl UiEvent {
    /// The name under which this event is raised.
    pub fn event_name(&self) -> (n: &'static str)
        ensures
            n@ == ui_event_name(self@),
    {
        match self {
            UiEvent::ConnectionStatus(_) => WS_CONNECTION_STATUS_EVENT,
            UiEvent::EchoResponse(_) => ECHO_RESPONSE_EVENT,
            UiEvent::RegistrationStatus(_) => WS_REGISTRATION_STATUS_EVENT,
            UiEvent::PartnerStatus(_) => WS_PARTNER_STATUS_EVENT,
            UiEvent::LocalTaskStateUpdated(_) => LOCAL_TASK_STATE_UPDATED_EVENT,
            UiEvent::ServerError(_) => WS_SERVER_ERROR_EVENT,
        }
    }
}

/// The sequence of abstract values of a list of events.
pub open spec fn ui_events_view(v: Seq<UiEvent>) -> Seq<UiEventView> {
    v.map_values(|e: UiEvent| e@)
}

} // verus!
