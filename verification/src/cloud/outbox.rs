//! The messages that the cloud service decides to send, and to whom.

use vstd::prelude::*;
use crate::models::enums::ClientRole;
use crate::models::payloads::{
    EchoPayload, EchoPayloadView, ErrorResponsePayload, ErrorResponsePayloadView,
    PartnerStatusPayload, PartnerStatusPayloadView, PongPayload, RegisterResponsePayload,
    RegisterResponsePayloadView, ECHO_MESSAGE_TYPE, ERROR_RESPONSE_MESSAGE_TYPE,
    PARTNER_STATUS_UPDATE_MESSAGE_TYPE, PONG_MESSAGE_TYPE, REGISTER_RESPONSE_MESSAGE_TYPE,
    TASK_STATE_UPDATE_MESSAGE_TYPE,
};
use crate::models::task_models::{TaskDebugState, TaskDebugStateView};

verus! {

/// A message from the server to one client, before it is framed as a
/// [`crate::models::message::WsMessage`].
#[derive(Debug, Clone)]
pub enum ServerMessage {
    Echo(EchoPayload),
    Pong(PongPayload),
    RegisterResponse(RegisterResponsePayload),
    PartnerStatusUpdate(PartnerStatusPayload),
    ErrorResponse(ErrorResponsePayload),
    TaskStateUpdate(TaskDebugState),
}

/// Abstract value of a [`ServerMessage`].
pub enum ServerMessageView {
    Echo(EchoPayloadView),
    Pong,
    RegisterResponse(RegisterResponsePayloadView),
    PartnerStatusUpdate(PartnerStatusPayloadView),
    ErrorResponse(ErrorResponsePayloadView),
    TaskStateUpdate(TaskDebugStateView),
}

impl View for ServerMessage {
    type V = ServerMessageView;

    open spec fn view(&self) -> ServerMessageView {
        match self {
            ServerMessage::Echo(p) => ServerMessageView::Echo(p@),
            ServerMessage::Pong(_) => ServerMessageView::Pong,
            ServerMessage::RegisterResponse(p) => ServerMessageView::RegisterResponse(p@),
            ServerMessage::PartnerStatusUpdate(p) => ServerMessageView::PartnerStatusUpdate(p@),
            ServerMessage::ErrorResponse(p) => ServerMessageView::ErrorResponse(p@),
            ServerMessage::TaskStateUpdate(s) => ServerMessageView::TaskStateUpdate(s@),
        }
    }
}

/// The message type under which a server message travels.
pub open spec fn server_message_type(m: ServerMessageView) -> Seq<char> {
    match m {
        ServerMessageView::Echo(_) => ECHO_MESSAGE_TYPE@,
        ServerMessageView::Pong => PONG_MESSAGE_TYPE@,
        ServerMessageView::RegisterResponse(_) => REGISTER_RESPONSE_MESSAGE_TYPE@,
        ServerMessageView::PartnerStatusUpdate(_) => PARTNER_STATUS_UPDATE_MESSAGE_TYPE@,
        ServerMessageView::ErrorResponse(_) => ERROR_RESPONSE_MESSAGE_TYPE@,
        ServerMessageView::TaskStateUpdate(_) => TASK_STATE_UPDATE_MESSAGE_TYPE@,
    }
}

impl ServerMessage {
    /// The message type under which this message travels.
    pub fn message_type(&self) -> (t: &'static str)
        ensures
            t@ == server_message_type(self@),
    {
        match self {
            ServerMessage::Echo(_) => ECHO_MESSAGE_TYPE,
            ServerMessage::Pong(_) => PONG_MESSAGE_TYPE,
            ServerMessage::RegisterResponse(_) => REGISTER_RESPONSE_MESSAGE_TYPE,
            ServerMessage::PartnerStatusUpdate(_) => PARTNER_STATUS_UPDATE_MESSAGE_TYPE,
            ServerMessage::ErrorResponse(_) => ERROR_RESPONSE_MESSAGE_TYPE,
            ServerMessage::TaskStateUpdate(_) => TASK_STATE_UPDATE_MESSAGE_TYPE,
        }
    }
}

/// A message addressed to one client.
#[derive(Debug, Clone)]
pub struct Outgoing {
    pub recipient: u128,
    pub message: ServerMessage,
}

/// Abstract value of an [`Outgoing`] message.
pub struct OutgoingView {
    pub recipient: u128,
    pub message: ServerMessageView,
}

impl View for Outgoing {
    type V = OutgoingView;

    open spec fn view(&self) -> OutgoingView {
        OutgoingView { recipient: self.recipient, message: self.message@ }
    }
}

/// The abstract contents of an outbox.
pub open spec fn outbox_view(v: Seq<Outgoing>) -> Seq<OutgoingView> {
    v.map_values(|o: Outgoing| o@)
}

/// A partner-status message for `recipient`.
pub open spec fn partner_notice(
    recipient: u128,
    partner_role: ClientRole,
    partner_client_id: u128,
    is_online: bool,
    group_id: Seq<char>,
) -> OutgoingView {
    OutgoingView {
        recipient,
        message: ServerMessageView::PartnerStatusUpdate(
            PartnerStatusPayloadView { partner_role, partner_client_id, is_online, group_id },
        ),
    }
}

} // verus!
