//! What both desktop clients share about their link to the cloud service: how
//! a server message is read by its type, and how an outgoing message is framed.

use vstd::prelude::*;
use crate::models::message::WsMessage;
use crate::models::payloads::{
    EchoPayload, EchoPayloadView, ErrorResponsePayload, ErrorResponsePayloadView,
    PartnerStatusPayload, PartnerStatusPayloadView, RegisterResponsePayload,
    RegisterResponsePayloadView, ECHO_MESSAGE_TYPE, ERROR_RESPONSE_MESSAGE_TYPE,
    PARTNER_STATUS_UPDATE_MESSAGE_TYPE, PONG_MESSAGE_TYPE, REGISTER_RESPONSE_MESSAGE_TYPE,
    TASK_STATE_UPDATE_MESSAGE_TYPE,
};
use crate::models::task_models::{TaskDebugState, TaskDebugStateView};
use crate::outside::clock::{current_timestamp_millis, generate_client_id, uuid_text, uuid_to_string};
use crate::text::str_eq;

verus! {

/// Why a message that the client handed to the link did not go out: the link
/// had no sending half any more, the message could not be written as JSON, or
/// the transport refused it. The texts are the outside errors' own.
#[derive(Debug, Clone)]
pub enum SendFailure {
    NoChannel,
    Serialize(String),
    Transport(String),
}

/// How a client reads a message from the server, by its type.
#[derive(Debug, Clone, Copy, PartialEq, Eq, Structural)]
pub enum ServerMessageKind {
    Echo,
    RegisterResponse,
    PartnerStatusUpdate,
    TaskStateUpdate,
    Pong,
    ErrorResponse,
    Unknown,
}

/// The kind of a server message type.
pub open spec fn server_kind_of(message_type: Seq<char>) -> ServerMessageKind {
    if message_type == ECHO_MESSAGE_TYPE@ {
        ServerMessageKind::Echo
    } else if message_type == REGISTER_RESPONSE_MESSAGE_TYPE@ {
        ServerMessageKind::RegisterResponse
    } else if message_type == PARTNER_STATUS_UPDATE_MESSAGE_TYPE@ {
        ServerMessageKind::PartnerStatusUpdate
    } else if message_type == TASK_STATE_UPDATE_MESSAGE_TYPE@ {
        ServerMessageKind::TaskStateUpdate
    } else if message_type == PONG_MESSAGE_TYPE@ {
        ServerMessageKind::Pong
    } else if message_type == ERROR_RESPONSE_MESSAGE_TYPE@ {
        ServerMessageKind::ErrorResponse
    } else {
        ServerMessageKind::Unknown
    }
}

/// Says how a client reads a server message of the given type.
pub fn classify_server_message_type(message_type: &str) -> (k: ServerMessageKind)
    ensures
        k == server_kind_of(message_type@),
{
    if str_eq(message_type, ECHO_MESSAGE_TYPE) {
        ServerMessageKind::Echo
    } else if str_eq(message_type, REGISTER_RESPONSE_MESSAGE_TYPE) {
        ServerMessageKind::RegisterResponse
    } else if str_eq(message_type, PARTNER_STATUS_UPDATE_MESSAGE_TYPE) {
        ServerMessageKind::PartnerStatusUpdate
    } else if str_eq(message_type, TASK_STATE_UPDATE_MESSAGE_TYPE) {
        ServerMessageKind::TaskStateUpdate
    } else if str_eq(message_type, PONG_MESSAGE_TYPE) {
        ServerMessageKind::Pong
    } else if str_eq(message_type, ERROR_RESPONSE_MESSAGE_TYPE) {
        ServerMessageKind::ErrorResponse
    } else {
        ServerMessageKind::Unknown
    }
}

/// A server message's payload, decoded as its kind says: the decoded payload,
/// or the decoder's error text.
#[derive(Debug)]
pub enum ServerPayload {
    Echo(Result<EchoPayload, String>),
    RegisterResponse(Result<RegisterResponsePayload, String>),
    PartnerStatusUpdate(Result<PartnerStatusPayload, String>),
    TaskStateUpdate(Result<TaskDebugState, String>),
    Pong,
    ErrorResponse(Result<ErrorResponsePayload, String>),
    Unknown,
}

/// Abstract value of a [`ServerPayload`].
pub enum ServerPayloadView {
    Echo(Result<EchoPayloadView, Seq<char>>),
    RegisterResponse(Result<RegisterResponsePayloadView, Seq<char>>),
    PartnerStatusUpdate(Result<PartnerStatusPayloadView, Seq<char>>),
    TaskStateUpdate(Result<TaskDebugStateView, Seq<char>>),
    Pong,
    ErrorResponse(Result<ErrorResponsePayloadView, Seq<char>>),
    Unknown,
}

impl View for ServerPayload {
    type V = ServerPayloadView;

    open spec fn view(&self) -> ServerPayloadView {
        match self {
            ServerPayload::Echo(Ok(p)) => ServerPayloadView::Echo(Ok(p@)),
            ServerPayload::Echo(Err(e)) => ServerPayloadView::Echo(Err(e@)),
            ServerPayload::RegisterResponse(Ok(p)) => ServerPayloadView::RegisterResponse(Ok(p@)),
            ServerPayload::RegisterResponse(Err(e)) => ServerPayloadView::RegisterResponse(Err(e@)),
            ServerPayload::PartnerStatusUpdate(Ok(p)) => ServerPayloadView::PartnerStatusUpdate(Ok(p@)),
            ServerPayload::PartnerStatusUpdate(Err(e)) => ServerPayloadView::PartnerStatusUpdate(Err(e@)),
            ServerPayload::TaskStateUpdate(Ok(p)) => ServerPayloadView::TaskStateUpdate(Ok(p@)),
            ServerPayload::TaskStateUpdate(Err(e)) => ServerPayloadView::TaskStateUpdate(Err(e@)),
            ServerPayload::Pong => ServerPayloadView::Pong,
            ServerPayload::ErrorResponse(Ok(p)) => ServerPayloadView::ErrorResponse(Ok(p@)),
            ServerPayload::ErrorResponse(Err(e)) => ServerPayloadView::ErrorResponse(Err(e@)),
            ServerPayload::Unknown => ServerPayloadView::Unknown,
        }
    }
}

/// A message of the given type carrying the given payload text, under a fresh
/// random id rendered as a UUID and stamped with the clock's time.
pub fn compose_message(message_type: &str, payload: String) -> (m: WsMessage)
    ensures
        m.message_type@ == message_type@,
        m.payload@ == payload@,
        exists|id: u128| m.message_id@ == uuid_text(id),
{
    let id = generate_client_id();
    WsMessage {
        message_id: uuid_to_string(id),
        timestamp: current_timestamp_millis(),
        message_type: message_type.to_owned(),
        payload,
    }
}

/// The text form of an optional client id.
pub open spec fn id_text(id: Option<u128>) -> Option<Seq<char>> {
    match id {
        Some(x) => Some(uuid_text(x)),
        None => None,
    }
}

/// Renders an optional client id as text.
pub fn id_to_text(id: Option<u128>) -> (t: Option<String>)
    ensures
        t.deep_view() == id_text(id),
{
    match id {
        Some(x) => Some(uuid_to_string(x)),
        None => None,
    }
}

} // verus!
