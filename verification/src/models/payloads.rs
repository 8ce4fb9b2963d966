//! Payloads carried inside WebSocket messages, and their message-type names.

use vstd::prelude::*;
use crate::models::enums::ClientRole;

verus! {

/// Message type of an echo request and of its reply.
pub const ECHO_MESSAGE_TYPE: &'static str = "Echo";
/// Message type of an error reply.
pub const ERROR_RESPONSE_MESSAGE_TYPE: &'static str = "ErrorResponse";
/// Message type of a client heartbeat.
pub const PING_MESSAGE_TYPE: &'static str = "Ping";
/// Message type of the server's heartbeat reply.
pub const PONG_MESSAGE_TYPE: &'static str = "Pong";
/// Message type of a client's registration request.
pub const REGISTER_MESSAGE_TYPE: &'static str = "Register";
/// Message type of the server's reply to a registration request.
pub const REGISTER_RESPONSE_MESSAGE_TYPE: &'static str = "RegisterResponse";
/// Message type telling a client that its partner came online or went offline.
pub const PARTNER_STATUS_UPDATE_MESSAGE_TYPE: &'static str = "PartnerStatusUpdate";
/// Message type of a pre-check item update.
pub const UPDATE_PRE_CHECK_ITEM_TYPE: &'static str = "UpdatePreCheckItem";
/// Message type by which the control center starts a single test step.
pub const START_SINGLE_TEST_STEP_TYPE: &'static str = "StartSingleTestStep";
/// Message type by which the site reports a single test step's result.
pub const FEEDBACK_SINGLE_TEST_STEP_TYPE: &'static str = "FeedbackSingleTestStep";
/// Message type by which the control center confirms a single test step.
pub const CONFIRM_SINGLE_TEST_STEP_TYPE: &'static str = "ConfirmSingleTestStep";
/// Message type by which the cloud pushes a whole task state.
pub const TASK_STATE_UPDATE_MESSAGE_TYPE: &'static str = "TaskStateUpdate";
/// Message type of a debug-note update.
pub const UPDATE_TASK_DEBUG_NOTE_MESSAGE_TYPE: &'static str = "UpdateTaskDebugNote";

/// Content that the server echoes back.
#[derive(Debug, Clone, PartialEq)]
pub struct EchoPayload {
    pub content: String,
}

/// Abstract value of an [`EchoPayload`].
pub struct EchoPayloadView {
    pub content: Seq<char>,
}

impl View for EchoPayload {
    type V = EchoPayloadView;

    open spec fn view(&self) -> EchoPayloadView {
        EchoPayloadView { content: self.content@ }
    }
}

/// A standard error reply.
#[derive(Debug, Clone, PartialEq)]
pub struct ErrorResponsePayload {
    /// The type of the request that failed, where known.
    pub original_message_type: Option<String>,
    /// What went wrong.
    pub error: String,
}

/// Abstract value of an [`ErrorResponsePayload`].
pub struct ErrorResponsePayloadView {
    pub original_message_type: Option<Seq<char>>,
    pub error: Seq<char>,
}

impl View for ErrorResponsePayload {
    type V = ErrorResponsePayloadView;

    open spec fn view(&self) -> ErrorResponsePayloadView {
        ErrorResponsePayloadView {
            original_message_type: self.original_message_type.deep_view(),
            error: self.error@,
        }
    }
}

/// A client heartbeat; it carries nothing.
#[derive(Debug, Clone, PartialEq)]
pub struct PingPayload {}

/// The server's heartbeat reply; it carries nothing.
#[derive(Debug, Clone, PartialEq)]
pub struct PongPayload {}

/// A client's request to join a group with a role, for a task.
#[derive(Debug, Clone)]
pub struct RegisterPayload {
    pub group_id: String,
    pub role: ClientRole,
    pub task_id: String,
}

/// Abstract value of a [`RegisterPayload`].
pub struct RegisterPayloadView {
    pub group_id: Seq<char>,
    pub role: ClientRole,
    pub task_id: Seq<char>,
}

impl View for RegisterPayload {
    type V = RegisterPayloadView;

    open spec fn view(&self) -> RegisterPayloadView {
        RegisterPayloadView { group_id: self.group_id@, role: self.role, task_id: self.task_id@ }
    }
}

/// The server's reply to a registration request; client ids are UUIDs held as
/// their 128-bit value.
#[derive(Debug, Clone)]
pub struct RegisterResponsePayload {
    pub success: bool,
    pub message: Option<String>,
    pub assigned_client_id: u128,
    pub effective_group_id: Option<String>,
    pub effective_role: Option<ClientRole>,
}

/// Abstract value of a [`RegisterResponsePayload`].
pub struct RegisterResponsePayloadView {
    pub success: bool,
    pub message: Option<Seq<char>>,
    pub assigned_client_id: u128,
    pub effective_group_id: Option<Seq<char>>,
    pub effective_role: Option<ClientRole>,
}

impl View for RegisterResponsePayload {
    type V = RegisterResponsePayloadView;

    open spec fn view(&self) -> RegisterResponsePayloadView {
        RegisterResponsePayloadView {
            success: self.success,
            message: self.message.deep_view(),
            assigned_client_id: self.assigned_client_id,
            effective_group_id: self.effective_group_id.deep_view(),
            effective_role: self.effective_role,
        }
    }
}

/// Tells a client that its partner in a group came online or went offline.
#[derive(Debug, Clone)]
pub struct PartnerStatusPayload {
    pub partner_role: ClientRole,
    pub partner_client_id: u128,
    pub is_online: bool,
    pub group_id: String,
}

/// Abstract value of a [`PartnerStatusPayload`].
pub struct PartnerStatusPayloadView {
    pub partner_role: ClientRole,
    pub partner_client_id: u128,
    pub is_online: bool,
    pub group_id: Seq<char>,
}

impl View for PartnerStatusPayload {
    type V = PartnerStatusPayloadView;

    open spec fn view(&self) -> PartnerStatusPayloadView {
        PartnerStatusPayloadView {
            partner_role: self.partner_role,
            partner_client_id: self.partner_client_id,
            is_online: self.is_online,
            group_id: self.group_id@,
        }
    }
}

/// A request to update a task's debug note; the shared data is JSON text.
#[derive(Debug, Clone)]
pub struct UpdateTaskDebugNotePayload {
    pub group_id: String,
    pub new_note: String,
    pub custom_shared_data: Option<String>,
}

/// A generic success/failure answer to a command.
#[derive(Debug, Clone)]
pub struct GeneralResponse {
    pub success: bool,
    pub message: String,
}

} // verus!
