//! The events of the on-site client's context-tracking WebSocket service.

use vstd::prelude::*;
use crate::models::enums::ClientRole;
use crate::models::task_models::TaskDebugState;

verus! {

/// Event name of a registration answer.
pub const EVENT_WS_REGISTRATION_STATUS: &'static str = "event://ws-registration-status";
/// Event name of a partner status change.
pub const EVENT_WS_PARTNER_STATUS: &'static str = "event://ws-partner-status";
/// Event name of a replaced local task state.
pub const EVENT_LOCAL_TASK_STATE_UPDATED: &'static str = "event://local-task-state-updated";

/// The cloud's answer to a registration, with the task it was made for.
#[derive(Debug, Clone)]
pub struct WsRegistrationStatusEvent {
    pub success: bool,
    pub message: Option<String>,
    pub group_id: Option<String>,
    pub task_id: Option<String>,
}

/// The partner in the group came online or went offline.
#[derive(Debug, Clone)]
pub struct WsPartnerStatusEvent {
    pub partner_role: ClientRole,
    pub is_online: bool,
    pub group_id: String,
}

/// The task state that now stands locally.
#[derive(Debug, Clone)]
pub struct LocalTaskStateUpdatedEvent {
    pub new_state: TaskDebugState,
}

} // verus!
