//! The cloud service: client sessions, groups, the task states of the groups,
//! the message router, the heartbeat monitor, the configuration, and the
//! properties these keep across calls.

pub mod client_session;
pub mod config;
pub mod connection_manager;
pub mod greeting;
pub mod heartbeat_monitor;
pub mod laws;
pub mod message_router;
pub mod outbox;
pub mod task_state_manager;
