//! The data model shared by the cloud service and both desktop clients.

pub mod enums;
pub mod message;
pub mod payloads;
pub mod task_models;
pub mod templates;
