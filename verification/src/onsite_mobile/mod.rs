//! The on-site mobile client: its configuration, the events it raises for its
//! front end, the decisions of its WebSocket client and of its commands, its
//! task-context service, and the properties its client keeps.

pub mod commands;
pub mod config;
pub mod event;
pub mod events;
pub mod laws;
pub mod services;
pub mod ws_client;
