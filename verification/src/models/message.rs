//! The envelope in which every WebSocket message travels.

use vstd::prelude::*;

verus! {

/// A WebSocket message: an id, a timestamp in Unix milliseconds, a type that
/// says how to read the payload, and the payload as JSON text.
#[derive(Debug, Clone)]
pub struct WsMessage {
    pub message_id: String,
    pub timestamp: i64,
    pub message_type: String,
    pub payload: String,
}

} // verus!
