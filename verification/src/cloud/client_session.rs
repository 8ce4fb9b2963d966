//! The server-side record of one connected WebSocket client.

use vstd::prelude::*;
use crate::models::enums::ClientRole;
use crate::outside::clock::{current_time_nanos, generate_client_id, is_random_uuid};

verus! {

/// One connected client: its id (a UUID held as its 128-bit value), its role
/// and group once it has registered, its address, and when it connected and
/// was last heard from (Unix nanoseconds).
#[derive(Debug, Clone)]
pub struct ClientSession {
    pub client_id: u128,
    pub role: ClientRole,
    pub addr: String,
    pub creation_time: i128,
    pub last_seen: i128,
    pub group_id: Option<String>,
}

/// Abstract value of a [`ClientSession`].
pub struct ClientSessionView {
    pub client_id: u128,
    pub role: ClientRole,
    pub addr: Seq<char>,
    pub creation_time: i128,
    pub last_seen: i128,
    pub group_id: Option<Seq<char>>,
}

impl View for ClientSession {
    type V = ClientSessionView;

    open spec fn view(&self) -> ClientSessionView {
        ClientSessionView {
            client_id: self.client_id,
            role: self.role,
            addr: self.addr@,
            creation_time: self.creation_time,
            last_seen: self.last_seen,
            group_id: self.group_id.deep_view(),
        }
    }
}

/// A session that has just connected: no role, no group, last seen when created.
pub open spec fn fresh_session(client_id: u128, addr: Seq<char>, now: i128) -> ClientSessionView {
    ClientSessionView {
        client_id,
        role: ClientRole::Unknown,
        addr,
        creation_time: now,
        last_seen: now,
        group_id: None,
    }
}

impl ClientSession {
    /// A session for a client that has just connected from `addr`, with a fresh
    /// random id and the clock's time.
    pub fn new(addr: String) -> (s: Self)
        ensures
            exists|id: u128, now: i128| s@ == fresh_session(id, addr@, now),
            is_random_uuid(s.client_id),
    {
        let client_id = generate_client_id();
        let now = current_time_nanos();
        Self::with_identity(client_id, addr, now)
    }

    /// A session for a client that has just connected, with the given id and time.
    pub fn with_identity(client_id: u128, addr: String, now: i128) -> (s: Self)
        ensures
            s@ == fresh_session(client_id, addr@, now),
    {
        ClientSession {
            client_id,
            role: ClientRole::Unknown,
            addr,
            creation_time: now,
            last_seen: now,
            group_id: None,
        }
    }
}

} // verus!
