//! Finds clients that have not been heard from for too long and removes them.

use vstd::prelude::*;
use crate::cloud::connection_manager::{remove_spec, ConnectionManager, ConnectionManagerView};
use crate::cloud::outbox::{outbox_view, Outgoing, OutgoingView};
use crate::outside::clock::{
    current_time_nanos, elapsed_exceeds, seconds_as_chrono_millis, CHRONO_MAX_SECONDS,
    NANOS_PER_SECOND,
};

verus! {

/// The timeout used when the configured one does not fit a `chrono::Duration`.
pub const FALLBACK_TIMEOUT_NANOS: i128 = 60_000_000_000;

/// The timeout, in nanoseconds, that a configured number of seconds gives:
/// the seconds themselves where chrono can hold them, else a minute.
pub open spec fn effective_timeout_nanos(client_timeout_seconds: u64) -> int {
    if client_timeout_seconds <= CHRONO_MAX_SECONDS {
        client_timeout_seconds * NANOS_PER_SECOND
    } else {
        FALLBACK_TIMEOUT_NANOS as int
    }
}

/// A client last seen at `last_seen` has timed out at `now` when more than the
/// timeout has passed since.
pub open spec fn timed_out(now: i128, last_seen: i128, timeout_nanos: int) -> bool {
    now - last_seen > timeout_nanos
}

/// `ids` are exactly the clients of `s` that have timed out at `now` under the
/// timeout that `client_timeout_seconds` gives.
pub open spec fn expired_clients(
    ids: Seq<u128>,
    s: ConnectionManagerView,
    now: i128,
    client_timeout_seconds: u64,
) -> bool {
    forall|id: u128|
        ids.contains(id) <==> (s.clients.contains_key(id) && timed_out(
            now,
            s.clients[id].last_seen,
            effective_timeout_nanos(client_timeout_seconds),
        ))
}

/// Removing the clients `ids`, one after the other: the state reached and the
/// notices owed, in order.
pub open spec fn remove_all_spec(s: ConnectionManagerView, ids: Seq<u128>) -> (ConnectionManagerView, Seq<OutgoingView>)
    decreases ids.len(),
{
    if ids.len() == 0 {
        (s, Seq::empty())
    } else {
        let (s1, sent1) = remove_all_spec(s, ids.drop_last());
        let (s2, sent2, _) = remove_spec(s1, ids.last());
        (s2, sent1 + sent2)
    }
}

/// Checks periodically for clients whose last sign of life is older than the
/// client timeout, and removes them.
#[derive(Debug, Clone, Copy)]
pub struct HeartbeatMonitor {
    client_timeout_seconds: u64,
    check_interval_seconds: u64,
}

impl HeartbeatMonitor {
    /// The configured client timeout, in seconds.
    pub closed spec fn spec_client_timeout_seconds(&self) -> u64 {
        self.client_timeout_seconds
    }

    /// The configured interval between checks, in seconds.
    pub closed spec fn spec_check_interval_seconds(&self) -> u64 {
        self.check_interval_seconds
    }

    /// A monitor that removes clients silent for longer than
    /// `client_timeout_seconds`, checking every `check_interval_seconds`.
    pub fn new(client_timeout_seconds: u64, check_interval_seconds: u64) -> (m: Self)
        ensures
            m.spec_client_timeout_seconds() == client_timeout_seconds,
            m.spec_check_interval_seconds() == check_interval_seconds,
    {
        HeartbeatMonitor { client_timeout_seconds, check_interval_seconds }
    }

    /// The interval between checks, in seconds.
    pub fn check_interval_seconds(&self) -> (s: u64)
        ensures
            s == self.spec_check_interval_seconds(),
    {
        self.check_interval_seconds
    }

    /// The client timeout, in seconds.
    pub fn client_timeout_seconds(&self) -> (s: u64)
        ensures
            s == self.spec_client_timeout_seconds(),
    {
        self.client_timeout_seconds
    }

    /// The timeout in nanoseconds against which clients are checked.
    pub fn timeout_nanos(&self) -> (t: i128)
        ensures
            t == effective_timeout_nanos(self.spec_client_timeout_seconds()),
    {
        match seconds_as_chrono_millis(self.client_timeout_seconds) {
            Some(ms) => ms as i128 * 1_000_000,
            None => FALLBACK_TIMEOUT_NANOS,
        }
    }

    /// Removes, at time `now`, every client whose last sign of life is older
    /// than the timeout, appending the partner notices that each removal owes
    /// to `outbox`. Returns the ids removed, in the order they were removed.
    pub fn check_for_timed_out_clients_at(
        &self,
        connection_manager: &mut ConnectionManager,
        now: i128,
        outbox: &mut Vec<Outgoing>,
    ) -> (removed: Vec<u128>)
        requires
            old(connection_manager).wf(),
        ensures
            final(connection_manager).wf(),
            removed@.no_duplicates(),
            expired_clients(removed@, old(connection_manager)@, now, self.spec_client_timeout_seconds()),
            final(connection_manager)@ == remove_all_spec(old(connection_manager)@, removed@).0,
            outbox_view(final(outbox)@) == outbox_view(old(outbox)@) + remove_all_spec(
                old(connection_manager)@,
                removed@,
            ).1,
    {
        let ghost s0 = connection_manager@;
        let ghost ob0 = outbox_view(outbox@);
        let timeout = self.timeout_nanos();
        let sessions = connection_manager.get_all_client_sessions();
        let mut removed: Vec<u128> = Vec::new();
        let n = sessions.len();
        let mut i: usize = 0;
        proof {
            assert(removed@ =~= Seq::<u128>::empty());
            assert(ob0 + Seq::<OutgoingView>::empty() =~= ob0);
        }
        while i < n
            invariant
                n == sessions@.len(),
                i <= n,
                timeout == effective_timeout_nanos(self.spec_client_timeout_seconds()),
                connection_manager.wf(),
                forall|k: int|
                    0 <= k < n ==> s0.clients.contains_key(#[trigger] sessions@[k].client_id)
                        && s0.clients[sessions@[k].client_id] == sessions@[k]@,
                forall|a: int, b: int|
                    0 <= a < b < n ==> sessions@[a].client_id != sessions@[b].client_id,
                removed@.no_duplicates(),
                forall|j: int|
                    0 <= j < removed@.len() ==> exists|k: int|
                        0 <= k < i && #[trigger] removed@[j] == sessions@[k].client_id,
                forall|k: int|
                    0 <= k < i ==> (removed@.contains(#[trigger] sessions@[k].client_id) <==> timed_out(
                        now,
                        sessions@[k].last_seen,
                        timeout as int,
                    )),
                connection_manager@ == remove_all_spec(s0, removed@).0,
                outbox_view(outbox@) == ob0 + remove_all_spec(s0, removed@).1,
            decreases n - i,
        {
            let id = sessions[i].client_id;
            let last_seen = sessions[i].last_seen;
            let ghost before = removed@;
            if elapsed_exceeds(now, last_seen, timeout) {
                proof {
                    assert(!before.contains(id)) by {
                        if before.contains(id) {
                            let j = choose|j: int| 0 <= j < before.len() && before[j] == id;
                            let k = choose|k: int| 0 <= k < i && #[trigger] before[j] == sessions@[k].client_id;
                            assert(sessions@[k].client_id != sessions@[i as int].client_id);
                        }
                    }
                }
                let _ = connection_manager.remove_client(id, outbox);
                removed.push(id);
                proof {
                    assert(removed@.drop_last() =~= before);
                    assert(removed@.last() == id);
                    assert(outbox_view(outbox@) =~= ob0 + remove_all_spec(s0, removed@).1);
                    assert forall|j: int| 0 <= j < removed@.len() implies exists|k: int|
                        0 <= k < i + 1 && #[trigger] removed@[j] == sessions@[k].client_id by {
                        if j < before.len() {
                            assert(removed@[j] == before[j]);
                        } else {
                            assert(removed@[j] == sessions@[i as int].client_id);
                        }
                    }
                    assert forall|k: int| 0 <= k < i + 1 implies (removed@.contains(
                        #[trigger] sessions@[k].client_id,
                    ) <==> timed_out(now, sessions@[k].last_seen, timeout as int)) by {
                        if k < i {
                            assert(sessions@[k].client_id != id);
                            if before.contains(sessions@[k].client_id) {
                                let j = choose|j: int| 0 <= j < before.len() && before[j] == sessions@[k].client_id;
                                assert(removed@[j] == sessions@[k].client_id);
                            }
                        } else {
                            assert(removed@[before.len() as int] == id);
                        }
                    }
                }
            } else {
                proof {
                    assert(!before.contains(id)) by {
                        if before.contains(id) {
                            let j = choose|j: int| 0 <= j < before.len() && before[j] == id;
                            let k = choose|k: int| 0 <= k < i && #[trigger] before[j] == sessions@[k].client_id;
                            assert(sessions@[k].client_id != sessions@[i as int].client_id);
                        }
                    }
                }
            }
            i = i + 1;
        }
        proof {
            assert forall|id: u128|
                removed@.contains(id) <==> (s0.clients.contains_key(id) && timed_out(
                    now,
                    s0.clients[id].last_seen,
                    effective_timeout_nanos(self.spec_client_timeout_seconds()),
                )) by {
                if removed@.contains(id) {
                    let j = choose|j: int| 0 <= j < removed@.len() && removed@[j] == id;
                    let k = choose|k: int| 0 <= k < n && #[trigger] removed@[j] == sessions@[k].client_id;
                    assert(removed@.contains(sessions@[k].client_id));
                }
                if s0.clients.contains_key(id) {
                    let k = choose|k: int| 0 <= k < sessions@.len() && sessions@[k].client_id == id;
                    assert(s0.clients[sessions@[k].client_id] == sessions@[k]@);
                }
            }
        }
        removed
    }

    /// Removes every client whose last sign of life is older than the timeout,
    /// by the clock's time; otherwise as [`Self::check_for_timed_out_clients_at`].
    pub fn check_for_timed_out_clients(
        &self,
        connection_manager: &mut ConnectionManager,
        outbox: &mut Vec<Outgoing>,
    ) -> (removed: Vec<u128>)
        requires
            old(connection_manager).wf(),
        ensures
            final(connection_manager).wf(),
            removed@.no_duplicates(),
            exists|now: i128|
                #[trigger] expired_clients(
                    removed@,
                    old(connection_manager)@,
                    now,
                    self.spec_client_timeout_seconds(),
                ),
            final(connection_manager)@ == remove_all_spec(old(connection_manager)@, removed@).0,
            outbox_view(final(outbox)@) == outbox_view(old(outbox)@) + remove_all_spec(
                old(connection_manager)@,
                removed@,
            ).1,
    {
        let now = current_time_nanos();
        self.check_for_timed_out_clients_at(connection_manager, now, outbox)
    }
}

} // verus!
