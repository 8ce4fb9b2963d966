//! Client sessions and the groups they form: connecting, registering into a
//! group with a role, and leaving, with the partner notices each step owes.

use vstd::prelude::*;
use dashmap::DashMap;
use crate::cloud::client_session::{fresh_session, ClientSession, ClientSessionView};
use crate::cloud::outbox::{outbox_view, partner_notice, Outgoing, OutgoingView, ServerMessage};
use crate::cloud::task_state_manager::{
    apply_business_action_spec, business_action_changes, init_spec, states_keyed_by_item_id,
    TaskStateManager,
};
use crate::models::enums::{partner_of, ClientRole};
use crate::models::payloads::{
    PartnerStatusPayload, RegisterPayload, RegisterPayloadView, RegisterResponsePayload,
    RegisterResponsePayloadView,
};
use crate::models::task_models::{
    BusinessActionPayload, TaskDebugState, TaskDebugStateView,
};
use crate::outside::clock::{is_random_uuid, uuid_text, uuid_to_string};
use crate::outside::tables::{
    client_table, clients_entries, clients_get, clients_insert, clients_len, clients_new,
    clients_remove, group_table, groups_get, groups_insert, groups_len, groups_new, groups_remove,
};

verus! {

/// A group of clients working on one task: at most one control center and at
/// most one on-site mobile client, held by their ids.
#[derive(Debug, Clone)]
pub struct Group {
    pub group_id: String,
    pub task_id: String,
    pub control_center_client: Option<u128>,
    pub on_site_mobile_client: Option<u128>,
}

/// Abstract value of a [`Group`].
pub struct GroupView {
    pub group_id: Seq<char>,
    pub task_id: Seq<char>,
    pub control_center_client: Option<u128>,
    pub on_site_mobile_client: Option<u128>,
}

impl View for Group {
    type V = GroupView;

    open spec fn view(&self) -> GroupView {
        GroupView {
            group_id: self.group_id@,
            task_id: self.task_id@,
            control_center_client: self.control_center_client,
            on_site_mobile_client: self.on_site_mobile_client,
        }
    }
}

/// A group with both slots empty.
pub open spec fn empty_group(group_id: Seq<char>, task_id: Seq<char>) -> GroupView {
    GroupView { group_id, task_id, control_center_client: None, on_site_mobile_client: None }
}

/// The slot of a group that a role occupies; an unknown role has none.
pub open spec fn slot_of(g: GroupView, role: ClientRole) -> Option<u128> {
    match role {
        ClientRole::ControlCenter => g.control_center_client,
        ClientRole::OnSiteMobile => g.on_site_mobile_client,
        ClientRole::Unknown => None,
    }
}

/// The group with the slot of `role` set to `v`.
pub open spec fn set_slot(g: GroupView, role: ClientRole, v: Option<u128>) -> GroupView {
    match role {
        ClientRole::ControlCenter => GroupView { control_center_client: v, ..g },
        ClientRole::OnSiteMobile => GroupView { on_site_mobile_client: v, ..g },
        ClientRole::Unknown => g,
    }
}

/// Whether both slots of a group are empty.
pub open spec fn group_is_empty(g: GroupView) -> bool {
    g.control_center_client is None && g.on_site_mobile_client is None
}

impl Group {
    /// A new group for a task, with both slots empty.
    pub fn new(group_id: String, task_id: String) -> (g: Self)
        ensures
            g@ == empty_group(group_id@, task_id@),
    {
        Group { group_id, task_id, control_center_client: None, on_site_mobile_client: None }
    }

    /// A field-by-field copy.
    pub fn duplicate(&self) -> (g: Self)
        ensures
            g@ == self@,
    {
        Group {
            group_id: self.group_id.clone(),
            task_id: self.task_id.clone(),
            control_center_client: self.control_center_client,
            on_site_mobile_client: self.on_site_mobile_client,
        }
    }
}

/// Abstract value of a [`ConnectionManager`]: the sessions by client id, the
/// groups by group id, the task states by group id, and the clients whose
/// connection has been told to close.
#[verifier::ext_equal]
pub struct ConnectionManagerView {
    pub clients: Map<u128, ClientSessionView>,
    pub groups: Map<Seq<char>, GroupView>,
    pub tasks: Map<Seq<char>, TaskDebugStateView>,
    pub closing: Set<u128>,
}

/// The bookkeeping stays consistent: every session is filed under its own id,
/// every group under its own id, every group has a task state, and every task
/// state keys its pre-check items by their ids.
pub open spec fn cm_wf(s: ConnectionManagerView) -> bool {
    &&& states_keyed_by_item_id(s.tasks)
    &&& s.clients.dom().finite()
    &&& s.groups.dom().finite()
    &&& forall|id: u128| #[trigger] s.clients.contains_key(id) ==> s.clients[id].client_id == id
    &&& forall|g: Seq<char>| #[trigger] s.groups.contains_key(g) ==> s.groups[g].group_id == g
    &&& forall|g: Seq<char>| #[trigger] s.groups.contains_key(g) ==> s.tasks.contains_key(g)
}

/// The reply to a refused registration.
pub open spec fn join_failure(client_id: u128, msg: Seq<char>) -> RegisterResponsePayloadView {
    RegisterResponsePayloadView {
        success: false,
        message: Some(msg),
        assigned_client_id: client_id,
        effective_group_id: None,
        effective_role: None,
    }
}

/// The reply to an accepted registration.
pub open spec fn join_success(client_id: u128, group_id: Seq<char>, role: ClientRole) -> RegisterResponsePayloadView {
    RegisterResponsePayloadView {
        success: true,
        message: Some("成功加入组。"@),
        assigned_client_id: client_id,
        effective_group_id: Some(group_id),
        effective_role: Some(role),
    }
}

/// Why a registration without a task id is refused.
pub open spec fn msg_empty_task() -> Seq<char> {
    "注册失败：必须提供有效的 task_id。"@
}

/// Why a registration for another task than the group's is refused.
pub open spec fn msg_task_mismatch(task_id: Seq<char>, group_id: Seq<char>, existing: Seq<char>) -> Seq<char> {
    "注册失败：提供的任务ID '"@ + task_id + "' 与组 '"@ + group_id + "' 已关联的任务ID '"@ + existing
        + "' 不匹配。"@
}

/// Why a registration whose role slot is taken, or whose role is unknown, is refused.
pub open spec fn msg_conflict(role: ClientRole, group_id: Seq<char>, occupant: u128) -> Seq<char> {
    match role {
        ClientRole::ControlCenter => "注册失败：组 '"@ + group_id + "' 已有一个活动的控制中心客户端 ("@
            + uuid_text(occupant) + ")."@,
        ClientRole::OnSiteMobile => "注册失败：组 '"@ + group_id + "' 已有一个活动的现场移动端客户端 ("@
            + uuid_text(occupant) + ")."@,
        ClientRole::Unknown => "注册失败：不允许以 'Unknown' 角色注册。请提供有效的客户端角色。"@,
    }
}

/// A slot can be taken by `client_id` when it is empty, holds that client
/// already, or holds a client whose connection has been told to close.
pub open spec fn slot_available(closing: Set<u128>, occupant: Option<u128>, client_id: u128) -> bool {
    match occupant {
        None => true,
        Some(x) => x == client_id || closing.contains(x),
    }
}

/// What a registration does. It is refused without a task id, or when the group
/// exists for another task; otherwise the group is created where missing and its
/// task state made sure of, and then the requested role's slot is taken, unless
/// the role is unknown or the slot is held by another client whose connection
/// has not been told to close. On success
/// the session records its role and group, and where the other slot holds
/// another client, that partner is told the client came online and the client
/// is told the partner is online.
pub open spec fn join_spec(
    s: ConnectionManagerView,
    client_id: u128,
    p: RegisterPayloadView,
    now: i128,
) -> (ConnectionManagerView, Seq<OutgoingView>, Result<RegisterResponsePayloadView, RegisterResponsePayloadView>) {
    let g = p.group_id;
    let t = p.task_id;
    if t.len() == 0 {
        (s, Seq::empty(), Err(join_failure(client_id, msg_empty_task())))
    } else if s.groups.contains_key(g) && s.groups[g].task_id != t {
        (s, Seq::empty(), Err(join_failure(client_id, msg_task_mismatch(t, g, s.groups[g].task_id))))
    } else {
        let groups1 = if s.groups.contains_key(g) {
            s.groups
        } else {
            s.groups.insert(g, empty_group(g, t))
        };
        let s1 = ConnectionManagerView { groups: groups1, tasks: init_spec(s.tasks, g, t, now), ..s };
        let grp = groups1[g];
        let occupant = slot_of(grp, p.role);
        if p.role == ClientRole::Unknown {
            (s1, Seq::empty(), Err(join_failure(client_id, msg_conflict(p.role, g, 0))))
        } else if !slot_available(s.closing, occupant, client_id) {
            (s1, Seq::empty(), Err(join_failure(client_id, msg_conflict(p.role, g, occupant->0))))
        } else {
            let grp2 = set_slot(grp, p.role, Some(client_id));
            let clients2 = if s.clients.contains_key(client_id) {
                s.clients.insert(
                    client_id,
                    ClientSessionView { role: p.role, group_id: Some(g), ..s.clients[client_id] },
                )
            } else {
                s.clients
            };
            let partner_role = partner_of(p.role)->0;
            let partner = slot_of(grp2, partner_role);
            let notes = if partner is Some && partner->0 != client_id {
                seq![
                    partner_notice(partner->0, p.role, client_id, true, g),
                    partner_notice(client_id, partner_role, partner->0, true, g),
                ]
            } else {
                Seq::empty()
            };
            (
                ConnectionManagerView { clients: clients2, groups: groups1.insert(g, grp2), ..s1 },
                notes,
                Ok(join_success(client_id, g, p.role)),
            )
        }
    }
}

/// What removing a client does. An unknown client changes nothing. Otherwise
/// its session goes and its connection is told to close; where it had registered into a group that still exists
/// and it holds its role's slot there, the slot is emptied and the partner in
/// the other slot, if any, is told it went offline. A group left with both
/// slots empty is dropped together with its task state. The flag says whether
/// the client was found (and its connection is to be closed).
pub open spec fn remove_spec(s: ConnectionManagerView, client_id: u128) -> (ConnectionManagerView, Seq<OutgoingView>, bool) {
    if !s.clients.contains_key(client_id) {
        (s, Seq::empty(), false)
    } else {
        let sess = s.clients[client_id];
        let s1 = ConnectionManagerView {
            clients: s.clients.remove(client_id),
            closing: s.closing.insert(client_id),
            ..s
        };
        if sess.group_id is None || sess.role == ClientRole::Unknown || !s.groups.contains_key(
            sess.group_id->0,
        ) {
            (s1, Seq::empty(), true)
        } else {
            let g = sess.group_id->0;
            let grp = s.groups[g];
            let holds = slot_of(grp, sess.role) == Some(client_id);
            let grp2 = if holds {
                set_slot(grp, sess.role, None)
            } else {
                grp
            };
            let partner = if holds {
                slot_of(grp, partner_of(sess.role)->0)
            } else {
                None
            };
            let notes = if partner is Some {
                seq![partner_notice(partner->0, sess.role, client_id, false, grp.group_id)]
            } else {
                Seq::empty()
            };
            if group_is_empty(grp2) {
                (
                    ConnectionManagerView {
                        groups: s.groups.remove(grp.group_id),
                        tasks: s.tasks.remove(grp.group_id),
                        ..s1
                    },
                    notes,
                    true,
                )
            } else {
                (ConnectionManagerView { groups: s.groups.insert(g, grp2), ..s1 }, notes, true)
            }
        }
    }
}

/// The members of a group to broadcast to: the control center, then the
/// on-site client, each where present and not the excluded client.
pub open spec fn broadcast_members(
    s: ConnectionManagerView,
    group_id: Seq<char>,
    exclude: Option<u128>,
) -> Seq<u128> {
    if !s.groups.contains_key(group_id) {
        Seq::empty()
    } else {
        let grp = s.groups[group_id];
        let a = if grp.control_center_client is Some && exclude != grp.control_center_client {
            seq![grp.control_center_client->0]
        } else {
            Seq::empty()
        };
        let b = if grp.on_site_mobile_client is Some && exclude != grp.on_site_mobile_client {
            seq![grp.on_site_mobile_client->0]
        } else {
            Seq::empty()
        };
        a + b
    }
}

/// The state after a client was heard from at `now`.
pub open spec fn touch_spec(s: ConnectionManagerView, client_id: u128, now: i128) -> ConnectionManagerView {
    if s.clients.contains_key(client_id) {
        ConnectionManagerView {
            clients: s.clients.insert(client_id, ClientSessionView { last_seen: now, ..s.clients[client_id] }),
            ..s
        }
    } else {
        s
    }
}

/// Abstract value of a registration's result.
pub open spec fn register_result_view(r: Result<RegisterResponsePayload, RegisterResponsePayload>) -> Result<RegisterResponsePayloadView, RegisterResponsePayloadView> {
    match r {
        Ok(p) => Ok(p@),
        Err(p) => Err(p@),
    }
}

/// Builds a registration reply.
fn register_reply(
    success: bool,
    message: String,
    client_id: u128,
    group_id: Option<String>,
    role: Option<ClientRole>,
) -> (r: RegisterResponsePayload)
    ensures
        r@ == (RegisterResponsePayloadView {
            success,
            message: Some(message@),
            assigned_client_id: client_id,
            effective_group_id: group_id.deep_view(),
            effective_role: role,
        }),
{
    RegisterResponsePayload {
        success,
        message: Some(message),
        assigned_client_id: client_id,
        effective_group_id: group_id,
        effective_role: role,
    }
}

/// A partner-status message.
fn partner_message(
    recipient: u128,
    partner_role: ClientRole,
    partner_client_id: u128,
    is_online: bool,
    group_id: String,
) -> (o: Outgoing)
    ensures
        o@ == partner_notice(recipient, partner_role, partner_client_id, is_online, group_id@),
{
    Outgoing {
        recipient,
        message: ServerMessage::PartnerStatusUpdate(
            PartnerStatusPayload { partner_role, partner_client_id, is_online, group_id },
        ),
    }
}

/// The text of a refused registration for a taken or unknown role.
fn conflict_message(role: ClientRole, group_id: &str, occupant: u128) -> (m: String)
    ensures
        m@ == msg_conflict(role, group_id@, occupant),
{
    match role {
        ClientRole::ControlCenter => {
            let mut m = "注册失败：组 '".to_owned();
            m.append(group_id);
            m.append("' 已有一个活动的控制中心客户端 (");
            let id = uuid_to_string(occupant);
            m.append(id.as_str());
            m.append(").");
            m
        },
        ClientRole::OnSiteMobile => {
            let mut m = "注册失败：组 '".to_owned();
            m.append(group_id);
            m.append("' 已有一个活动的现场移动端客户端 (");
            let id = uuid_to_string(occupant);
            m.append(id.as_str());
            m.append(").");
            m
        },
        ClientRole::Unknown => "注册失败：不允许以 'Unknown' 角色注册。请提供有效的客户端角色。".to_owned(),
    }
}

/// Keeps track of every connected client and of the groups they form, and owns
/// the task states of those groups.
pub struct ConnectionManager {
    clients: DashMap<u128, ClientSession>,
    groups: DashMap<String, Group>,
    task_state_manager: TaskStateManager,
    closing_clients: Vec<u128>,
}

impl View for ConnectionManager {
    type V = ConnectionManagerView;

    closed spec fn view(&self) -> ConnectionManagerView {
        ConnectionManagerView {
            clients: client_table(self.clients),
            groups: group_table(self.groups),
            tasks: self.task_state_manager@,
            closing: Set::new(|x: u128| self.closing_clients@.contains(x)),
        }
    }
}

impl ConnectionManager {
    /// The bookkeeping is consistent.
    pub open spec fn wf(&self) -> bool {
        cm_wf(self@)
    }

    /// A manager with no clients and no groups, owning the given task states
    /// (whose items are keyed by their ids, as a [`TaskStateManager`] keeps them).
    pub fn new(task_state_manager: TaskStateManager) -> (m: Self)
        requires
            states_keyed_by_item_id(task_state_manager@),
        ensures
            m.wf(),
            m@.clients.dom() == Set::<u128>::empty(),
            m@.groups.dom() == Set::<Seq<char>>::empty(),
            m@.tasks == task_state_manager@,
            m@.closing == Set::<u128>::empty(),
    {
        let m = ConnectionManager {
            clients: clients_new(),
            groups: groups_new(),
            task_state_manager,
            closing_clients: Vec::new(),
        };
        assert(m@.closing =~= Set::<u128>::empty());
        m
    }

    /// Whether the connection of `client_id` has been told to close.
    pub fn is_closing(&self, client_id: u128) -> (b: bool)
        ensures
            b == self@.closing.contains(client_id),
    {
        let n = self.closing_clients.len();
        let mut i: usize = 0;
        while i < n
            invariant
                n == self.closing_clients@.len(),
                i <= n,
                forall|k: int| 0 <= k < i ==> self.closing_clients@[k] != client_id,
            decreases n - i,
        {
            if self.closing_clients[i] == client_id {
                assert(self.closing_clients@[i as int] == client_id);
                return true;
            }
            i = i + 1;
        }
        false
    }

    /// The task states of the groups.
    pub fn task_state_manager(&self) -> (t: &TaskStateManager)
        ensures
            t@ == self@.tasks,
    {
        &self.task_state_manager
    }

    /// Starts tracking a client that has just connected, with the given session.
    pub fn add_session(&mut self, session: ClientSession)
        requires
            old(self).wf(),
        ensures
            final(self).wf(),
            final(self)@ == (ConnectionManagerView {
                clients: old(self)@.clients.insert(session@.client_id, session@),
                ..old(self)@
            }),
    {
        let id = session.client_id;
        let _ = clients_insert(&mut self.clients, id, session);
    }

    /// Starts tracking a client that has just connected from `addr`, with a
    /// fresh random id and the clock's time, and returns a copy of its session.
    pub fn add_client(&mut self, addr: String) -> (s: ClientSession)
        requires
            old(self).wf(),
        ensures
            final(self).wf(),
            exists|now: i128| s@ == #[trigger] fresh_session(s@.client_id, addr@, now),
            is_random_uuid(s.client_id),
            final(self)@ == (ConnectionManagerView {
                clients: old(self)@.clients.insert(s@.client_id, s@),
                ..old(self)@
            }),
    {
        let session = ClientSession::new(addr);
        let copy = ClientSession {
            client_id: session.client_id,
            role: session.role,
            addr: session.addr.clone(),
            creation_time: session.creation_time,
            last_seen: session.last_seen,
            group_id: None,
        };
        self.add_session(session);
        copy
    }

    /// A copy of the session of `client_id`, if it is connected.
    pub fn client_session(&self, client_id: u128) -> (r: Option<ClientSession>)
        ensures
            match r {
                Some(s) => self@.clients.contains_key(client_id) && s@ == self@.clients[client_id],
                None => !self@.clients.contains_key(client_id),
            },
    {
        clients_get(&self.clients, client_id)
    }

    /// Records that `client_id` was heard from at `now`.
    pub fn touch_client(&mut self, client_id: u128, now: i128)
        requires
            old(self).wf(),
        ensures
            final(self).wf(),
            final(self)@ == touch_spec(old(self)@, client_id, now),
    {
        match clients_get(&self.clients, client_id) {
            Some(mut s) => {
                s.last_seen = now;
                let _ = clients_insert(&mut self.clients, client_id, s);
            },
            None => {},
        }
    }

    /// Stops tracking `client_id`: drops its session, empties its slot in its
    /// group, tells its partner that it went offline, and drops the group and
    /// its task state once both slots are empty. Messages are appended to
    /// `outbox`; the result says whether the client was found, in which case its
    /// connection is to be closed.
    pub fn remove_client(&mut self, client_id: u128, outbox: &mut Vec<Outgoing>) -> (found: bool)
        requires
            old(self).wf(),
        ensures
            final(self).wf(),
            final(self)@ == remove_spec(old(self)@, client_id).0,
            outbox_view(final(outbox)@) == outbox_view(old(outbox)@) + remove_spec(old(self)@, client_id).1,
            found == remove_spec(old(self)@, client_id).2,
    {
        let ghost s = self@;
        let ghost ob = outbox_view(outbox@);
        match clients_remove(&mut self.clients, client_id) {
            None => {
                assert(outbox_view(outbox@) =~= ob + Seq::<OutgoingView>::empty());
                false
            },
            Some(sess) => {
                let ghost before = self.closing_clients@;
                self.closing_clients.push(client_id);
                assert forall|x: u128| self.closing_clients@.contains(x) <==> (before.contains(x) || x
                    == client_id) by {
                    if self.closing_clients@.contains(x) && x != client_id {
                        let k = choose|k: int| 0 <= k < self.closing_clients@.len() && self.closing_clients@[k] == x;
                        assert(before[k] == x);
                    }
                    if before.contains(x) {
                        let k = choose|k: int| 0 <= k < before.len() && before[k] == x;
                        assert(self.closing_clients@[k] == x);
                    }
                    if x == client_id {
                        assert(self.closing_clients@[before.len() as int] == x);
                    }
                }
                assert forall|x: u128| self@.closing.contains(x) <==> s.closing.insert(client_id).contains(x) by {
                    assert(s.closing.contains(x) <==> before.contains(x));
                    assert(self@.closing.contains(x) <==> self.closing_clients@.contains(x));
                }
                assert(self@.closing =~= s.closing.insert(client_id));
                let role = sess.role;
                match sess.group_id {
                    None => {
                        assert(outbox_view(outbox@) =~= ob + Seq::<OutgoingView>::empty());
                    },
                    Some(gid) => {
                        if role == ClientRole::Unknown {
                            assert(outbox_view(outbox@) =~= ob + Seq::<OutgoingView>::empty());
                        } else {
                            match groups_get(&self.groups, gid.as_str()) {
                                None => {
                                    assert(outbox_view(outbox@) =~= ob + Seq::<OutgoingView>::empty());
                                },
                                Some(mut grp) => {
                                    let ghost grp0 = grp@;
                                    let mut partner: Option<u128> = None;
                                    match role {
                                        ClientRole::ControlCenter => {
                                            if grp.control_center_client == Some(client_id) {
                                                grp.control_center_client = None;
                                                partner = grp.on_site_mobile_client;
                                            }
                                        },
                                        ClientRole::OnSiteMobile => {
                                            if grp.on_site_mobile_client == Some(client_id) {
                                                grp.on_site_mobile_client = None;
                                                partner = grp.control_center_client;
                                            }
                                        },
                                        ClientRole::Unknown => {},
                                    }
                                    match partner {
                                        Some(x) => {
                                            let o = partner_message(
                                                x,
                                                role,
                                                client_id,
                                                false,
                                                grp.group_id.clone(),
                                            );
                                            outbox.push(o);
                                            assert(outbox_view(outbox@) =~= ob + seq![
                                                partner_notice(x, role, client_id, false, grp0.group_id),
                                            ]);
                                        },
                                        None => {
                                            assert(outbox_view(outbox@) =~= ob + Seq::<OutgoingView>::empty());
                                        },
                                    }
                                    if grp.control_center_client.is_none()
                                        && grp.on_site_mobile_client.is_none() {
                                        let _ = self.task_state_manager.remove_task_state(
                                            grp.group_id.as_str(),
                                        );
                                        let _ = groups_remove(&mut self.groups, grp.group_id.as_str());
                                    } else {
                                        let _ = groups_insert(&mut self.groups, gid, grp);
                                    }
                                },
                            }
                        }
                    },
                }
                assert(self@ =~= remove_spec(s, client_id).0);
                true
            },
        }
    }

    /// Registers `client_id` into a group with a role for a task, at time `now`
    /// (which stamps a task state that has to be created). The reply is `Ok` on
    /// success and `Err` on refusal; partner notices are appended to `outbox`.
    pub fn join_group(
        &mut self,
        client_id: u128,
        payload: RegisterPayload,
        now: i128,
        outbox: &mut Vec<Outgoing>,
    ) -> (r: Result<RegisterResponsePayload, RegisterResponsePayload>)
        requires
            old(self).wf(),
        ensures
            final(self).wf(),
            final(self)@ == join_spec(old(self)@, client_id, payload@, now).0,
            outbox_view(final(outbox)@) == outbox_view(old(outbox)@) + join_spec(
                old(self)@,
                client_id,
                payload@,
                now,
            ).1,
            register_result_view(r) == join_spec(old(self)@, client_id, payload@, now).2,
    {
        let ghost s = self@;
        let ghost p = payload@;
        let ghost ob = outbox_view(outbox@);
        proof {
            assert(ob + Seq::<OutgoingView>::empty() =~= ob);
        }
        if payload.task_id.as_str().is_empty() {
            let msg = "注册失败：必须提供有效的 task_id。".to_owned();
            return Err(register_reply(false, msg, client_id, None, None));
        }
        let group_id = payload.group_id;
        let task_id = payload.task_id;
        let role = payload.role;
        let existing = groups_get(&self.groups, group_id.as_str());
        let mut group = match existing {
            Some(g) => {
                if !(g.task_id == task_id) {
                    let mut msg = "注册失败：提供的任务ID '".to_owned();
                    msg.append(task_id.as_str());
                    msg.append("' 与组 '");
                    msg.append(group_id.as_str());
                    msg.append("' 已关联的任务ID '");
                    msg.append(g.task_id.as_str());
                    msg.append("' 不匹配。");
                    return Err(register_reply(false, msg, client_id, None, None));
                }
                g
            },
            None => {
                let g = Group::new(group_id.clone(), task_id.clone());
                let _ = groups_insert(&mut self.groups, group_id.clone(), g.duplicate());
                g
            },
        };
        self.task_state_manager.init_task_state_at(group_id.clone(), task_id.clone(), now);
        let ghost s1 = self@;
        assert(group@ == s1.groups[group_id@]);
        let occupant = match role {
            ClientRole::ControlCenter => group.control_center_client,
            ClientRole::OnSiteMobile => group.on_site_mobile_client,
            ClientRole::Unknown => {
                let msg = conflict_message(role, group_id.as_str(), 0);
                return Err(register_reply(false, msg, client_id, None, None));
            },
        };
        let available = match occupant {
            None => true,
            Some(x) => x == client_id || self.is_closing(x),
        };
        if !available {
            let msg = conflict_message(role, group_id.as_str(), occupant.unwrap());
            return Err(register_reply(false, msg, client_id, None, None));
        }
        match role {
            ClientRole::ControlCenter => {
                group.control_center_client = Some(client_id);
            },
            _ => {
                group.on_site_mobile_client = Some(client_id);
            },
        }
        let partner = match role {
            ClientRole::ControlCenter => group.on_site_mobile_client,
            _ => group.control_center_client,
        };
        let _ = groups_insert(&mut self.groups, group_id.clone(), group);
        match clients_get(&self.clients, client_id) {
            Some(mut sess) => {
                sess.role = role;
                sess.group_id = Some(group_id.clone());
                let _ = clients_insert(&mut self.clients, client_id, sess);
            },
            None => {},
        }
        let partner_role = match role {
            ClientRole::ControlCenter => ClientRole::OnSiteMobile,
            _ => ClientRole::ControlCenter,
        };
        match partner {
            Some(x) => {
                if x != client_id {
                    outbox.push(partner_message(x, role, client_id, true, group_id.clone()));
                    outbox.push(partner_message(client_id, partner_role, x, true, group_id.clone()));
                    assert(outbox_view(outbox@) =~= ob + seq![
                        partner_notice(x, role, client_id, true, group_id@),
                        partner_notice(client_id, partner_role, x, true, group_id@),
                    ]);
                }
            },
            None => {},
        }
        let msg = "成功加入组。".to_owned();
        Ok(register_reply(true, msg, client_id, Some(group_id), Some(role)))
    }

    /// Copies of every connected client's session, in an order the table leaves open.
    pub fn get_all_client_sessions(&self) -> (r: Vec<ClientSession>)
        requires
            self.wf(),
        ensures
            r@.len() == self@.clients.dom().len(),
            forall|i: int|
                0 <= i < r@.len() ==> self@.clients.contains_key(#[trigger] r@[i].client_id)
                    && self@.clients[r@[i].client_id] == r@[i]@,
            forall|i: int, j: int| 0 <= i < j < r@.len() ==> r@[i].client_id != r@[j].client_id,
            forall|id: u128|
                self@.clients.contains_key(id) ==> exists|i: int|
                    0 <= i < r@.len() && r@[i].client_id == id,
    {
        let entries = clients_entries(&self.clients);
        let mut r: Vec<ClientSession> = Vec::new();
        let n = entries.len();
        let mut i: usize = 0;
        while i < n
            invariant
                n == entries@.len(),
                i <= n,
                r@.len() == i,
                forall|k: int| 0 <= k < i ==> r@[k]@ == entries@[k].1@,
            decreases n - i,
        {
            let (_, s) = &entries[i];
            r.push(
                ClientSession {
                    client_id: s.client_id,
                    role: s.role,
                    addr: s.addr.clone(),
                    creation_time: s.creation_time,
                    last_seen: s.last_seen,
                    group_id: crate::models::task_models::copy_opt_string(&s.group_id),
                },
            );
            i = i + 1;
        }
        assert forall|i: int| 0 <= i < r@.len() implies self@.clients.contains_key(
            #[trigger] r@[i].client_id,
        ) && self@.clients[r@[i].client_id] == r@[i]@ by {
            assert(self@.clients.contains_key(entries@[i].0));
        }
        assert forall|i: int, j: int| 0 <= i < j < r@.len() implies r@[i].client_id
            != r@[j].client_id by {
            assert(self@.clients.contains_key(entries@[i].0));
            assert(self@.clients.contains_key(entries@[j].0));
        }
        assert forall|id: u128| self@.clients.contains_key(id) implies exists|i: int|
            0 <= i < r@.len() && r@[i].client_id == id by {
            let i = choose|i: int| 0 <= i < entries@.len() && entries@[i].0 == id;
            assert(self@.clients.contains_key(entries@[i].0));
            assert(self@.clients[entries@[i].0].client_id == entries@[i].0);
            assert(r@[i].client_id == id);
        }
        r
    }

    /// The number of connected clients.
    pub fn get_client_count(&self) -> (n: usize)
        ensures
            n == self@.clients.dom().len(),
    {
        clients_len(&self.clients)
    }

    /// The number of groups.
    pub fn get_group_count(&self) -> (n: usize)
        ensures
            n == self@.groups.dom().len(),
    {
        groups_len(&self.groups)
    }

    /// A copy of the group `group_id`, if it exists.
    pub fn get_group(&self, group_id: &str) -> (r: Option<Group>)
        ensures
            match r {
                Some(g) => self@.groups.contains_key(group_id@) && g@ == self@.groups[group_id@],
                None => !self@.groups.contains_key(group_id@),
            },
    {
        groups_get(&self.groups, group_id)
    }

    /// The members of group `group_id` to broadcast to, leaving out
    /// `exclude_client_id`: none where the group does not exist.
    pub fn get_group_members_for_broadcast(
        &self,
        group_id: &str,
        exclude_client_id: Option<u128>,
    ) -> (r: Vec<u128>)
        ensures
            r@ == broadcast_members(self@, group_id@, exclude_client_id),
    {
        let mut members: Vec<u128> = Vec::new();
        match groups_get(&self.groups, group_id) {
            None => {
                assert(members@ =~= Seq::<u128>::empty());
            },
            Some(g) => {
                let ghost gv = g@;
                match g.control_center_client {
                    Some(x) => {
                        if exclude_client_id != Some(x) {
                            members.push(x);
                        }
                    },
                    None => {},
                }
                let ghost a = members@;
                match g.on_site_mobile_client {
                    Some(x) => {
                        if exclude_client_id != Some(x) {
                            members.push(x);
                        }
                    },
                    None => {},
                }
                let ghost a_spec = if gv.control_center_client is Some && exclude_client_id != gv.control_center_client {
                    seq![gv.control_center_client->0]
                } else {
                    Seq::<u128>::empty()
                };
                assert(a =~= a_spec);
                let ghost b_spec = if gv.on_site_mobile_client is Some && exclude_client_id != gv.on_site_mobile_client {
                    seq![gv.on_site_mobile_client->0]
                } else {
                    Seq::<u128>::empty()
                };
                assert(members@ =~= a_spec + b_spec);
            },
        }
        members
    }

    /// Applies a business action by `updater_role` at time `now` to the task
    /// state of `group_id`, and returns a copy of the new state where it changed.
    pub fn update_task_state(
        &mut self,
        group_id: &str,
        updater_role: ClientRole,
        action: BusinessActionPayload,
        now: i128,
    ) -> (r: Option<TaskDebugState>)
        requires
            old(self).wf(),
            business_action_changes(old(self)@.tasks, group_id@, updater_role, action@) ==> old(
                self,
            )@.tasks[group_id@].version < u64::MAX,
        ensures
            final(self).wf(),
            final(self)@ == (ConnectionManagerView {
                tasks: apply_business_action_spec(old(self)@.tasks, group_id@, updater_role, action@, now).0,
                ..old(self)@
            }),
            match r {
                Some(st) => apply_business_action_spec(old(self)@.tasks, group_id@, updater_role, action@, now).1
                    == Some(st@),
                None => apply_business_action_spec(old(self)@.tasks, group_id@, updater_role, action@, now).1
                    is None,
            },
    {
        self.task_state_manager.apply_business_action(group_id, updater_role, action, now)
    }
}

impl Default for ConnectionManager {
    /// A manager with no clients, no groups and no task states.
    fn default() -> (m: Self)
        ensures
            m.wf(),
            m@.clients.dom() == Set::<u128>::empty(),
            m@.groups.dom() == Set::<Seq<char>>::empty(),
            m@.tasks.dom() == Set::<Seq<char>>::empty(),
    {
        Self::new(TaskStateManager::new())
    }
}

} // verus!
