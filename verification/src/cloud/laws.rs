//! Properties that hold across the cloud service's operations: what repeated
//! or combined calls do, and what every call keeps.

use vstd::prelude::*;
use crate::cloud::client_session::ClientSessionView;
use crate::cloud::connection_manager::{
    broadcast_members, cm_wf, group_is_empty, join_failure, join_spec, msg_empty_task,
    msg_task_mismatch, remove_spec, slot_available, slot_of, touch_spec, ConnectionManagerView,
};
use crate::cloud::message_router::{route_spec, InboundView};
use crate::cloud::outbox::{partner_notice, OutgoingView, ServerMessageView};
use crate::models::payloads::{EchoPayloadView, RegisterResponsePayloadView};
use crate::cloud::heartbeat_monitor::{effective_timeout_nanos, expired_clients, remove_all_spec, timed_out};
use crate::cloud::task_state_manager::{
    apply_business_action_spec, apply_pre_check_update, business_action_changes, items_keyed_uniquely,
    pre_check_update_changes, task_state_broadcast, BusinessActionView,
};
use crate::models::enums::ClientRole;
use crate::models::payloads::RegisterPayloadView;
use crate::models::task_models::{
    item_position, lemma_item_position, PreCheckItemStatusView, TaskDebugStateView,
    UpdatePreCheckItemPayloadView,
};

verus! {

/// An item with the id, and none before it, is the one `item_position` finds.
proof fn lemma_item_position_unique(items: Seq<PreCheckItemStatusView>, id: Seq<char>, k: int)
    requires
        0 <= k < items.len(),
        items[k].item_id == id,
        forall|j: int| 0 <= j < k ==> items[j].item_id != id,
    ensures
        item_position(items, id) == k,
{
    lemma_item_position(items, id);
    let p = item_position(items, id);
    if p < 0 {
        assert(items[k].item_id != id);
    } else if p < k {
        assert(items[p].item_id != id);
    } else if p > k {
        assert(items[k].item_id != id);
    }
}

/// Where the item that a pre-check update by a known role writes stands
/// afterwards, and what it holds: it is found at the position it had, or at the
/// end where it was new; it carries the updater's status and notes, and the
/// other side's as they were; every other item is untouched.
proof fn lemma_updated_item(
    s: TaskDebugStateView,
    role: ClientRole,
    p: UpdatePreCheckItemPayloadView,
    now: i128,
) -> (k: int)
    requires
        role != ClientRole::Unknown,
    ensures
        ({
            let items = apply_pre_check_update(s, role, p, now).0.pre_check_items;
            let pos = item_position(s.pre_check_items, p.item_id);
            &&& 0 <= k < items.len()
            &&& item_position(items, p.item_id) == k
            &&& items[k].item_id == p.item_id
            &&& pos >= 0 ==> k == pos && items.len() == s.pre_check_items.len()
            &&& pos < 0 ==> k == s.pre_check_items.len() && items.len() == s.pre_check_items.len() + 1
            &&& role == ClientRole::OnSiteMobile ==> items[k].status_from_site == Some(p.status)
                && items[k].notes_from_site == p.notes
            &&& role == ClientRole::ControlCenter ==> items[k].status_from_control == Some(p.status)
                && items[k].notes_from_control == p.notes
            &&& pos >= 0 && role == ClientRole::OnSiteMobile ==> items[k].status_from_control
                == s.pre_check_items[pos].status_from_control && items[k].notes_from_control
                == s.pre_check_items[pos].notes_from_control
            &&& pos >= 0 && role == ClientRole::ControlCenter ==> items[k].status_from_site
                == s.pre_check_items[pos].status_from_site && items[k].notes_from_site
                == s.pre_check_items[pos].notes_from_site
            &&& forall|j: int|
                0 <= j < s.pre_check_items.len() && j != k ==> #[trigger] items[j] == s.pre_check_items[j]
        }),
{
    let items = s.pre_check_items;
    lemma_item_position(items, p.item_id);
    let pos = item_position(items, p.item_id);
    let s1 = apply_pre_check_update(s, role, p, now).0;
    if pos >= 0 {
        assert forall|j: int| 0 <= j < pos implies s1.pre_check_items[j].item_id != p.item_id by {
            assert(s1.pre_check_items[j] == items[j]);
        }
        lemma_item_position_unique(s1.pre_check_items, p.item_id, pos);
        pos
    } else {
        let n = items.len() as int;
        assert forall|j: int| 0 <= j < n implies s1.pre_check_items[j].item_id != p.item_id by {
            assert(s1.pre_check_items[j] == items[j]);
        }
        lemma_item_position_unique(s1.pre_check_items, p.item_id, n);
        n
    }
}

/// Applying the same pre-check update a second time, by the same role, changes
/// nothing: the state stays as the first application left it, and no change is
/// reported.
pub proof fn law_repeated_pre_check_update_changes_nothing(
    s: TaskDebugStateView,
    role: ClientRole,
    p: UpdatePreCheckItemPayloadView,
    first: i128,
    second: i128,
)
    ensures
        apply_pre_check_update(apply_pre_check_update(s, role, p, first).0, role, p, second) == (
            apply_pre_check_update(s, role, p, first).0,
            false,
        ),
{
    if role != ClientRole::Unknown {
        let k = lemma_updated_item(s, role, p, first);
    }
}

/// A pre-check update changes the state exactly when
/// [`pre_check_update_changes`] says so. Then the version goes up by exactly
/// one and the role and the time are recorded; otherwise the state stays as it
/// was. (Where the update would change a state whose version is already the
/// largest `u64`, the version cannot go up; that state is left out.)
pub proof fn law_version_counts_changes(
    s: TaskDebugStateView,
    role: ClientRole,
    p: UpdatePreCheckItemPayloadView,
    now: i128,
)
    requires
        pre_check_update_changes(s, role, p) ==> s.version < u64::MAX,
    ensures
        ({
            let (s2, changed) = apply_pre_check_update(s, role, p, now);
            &&& changed == pre_check_update_changes(s, role, p)
            &&& changed ==> s2.version == s.version + 1 && s2.last_updated_by_role == Some(role)
                && s2.last_update_timestamp == now
            &&& !changed ==> s2 == s
            &&& s2.task_id == s.task_id
            &&& s2.single_test_steps == s.single_test_steps
        }),
{
}

/// A client of unknown role never changes a task state: not its items, its
/// version, its last updater or its last update time.
pub proof fn law_unknown_role_changes_nothing(
    s: TaskDebugStateView,
    p: UpdatePreCheckItemPayloadView,
    now: i128,
)
    ensures
        apply_pre_check_update(s, ClientRole::Unknown, p, now) == (s, false),
{
}

/// The site and the control center write separate fields: an update by the
/// site leaves the control center's status and notes of every item as they
/// were, and an update by the control center leaves the site's.
pub proof fn law_roles_write_separate_fields(
    s: TaskDebugStateView,
    p: UpdatePreCheckItemPayloadView,
    now: i128,
)
    ensures
        ({
            let site = apply_pre_check_update(s, ClientRole::OnSiteMobile, p, now).0.pre_check_items;
            forall|j: int|
                0 <= j < s.pre_check_items.len() ==> (#[trigger] site[j]).status_from_control
                    == s.pre_check_items[j].status_from_control && site[j].notes_from_control
                    == s.pre_check_items[j].notes_from_control
        }),
        ({
            let control = apply_pre_check_update(s, ClientRole::ControlCenter, p, now).0.pre_check_items;
            forall|j: int|
                0 <= j < s.pre_check_items.len() ==> (#[trigger] control[j]).status_from_site
                    == s.pre_check_items[j].status_from_site && control[j].notes_from_site
                    == s.pre_check_items[j].notes_from_site
        }),
{
    lemma_item_position(s.pre_check_items, p.item_id);
}

/// After a site update and a control-center update of the same item, the item
/// carries both reports: the site's status and notes, and the control
/// center's.
pub proof fn law_both_reports_are_kept(
    s: TaskDebugStateView,
    site: UpdatePreCheckItemPayloadView,
    control: UpdatePreCheckItemPayloadView,
    t1: i128,
    t2: i128,
)
    requires
        site.item_id == control.item_id,
    ensures
        ({
            let s1 = apply_pre_check_update(s, ClientRole::OnSiteMobile, site, t1).0;
            let s2 = apply_pre_check_update(s1, ClientRole::ControlCenter, control, t2).0;
            let k = item_position(s2.pre_check_items, site.item_id);
            &&& 0 <= k < s2.pre_check_items.len()
            &&& s2.pre_check_items[k].status_from_site == Some(site.status)
            &&& s2.pre_check_items[k].notes_from_site == site.notes
            &&& s2.pre_check_items[k].status_from_control == Some(control.status)
            &&& s2.pre_check_items[k].notes_from_control == control.notes
        }),
{
    let s1 = apply_pre_check_update(s, ClientRole::OnSiteMobile, site, t1).0;
    let k1 = lemma_updated_item(s, ClientRole::OnSiteMobile, site, t1);
    let k2 = lemma_updated_item(s1, ClientRole::ControlCenter, control, t2);
    assert(k1 == k2);
}

/// Applying the same pre-check update to a group's task state a second time,
/// by the same role, changes nothing: the states stay as the first call left
/// them, and no new state is reported.
pub proof fn law_repeated_business_update_changes_nothing(
    states: Map<Seq<char>, TaskDebugStateView>,
    group_id: Seq<char>,
    role: ClientRole,
    p: UpdatePreCheckItemPayloadView,
    first: i128,
    second: i128,
)
    ensures
        ({
            let a = BusinessActionView::UpdatePreCheckItem(p);
            let after = apply_business_action_spec(states, group_id, role, a, first).0;
            &&& apply_business_action_spec(after, group_id, role, a, second) == (
                after,
                None::<TaskDebugStateView>,
            )
            &&& !business_action_changes(after, group_id, role, a)
        }),
{
    if states.contains_key(group_id) {
        law_repeated_pre_check_update_changes_nothing(states[group_id], role, p, first, second);
        let s1 = apply_pre_check_update(states[group_id], role, p, first).0;
        law_version_counts_changes(s1, role, p, second);
        let after = states.insert(group_id, s1);
        assert(after.insert(group_id, s1) =~= after);
    }
}

/// A business action on a group with a task state of version `v` reports a new
/// state exactly when the stored version becomes `v + 1`, and otherwise leaves
/// the version at `v`; a reported state is the stored one, and records the
/// updater's role. (Where the action would change a state whose version is
/// already the largest `u64`, the version cannot go up; that state is left
/// out.)
pub proof fn law_business_update_counts_version(
    states: Map<Seq<char>, TaskDebugStateView>,
    group_id: Seq<char>,
    role: ClientRole,
    action: BusinessActionView,
    now: i128,
)
    requires
        states.contains_key(group_id),
        business_action_changes(states, group_id, role, action) ==> states[group_id].version < u64::MAX,
    ensures
        ({
            let (after, reported) = apply_business_action_spec(states, group_id, role, action, now);
            let v = states[group_id].version;
            &&& after.contains_key(group_id)
            &&& reported is Some <==> after[group_id].version == v + 1
            &&& reported is None ==> after[group_id].version == v
            &&& reported is Some <==> business_action_changes(states, group_id, role, action)
            &&& reported matches Some(st) ==> st == after[group_id] && st.last_updated_by_role == Some(role)
        }),
{
    if let BusinessActionView::UpdatePreCheckItem(p) = action {
        law_version_counts_changes(states[group_id], role, p, now);
    }
}

/// Test-step actions, and any action on a group without a task state, leave
/// the task states as they are and report no new state.
pub proof fn law_actions_without_effect(
    states: Map<Seq<char>, TaskDebugStateView>,
    group_id: Seq<char>,
    role: ClientRole,
    action: BusinessActionView,
    now: i128,
)
    requires
        !states.contains_key(group_id) || !(action is UpdatePreCheckItem),
    ensures
        apply_business_action_spec(states, group_id, role, action, now) == (
            states,
            None::<TaskDebugStateView>,
        ),
{
}

/// When a registration is accepted, and what it does then. It is accepted
/// exactly when it names a task, the group is new or already serves that task,
/// the role is known, and the role's slot is free, held by the client itself,
/// or held by a client whose connection is gone. An accepted registration puts
/// the client in its role's slot of the group, which serves the task and has a
/// task state, and the client's session records the role and the group. A
/// registration without a task, or for another task than the group's, changes
/// nothing. Every registration keeps the bookkeeping consistent.
pub proof fn law_registration_outcome(
    s: ConnectionManagerView,
    client_id: u128,
    p: RegisterPayloadView,
    now: i128,
)
    requires
        cm_wf(s),
    ensures
        ({
            let (s2, notes, r) = join_spec(s, client_id, p, now);
            let g = p.group_id;
            let occupant = if s.groups.contains_key(g) {
                slot_of(s.groups[g], p.role)
            } else {
                None
            };
            &&& (r is Ok) <==> (p.task_id.len() > 0 && !(s.groups.contains_key(g)
                && s.groups[g].task_id != p.task_id) && p.role != ClientRole::Unknown
                && slot_available(s.closing, occupant, client_id))
            &&& r is Ok ==> {
                &&& s2.groups.contains_key(g)
                &&& slot_of(s2.groups[g], p.role) == Some(client_id)
                &&& s2.groups[g].task_id == p.task_id
                &&& s2.tasks.contains_key(g)
                &&& s.clients.contains_key(client_id) ==> s2.clients[client_id].role == p.role
                    && s2.clients[client_id].group_id == Some(g)
            }
            &&& p.task_id.len() == 0 ==> s2 == s && notes.len() == 0 && r == Err::<
                RegisterResponsePayloadView,
                RegisterResponsePayloadView,
            >(join_failure(client_id, msg_empty_task()))
            &&& (p.task_id.len() > 0 && s.groups.contains_key(g) && s.groups[g].task_id
                != p.task_id) ==> s2 == s && notes.len() == 0 && r == Err::<
                RegisterResponsePayloadView,
                RegisterResponsePayloadView,
            >(join_failure(client_id, msg_task_mismatch(p.task_id, g, s.groups[g].task_id)))
            &&& cm_wf(s2)
        }),
{
}

/// Removing a client forgets its session, creates no group, and frees the slot
/// the client held in its group: the group then either has the slot empty, or,
/// where both slots came out empty, is gone together with its task state. It
/// reports whether the client was known, and keeps the bookkeeping consistent.
pub proof fn law_removal_frees_the_client(s: ConnectionManagerView, client_id: u128)
    requires
        cm_wf(s),
    ensures
        ({
            let (s2, _, found) = remove_spec(s, client_id);
            &&& found == s.clients.contains_key(client_id)
            &&& !s2.clients.contains_key(client_id)
            &&& forall|g: Seq<char>| #[trigger] s2.groups.contains_key(g) ==> s.groups.contains_key(g)
            &&& cm_wf(s2)
            &&& (s.clients.contains_key(client_id) && s.clients[client_id].group_id is Some
                && s.groups.contains_key(s.clients[client_id].group_id->0) && slot_of(
                s.groups[s.clients[client_id].group_id->0],
                s.clients[client_id].role,
            ) == Some(client_id)) ==> {
                let g = s.clients[client_id].group_id->0;
                let role = s.clients[client_id].role;
                ||| !s2.groups.contains_key(g) && !s2.tasks.contains_key(g)
                ||| s2.groups.contains_key(g) && slot_of(s2.groups[g], role) is None
            }
        }),
{
    if s.clients.contains_key(client_id) {
        assert(s.clients.remove(client_id).dom().finite());
    }
}

/// A client that opens a new group for a task and then leaves it undoes the
/// opening: the groups and the task states are as before, and only the
/// client's own session is gone.
pub proof fn law_leaving_a_new_group_undoes_opening_it(
    s: ConnectionManagerView,
    client_id: u128,
    p: RegisterPayloadView,
    now: i128,
)
    requires
        cm_wf(s),
        s.clients.contains_key(client_id),
        !s.groups.contains_key(p.group_id),
        !s.tasks.contains_key(p.group_id),
        p.task_id.len() > 0,
        p.role != ClientRole::Unknown,
    ensures
        ({
            let s2 = join_spec(s, client_id, p, now).0;
            let s3 = remove_spec(s2, client_id).0;
            &&& s3.groups == s.groups
            &&& s3.tasks == s.tasks
            &&& s3.clients == s.clients.remove(client_id)
        }),
{
    let g = p.group_id;
    let s2 = join_spec(s, client_id, p, now).0;
    let s3 = remove_spec(s2, client_id).0;
    assert(s2.groups.contains_key(g));
    assert(s2.clients[client_id].group_id == Some(g));
    assert(s2.clients[client_id].role == p.role);
    assert(group_is_empty(
        crate::cloud::connection_manager::set_slot(s2.groups[g], p.role, None),
    ));
    assert(s3.groups =~= s.groups);
    assert(s3.tasks =~= s.tasks);
    assert(s3.clients =~= s.clients.remove(client_id));
}

/// The connected holder of a group's slot for `role`, where there is one,
/// records that role and that group in its session.
pub open spec fn holder_records_slot(s: ConnectionManagerView, g: Seq<char>, role: ClientRole) -> bool {
    let h = slot_of(s.groups[g], role);
    h is Some && s.clients.contains_key(h->0) ==> s.clients[h->0].role == role
        && s.clients[h->0].group_id == Some(g)
}

/// Every connected slot holder records its slot: in every group, the control
/// center's session says it is a control center of that group, and the on-site
/// client's says it is an on-site client of that group. So no connected client
/// of unknown role holds a slot.
pub open spec fn slots_consistent(s: ConnectionManagerView) -> bool {
    forall|g: Seq<char>| #[trigger]
        s.groups.contains_key(g) ==> holder_records_slot(s, g, ClientRole::ControlCenter)
            && holder_records_slot(s, g, ClientRole::OnSiteMobile)
}

/// Every group of `s` is still there in `s2`, for the same task.
pub open spec fn groups_keep_their_tasks(s: ConnectionManagerView, s2: ConnectionManagerView) -> bool {
    forall|g: Seq<char>| #[trigger]
        s.groups.contains_key(g) ==> s2.groups.contains_key(g) && s2.groups[g].task_id == s.groups[g].task_id
}

/// A registration keeps every connected slot holder's session in step with
/// its slot, and never changes the task of a group or drops one. This holds of
/// every refused registration, and of every accepted one by a client that is in
/// no group yet or registers again for the slot it has. (A client that is
/// accepted a second time for another slot leaves its first slot behind while
/// its session names the new one; such a registration is left out.)
pub proof fn law_registration_keeps_slots_consistent(
    s: ConnectionManagerView,
    client_id: u128,
    p: RegisterPayloadView,
    now: i128,
)
    requires
        cm_wf(s),
        slots_consistent(s),
        join_spec(s, client_id, p, now).2 is Ok && s.clients.contains_key(client_id) ==> (
        s.clients[client_id].group_id is None || (s.clients[client_id].group_id == Some(p.group_id)
            && s.clients[client_id].role == p.role)),
    ensures
        slots_consistent(join_spec(s, client_id, p, now).0),
        groups_keep_their_tasks(s, join_spec(s, client_id, p, now).0),
{
    let s2 = join_spec(s, client_id, p, now).0;
    let g = p.group_id;
    if join_spec(s, client_id, p, now).2 is Ok {
        assert forall|h: Seq<char>| #[trigger] s2.groups.contains_key(h) implies holder_records_slot(
            s2,
            h,
            ClientRole::ControlCenter,
        ) && holder_records_slot(s2, h, ClientRole::OnSiteMobile) by {
            if h != g {
                assert(s.groups.contains_key(h));
                assert(holder_records_slot(s, h, ClientRole::ControlCenter));
                assert(holder_records_slot(s, h, ClientRole::OnSiteMobile));
            } else if s.groups.contains_key(g) {
                assert(holder_records_slot(s, g, ClientRole::ControlCenter));
                assert(holder_records_slot(s, g, ClientRole::OnSiteMobile));
            }
        }
    } else {
        assert forall|h: Seq<char>| #[trigger] s2.groups.contains_key(h) implies holder_records_slot(
            s2,
            h,
            ClientRole::ControlCenter,
        ) && holder_records_slot(s2, h, ClientRole::OnSiteMobile) by {
            if s.groups.contains_key(h) {
                assert(holder_records_slot(s, h, ClientRole::ControlCenter));
                assert(holder_records_slot(s, h, ClientRole::OnSiteMobile));
            }
        }
    }
}

/// Removing a client keeps every connected slot holder's session in step with
/// its slot, and never changes the task of a group that stays.
pub proof fn law_removal_keeps_slots_consistent(s: ConnectionManagerView, client_id: u128)
    requires
        cm_wf(s),
        slots_consistent(s),
    ensures
        slots_consistent(remove_spec(s, client_id).0),
        forall|g: Seq<char>| #[trigger]
            remove_spec(s, client_id).0.groups.contains_key(g) ==> s.groups.contains_key(g)
                && remove_spec(s, client_id).0.groups[g].task_id == s.groups[g].task_id,
{
    let s2 = remove_spec(s, client_id).0;
    assert forall|h: Seq<char>| #[trigger] s2.groups.contains_key(h) implies holder_records_slot(
        s2,
        h,
        ClientRole::ControlCenter,
    ) && holder_records_slot(s2, h, ClientRole::OnSiteMobile) by {
        assert(s.groups.contains_key(h));
        assert(holder_records_slot(s, h, ClientRole::ControlCenter));
        assert(holder_records_slot(s, h, ClientRole::OnSiteMobile));
    }
}

/// Hearing from a client keeps every connected slot holder's session in step
/// with its slot, and leaves the groups as they are.
pub proof fn law_touch_keeps_slots_consistent(s: ConnectionManagerView, client_id: u128, now: i128)
    requires
        slots_consistent(s),
    ensures
        slots_consistent(touch_spec(s, client_id, now)),
        touch_spec(s, client_id, now).groups == s.groups,
{
    let s2 = touch_spec(s, client_id, now);
    assert forall|h: Seq<char>| #[trigger] s2.groups.contains_key(h) implies holder_records_slot(
        s2,
        h,
        ClientRole::ControlCenter,
    ) && holder_records_slot(s2, h, ClientRole::OnSiteMobile) by {
        assert(holder_records_slot(s, h, ClientRole::ControlCenter));
        assert(holder_records_slot(s, h, ClientRole::OnSiteMobile));
    }
}

/// Starting to track a client that holds no slot keeps every connected slot
/// holder's session in step with its slot, and leaves the groups as they are.
pub proof fn law_new_session_keeps_slots_consistent(s: ConnectionManagerView, session: ClientSessionView)
    requires
        slots_consistent(s),
        forall|g: Seq<char>| #[trigger]
            s.groups.contains_key(g) ==> slot_of(s.groups[g], ClientRole::ControlCenter) != Some(
                session.client_id,
            ) && slot_of(s.groups[g], ClientRole::OnSiteMobile) != Some(session.client_id),
    ensures
        slots_consistent(
            ConnectionManagerView { clients: s.clients.insert(session.client_id, session), ..s },
        ),
{
    let s2 = ConnectionManagerView { clients: s.clients.insert(session.client_id, session), ..s };
    assert forall|h: Seq<char>| #[trigger] s2.groups.contains_key(h) implies holder_records_slot(
        s2,
        h,
        ClientRole::ControlCenter,
    ) && holder_records_slot(s2, h, ClientRole::OnSiteMobile) by {
        assert(holder_records_slot(s, h, ClientRole::ControlCenter));
        assert(holder_records_slot(s, h, ClientRole::OnSiteMobile));
    }
}

/// Handling any message keeps every connected slot holder's session in step
/// with its slot, and never changes the task of a group or drops one; for a
/// registration, under the same terms as
/// [`law_registration_keeps_slots_consistent`].
pub proof fn law_routing_keeps_slots_consistent(
    s: ConnectionManagerView,
    client_id: u128,
    message_type: Seq<char>,
    payload: InboundView,
    now: i128,
)
    requires
        cm_wf(s),
        slots_consistent(s),
        payload matches InboundView::Register(Ok(p)) ==> (join_spec(
            touch_spec(s, client_id, now),
            client_id,
            p,
            now,
        ).2 is Ok && s.clients.contains_key(client_id) ==> (s.clients[client_id].group_id is None || (
        s.clients[client_id].group_id == Some(p.group_id) && s.clients[client_id].role == p.role))),
    ensures
        slots_consistent(route_spec(s, client_id, message_type, payload, now).0),
        groups_keep_their_tasks(s, route_spec(s, client_id, message_type, payload, now).0),
{
    let s1 = touch_spec(s, client_id, now);
    law_touch_keeps_slots_consistent(s, client_id, now);
    if let InboundView::Register(Ok(p)) = payload {
        law_registration_keeps_slots_consistent(s1, client_id, p, now);
    }
}

/// One operation on the cloud service's bookkeeping: a client connects with a
/// session, registers, is heard from, or is removed.
pub enum ManagerStep {
    Connect(ClientSessionView),
    Register(u128, RegisterPayloadView, i128),
    Hear(u128, i128),
    Remove(u128),
}

/// The state after one operation, as the manager's own functions do it.
pub open spec fn apply_step(s: ConnectionManagerView, op: ManagerStep) -> ConnectionManagerView {
    match op {
        ManagerStep::Connect(session) => ConnectionManagerView {
            clients: s.clients.insert(session.client_id, session),
            ..s
        },
        ManagerStep::Register(client_id, p, now) => join_spec(s, client_id, p, now).0,
        ManagerStep::Hear(client_id, now) => touch_spec(s, client_id, now),
        ManagerStep::Remove(client_id) => remove_spec(s, client_id).0,
    }
}

/// The state after the operations, one after the other.
pub open spec fn run_steps(s: ConnectionManagerView, ops: Seq<ManagerStep>) -> ConnectionManagerView
    decreases ops.len(),
{
    if ops.len() == 0 {
        s
    } else {
        apply_step(run_steps(s, ops.drop_last()), ops.last())
    }
}

/// The terms of [`law_runs_keep_slots_consistent`] for one operation: a
/// connecting client holds no slot (its id is fresh), and a client that is
/// accepted is in no group yet or registers again for the slot it has.
pub open spec fn step_allowed(s: ConnectionManagerView, op: ManagerStep) -> bool {
    match op {
        ManagerStep::Connect(session) => forall|g: Seq<char>| #[trigger]
            s.groups.contains_key(g) ==> slot_of(s.groups[g], ClientRole::ControlCenter) != Some(
                session.client_id,
            ) && slot_of(s.groups[g], ClientRole::OnSiteMobile) != Some(session.client_id),
        ManagerStep::Register(client_id, p, now) => join_spec(s, client_id, p, now).2 is Ok
            && s.clients.contains_key(client_id) ==> (s.clients[client_id].group_id is None || (
        s.clients[client_id].group_id == Some(p.group_id) && s.clients[client_id].role == p.role)),
        _ => true,
    }
}

/// Every operation of the run is allowed where it comes.
pub open spec fn run_allowed(s: ConnectionManagerView, ops: Seq<ManagerStep>) -> bool
    decreases ops.len(),
{
    ops.len() == 0 || (run_allowed(s, ops.drop_last()) && step_allowed(
        run_steps(s, ops.drop_last()),
        ops.last(),
    ))
}

/// Whatever sequence of connections, registrations, signs of life and
/// removals the service goes through, every connected slot holder's session
/// records that slot's role and group (so no connected client of unknown role
/// holds a slot), and the bookkeeping stays consistent. Connecting clients
/// have fresh ids, and registrations are under the terms of
/// [`law_registration_keeps_slots_consistent`].
pub proof fn law_runs_keep_slots_consistent(s: ConnectionManagerView, ops: Seq<ManagerStep>)
    requires
        cm_wf(s),
        slots_consistent(s),
        run_allowed(s, ops),
    ensures
        cm_wf(run_steps(s, ops)),
        slots_consistent(run_steps(s, ops)),
    decreases ops.len(),
{
    if ops.len() > 0 {
        let d = ops.drop_last();
        law_runs_keep_slots_consistent(s, d);
        let s1 = run_steps(s, d);
        match ops.last() {
            ManagerStep::Connect(session) => {
                law_new_session_keeps_slots_consistent(s1, session);
            },
            ManagerStep::Register(client_id, p, now) => {
                law_registration_outcome(s1, client_id, p, now);
                law_registration_keeps_slots_consistent(s1, client_id, p, now);
            },
            ManagerStep::Hear(client_id, now) => {
                law_touch_keeps_slots_consistent(s1, client_id, now);
            },
            ManagerStep::Remove(client_id) => {
                law_removal_frees_the_client(s1, client_id);
                law_removal_keeps_slots_consistent(s1, client_id);
            },
        }
    }
}

/// No operation changes the task of a group that it keeps: a group serves one
/// task for as long as it exists.
pub proof fn law_steps_keep_group_tasks(s: ConnectionManagerView, op: ManagerStep)
    requires
        cm_wf(s),
    ensures
        forall|g: Seq<char>| #[trigger]
            s.groups.contains_key(g) && apply_step(s, op).groups.contains_key(g) ==> apply_step(
                s,
                op,
            ).groups[g].task_id == s.groups[g].task_id,
{
}

/// Starting from a manager with no clients and no groups, whatever allowed run
/// follows keeps every connected slot holder's session in step with its slot,
/// and no group's task ever changes.
pub proof fn law_slots_stay_consistent_from_the_start(s: ConnectionManagerView, ops: Seq<ManagerStep>)
    requires
        s.clients.dom() == Set::<u128>::empty(),
        s.groups.dom() == Set::<Seq<char>>::empty(),
        s.tasks.dom() == Set::<Seq<char>>::empty(),
        run_allowed(s, ops),
    ensures
        slots_consistent(run_steps(s, ops)),
        cm_wf(run_steps(s, ops)),
{
    assert(s.clients.dom().finite() && s.groups.dom().finite()) by {
        assert(s.clients.dom() =~= Set::<u128>::empty());
        assert(s.groups.dom() =~= Set::<Seq<char>>::empty());
    }
    assert forall|g: Seq<char>| !s.groups.contains_key(g) && !s.tasks.contains_key(g) by {
        assert(!s.groups.dom().contains(g));
        assert(!s.tasks.dom().contains(g));
    }
    assert forall|id: u128| !s.clients.contains_key(id) by {
        assert(!s.clients.dom().contains(id));
    }
    law_runs_keep_slots_consistent(s, ops);
}

/// Removing a client forgets its session and no other.
proof fn lemma_remove_clients(s: ConnectionManagerView, client_id: u128)
    ensures
        remove_spec(s, client_id).0.clients == s.clients.remove(client_id),
{
    assert(remove_spec(s, client_id).0.clients =~= s.clients.remove(client_id));
}

/// Removing clients one after another forgets exactly their sessions and
/// leaves every other session as it was.
proof fn lemma_remove_all_clients(s: ConnectionManagerView, ids: Seq<u128>)
    ensures
        forall|id: u128|
            #[trigger] remove_all_spec(s, ids).0.clients.contains_key(id) <==> (s.clients.contains_key(id)
                && !ids.contains(id)),
        forall|id: u128|
            #[trigger] remove_all_spec(s, ids).0.clients.contains_key(id) ==> remove_all_spec(
                s,
                ids,
            ).0.clients[id] == s.clients[id],
    decreases ids.len(),
{
    if ids.len() > 0 {
        let d = ids.drop_last();
        lemma_remove_all_clients(s, d);
        lemma_remove_clients(remove_all_spec(s, d).0, ids.last());
        assert forall|id: u128| ids.contains(id) <==> (d.contains(id) || id == ids.last()) by {
            if ids.contains(id) {
                let j = choose|j: int| 0 <= j < ids.len() && ids[j] == id;
                if j < ids.len() - 1 {
                    assert(d[j] == id);
                }
            }
            if d.contains(id) {
                let j = choose|j: int| 0 <= j < d.len() && d[j] == id;
                assert(ids[j] == id);
            }
        }
    }
}

/// A heartbeat check keeps exactly the clients that have not timed out, with
/// their sessions as they were: no client it keeps has timed out, and every
/// client that has not timed out is kept.
pub proof fn law_check_keeps_exactly_the_live_clients(
    s: ConnectionManagerView,
    removed: Seq<u128>,
    now: i128,
    client_timeout_seconds: u64,
)
    requires
        expired_clients(removed, s, now, client_timeout_seconds),
    ensures
        ({
            let kept = remove_all_spec(s, removed).0.clients;
            let t = effective_timeout_nanos(client_timeout_seconds);
            &&& forall|id: u128| #[trigger] kept.contains_key(id) ==> !timed_out(now, kept[id].last_seen, t)
            &&& forall|id: u128|
                s.clients.contains_key(id) && !timed_out(now, s.clients[id].last_seen, t)
                    ==> #[trigger] kept.contains_key(id)
            &&& forall|id: u128| #[trigger] kept.contains_key(id) ==> kept[id] == s.clients[id]
        }),
{
    lemma_remove_all_clients(s, removed);
}

/// Every message a connected client sends counts as a sign of life: whatever
/// it asks, afterwards the client is still connected, was last seen at that
/// moment, and so has not timed out then.
pub proof fn law_any_message_is_a_sign_of_life(
    s: ConnectionManagerView,
    client_id: u128,
    message_type: Seq<char>,
    payload: InboundView,
    now: i128,
    client_timeout_seconds: u64,
)
    requires
        cm_wf(s),
        s.clients.contains_key(client_id),
    ensures
        ({
            let s2 = route_spec(s, client_id, message_type, payload, now).0;
            &&& s2.clients.contains_key(client_id)
            &&& s2.clients[client_id].last_seen == now
            &&& !timed_out(now, s2.clients[client_id].last_seen, effective_timeout_nanos(client_timeout_seconds))
        }),
{
}

/// Every request is answered to its sender: an echo, a registration (accepted
/// or refused, decodable or not) and a message of a type the server does not
/// handle all get a reply, which comes last, after any partner notices; a
/// heartbeat gets a pong unless it did not decode. A registration's reply says
/// it succeeded exactly when the registration was accepted.
pub proof fn law_every_request_is_answered(
    s: ConnectionManagerView,
    client_id: u128,
    message_type: Seq<char>,
    payload: InboundView,
    now: i128,
)
    ensures
        ({
            let sent = route_spec(s, client_id, message_type, payload, now).1;
            &&& payload != InboundView::Ping(false) ==> sent.len() >= 1 && sent.last().recipient == client_id
            &&& payload == InboundView::Ping(false) ==> sent.len() == 0
            &&& payload matches InboundView::Register(Ok(p)) ==> sent.last().message matches ServerMessageView::RegisterResponse(r)
                && r.success == (join_spec(
                crate::cloud::connection_manager::touch_spec(s, client_id, now),
                client_id,
                p,
                now,
            ).2 is Ok)
            &&& payload matches InboundView::Register(Err(_)) ==> sent.last().message matches ServerMessageView::RegisterResponse(r)
                && !r.success
            &&& payload is Unsupported ==> sent.last().message is ErrorResponse
        }),
{
}

/// When a registration completes a pair, both sides learn of it: the partner
/// already in the other slot is told the newcomer is online, and the newcomer
/// is told the partner is; otherwise nobody is told anything.
pub proof fn law_pairing_notifies_both_sides(
    s: ConnectionManagerView,
    client_id: u128,
    p: RegisterPayloadView,
    now: i128,
)
    requires
        cm_wf(s),
        join_spec(s, client_id, p, now).2 is Ok,
    ensures
        ({
            let (s2, notes, _) = join_spec(s, client_id, p, now);
            let partner_role = crate::models::enums::partner_of(p.role)->0;
            let partner = slot_of(s2.groups[p.group_id], partner_role);
            &&& (partner is Some && partner->0 != client_id) ==> notes == seq![
                partner_notice(partner->0, p.role, client_id, true, p.group_id),
                partner_notice(client_id, partner_role, partner->0, true, p.group_id),
            ]
            &&& !(partner is Some && partner->0 != client_id) ==> notes.len() == 0
        }),
{
}

/// A pre-check update keeps the items keyed by their ids: it rewrites the item
/// with the id where there is one, and adds it only where there is none.
pub proof fn law_items_stay_keyed_by_id(
    s: TaskDebugStateView,
    role: ClientRole,
    p: UpdatePreCheckItemPayloadView,
    now: i128,
)
    requires
        items_keyed_uniquely(s.pre_check_items),
    ensures
        items_keyed_uniquely(apply_pre_check_update(s, role, p, now).0.pre_check_items),
{
    if pre_check_update_changes(s, role, p) {
        lemma_item_position(s.pre_check_items, p.item_id);
        let k = lemma_updated_item(s, role, p, now);
        let items = apply_pre_check_update(s, role, p, now).0.pre_check_items;
        assert forall|i: int, j: int| 0 <= i < j < items.len() implies (#[trigger] items[i]).item_id
            != (#[trigger] items[j]).item_id by {
            if i != k && j != k {
                assert(items[i] == s.pre_check_items[i]);
                assert(items[j] == s.pre_check_items[j]);
            } else if i == k {
                assert(items[j] == s.pre_check_items[j]);
                if item_position(s.pre_check_items, p.item_id) >= 0 {
                    assert(s.pre_check_items[k].item_id == p.item_id);
                }
            } else {
                assert(items[i] == s.pre_check_items[i]);
                if item_position(s.pre_check_items, p.item_id) >= 0 {
                    assert(s.pre_check_items[k].item_id == p.item_id);
                }
            }
        }
    }
}

/// A registration is answered to its sender with what became of it: the
/// answer says whether it was accepted, names the sender's id, and, where it
/// was accepted, the group and the role the sender now holds, with the
/// welcome; a refused one names neither group nor role. An accepted sender
/// holds its role's slot in that group.
pub proof fn law_registration_reply_says_where_the_client_went(
    s: ConnectionManagerView,
    client_id: u128,
    message_type: Seq<char>,
    p: RegisterPayloadView,
    now: i128,
)
    ensures
        ({
            let (s2, sent) = route_spec(s, client_id, message_type, InboundView::Register(Ok(p)), now);
            let accepted = join_spec(touch_spec(s, client_id, now), client_id, p, now).2 is Ok;
            &&& sent.len() >= 1
            &&& sent.last().recipient == client_id
            &&& sent.last().message matches ServerMessageView::RegisterResponse(r) && r.success == accepted
                && r.assigned_client_id == client_id && (accepted ==> (r.effective_group_id == Some(
                p.group_id,
            ) && r.effective_role == Some(p.role) && r.message == Some("成功加入组。"@))) && (!accepted ==> (
            r.effective_group_id is None && r.effective_role is None))
            &&& accepted ==> (s2.groups.contains_key(p.group_id) && slot_of(s2.groups[p.group_id], p.role)
                == Some(client_id))
        }),
{
}

/// An echo request is answered to its sender, and only to it, with the same
/// content; nothing but the sender's last sign of life changes.
pub proof fn law_echo_returns_the_content(
    s: ConnectionManagerView,
    client_id: u128,
    message_type: Seq<char>,
    e: EchoPayloadView,
    now: i128,
)
    ensures
        ({
            let (s2, sent) = route_spec(s, client_id, message_type, InboundView::Echo(Ok(e)), now);
            &&& sent.len() == 1
            &&& sent[0].recipient == client_id
            &&& sent[0].message matches ServerMessageView::Echo(back) && back.content == e.content
            &&& s2.groups == s.groups
            &&& s2.tasks == s.tasks
        }),
{
}

/// A broadcast to a group reaches exactly the group's members other than
/// the excluded client: every id it names holds a slot of the group and is
/// not the excluded one, each member but the excluded one is named, the
/// control center comes first, and a group that does not exist gets nobody.
pub proof fn law_broadcast_reaches_the_members_but_the_excluded(
    s: ConnectionManagerView,
    group_id: Seq<char>,
    exclude: Option<u128>,
)
    ensures
        ({
            let m = broadcast_members(s, group_id, exclude);
            &&& m.len() <= 2
            &&& exclude matches Some(x) ==> !m.contains(x)
            &&& forall|x: u128|
                m.contains(x) <==> (s.groups.contains_key(group_id) && exclude != Some(x) && (
                s.groups[group_id].control_center_client == Some(x)
                    || s.groups[group_id].on_site_mobile_client == Some(x)))
            &&& s.groups.contains_key(group_id) ==> (s.groups[group_id].control_center_client matches Some(c)
                ==> (exclude != Some(c) ==> m[0] == c))
            &&& !s.groups.contains_key(group_id) ==> m.len() == 0
        }),
{
    let m = broadcast_members(s, group_id, exclude);
    if s.groups.contains_key(group_id) {
        let grp = s.groups[group_id];
        let a = if grp.control_center_client is Some && exclude != grp.control_center_client {
            seq![grp.control_center_client->0]
        } else {
            Seq::<u128>::empty()
        };
        let b = if grp.on_site_mobile_client is Some && exclude != grp.on_site_mobile_client {
            seq![grp.on_site_mobile_client->0]
        } else {
            Seq::<u128>::empty()
        };
        assert(m == a + b);
        assert forall|x: u128| m.contains(x) <==> (a.contains(x) || b.contains(x)) by {
            if m.contains(x) {
                let k = choose|k: int| 0 <= k < m.len() && m[k] == x;
                if k < a.len() {
                    assert(a[k] == x);
                } else {
                    assert(b[k - a.len()] == x);
                }
            }
            if a.contains(x) {
                let k = choose|k: int| 0 <= k < a.len() && a[k] == x;
                assert(m[k] == x);
            }
            if b.contains(x) {
                let k = choose|k: int| 0 <= k < b.len() && b[k] == x;
                assert(m[a.len() + k] == x);
            }
        }
        assert forall|x: u128| a.contains(x) <==> (grp.control_center_client == Some(x) && exclude != Some(x)) by {
            if grp.control_center_client == Some(x) && exclude != Some(x) {
                assert(a[0] == x);
            }
        }
        assert forall|x: u128| b.contains(x) <==> (grp.on_site_mobile_client == Some(x) && exclude != Some(x)) by {
            if grp.on_site_mobile_client == Some(x) && exclude != Some(x) {
                assert(b[0] == x);
            }
        }
        if let Some(x) = exclude {
            assert(!a.contains(x));
            assert(!b.contains(x));
        }
    } else {
        assert(m.len() == 0);
    }
}

/// Whether `o` tells `recipient` that the client `partner` of role `role` in
/// group `group_id` is now online (or offline).
pub open spec fn tells_partner_status(
    o: OutgoingView,
    recipient: u128,
    role: ClientRole,
    partner: u128,
    online: bool,
    group_id: Seq<char>,
) -> bool {
    &&& o.recipient == recipient
    &&& o.message matches ServerMessageView::PartnerStatusUpdate(n) && n.partner_role == role
        && n.partner_client_id == partner && n.is_online == online && n.group_id == group_id
}

/// An accepted registration that completes a pair tells the partner already
/// there that the newcomer, in its role, came online in the group, and tells
/// the newcomer that the partner, in the other role, is online.
pub proof fn law_pairing_notices_say_online(
    s: ConnectionManagerView,
    client_id: u128,
    p: RegisterPayloadView,
    now: i128,
)
    requires
        cm_wf(s),
        join_spec(s, client_id, p, now).2 is Ok,
    ensures
        ({
            let (s2, notes, _) = join_spec(s, client_id, p, now);
            let other = crate::models::enums::partner_of(p.role)->0;
            let partner = slot_of(s2.groups[p.group_id], other);
            &&& partner matches Some(q) ==> (q != client_id ==> (notes.len() == 2 && tells_partner_status(
                notes[0],
                q,
                p.role,
                client_id,
                true,
                p.group_id,
            ) && tells_partner_status(notes[1], client_id, other, q, true, p.group_id)))
            &&& other != p.role
            &&& other != ClientRole::Unknown
        }),
{
}

/// A client that leaves the slot it held tells the partner in the other slot,
/// and only it, that it went offline; a client that held no slot tells nobody.
pub proof fn law_leaving_tells_the_partner_offline(s: ConnectionManagerView, client_id: u128)
    requires
        cm_wf(s),
    ensures
        ({
            let notes = remove_spec(s, client_id).1;
            &&& notes.len() <= 1
            &&& notes.len() == 1 ==> (s.clients.contains_key(client_id) && s.clients[client_id].group_id
                is Some && s.groups.contains_key(s.clients[client_id].group_id->0) && slot_of(
                s.groups[s.clients[client_id].group_id->0],
                s.clients[client_id].role,
            ) == Some(client_id))
            &&& s.clients.contains_key(client_id) ==> (s.clients[client_id].group_id matches Some(g) ==> (
            s.groups.contains_key(g) ==> (slot_of(s.groups[g], s.clients[client_id].role) == Some(client_id)
                ==> (slot_of(
                s.groups[g],
                crate::models::enums::partner_of(s.clients[client_id].role)->0,
            ) matches Some(q) ==> (notes.len() == 1 && tells_partner_status(
                notes[0],
                q,
                s.clients[client_id].role,
                client_id,
                false,
                g,
            ))))))
        }),
{
}

/// A heartbeat is answered with a pong to its sender alone, an undecodable
/// one with nothing; an undecodable echo, an undecodable registration and an
/// unsupported type are each answered to the sender alone: the echo and the
/// unsupported type with an error naming the type it came as, the
/// registration with a refusal that names neither group nor role.
pub proof fn law_other_requests_are_answered_as_they_came(
    s: ConnectionManagerView,
    client_id: u128,
    message_type: Seq<char>,
    why: Seq<char>,
    now: i128,
)
    ensures
        ({
            let sent = route_spec(s, client_id, message_type, InboundView::Ping(true), now).1;
            sent.len() == 1 && sent[0].recipient == client_id && sent[0].message is Pong
        }),
        route_spec(s, client_id, message_type, InboundView::Ping(false), now).1.len() == 0,
        ({
            let sent = route_spec(s, client_id, message_type, InboundView::Unsupported, now).1;
            sent.len() == 1 && sent[0].recipient == client_id && (sent[0].message matches ServerMessageView::ErrorResponse(
                e,
            ) && e.original_message_type == Some(message_type))
        }),
        ({
            let sent = route_spec(s, client_id, message_type, InboundView::Echo(Err(why)), now).1;
            sent.len() == 1 && sent[0].recipient == client_id && (sent[0].message matches ServerMessageView::ErrorResponse(
                e,
            ) && e.original_message_type == Some("Echo"@))
        }),
        ({
            let (s2, sent) = route_spec(s, client_id, message_type, InboundView::Register(Err(why)), now);
            &&& sent.len() == 1
            &&& sent[0].recipient == client_id
            &&& sent[0].message matches ServerMessageView::RegisterResponse(r) && !r.success
                && r.assigned_client_id == client_id && r.effective_group_id is None && r.effective_role is None
            &&& s2.groups == s.groups
        }),
{
    reveal_strlit("Echo");
}

/// A task-state broadcast goes to the given members, in their order, and
/// carries the state as it is; without members there is none.
pub proof fn law_broadcast_carries_the_state(members: Seq<u128>, state: TaskDebugStateView)
    ensures
        members.len() == 0 <==> task_state_broadcast(members, state) is None,
        task_state_broadcast(members, state) matches Some(b) ==> (b.recipients == members
            && b.message == ServerMessageView::TaskStateUpdate(state)),
{
}

} // verus!
