//! The authoritative shared state of every active debugging task, one per group.

use vstd::prelude::*;
use dashmap::DashMap;
use crate::cloud::connection_manager::{broadcast_members, ConnectionManager};
use crate::cloud::outbox::{ServerMessage, ServerMessageView};
use crate::models::enums::ClientRole;
use crate::models::task_models::{
    copy_opt_string, fresh_pre_check_item, fresh_task_state, item_position, lemma_item_position,
    opt_string_eq, BusinessActionPayload, PreCheckItemStatus, PreCheckItemStatusView,
    TaskDebugState, TaskDebugStateView, UpdatePreCheckItemPayload, UpdatePreCheckItemPayloadView,
};
use crate::outside::clock::current_time_nanos;
use crate::outside::tables::{
    task_table, tasks_get, tasks_insert, tasks_new, tasks_remove,
};

verus! {

/// Abstract value of a [`BusinessActionPayload`]: the pre-check update with its
/// contents; the test-step actions, which leave the state as it is, by kind.
pub enum BusinessActionView {
    UpdatePreCheckItem(UpdatePreCheckItemPayloadView),
    StartSingleTestStep,
    FeedbackSingleTestStep,
    ConfirmSingleTestStep,
}

impl View for BusinessActionPayload {
    type V = BusinessActionView;

    open spec fn view(&self) -> BusinessActionView {
        match self {
            BusinessActionPayload::UpdatePreCheckItem(p) => BusinessActionView::UpdatePreCheckItem(p@),
            BusinessActionPayload::StartSingleTestStep(_) => BusinessActionView::StartSingleTestStep,
            BusinessActionPayload::FeedbackSingleTestStep(_) => BusinessActionView::FeedbackSingleTestStep,
            BusinessActionPayload::ConfirmSingleTestStep(_) => BusinessActionView::ConfirmSingleTestStep,
        }
    }
}

/// What an update does to one pre-check item: the site writes the site's status
/// and notes, the control center the control's, each only where they differ
/// from what is there; an unknown role writes nothing. The flag says whether
/// anything changed.
pub open spec fn updated_item(
    item: PreCheckItemStatusView,
    role: ClientRole,
    p: UpdatePreCheckItemPayloadView,
    now: i128,
) -> (PreCheckItemStatusView, bool) {
    match role {
        ClientRole::OnSiteMobile => {
            if item.status_from_site != Some(p.status) || item.notes_from_site != p.notes {
                (
                    PreCheckItemStatusView {
                        status_from_site: Some(p.status),
                        notes_from_site: p.notes,
                        last_updated: now,
                        ..item
                    },
                    true,
                )
            } else {
                (item, false)
            }
        },
        ClientRole::ControlCenter => {
            if item.status_from_control != Some(p.status) || item.notes_from_control != p.notes {
                (
                    PreCheckItemStatusView {
                        status_from_control: Some(p.status),
                        notes_from_control: p.notes,
                        last_updated: now,
                        ..item
                    },
                    true,
                )
            } else {
                (item, false)
            }
        },
        ClientRole::Unknown => (item, false),
    }
}

/// Whether a pre-check update by `role` changes a task state: a client of
/// unknown role changes nothing; the site and the control center change the
/// state where the item is missing, or where their own status or notes on it
/// differ from what the update brings.
pub open spec fn pre_check_update_changes(
    s: TaskDebugStateView,
    role: ClientRole,
    p: UpdatePreCheckItemPayloadView,
) -> bool {
    let pos = item_position(s.pre_check_items, p.item_id);
    let item = s.pre_check_items[pos];
    match role {
        ClientRole::OnSiteMobile => pos < 0 || item.status_from_site != Some(p.status)
            || item.notes_from_site != p.notes,
        ClientRole::ControlCenter => pos < 0 || item.status_from_control != Some(p.status)
            || item.notes_from_control != p.notes,
        ClientRole::Unknown => false,
    }
}

/// What a pre-check update does to a task state. Where it changes nothing
/// (see [`pre_check_update_changes`]) the state stays as it is. Otherwise the
/// item is looked up by id, and created, stamped `now`, where it is missing;
/// the updater's status and notes are written to it, the state records the
/// role and the time, and its version goes up by one.
pub open spec fn apply_pre_check_update(
    s: TaskDebugStateView,
    role: ClientRole,
    p: UpdatePreCheckItemPayloadView,
    now: i128,
) -> (TaskDebugStateView, bool) {
    if !pre_check_update_changes(s, role, p) {
        (s, false)
    } else {
        let pos = item_position(s.pre_check_items, p.item_id);
        let item = if pos >= 0 {
            s.pre_check_items[pos]
        } else {
            fresh_pre_check_item(p.item_id, now)
        };
        let ni = updated_item(item, role, p, now).0;
        let items = if pos >= 0 {
            s.pre_check_items.update(pos, ni)
        } else {
            s.pre_check_items.push(ni)
        };
        (
            TaskDebugStateView {
                pre_check_items: items,
                last_updated_by_role: Some(role),
                last_update_timestamp: now,
                version: (s.version + 1) as u64,
                ..s
            },
            true,
        )
    }
}

/// Whether a business action changes the task states: only a pre-check update
/// can, on a group that has a state, where the update changes that state.
pub open spec fn business_action_changes(
    states: Map<Seq<char>, TaskDebugStateView>,
    group_id: Seq<char>,
    role: ClientRole,
    action: BusinessActionView,
) -> bool {
    &&& states.contains_key(group_id)
    &&& action matches BusinessActionView::UpdatePreCheckItem(p) && pre_check_update_changes(
        states[group_id],
        role,
        p,
    )
}

/// What a business action does to the task states: nothing where the group has
/// no state or the action is a test-step action; otherwise the pre-check update
/// is applied. The second part is the new state where it changed.
pub open spec fn apply_business_action_spec(
    states: Map<Seq<char>, TaskDebugStateView>,
    group_id: Seq<char>,
    role: ClientRole,
    action: BusinessActionView,
    now: i128,
) -> (Map<Seq<char>, TaskDebugStateView>, Option<TaskDebugStateView>) {
    if !states.contains_key(group_id) {
        (states, None)
    } else {
        match action {
            BusinessActionView::UpdatePreCheckItem(p) => {
                let (s2, changed) = apply_pre_check_update(states[group_id], role, p, now);
                (states.insert(group_id, s2), if changed { Some(s2) } else { None })
            },
            _ => (states, None),
        }
    }
}

/// The task states after `group_id` is given a fresh state for `task_id`,
/// stamped `now`, unless it already has one.
pub open spec fn init_spec(
    states: Map<Seq<char>, TaskDebugStateView>,
    group_id: Seq<char>,
    task_id: Seq<char>,
    now: i128,
) -> Map<Seq<char>, TaskDebugStateView> {
    if states.contains_key(group_id) {
        states
    } else {
        states.insert(group_id, fresh_task_state(task_id, now))
    }
}

/// One message sent alike to several clients: the clients, in order, and the
/// message, which is framed once and shared by every copy.
#[derive(Debug, Clone)]
pub struct Broadcast {
    pub recipients: Vec<u128>,
    pub message: ServerMessage,
}

/// Abstract value of a [`Broadcast`].
pub struct BroadcastView {
    pub recipients: Seq<u128>,
    pub message: ServerMessageView,
}

impl View for Broadcast {
    type V = BroadcastView;

    open spec fn view(&self) -> BroadcastView {
        BroadcastView { recipients: self.recipients@, message: self.message@ }
    }
}

/// Abstract value of an optional broadcast.
pub open spec fn broadcast_view(b: Option<Broadcast>) -> Option<BroadcastView> {
    match b {
        Some(x) => Some(x@),
        None => None,
    }
}

/// A task-state update carrying `state` for `members`, in order: none where
/// there are no members.
pub open spec fn task_state_broadcast(members: Seq<u128>, state: TaskDebugStateView) -> Option<BroadcastView> {
    if members.len() == 0 {
        None
    } else {
        Some(BroadcastView { recipients: members, message: ServerMessageView::TaskStateUpdate(state) })
    }
}

/// No two pre-check items share an id: the items are keyed by their ids.
pub open spec fn items_keyed_uniquely(items: Seq<PreCheckItemStatusView>) -> bool {
    forall|i: int, j: int|
        0 <= i < j < items.len() ==> (#[trigger] items[i]).item_id != (#[trigger] items[j]).item_id
}

/// Every task state keys its pre-check items by their ids.
pub open spec fn states_keyed_by_item_id(states: Map<Seq<char>, TaskDebugStateView>) -> bool {
    forall|g: Seq<char>| #[trigger] states.contains_key(g) ==> items_keyed_uniquely(states[g].pre_check_items)
}

/// The view of a list of pre-check items.
pub open spec fn items_view(v: Seq<PreCheckItemStatus>) -> Seq<PreCheckItemStatusView> {
    v.map_values(|i: PreCheckItemStatus| i@)
}

impl TaskDebugState {
    /// Applies a pre-check update by `role` at time `now`; says whether the
    /// state changed.
    pub fn apply_pre_check_update(
        &mut self,
        role: ClientRole,
        p: UpdatePreCheckItemPayload,
        now: i128,
    ) -> (changed: bool)
        requires
            pre_check_update_changes(old(self)@, role, p@) ==> old(self).version < u64::MAX,
        ensures
            (final(self)@, changed) == apply_pre_check_update(old(self)@, role, p@, now),
    {
        let ghost s = self@;
        if role == ClientRole::Unknown {
            return false;
        }
        let pos = self.find_pre_check_item(p.item_id.as_str());
        proof {
            lemma_item_position(s.pre_check_items, p@.item_id);
        }
        let mut item = match pos {
            Some(i) => self.pre_check_items[i].duplicate(),
            None => PreCheckItemStatus::new_at(p.item_id.clone(), now),
        };
        let ghost before = item@;
        let status = Some(p.status);
        let changed = match role {
            ClientRole::OnSiteMobile => {
                if !opt_string_eq(&item.status_from_site, &status) || !opt_string_eq(
                    &item.notes_from_site,
                    &p.notes,
                ) {
                    item.status_from_site = status;
                    item.notes_from_site = copy_opt_string(&p.notes);
                    item.last_updated = now;
                    true
                } else {
                    false
                }
            },
            ClientRole::ControlCenter => {
                if !opt_string_eq(&item.status_from_control, &status) || !opt_string_eq(
                    &item.notes_from_control,
                    &p.notes,
                ) {
                    item.status_from_control = status;
                    item.notes_from_control = copy_opt_string(&p.notes);
                    item.last_updated = now;
                    true
                } else {
                    false
                }
            },
            ClientRole::Unknown => false,
        };
        assert((item@, changed) == updated_item(before, role, p@, now));
        assert(changed == pre_check_update_changes(s, role, p@));
        if !changed {
            return false;
        }
        let ghost ni = item@;
        match pos {
            Some(i) => {
                self.pre_check_items.set(i, item);
                assert(self@.pre_check_items =~= s.pre_check_items.update(i as int, ni));
            },
            None => {
                self.pre_check_items.push(item);
                assert(self@.pre_check_items =~= s.pre_check_items.push(ni));
            },
        }
        self.last_updated_by_role = Some(role);
        self.last_update_timestamp = now;
        self.version = self.version + 1;
        true
    }
}

/// Holds the task state of every active group, keyed by group id.
pub struct TaskStateManager {
    active_task_states: DashMap<String, TaskDebugState>,
}

impl View for TaskStateManager {
    type V = Map<Seq<char>, TaskDebugStateView>;

    closed spec fn view(&self) -> Map<Seq<char>, TaskDebugStateView> {
        task_table(self.active_task_states)
    }
}

impl TaskStateManager {
    /// A manager that holds no task state.
    pub fn new() -> (m: Self)
        ensures
            m@ =~= Map::<Seq<char>, TaskDebugStateView>::empty(),
            states_keyed_by_item_id(m@),
    {
        TaskStateManager { active_task_states: tasks_new() }
    }

    /// Gives `group_id` a fresh state for `task_id`, stamped with the clock,
    /// unless the group already has one, which stays as it is.
    pub fn init_task_state(&mut self, group_id: String, task_id: String)
        ensures
            exists|now: i128| final(self)@ == #[trigger] init_spec(old(self)@, group_id@, task_id@, now),
    {
        let now = current_time_nanos();
        self.init_task_state_at(group_id, task_id, now);
    }

    /// Gives `group_id` a fresh state for `task_id`, stamped `now`, unless the
    /// group already has one, which stays as it is.
    pub fn init_task_state_at(&mut self, group_id: String, task_id: String, now: i128)
        ensures
            final(self)@ == init_spec(old(self)@, group_id@, task_id@, now),
    {
        match tasks_get(&self.active_task_states, group_id.as_str()) {
            Some(_) => {},
            None => {
                let state = TaskDebugState::new_at(task_id, now);
                let _ = tasks_insert(&mut self.active_task_states, group_id, state);
            },
        }
    }

    /// A copy of the state of `group_id`, if it has one.
    pub fn get_task_state(&self, group_id: &str) -> (r: Option<TaskDebugState>)
        ensures
            match r {
                Some(s) => self@.contains_key(group_id@) && s@ == self@[group_id@],
                None => !self@.contains_key(group_id@),
            },
    {
        tasks_get(&self.active_task_states, group_id)
    }

    /// Drops the state of `group_id`; succeeds whether or not there was one.
    pub fn remove_task_state(&mut self, group_id: &str) -> (r: Result<(), String>)
        ensures
            final(self)@ == old(self)@.remove(group_id@),
            r is Ok,
    {
        let _ = tasks_remove(&mut self.active_task_states, group_id);
        Ok(())
    }

    /// Applies a business action by `updater_role` at time `now` to the state of
    /// `group_id`, and returns a copy of the new state where it changed.
    pub fn apply_business_action(
        &mut self,
        group_id: &str,
        updater_role: ClientRole,
        action_payload: BusinessActionPayload,
        now: i128,
    ) -> (r: Option<TaskDebugState>)
        requires
            business_action_changes(old(self)@, group_id@, updater_role, action_payload@) ==> old(
                self,
            )@[group_id@].version < u64::MAX,
        ensures
            final(self)@ == apply_business_action_spec(
                old(self)@,
                group_id@,
                updater_role,
                action_payload@,
                now,
            ).0,
            match r {
                Some(s) => apply_business_action_spec(
                    old(self)@,
                    group_id@,
                    updater_role,
                    action_payload@,
                    now,
                ).1 == Some(s@),
                None => apply_business_action_spec(
                    old(self)@,
                    group_id@,
                    updater_role,
                    action_payload@,
                    now,
                ).1 is None,
            },
            states_keyed_by_item_id(old(self)@) ==> states_keyed_by_item_id(final(self)@),
    {
        match tasks_get(&self.active_task_states, group_id) {
            None => None,
            Some(mut state) => {
                match action_payload {
                    BusinessActionPayload::UpdatePreCheckItem(p) => {
                        proof {
                            if states_keyed_by_item_id(old(self)@) {
                                crate::cloud::laws::law_items_stay_keyed_by_id(state@, updater_role, p@, now);
                            }
                        }
                        let changed = state.apply_pre_check_update(updater_role, p, now);
                        let copy = if changed {
                            Some(state.duplicate())
                        } else {
                            None
                        };
                        let _ = tasks_insert(&mut self.active_task_states, group_id.to_owned(), state);
                        copy
                    },
                    _ => None,
                }
            },
        }
    }

    /// Applies a business action by `updater_role`, stamped with the clock, to
    /// the state of `group_id`, and returns a copy of the new state where it
    /// changed.
    pub fn update_state_and_get_updated(
        &mut self,
        group_id: &str,
        updater_role: ClientRole,
        action_payload: BusinessActionPayload,
    ) -> (r: Option<TaskDebugState>)
        requires
            business_action_changes(old(self)@, group_id@, updater_role, action_payload@) ==> old(
                self,
            )@[group_id@].version < u64::MAX,
        ensures
            exists|now: i128|
                {
                    let (states, changed) = #[trigger] apply_business_action_spec(
                        old(self)@,
                        group_id@,
                        updater_role,
                        action_payload@,
                        now,
                    );
                    &&& final(self)@ == states
                    &&& match r {
                        Some(s) => changed == Some(s@),
                        None => changed is None,
                    }
                },
            states_keyed_by_item_id(old(self)@) ==> states_keyed_by_item_id(final(self)@),
    {
        let ghost a = action_payload@;
        let now = current_time_nanos();
        let r = self.apply_business_action(group_id, updater_role, action_payload, now);
        assert(final(self)@ == apply_business_action_spec(old(self)@, group_id@, updater_role, a, now).0);
        r
    }

    /// The broadcast that pushes the current state of `group_id` to every
    /// member of the group: none where the group has no state or no members.
    pub fn force_broadcast_state(&self, group_id: &str, conn_manager: &ConnectionManager) -> (b: Option<
        Broadcast,
    >)
        ensures
            broadcast_view(b) == (if self@.contains_key(group_id@) {
                task_state_broadcast(broadcast_members(conn_manager@, group_id@, None), self@[group_id@])
            } else {
                None
            }),
    {
        match self.get_task_state(group_id) {
            Some(state) => self.priv_broadcast_task_state(group_id, state, conn_manager),
            None => None,
        }
    }

    /// One task-state update carrying `task_state` for every member of
    /// `group_id`; none where the group has no members.
    fn priv_broadcast_task_state(
        &self,
        group_id: &str,
        task_state: TaskDebugState,
        conn_manager: &ConnectionManager,
    ) -> (b: Option<Broadcast>)
        ensures
            broadcast_view(b) == task_state_broadcast(
                broadcast_members(conn_manager@, group_id@, None),
                task_state@,
            ),
    {
        let members = conn_manager.get_group_members_for_broadcast(group_id, None);
        if members.len() == 0 {
            return None;
        }
        Some(Broadcast { recipients: members, message: ServerMessage::TaskStateUpdate(task_state) })
    }
}

impl Default for TaskStateManager {
    /// A manager that holds no task state.
    fn default() -> (m: Self)
        ensures
            m@ =~= Map::<Seq<char>, TaskDebugStateView>::empty(),
    {
        Self::new()
    }
}

} // verus!
