//! The concurrent maps of `dashmap` that hold the cloud service's sessions,
//! groups and task states. Each map's contents are named by a spec function;
//! each wrapper states what the `DashMap` method it calls does to them.

use vstd::prelude::*;
use dashmap::DashMap;
use crate::cloud::client_session::{ClientSession, ClientSessionView};
use crate::cloud::connection_manager::{Group, GroupView};
use crate::models::task_models::{TaskDebugState, TaskDebugStateView};

verus! {

/// `dashmap::DashMap`, the concurrent hash map, as an opaque type.
#[verifier::external_type_specification]
#[verifier::external_body]
#[verifier::reject_recursive_types(K)]
#[verifier::reject_recursive_types(V)]
#[verifier::reject_recursive_types(S)]
pub struct ExDashMap<K, V, S>(DashMap<K, V, S>);


/// What a session table holds: each client id with its session.
pub uninterp spec fn client_table(m: DashMap<u128, ClientSession>) -> Map<u128, ClientSessionView>;

/// What a group table holds: each group id's text with its group.
pub uninterp spec fn group_table(m: DashMap<String, Group>) -> Map<Seq<char>, GroupView>;

/// What a task-state table holds: each group id's text with its task state.
pub uninterp spec fn task_table(m: DashMap<String, TaskDebugState>) -> Map<
    Seq<char>,
    TaskDebugStateView,
>;

/// `DashMap::new`: an empty session table.
#[verifier::external_body]
pub(crate) fn clients_new() -> (fresh: DashMap<u128, ClientSession>)
    ensures
        client_table(fresh).dom() == Set::<u128>::empty(),
{
    DashMap::new()
}

/// `DashMap::insert`: maps `id` to `session`, replacing any earlier session of
/// that id, which it hands back.
#[verifier::external_body]
pub(crate) fn clients_insert(m: &mut DashMap<u128, ClientSession>, id: u128, session: ClientSession) -> (prev: Option<ClientSession>)
    ensures
        client_table(*final(m)) == client_table(*old(m)).insert(id, session@),
        match prev {
            Some(p) => client_table(*old(m)).contains_key(id) && p@ == client_table(*old(m))[id],
            None => !client_table(*old(m)).contains_key(id),
        },
{
    m.insert(id, session)
}

/// `DashMap::remove`: takes the session of `id` out of the table, if any.
#[verifier::external_body]
pub(crate) fn clients_remove(m: &mut DashMap<u128, ClientSession>, id: u128) -> (prev: Option<ClientSession>)
    ensures
        client_table(*final(m)) == client_table(*old(m)).remove(id),
        match prev {
            Some(p) => client_table(*old(m)).contains_key(id) && p@ == client_table(*old(m))[id],
            None => !client_table(*old(m)).contains_key(id),
        },
{
    match m.remove(&id) {
        Some((_, session)) => Some(session),
        None => None,
    }
}

/// `DashMap::get`: a copy of the session of `id`, if any.
#[verifier::external_body]
pub(crate) fn clients_get(m: &DashMap<u128, ClientSession>, id: u128) -> (r: Option<ClientSession>)
    ensures
        match r {
            Some(s) => client_table(*m).contains_key(id) && s@ == client_table(*m)[id],
            None => !client_table(*m).contains_key(id),
        },
{
    match m.get(&id) {
        Some(entry) => Some(entry.value().clone()),
        None => None,
    }
}

/// `DashMap::len`: the number of sessions.
#[verifier::external_body]
pub(crate) fn clients_len(m: &DashMap<u128, ClientSession>) -> (n: usize)
    ensures
        n == client_table(*m).dom().len(),
{
    m.len()
}

/// `DashMap::iter`: every entry of the table once, as an id and a copy of its
/// session, in an order that the source leaves open.
#[verifier::external_body]
pub(crate) fn clients_entries(m: &DashMap<u128, ClientSession>) -> (r: Vec<(u128, ClientSession)>)
    ensures
        r@.len() == client_table(*m).dom().len(),
        forall|i: int|
            0 <= i < r@.len() ==> client_table(*m).contains_key(#[trigger] r@[i].0)
                && client_table(*m)[r@[i].0] == r@[i].1@,
        forall|i: int, j: int| 0 <= i < j < r@.len() ==> r@[i].0 != r@[j].0,
        forall|k: u128|
            client_table(*m).contains_key(k) ==> exists|i: int| 0 <= i < r@.len() && r@[i].0 == k,
{
    let mut r = Vec::new();
    for entry in m.iter() {
        r.push((*entry.key(), entry.value().clone()));
    }
    r
}

/// `DashMap::new`: an empty group table.
#[verifier::external_body]
pub(crate) fn groups_new() -> (fresh: DashMap<String, Group>)
    ensures
        group_table(fresh).dom() == Set::<Seq<char>>::empty(),
{
    DashMap::new()
}

/// `DashMap::insert`: maps the group id `key` to `group`, replacing any earlier
/// group of that id, which it hands back. Keys compare by their text.
#[verifier::external_body]
pub(crate) fn groups_insert(m: &mut DashMap<String, Group>, key: String, group: Group) -> (prev: Option<Group>)
    ensures
        group_table(*final(m)) == group_table(*old(m)).insert(key@, group@),
        match prev {
            Some(p) => group_table(*old(m)).contains_key(key@) && p@ == group_table(*old(m))[key@],
            None => !group_table(*old(m)).contains_key(key@),
        },
{
    m.insert(key, group)
}

/// `DashMap::remove`: takes the group of id `key` out of the table, if any.
#[verifier::external_body]
pub(crate) fn groups_remove(m: &mut DashMap<String, Group>, key: &str) -> (prev: Option<Group>)
    ensures
        group_table(*final(m)) == group_table(*old(m)).remove(key@),
        match prev {
            Some(p) => group_table(*old(m)).contains_key(key@) && p@ == group_table(*old(m))[key@],
            None => !group_table(*old(m)).contains_key(key@),
        },
{
    match m.remove(key) {
        Some((_, group)) => Some(group),
        None => None,
    }
}

/// `DashMap::get`: a copy of the group of id `key`, if any.
#[verifier::external_body]
pub(crate) fn groups_get(m: &DashMap<String, Group>, key: &str) -> (r: Option<Group>)
    ensures
        match r {
            Some(g) => group_table(*m).contains_key(key@) && g@ == group_table(*m)[key@],
            None => !group_table(*m).contains_key(key@),
        },
{
    match m.get(key) {
        Some(entry) => Some(entry.value().clone()),
        None => None,
    }
}

/// `DashMap::len`: the number of groups.
#[verifier::external_body]
pub(crate) fn groups_len(m: &DashMap<String, Group>) -> (n: usize)
    ensures
        n == group_table(*m).dom().len(),
{
    m.len()
}

/// `DashMap::new`: an empty task-state table.
#[verifier::external_body]
pub(crate) fn tasks_new() -> (fresh: DashMap<String, TaskDebugState>)
    ensures
        task_table(fresh).dom() == Set::<Seq<char>>::empty(),
{
    DashMap::new()
}

/// `DashMap::insert`: maps the group id `key` to `state`, replacing any earlier
/// state of that group. Keys compare by their text.
#[verifier::external_body]
pub(crate) fn tasks_insert(m: &mut DashMap<String, TaskDebugState>, key: String, state: TaskDebugState) -> (prev: Option<TaskDebugState>)
    ensures
        task_table(*final(m)) == task_table(*old(m)).insert(key@, state@),
        match prev {
            Some(p) => task_table(*old(m)).contains_key(key@) && p@ == task_table(*old(m))[key@],
            None => !task_table(*old(m)).contains_key(key@),
        },
{
    m.insert(key, state)
}

/// `DashMap::remove`: takes the state of group `key` out of the table, if any.
#[verifier::external_body]
pub(crate) fn tasks_remove(m: &mut DashMap<String, TaskDebugState>, key: &str) -> (prev: Option<TaskDebugState>)
    ensures
        task_table(*final(m)) == task_table(*old(m)).remove(key@),
        match prev {
            Some(p) => task_table(*old(m)).contains_key(key@) && p@ == task_table(*old(m))[key@],
            None => !task_table(*old(m)).contains_key(key@),
        },
{
    match m.remove(key) {
        Some((_, state)) => Some(state),
        None => None,
    }
}

/// `DashMap::get`: a copy of the state of group `key`, if any.
#[verifier::external_body]
pub(crate) fn tasks_get(m: &DashMap<String, TaskDebugState>, key: &str) -> (r: Option<TaskDebugState>)
    ensures
        match r {
            Some(s) => task_table(*m).contains_key(key@) && s@ == task_table(*m)[key@],
            None => !task_table(*m).contains_key(key@),
        },
{
    match m.get(key) {
        Some(entry) => Some(entry.value().clone()),
        None => None,
    }
}

} // verus!
