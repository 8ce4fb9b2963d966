//! The shared state of a debugging task and the business actions that change it.

use vstd::prelude::*;
use crate::models::enums::ClientRole;
use crate::outside::clock::current_time_nanos;
use crate::text::str_eq;

verus! {

/// Copies an optional string.
pub fn copy_opt_string(o: &Option<String>) -> (r: Option<String>)
    ensures
        r == *o,
{
    match o {
        Some(s) => Some(s.clone()),
        None => None,
    }
}

/// Compares two optional strings by their text.
pub fn opt_string_eq(a: &Option<String>, b: &Option<String>) -> (r: bool)
    ensures
        r == (a.deep_view() == b.deep_view()),
{
    match (a, b) {
        (Some(x), Some(y)) => x.eq(y),
        (None, None) => true,
        _ => false,
    }
}

/// The status of one pre-check item, as the site and the control center see it.
/// Times are Unix nanoseconds.
#[derive(Debug, Clone, PartialEq)]
pub struct PreCheckItemStatus {
    pub item_id: String,
    pub status_from_site: Option<String>,
    pub notes_from_site: Option<String>,
    pub status_from_control: Option<String>,
    pub notes_from_control: Option<String>,
    pub last_updated: i128,
}

/// Abstract value of a [`PreCheckItemStatus`].
pub struct PreCheckItemStatusView {
    pub item_id: Seq<char>,
    pub status_from_site: Option<Seq<char>>,
    pub notes_from_site: Option<Seq<char>>,
    pub status_from_control: Option<Seq<char>>,
    pub notes_from_control: Option<Seq<char>>,
    pub last_updated: i128,
}

impl View for PreCheckItemStatus {
    type V = PreCheckItemStatusView;

    open spec fn view(&self) -> PreCheckItemStatusView {
        PreCheckItemStatusView {
            item_id: self.item_id@,
            status_from_site: self.status_from_site.deep_view(),
            notes_from_site: self.notes_from_site.deep_view(),
            status_from_control: self.status_from_control.deep_view(),
            notes_from_control: self.notes_from_control.deep_view(),
            last_updated: self.last_updated,
        }
    }
}

/// A pre-check item that nobody has reported on yet, stamped `now`.
pub open spec fn fresh_pre_check_item(item_id: Seq<char>, now: i128) -> PreCheckItemStatusView {
    PreCheckItemStatusView {
        item_id,
        status_from_site: None,
        notes_from_site: None,
        status_from_control: None,
        notes_from_control: None,
        last_updated: now,
    }
}

impl PreCheckItemStatus {
    /// A pre-check item that nobody has reported on yet, stamped with the clock.
    pub fn new(item_id: String) -> (r: Self)
        ensures
            exists|now: i128| r@ == fresh_pre_check_item(item_id@, now),
    {
        let now = current_time_nanos();
        Self::new_at(item_id, now)
    }

    /// A pre-check item that nobody has reported on yet, stamped `now`.
    pub fn new_at(item_id: String, now: i128) -> (r: Self)
        ensures
            r@ == fresh_pre_check_item(item_id@, now),
    {
        PreCheckItemStatus {
            item_id,
            status_from_site: None,
            notes_from_site: None,
            status_from_control: None,
            notes_from_control: None,
            last_updated: now,
        }
    }

    /// A field-by-field copy.
    pub fn duplicate(&self) -> (r: Self)
        ensures
            r@ == self@,
    {
        PreCheckItemStatus {
            item_id: self.item_id.clone(),
            status_from_site: copy_opt_string(&self.status_from_site),
            notes_from_site: copy_opt_string(&self.notes_from_site),
            status_from_control: copy_opt_string(&self.status_from_control),
            notes_from_control: copy_opt_string(&self.notes_from_control),
            last_updated: self.last_updated,
        }
    }
}

/// The status of one single-device test step. Parameters and result data are
/// JSON text.
#[derive(Debug, Clone, PartialEq)]
pub struct SingleTestStepStatus {
    pub step_id: String,
    pub command_from_control: Option<String>,
    pub params_from_control: Option<String>,
    pub execution_status_from_site: Option<String>,
    pub result_data_from_site: Option<String>,
    pub feedback_notes_from_site: Option<String>,
    pub confirmation_status_from_control: Option<String>,
    pub last_updated: i128,
}

/// Abstract value of a [`SingleTestStepStatus`].
pub struct SingleTestStepStatusView {
    pub step_id: Seq<char>,
    pub command_from_control: Option<Seq<char>>,
    pub params_from_control: Option<Seq<char>>,
    pub execution_status_from_site: Option<Seq<char>>,
    pub result_data_from_site: Option<Seq<char>>,
    pub feedback_notes_from_site: Option<Seq<char>>,
    pub confirmation_status_from_control: Option<Seq<char>>,
    pub last_updated: i128,
}

impl View for SingleTestStepStatus {
    type V = SingleTestStepStatusView;

    open spec fn view(&self) -> SingleTestStepStatusView {
        SingleTestStepStatusView {
            step_id: self.step_id@,
            command_from_control: self.command_from_control.deep_view(),
            params_from_control: self.params_from_control.deep_view(),
            execution_status_from_site: self.execution_status_from_site.deep_view(),
            result_data_from_site: self.result_data_from_site.deep_view(),
            feedback_notes_from_site: self.feedback_notes_from_site.deep_view(),
            confirmation_status_from_control: self.confirmation_status_from_control.deep_view(),
            last_updated: self.last_updated,
        }
    }
}

/// A test step that nobody has acted on yet, stamped `now`.
pub open spec fn fresh_test_step(step_id: Seq<char>, now: i128) -> SingleTestStepStatusView {
    SingleTestStepStatusView {
        step_id,
        command_from_control: None,
        params_from_control: None,
        execution_status_from_site: None,
        result_data_from_site: None,
        feedback_notes_from_site: None,
        confirmation_status_from_control: None,
        last_updated: now,
    }
}

impl SingleTestStepStatus {
    /// A test step that nobody has acted on yet, stamped with the clock.
    pub fn new(step_id: String) -> (r: Self)
        ensures
            exists|now: i128| r@ == fresh_test_step(step_id@, now),
    {
        let now = current_time_nanos();
        Self::new_at(step_id, now)
    }

    /// A test step that nobody has acted on yet, stamped `now`.
    pub fn new_at(step_id: String, now: i128) -> (r: Self)
        ensures
            r@ == fresh_test_step(step_id@, now),
    {
        SingleTestStepStatus {
            step_id,
            command_from_control: None,
            params_from_control: None,
            execution_status_from_site: None,
            result_data_from_site: None,
            feedback_notes_from_site: None,
            confirmation_status_from_control: None,
            last_updated: now,
        }
    }

    /// A field-by-field copy.
    pub fn duplicate(&self) -> (r: Self)
        ensures
            r@ == self@,
    {
        SingleTestStepStatus {
            step_id: self.step_id.clone(),
            command_from_control: copy_opt_string(&self.command_from_control),
            params_from_control: copy_opt_string(&self.params_from_control),
            execution_status_from_site: copy_opt_string(&self.execution_status_from_site),
            result_data_from_site: copy_opt_string(&self.result_data_from_site),
            feedback_notes_from_site: copy_opt_string(&self.feedback_notes_from_site),
            confirmation_status_from_control: copy_opt_string(
                &self.confirmation_status_from_control,
            ),
            last_updated: self.last_updated,
        }
    }
}

/// The whole shared state of one debugging task. Pre-check items are keyed by
/// `item_id` and test steps by `step_id`: a lookup finds the first entry with
/// the key. Times are Unix nanoseconds.
#[derive(Debug, Clone)]
pub struct TaskDebugState {
    pub task_id: String,
    pub pre_check_items: Vec<PreCheckItemStatus>,
    pub single_test_steps: Vec<SingleTestStepStatus>,
    pub last_updated_by_role: Option<ClientRole>,
    pub last_update_timestamp: i128,
    pub version: u64,
}

/// Abstract value of a [`TaskDebugState`].
pub struct TaskDebugStateView {
    pub task_id: Seq<char>,
    pub pre_check_items: Seq<PreCheckItemStatusView>,
    pub single_test_steps: Seq<SingleTestStepStatusView>,
    pub last_updated_by_role: Option<ClientRole>,
    pub last_update_timestamp: i128,
    pub version: u64,
}

impl View for TaskDebugState {
    type V = TaskDebugStateView;

    open spec fn view(&self) -> TaskDebugStateView {
        TaskDebugStateView {
            task_id: self.task_id@,
            pre_check_items: self.pre_check_items@.map_values(|i: PreCheckItemStatus| i@),
            single_test_steps: self.single_test_steps@.map_values(|s: SingleTestStepStatus| s@),
            last_updated_by_role: self.last_updated_by_role,
            last_update_timestamp: self.last_update_timestamp,
            version: self.version,
        }
    }
}

/// A task state with no items, no steps and version 0, stamped `now`.
pub open spec fn fresh_task_state(task_id: Seq<char>, now: i128) -> TaskDebugStateView {
    TaskDebugStateView {
        task_id,
        pre_check_items: Seq::empty(),
        single_test_steps: Seq::empty(),
        last_updated_by_role: None,
        last_update_timestamp: now,
        version: 0,
    }
}

/// The position of the first pre-check item with the given id, or -1.
pub open spec fn item_position(items: Seq<PreCheckItemStatusView>, id: Seq<char>) -> int
    decreases items.len(),
{
    if items.len() == 0 {
        -1
    } else {
        let p = item_position(items.drop_last(), id);
        if p >= 0 {
            p
        } else if items.last().item_id == id {
            items.len() - 1
        } else {
            -1
        }
    }
}

/// The position of the first test step with the given id, or -1.
pub open spec fn step_position(steps: Seq<SingleTestStepStatusView>, id: Seq<char>) -> int
    decreases steps.len(),
{
    if steps.len() == 0 {
        -1
    } else {
        let p = step_position(steps.drop_last(), id);
        if p >= 0 {
            p
        } else if steps.last().step_id == id {
            steps.len() - 1
        } else {
            -1
        }
    }
}

/// `item_position` finds an item with the id, and none before it; -1 means none.
pub proof fn lemma_item_position(items: Seq<PreCheckItemStatusView>, id: Seq<char>)
    ensures
        -1 <= item_position(items, id) < items.len(),
        item_position(items, id) >= 0 ==> items[item_position(items, id)].item_id == id,
        forall|j: int|
            0 <= j < items.len() && (item_position(items, id) < 0 || j < item_position(items, id))
                ==> items[j].item_id != id,
    decreases items.len(),
{
    if items.len() > 0 {
        let d = items.drop_last();
        lemma_item_position(d, id);
        assert forall|j: int|
            0 <= j < items.len() && (item_position(items, id) < 0 || j < item_position(items, id))
            implies items[j].item_id != id by {
            if j < items.len() - 1 {
                assert(items[j] == d[j]);
            }
        }
    }
}

/// `step_position` finds a step with the id, and none before it; -1 means none.
pub proof fn lemma_step_position(steps: Seq<SingleTestStepStatusView>, id: Seq<char>)
    ensures
        -1 <= step_position(steps, id) < steps.len(),
        step_position(steps, id) >= 0 ==> steps[step_position(steps, id)].step_id == id,
        forall|j: int|
            0 <= j < steps.len() && (step_position(steps, id) < 0 || j < step_position(steps, id))
                ==> steps[j].step_id != id,
    decreases steps.len(),
{
    if steps.len() > 0 {
        let d = steps.drop_last();
        lemma_step_position(d, id);
        assert forall|j: int|
            0 <= j < steps.len() && (step_position(steps, id) < 0 || j < step_position(steps, id))
            implies steps[j].step_id != id by {
            if j < steps.len() - 1 {
                assert(steps[j] == d[j]);
            }
        }
    }
}

impl TaskDebugState {
    /// An empty task state for `task_id`, stamped with the clock.
    pub fn new(task_id: String) -> (r: Self)
        ensures
            exists|now: i128| r@ == fresh_task_state(task_id@, now),
    {
        let now = current_time_nanos();
        Self::new_at(task_id, now)
    }

    /// An empty task state for `task_id`, stamped `now`.
    pub fn new_at(task_id: String, now: i128) -> (r: Self)
        ensures
            r@ == fresh_task_state(task_id@, now),
    {
        let r = TaskDebugState {
            task_id,
            pre_check_items: Vec::new(),
            single_test_steps: Vec::new(),
            last_updated_by_role: None,
            last_update_timestamp: now,
            version: 0,
        };
        assert(r@.pre_check_items =~= Seq::<PreCheckItemStatusView>::empty());
        assert(r@.single_test_steps =~= Seq::<SingleTestStepStatusView>::empty());
        r
    }

    /// The position of the first pre-check item with the given id.
    pub fn find_pre_check_item(&self, item_id: &str) -> (r: Option<usize>)
        ensures
            match r {
                Some(i) => item_position(self@.pre_check_items, item_id@) == i,
                None => item_position(self@.pre_check_items, item_id@) == -1,
            },
    {
        let n = self.pre_check_items.len();
        let ghost items = self@.pre_check_items;
        let mut j: usize = 0;
        while j < n
            invariant
                n == self.pre_check_items.len(),
                items == self@.pre_check_items,
                items.len() == n,
                j <= n,
                item_position(items.take(j as int), item_id@) == -1,
            decreases n - j,
        {
            assert(items.take((j + 1) as int).drop_last() =~= items.take(j as int));
            if str_eq(self.pre_check_items[j].item_id.as_str(), item_id) {
                assert(items.take((j + 1) as int).last().item_id == item_id@);
                proof {
                    lemma_item_position(items, item_id@);
                    lemma_prefix_item_position(items, item_id@, (j + 1) as int);
                }
                return Some(j);
            }
            j = j + 1;
        }
        assert(items.take(n as int) =~= items);
        None
    }

    /// The first pre-check item with the given id.
    pub fn pre_check_item(&self, item_id: &str) -> (r: Option<&PreCheckItemStatus>)
        ensures
            match r {
                Some(item) => {
                    let p = item_position(self@.pre_check_items, item_id@);
                    p >= 0 && item@ == self@.pre_check_items[p]
                },
                None => item_position(self@.pre_check_items, item_id@) == -1,
            },
    {
        match self.find_pre_check_item(item_id) {
            Some(i) => {
                proof {
                    lemma_item_position(self@.pre_check_items, item_id@);
                }
                Some(&self.pre_check_items[i])
            },
            None => None,
        }
    }

    /// The position of the first test step with the given id.
    pub fn find_single_test_step(&self, step_id: &str) -> (r: Option<usize>)
        ensures
            match r {
                Some(i) => step_position(self@.single_test_steps, step_id@) == i,
                None => step_position(self@.single_test_steps, step_id@) == -1,
            },
    {
        let n = self.single_test_steps.len();
        let ghost steps = self@.single_test_steps;
        let mut j: usize = 0;
        while j < n
            invariant
                n == self.single_test_steps.len(),
                steps == self@.single_test_steps,
                steps.len() == n,
                j <= n,
                step_position(steps.take(j as int), step_id@) == -1,
            decreases n - j,
        {
            assert(steps.take((j + 1) as int).drop_last() =~= steps.take(j as int));
            if str_eq(self.single_test_steps[j].step_id.as_str(), step_id) {
                assert(steps.take((j + 1) as int).last().step_id == step_id@);
                proof {
                    lemma_step_position(steps, step_id@);
                    lemma_prefix_step_position(steps, step_id@, (j + 1) as int);
                }
                return Some(j);
            }
            j = j + 1;
        }
        assert(steps.take(n as int) =~= steps);
        None
    }

    /// The first test step with the given id.
    pub fn single_test_step(&self, step_id: &str) -> (r: Option<&SingleTestStepStatus>)
        ensures
            match r {
                Some(step) => {
                    let p = step_position(self@.single_test_steps, step_id@);
                    p >= 0 && step@ == self@.single_test_steps[p]
                },
                None => step_position(self@.single_test_steps, step_id@) == -1,
            },
    {
        match self.find_single_test_step(step_id) {
            Some(i) => {
                proof {
                    lemma_step_position(self@.single_test_steps, step_id@);
                }
                Some(&self.single_test_steps[i])
            },
            None => None,
        }
    }

    /// A deep copy.
    pub fn duplicate(&self) -> (r: Self)
        ensures
            r@ == self@,
    {
        let mut items: Vec<PreCheckItemStatus> = Vec::new();
        let n = self.pre_check_items.len();
        let mut i: usize = 0;
        while i < n
            invariant
                n == self.pre_check_items.len(),
                i <= n,
                items@.len() == i,
                forall|k: int| 0 <= k < i ==> items@[k]@ == self.pre_check_items@[k]@,
            decreases n - i,
        {
            items.push(self.pre_check_items[i].duplicate());
            i = i + 1;
        }
        let mut steps: Vec<SingleTestStepStatus> = Vec::new();
        let m = self.single_test_steps.len();
        let mut j: usize = 0;
        while j < m
            invariant
                m == self.single_test_steps.len(),
                j <= m,
                steps@.len() == j,
                forall|k: int| 0 <= k < j ==> steps@[k]@ == self.single_test_steps@[k]@,
            decreases m - j,
        {
            steps.push(self.single_test_steps[j].duplicate());
            j = j + 1;
        }
        let r = TaskDebugState {
            task_id: self.task_id.clone(),
            pre_check_items: items,
            single_test_steps: steps,
            last_updated_by_role: self.last_updated_by_role,
            last_update_timestamp: self.last_update_timestamp,
            version: self.version,
        };
        assert(r@.pre_check_items =~= self@.pre_check_items);
        assert(r@.single_test_steps =~= self@.single_test_steps);
        r
    }
}

/// A prefix that ends at the first match holds the same first match.
pub proof fn lemma_prefix_item_position(items: Seq<PreCheckItemStatusView>, id: Seq<char>, k: int)
    requires
        0 < k <= items.len(),
        item_position(items.take(k), id) == k - 1,
    ensures
        item_position(items, id) == k - 1,
    decreases items.len(),
{
    if items.len() > k {
        assert(items.drop_last().take(k) =~= items.take(k));
        lemma_prefix_item_position(items.drop_last(), id, k);
    } else {
        assert(items.take(k) =~= items);
    }
}

/// A prefix that ends at the first match holds the same first match.
pub proof fn lemma_prefix_step_position(steps: Seq<SingleTestStepStatusView>, id: Seq<char>, k: int)
    requires
        0 < k <= steps.len(),
        step_position(steps.take(k), id) == k - 1,
    ensures
        step_position(steps, id) == k - 1,
    decreases steps.len(),
{
    if steps.len() > k {
        assert(steps.drop_last().take(k) =~= steps.take(k));
        lemma_prefix_step_position(steps.drop_last(), id, k);
    } else {
        assert(steps.take(k) =~= steps);
    }
}

/// Updates a pre-check item's status and notes, from the sender's side.
#[derive(Debug, Clone)]
pub struct UpdatePreCheckItemPayload {
    pub task_id: String,
    pub item_id: String,
    pub status: String,
    pub notes: Option<String>,
}

/// Abstract value of an [`UpdatePreCheckItemPayload`].
pub struct UpdatePreCheckItemPayloadView {
    pub task_id: Seq<char>,
    pub item_id: Seq<char>,
    pub status: Seq<char>,
    pub notes: Option<Seq<char>>,
}

impl View for UpdatePreCheckItemPayload {
    type V = UpdatePreCheckItemPayloadView;

    open spec fn view(&self) -> UpdatePreCheckItemPayloadView {
        UpdatePreCheckItemPayloadView {
            task_id: self.task_id@,
            item_id: self.item_id@,
            status: self.status@,
            notes: self.notes.deep_view(),
        }
    }
}

/// The control center's order to run a single test step on a device.
#[derive(Debug, Clone)]
pub struct StartSingleTestStepPayload {
    pub task_id: String,
    pub device_id: String,
    pub step_id: String,
    pub command: String,
}

/// The site's report on a single test step; result data is JSON text.
#[derive(Debug, Clone)]
pub struct FeedbackSingleTestStepPayload {
    pub task_id: String,
    pub device_id: String,
    pub step_id: String,
    pub execution_status: String,
    pub result_data: Option<String>,
    pub feedback_notes: Option<String>,
}

/// The control center's confirmation of a single test step's result.
#[derive(Debug, Clone)]
pub struct ConfirmSingleTestStepPayload {
    pub task_id: String,
    pub device_id: String,
    pub step_id: String,
    pub confirmation_status: String,
}

/// A business action that a client asks to apply to a task's shared state.
#[derive(Debug, Clone)]
pub enum BusinessActionPayload {
    UpdatePreCheckItem(UpdatePreCheckItemPayload),
    StartSingleTestStep(StartSingleTestStepPayload),
    FeedbackSingleTestStep(FeedbackSingleTestStepPayload),
    ConfirmSingleTestStep(ConfirmSingleTestStepPayload),
}

} // verus!
