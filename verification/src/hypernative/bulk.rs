//! Removal of many rules at once: one task for each rule, every task run to
//! its end, and success only where every task succeeded.

use vstd::prelude::*;

verus! {

/// How far the removal of one rule has come.
#[derive(Debug, Clone, Copy, PartialEq, Eq, Structural)]
pub enum TaskState {
    /// Not launched yet.
    Waiting,
    /// Launched; its outcome is not known yet.
    Running,
    /// The removal was transmitted.
    Succeeded,
    /// The removal failed.
    Failed,
}

/// What a bulk removal holds, as mathematical values.
pub struct BulkView {
    /// The rules to remove, one task for each, in the order given.
    pub rule_ids: Seq<i64>,
    /// The state of each task.
    pub states: Seq<TaskState>,
    /// How many tasks were launched: the tasks before this index.
    pub launched: int,
}

impl BulkView {
    /// Every rule has one task; the tasks launched so far are the first
    /// ones, and no other task has left its waiting state.
    pub open spec fn wf(self) -> bool {
        &&& self.states.len() == self.rule_ids.len()
        &&& 0 <= self.launched <= self.rule_ids.len()
        &&& forall|i: int|
            0 <= i < self.states.len() ==> ((#[trigger] self.states[i] == TaskState::Waiting) <==> i
                >= self.launched)
    }

    /// A bulk removal of which nothing was launched yet.
    pub open spec fn initial(rule_ids: Seq<i64>) -> BulkView {
        BulkView {
            rule_ids: rule_ids,
            states: Seq::new(rule_ids.len(), |i: int| TaskState::Waiting),
            launched: 0,
        }
    }

    /// The next task to launch, if one is left: its index and its rule.
    pub open spec fn next_task(self) -> Option<(int, i64)> {
        if self.launched < self.rule_ids.len() {
            Some((self.launched, self.rule_ids[self.launched]))
        } else {
            None
        }
    }

    /// The bulk removal after its next task was launched.
    pub open spec fn launch(self) -> BulkView {
        if self.launched < self.rule_ids.len() {
            BulkView {
                rule_ids: self.rule_ids,
                states: self.states.update(self.launched, TaskState::Running),
                launched: self.launched + 1,
            }
        } else {
            self
        }
    }

    /// An outcome is taken for a task that runs, and for no other.
    pub open spec fn accepts(self, task: int) -> bool {
        0 <= task < self.states.len() && self.states[task] == TaskState::Running
    }

    /// The bulk removal after the outcome of `task` was reported.
    pub open spec fn record(self, task: int, succeeded: bool) -> BulkView {
        if self.accepts(task) {
            BulkView {
                rule_ids: self.rule_ids,
                states: self.states.update(
                    task,
                    if succeeded {
                        TaskState::Succeeded
                    } else {
                        TaskState::Failed
                    },
                ),
                launched: self.launched,
            }
        } else {
            self
        }
    }

    /// Every task has reported its outcome.
    pub open spec fn complete(self) -> bool {
        forall|i: int|
            0 <= i < self.states.len() ==> (#[trigger] self.states[i] == TaskState::Succeeded
                || self.states[i] == TaskState::Failed)
    }

    /// Every task succeeded.
    pub open spec fn all_succeeded(self) -> bool {
        forall|i: int|
            0 <= i < self.states.len() ==> #[trigger] self.states[i] == TaskState::Succeeded
    }

    /// The rules among the first `n` whose task did not succeed, in order.
    pub open spec fn not_removed(self, n: nat) -> Seq<i64>
        decreases n,
    {
        if n == 0 {
            Seq::<i64>::empty()
        } else {
            let before = self.not_removed((n - 1) as nat);
            if self.states[n - 1] == TaskState::Succeeded {
                before
            } else {
                before.push(self.rule_ids[n - 1])
            }
        }
    }

    /// The result of the bulk removal: success only where every task
    /// succeeded, else the rules that were not removed.
    pub open spec fn result(self) -> Result<(), Seq<i64>> {
        if self.all_succeeded() {
            Ok(())
        } else {
            Err(self.not_removed(self.rule_ids.len()))
        }
    }
}

/// The removal of a set of rules, task by task. The caller launches each
/// task it is handed, lets every task run to its end, and reports each
/// outcome.
#[derive(Debug)]
pub struct BulkDeregistration {
    rule_ids: Vec<i64>,
    states: Vec<TaskState>,
    launched: usize,
}

impl View for BulkDeregistration {
    type V = BulkView;

    closed spec fn view(&self) -> BulkView {
        BulkView { rule_ids: self.rule_ids@, states: self.states@, launched: self.launched as int }
    }
}

/// Where no task among the first `n` is left that did not succeed, all of
/// them succeeded, and the other way round.
pub proof fn lemma_not_removed_empty(bulk: BulkView, n: nat)
    requires
        n <= bulk.states.len(),
    ensures
        bulk.not_removed(n).len() == 0 <==> (forall|i: int|
            0 <= i < n ==> #[trigger] bulk.states[i] == TaskState::Succeeded),
    decreases n,
{
    if n > 0 {
        lemma_not_removed_empty(bulk, (n - 1) as nat);
        if bulk.not_removed(n).len() == 0 {
            assert forall|i: int| 0 <= i < n implies #[trigger] bulk.states[i]
                == TaskState::Succeeded by {
                if i < n - 1 {
                }
            }
        } else {
            if forall|i: int| 0 <= i < n ==> #[trigger] bulk.states[i] == TaskState::Succeeded {
                assert(bulk.states[n - 1] == TaskState::Succeeded);
                assert(forall|i: int|
                    0 <= i < n - 1 ==> #[trigger] bulk.states[i] == TaskState::Succeeded);
            }
        }
    }
}

impl BulkDeregistration {
    /// A bulk removal of the given rules, with nothing launched yet.
    pub fn new(rule_ids: Vec<i64>) -> (r: Self)
        ensures
            r@ == BulkView::initial(rule_ids@),
            r@.wf(),
    {
        let mut states: Vec<TaskState> = Vec::new();
        let mut i: usize = 0;
        while i < rule_ids.len()
            invariant
                i <= rule_ids.len(),
                states.len() == i,
                forall|k: int| 0 <= k < i ==> states@[k] == TaskState::Waiting,
            decreases rule_ids.len() - i,
        {
            states.push(TaskState::Waiting);
            i = i + 1;
        }
        assert(states@ =~= Seq::new(rule_ids@.len(), |i: int| TaskState::Waiting));
        BulkDeregistration { rule_ids, states, launched: 0 }
    }

    /// Whether the bulk removal is in order. It is when it is made, and every
    /// operation keeps it so.
    pub fn is_well_formed(&self) -> (r: bool)
        ensures
            r == self@.wf(),
    {
        if self.states.len() != self.rule_ids.len() || self.launched > self.rule_ids.len() {
            return false;
        }
        let mut i: usize = 0;
        while i < self.states.len()
            invariant
                i <= self.states.len(),
                self.states.len() == self.rule_ids.len(),
                self.launched <= self.rule_ids.len(),
                forall|k: int|
                    0 <= k < i ==> ((#[trigger] self.states@[k] == TaskState::Waiting) <==> k
                        >= self.launched),
            decreases self.states.len() - i,
        {
            let waiting = self.states[i] == TaskState::Waiting;
            if waiting != (i >= self.launched) {
                return false;
            }
            i = i + 1;
        }
        true
    }

    /// The number of tasks: one for each rule.
    pub fn task_count(&self) -> (r: usize)
        ensures
            r == self@.rule_ids.len(),
    {
        self.rule_ids.len()
    }

    /// Hands out the next task to launch: its index and the rule to remove.
    /// Each task is handed out once, in the order of the rules, whatever was
    /// reported of the tasks before it; after the last one nothing is handed
    /// out.
    pub fn launch_next(&mut self) -> (r: Option<(usize, i64)>)
        requires
            old(self)@.wf(),
        ensures
            match r {
                Some(task) => old(self)@.next_task() == Some((task.0 as int, task.1)),
                None => old(self)@.next_task() is None,
            },
            final(self)@ == old(self)@.launch(),
            final(self)@.wf(),
    {
        if self.launched < self.rule_ids.len() {
            let task = self.launched;
            let rule_id = self.rule_ids[task];
            self.states.set(task, TaskState::Running);
            self.launched = task + 1;
            Some((task, rule_id))
        } else {
            None
        }
    }

    /// Takes the outcome of a task. It is taken once for a task that runs;
    /// a report for any other task changes nothing. No outcome touches
    /// another task.
    pub fn record(&mut self, task: usize, succeeded: bool) -> (accepted: bool)
        requires
            old(self)@.wf(),
        ensures
            accepted == old(self)@.accepts(task as int),
            final(self)@ == old(self)@.record(task as int, succeeded),
            final(self)@.wf(),
    {
        if task < self.states.len() && self.states[task] == TaskState::Running {
            let state = if succeeded {
                TaskState::Succeeded
            } else {
                TaskState::Failed
            };
            self.states.set(task, state);
            true
        } else {
            false
        }
    }

    /// Whether every task has reported its outcome.
    pub fn is_complete(&self) -> (r: bool)
        ensures
            r == self@.complete(),
    {
        let mut i: usize = 0;
        while i < self.states.len()
            invariant
                i <= self.states.len(),
                forall|k: int|
                    0 <= k < i ==> (#[trigger] self.states@[k] == TaskState::Succeeded
                        || self.states@[k] == TaskState::Failed),
            decreases self.states.len() - i,
        {
            let state = self.states[i];
            if !(state == TaskState::Succeeded || state == TaskState::Failed) {
                return false;
            }
            i = i + 1;
        }
        true
    }

    /// The result of the bulk removal: success only where every task
    /// succeeded. Otherwise the rules whose task failed, or has not
    /// reported, are returned in the order given; none of them may be
    /// taken as removed.
    pub fn result(&self) -> (r: Result<(), Vec<i64>>)
        requires
            self@.wf(),
        ensures
            r is Ok <==> self@.all_succeeded(),
            match r {
                Ok(_) => self@.result() == Ok::<(), Seq<i64>>(()),
                Err(rules) => self@.result() == Err::<(), Seq<i64>>(rules@),
            },
    {
        let mut left: Vec<i64> = Vec::new();
        let mut i: usize = 0;
        while i < self.rule_ids.len()
            invariant
                i <= self.rule_ids.len(),
                self.states.len() == self.rule_ids.len(),
                left@ == self@.not_removed(i as nat),
            decreases self.rule_ids.len() - i,
        {
            if self.states[i] != TaskState::Succeeded {
                left.push(self.rule_ids[i]);
            }
            i = i + 1;
        }
        proof {
            lemma_not_removed_empty(self@, self.rule_ids.len() as nat);
        }
        if left.len() == 0 {
            Ok(())
        } else {
            Err(left)
        }
    }
}

/// The outcome of one task cancels no other: whatever is reported of a
/// task, the tasks still to launch are the same, and every other task
/// keeps its state.
pub proof fn lemma_outcome_cancels_nothing(bulk: BulkView, task: int, succeeded: bool)
    requires
        bulk.wf(),
    ensures
        bulk.record(task, succeeded).wf(),
        bulk.record(task, succeeded).next_task() == bulk.next_task(),
        bulk.record(task, succeeded).rule_ids == bulk.rule_ids,
        forall|other: int|
            0 <= other < bulk.states.len() && other != task ==> bulk.record(
                task,
                succeeded,
            ).states[other] == bulk.states[other],
{
}

/// One failed task fails the whole removal, and its rule is among those
/// reported as not removed.
pub proof fn lemma_failed_task_fails_all(bulk: BulkView, task: int)
    requires
        bulk.wf(),
        0 <= task < bulk.states.len(),
        bulk.states[task] == TaskState::Failed,
    ensures
        bulk.result() is Err,
        bulk.result()->Err_0.contains(bulk.rule_ids[task]),
{
    lemma_not_removed_holds(bulk, bulk.rule_ids.len(), task);
}

/// A rule whose task did not succeed is among the rules not removed.
pub proof fn lemma_not_removed_holds(bulk: BulkView, n: nat, task: int)
    requires
        n <= bulk.states.len(),
        bulk.states.len() == bulk.rule_ids.len(),
        0 <= task < n,
        bulk.states[task] != TaskState::Succeeded,
    ensures
        bulk.not_removed(n).contains(bulk.rule_ids[task]),
    decreases n,
{
    if task == n - 1 {
        let before = bulk.not_removed((n - 1) as nat);
        assert(before.push(bulk.rule_ids[n - 1])[before.len() as int] == bulk.rule_ids[task]);
    } else {
        lemma_not_removed_holds(bulk, (n - 1) as nat, task);
        let before = bulk.not_removed((n - 1) as nat);
        let at = choose|i: int| 0 <= i < before.len() && before[i] == bulk.rule_ids[task];
        if bulk.states[n - 1] != TaskState::Succeeded {
            assert(before.push(bulk.rule_ids[n - 1])[at] == bulk.rule_ids[task]);
        }
    }
}

/// Launching hands out every rule once: after `n` launches from the start
/// the tasks handed out are the first `n`, and the next one is task `n`.
pub proof fn lemma_launch_each_once(bulk: BulkView)
    requires
        bulk.wf(),
    ensures
        bulk.launch().wf(),
        bulk.next_task() matches Some(task) ==> task.0 == bulk.launched && task.1
            == bulk.rule_ids[bulk.launched] && bulk.launch().launched == bulk.launched + 1,
        bulk.next_task() is None <==> bulk.launched == bulk.rule_ids.len(),
        bulk.next_task() is None ==> bulk.launch() == bulk,
{
}

} // verus!
