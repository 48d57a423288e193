//! The download orchestrator: one fetch task per eligible record, each
//! stepped on its own, every completion counted and announced once.

use crate::fetch::{
    pending_action, pending_spec, step, step_spec, FetchAction, FetchEvent, FetchEventView,
    FetchOutcome, FetchOutcomeView, FetchState, FetchStateView, FetchTask, FetchTaskView,
};
use crate::plan::{
    eligible, has_source, lemma_plan_counts_eligible, lemma_plan_counts_sources, plan, plan_spec,
};
use crate::progress::{line_spec, ProgressReporter};
use crate::record::{brand_of, Record, RecordView};
use vstd::prelude::*;

verus! {

/// The number of tasks that have ended.
pub open spec fn settled_count(states: Seq<FetchStateView>) -> nat {
    states.filter(|state: FetchStateView| state is Settled).len()
}

/// The number of tasks that ended with their asset downloaded.
pub open spec fn downloaded_count(states: Seq<FetchStateView>) -> nat {
    states.filter(
        |state: FetchStateView| state == FetchStateView::Settled(FetchOutcomeView::Downloaded),
    ).len()
}

/// The number of tasks that ended because their target was in place.
pub open spec fn skipped_count(states: Seq<FetchStateView>) -> nat {
    states.filter(
        |state: FetchStateView| state == FetchStateView::Settled(FetchOutcomeView::Skipped),
    ).len()
}

/// The number of tasks that ended in failure.
pub open spec fn failed_count(states: Seq<FetchStateView>) -> nat {
    states.filter(
        |state: FetchStateView| state matches FetchStateView::Settled(FetchOutcomeView::Failed(_)),
    ).len()
}

/// How the ended tasks of a run divide by outcome.
#[derive(Clone, Copy, Debug, PartialEq, Eq, Structural)]
pub struct Tally {
    pub downloaded: usize,
    pub skipped: usize,
    pub failed: usize,
}

/// What an orchestrator is, as plain values: the planned tasks, the state of
/// each, and the reporter's counts.
pub struct OrchestratorView {
    pub tasks: Seq<FetchTaskView>,
    pub states: Seq<FetchStateView>,
    pub completed: nat,
    pub total: nat,
}

/// Every task has a state, the total is the number of tasks, and the
/// completions counted are the tasks that have ended.
pub open spec fn consistent(view: OrchestratorView) -> bool {
    &&& view.states.len() == view.tasks.len()
    &&& view.total == view.tasks.len()
    &&& view.completed == settled_count(view.states)
}

/// What the orchestrator tells the caller to do for a task.
#[derive(Debug, PartialEq, Eq)]
pub enum Directive {
    /// Carry out this work for the task and come back with the event that
    /// says how it went.
    Perform(FetchAction),
    /// The task has just ended: emit this status line.
    Announce(String),
    /// Nothing to do: there is no such task, or it had ended before.
    Idle,
}

/// A directive as plain values.
pub enum DirectiveView {
    Perform(FetchAction),
    Announce(Seq<char>),
    Idle,
}

impl View for Directive {
    type V = DirectiveView;

    open spec fn view(&self) -> DirectiveView {
        match self {
            Directive::Perform(action) => DirectiveView::Perform(*action),
            Directive::Announce(line) => DirectiveView::Announce(line@),
            Directive::Idle => DirectiveView::Idle,
        }
    }
}

/// The orchestrator and the directive after `event` is handed in for the task
/// at `index`.
///
/// A task that has not ended takes its step. If the step ends it, the
/// completion is counted and announced with the new count; otherwise the
/// caller is told what the task waits on next. No other task is touched. An
/// event for a task that is not there, or that had ended, changes nothing.
pub open spec fn handle_spec(
    before: OrchestratorView,
    index: int,
    event: FetchEventView,
) -> (OrchestratorView, DirectiveView) {
    if 0 <= index < before.states.len() && !(before.states[index] is Settled) {
        let next = step_spec(before.states[index], event);
        let states = before.states.update(index, next);
        match next {
            FetchStateView::Settled(outcome) => (
                OrchestratorView { states, completed: before.completed + 1, ..before },
                DirectiveView::Announce(
                    line_spec(before.tasks[index], outcome, before.completed + 1, before.total),
                ),
            ),
            _ => (
                OrchestratorView { states, ..before },
                DirectiveView::Perform(pending_spec(next)),
            ),
        }
    } else {
        (before, DirectiveView::Idle)
    }
}

/// The orchestrator of a catalog before anything has happened: one planned
/// task for each eligible record, nothing counted.
pub open spec fn initial_view(records: Seq<RecordView>) -> OrchestratorView {
    let tasks = plan_spec(records);
    OrchestratorView {
        tasks,
        states: Seq::new(tasks.len(), |i: int| FetchStateView::Planned),
        completed: 0,
        total: tasks.len(),
    }
}

/// The orchestrator after a run: `events` handed in one by one, oldest first,
/// each with the index of the task it is for.
pub open spec fn after_events(
    start: OrchestratorView,
    events: Seq<(int, FetchEventView)>,
) -> OrchestratorView
    decreases events.len(),
{
    if events.len() == 0 {
        start
    } else {
        handle_spec(after_events(start, events.drop_last()), events.last().0, events.last().1).0
    }
}

/// Replacing the state of a task that has not ended raises the number of
/// ended tasks by one if the new state is an end, and leaves it otherwise.
pub proof fn lemma_settled_count_update(
    states: Seq<FetchStateView>,
    index: int,
    next: FetchStateView,
)
    requires
        0 <= index < states.len(),
        !(states[index] is Settled),
    ensures
        settled_count(states.update(index, next)) == settled_count(states) + (if next is Settled {
            1nat
        } else {
            0nat
        }),
        settled_count(states) < states.len(),
    decreases states.len(),
{
    reveal(Seq::filter);
    let settled = |state: FetchStateView| state is Settled;
    let rest = states.drop_last();
    let updated = states.update(index, next);
    rest.lemma_filter_len(settled);
    if index == states.len() - 1 {
        assert(updated.drop_last() =~= rest);
    } else {
        assert(updated.drop_last() =~= rest.update(index, next));
        lemma_settled_count_update(rest, index, next);
    }
}

/// Where no task has ended, none is counted.
proof fn lemma_none_settled(states: Seq<FetchStateView>)
    requires
        forall|i: int| 0 <= i < states.len() ==> !(#[trigger] states[i] is Settled),
    ensures
        settled_count(states) == 0,
    decreases states.len(),
{
    reveal(Seq::filter);
    if states.len() > 0 {
        let rest = states.drop_last();
        assert forall|i: int| 0 <= i < rest.len() implies !(#[trigger] rest[i] is Settled) by {
            assert(rest[i] == states[i]);
        }
        lemma_none_settled(rest);
        assert(states.last() == states[states.len() - 1]);
    }
}

/// Every task has ended exactly when the number of ended tasks is the number
/// of tasks.
pub proof fn lemma_all_settled(states: Seq<FetchStateView>)
    ensures
        settled_count(states) <= states.len(),
        settled_count(states) == states.len() <==> forall|i: int|
            0 <= i < states.len() ==> #[trigger] states[i] is Settled,
    decreases states.len(),
{
    reveal(Seq::filter);
    let settled = |state: FetchStateView| state is Settled;
    if states.len() > 0 {
        let rest = states.drop_last();
        lemma_all_settled(rest);
        if settled_count(states) == states.len() {
            assert forall|i: int| 0 <= i < states.len() implies #[trigger] states[i] is Settled by {
                if i < rest.len() {
                    assert(rest[i] == states[i]);
                }
            }
        }
        if forall|i: int| 0 <= i < states.len() ==> #[trigger] states[i] is Settled {
            assert forall|i: int| 0 <= i < rest.len() implies #[trigger] rest[i] is Settled by {
                assert(rest[i] == states[i]);
            }
            assert(states.last() is Settled);
        }
    }
}

/// Runs the downloads of one catalog.
pub struct Orchestrator {
    tasks: Vec<FetchTask>,
    states: Vec<FetchState>,
    reporter: ProgressReporter,
}

impl View for Orchestrator {
    type V = OrchestratorView;

    closed spec fn view(&self) -> OrchestratorView {
        OrchestratorView {
            tasks: self.tasks.deep_view(),
            states: self.states.deep_view(),
            completed: self.reporter@.completed,
            total: self.reporter@.total,
        }
    }
}

impl Orchestrator {
    /// The orchestrator's counts agree with its tasks.
    pub open spec fn wf(&self) -> bool {
        consistent(self@)
    }

    /// Plans one task for each eligible record of the catalog; no task has
    /// started and none is counted.
    pub fn new(records: &Vec<Record>) -> (orchestrator: Orchestrator)
        ensures
            orchestrator.wf(),
            orchestrator@ == initial_view(records.deep_view()),
    {
        let tasks = plan(records);
        let mut states: Vec<FetchState> = Vec::new();
        while states.len() < tasks.len()
            invariant
                states.len() <= tasks.len(),
                forall|i: int|
                    0 <= i < states.len() ==> #[trigger] states[i] == FetchState::Planned,
            decreases tasks.len() - states.len(),
        {
            states.push(FetchState::Planned);
        }
        let reporter = ProgressReporter::new(tasks.len());
        let orchestrator = Orchestrator { tasks, states, reporter };
        proof {
            assert(orchestrator@.states =~= initial_view(records.deep_view()).states);
            lemma_initial_consistent(records.deep_view());
        }
        orchestrator
    }

    /// The number of planned tasks.
    pub fn task_count(&self) -> (count: usize)
        ensures
            count == self@.tasks.len(),
    {
        self.tasks.len()
    }

    /// The task at `index`, if there is one.
    pub fn task(&self, index: usize) -> (task: Option<&FetchTask>)
        ensures
            task.deep_view() == (if index < self@.tasks.len() {
                Some(self@.tasks[index as int])
            } else {
                None
            }),
    {
        if index < self.tasks.len() {
            Some(&self.tasks[index])
        } else {
            None
        }
    }

    /// How the task at `index` ended, if there is such a task and it has
    /// ended.
    pub fn outcome(&self, index: usize) -> (outcome: Option<&FetchOutcome>)
        ensures
            outcome is Some <==> index < self@.states.len() && self@.states[index as int]
                is Settled,
            outcome matches Some(ended) ==> self@.states[index as int] == FetchStateView::Settled(
                ended@,
            ),
    {
        if index < self.states.len() {
            match &self.states[index] {
                FetchState::Settled(outcome) => Some(outcome),
                _ => None,
            }
        } else {
            None
        }
    }

    /// The number of tasks that have ended and been announced.
    pub fn completed(&self) -> (count: usize)
        ensures
            count == self@.completed,
    {
        self.reporter.completed()
    }

    /// Whether every task has ended.
    pub fn is_finished(&self) -> (finished: bool)
        requires
            self.wf(),
        ensures
            finished == (self@.completed == self@.total),
            finished == forall|i: int|
                0 <= i < self@.states.len() ==> #[trigger] self@.states[i] is Settled,
    {
        proof {
            lemma_all_settled(self@.states);
        }
        self.reporter.is_complete()
    }

    /// The work that the task at `index` waits on, if there is such a task.
    pub fn pending(&self, index: usize) -> (action: Option<FetchAction>)
        ensures
            action == (if index < self@.states.len() {
                Some(pending_spec(self@.states[index as int]))
            } else {
                None
            }),
    {
        if index < self.states.len() {
            Some(pending_action(&self.states[index]))
        } else {
            None
        }
    }

    /// Counts the ended tasks by outcome.
    pub fn tally(&self) -> (tally: Tally)
        ensures
            tally.downloaded == downloaded_count(self@.states),
            tally.skipped == skipped_count(self@.states),
            tally.failed == failed_count(self@.states),
    {
        let ghost all = self@.states;
        let mut tally = Tally { downloaded: 0, skipped: 0, failed: 0 };
        let mut at: usize = 0;
        proof {
            reveal(Seq::filter);
            assert(all.take(0) =~= Seq::<FetchStateView>::empty());
        }
        while at < self.states.len()
            invariant
                at <= self.states.len(),
                all == self.states.deep_view(),
                tally.downloaded == downloaded_count(all.take(at as int)),
                tally.skipped == skipped_count(all.take(at as int)),
                tally.failed == failed_count(all.take(at as int)),
                tally.downloaded <= at,
                tally.skipped <= at,
                tally.failed <= at,
            decreases self.states.len() - at,
        {
            proof {
                reveal(Seq::filter);
                assert(all.take(at + 1).drop_last() =~= all.take(at as int));
                assert(all.take(at + 1).last() == self.states[at as int]@);
            }
            match &self.states[at] {
                FetchState::Settled(FetchOutcome::Downloaded) => {
                    tally.downloaded = tally.downloaded + 1;
                },
                FetchState::Settled(FetchOutcome::Skipped) => {
                    tally.skipped = tally.skipped + 1;
                },
                FetchState::Settled(FetchOutcome::Failed(_)) => {
                    tally.failed = tally.failed + 1;
                },
                _ => {},
            }
            at += 1;
        }
        assert(all.take(self.states.len() as int) =~= all);
        tally
    }

    /// Hands the task at `index` the event that says how its pending work
    /// went, and tells the caller what to do next.
    pub fn handle(&mut self, index: usize, event: FetchEvent) -> (directive: Directive)
        requires
            old(self).wf(),
        ensures
            final(self).wf(),
            (final(self)@, directive@) == handle_spec(old(self)@, index as int, event@),
    {
        if index >= self.states.len() {
            return Directive::Idle;
        }
        if let FetchState::Settled(_) = &self.states[index] {
            return Directive::Idle;
        }
        let next = step(&self.states[index], event);
        proof {
            lemma_settled_count_update(self@.states, index as int, next@);
        }
        let ghost before = self@;
        let directive = match &next {
            FetchState::Settled(outcome) => {
                let line = self.reporter.report(&self.tasks[index], outcome);
                Directive::Announce(line.unwrap())
            },
            _ => Directive::Perform(pending_action(&next)),
        };
        self.states.set(index, next);
        assert(self@.states =~= before.states.update(index as int, next@));
        directive
    }
}

/// Every ended task ended in exactly one of the three ways.
pub proof fn lemma_outcomes_partition(states: Seq<FetchStateView>)
    ensures
        downloaded_count(states) + skipped_count(states) + failed_count(states) == settled_count(
            states,
        ),
    decreases states.len(),
{
    reveal(Seq::filter);
    if states.len() > 0 {
        lemma_outcomes_partition(states.drop_last());
    }
}

/// The completions counted never pass the number of planned tasks.
pub proof fn lemma_completed_within_total(view: OrchestratorView)
    requires
        consistent(view),
    ensures
        view.completed <= view.total,
{
    lemma_all_settled(view.states);
}

/// Failure isolation: handing one task an event leaves every other task, and
/// the plan, as they were, and keeps the counts in agreement with the tasks.
pub proof fn lemma_handle_is_isolated(
    before: OrchestratorView,
    index: int,
    event: FetchEventView,
    other: int,
)
    requires
        consistent(before),
        0 <= other < before.states.len(),
        other != index,
    ensures
        handle_spec(before, index, event).0.states[other] == before.states[other],
        handle_spec(before, index, event).0.tasks == before.tasks,
        consistent(handle_spec(before, index, event).0),
{
    if 0 <= index < before.states.len() && !(before.states[index] is Settled) {
        lemma_settled_count_update(before.states, index, step_spec(before.states[index], event));
    }
}

/// A completion is announced exactly when the event ends a task that had not
/// ended, and exactly then the count rises, by one.
pub proof fn lemma_announced_once(before: OrchestratorView, index: int, event: FetchEventView)
    requires
        consistent(before),
    ensures
        ({
            let (after, directive) = handle_spec(before, index, event);
            &&& directive is Announce <==> after.completed == before.completed + 1
            &&& !(directive is Announce) ==> after.completed == before.completed
            &&& directive is Announce ==> 0 <= index < before.states.len()
                && !(before.states[index] is Settled) && after.states[index] is Settled
        }),
{
}

/// The orchestrator of a catalog starts out consistent.
pub proof fn lemma_initial_consistent(records: Seq<RecordView>)
    ensures
        consistent(initial_view(records)),
{
    lemma_none_settled(initial_view(records).states);
}

/// Whatever events are handed in, in whatever order and for whatever tasks,
/// the plan stays the plan of the catalog, the counts stay in agreement with
/// the tasks, and the completions counted never pass the number of eligible
/// records.
pub proof fn lemma_run_stays_consistent(
    records: Seq<RecordView>,
    events: Seq<(int, FetchEventView)>,
)
    ensures
        consistent(after_events(initial_view(records), events)),
        after_events(initial_view(records), events).tasks == plan_spec(records),
        after_events(initial_view(records), events).completed <= records.filter(
            |record: RecordView| eligible(record),
        ).len(),
    decreases events.len(),
{
    lemma_plan_counts_eligible(records);
    if events.len() == 0 {
        lemma_initial_consistent(records);
    } else {
        lemma_run_stays_consistent(records, events.drop_last());
        let before = after_events(initial_view(records), events.drop_last());
        let index = events.last().0;
        if 0 <= index < before.states.len() && !(before.states[index] is Settled) {
            lemma_settled_count_update(
                before.states,
                index,
                step_spec(before.states[index], events.last().1),
            );
        }
    }
    lemma_all_settled(after_events(initial_view(records), events).states);
}

/// Once every task of a run has ended, the completions counted are the
/// eligible records of the catalog, however many of the tasks failed.
pub proof fn lemma_finished_counts_eligible(
    records: Seq<RecordView>,
    events: Seq<(int, FetchEventView)>,
)
    requires
        forall|i: int|
            0 <= i < after_events(initial_view(records), events).states.len() ==> (
            #[trigger] after_events(initial_view(records), events).states[i]) is Settled,
    ensures
        after_events(initial_view(records), events).completed == records.filter(
            |record: RecordView| eligible(record),
        ).len(),
{
    lemma_run_stays_consistent(records, events);
    lemma_all_settled(after_events(initial_view(records), events).states);
    lemma_plan_counts_eligible(records);
}

/// For a catalog in which every record with a source URL has a brand: once
/// every task of a run has ended, the completions counted are the records
/// with a source URL, however many of the tasks failed.
pub proof fn lemma_finished_counts_sources(
    records: Seq<RecordView>,
    events: Seq<(int, FetchEventView)>,
)
    requires
        forall|i: int|
            0 <= i < records.len() && has_source(#[trigger] records[i]) ==> brand_of(records[i])
                is Some,
        forall|i: int|
            0 <= i < after_events(initial_view(records), events).states.len() ==> (
            #[trigger] after_events(initial_view(records), events).states[i]) is Settled,
    ensures
        after_events(initial_view(records), events).completed == records.filter(
            |record: RecordView| has_source(record),
        ).len(),
{
    lemma_finished_counts_eligible(records, events);
    lemma_plan_counts_eligible(records);
    lemma_plan_counts_sources(records);
}

} // verus!
