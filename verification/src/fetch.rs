//! The idempotent fetcher as a state machine: what a fetch task decides
//! between one piece of outside work and the next.
//!
//! The caller does the outside work (creating the directory, probing the
//! target, the HTTP request, the write) and reports how each piece went; the
//! machine says what to do next and how the task ended.

use crate::status::{status_text_of, HttpStatus};
use vstd::prelude::*;
use vstd::string::StringExecFns;

verus! {

/// Reason prefix of a failure caused by a non-success HTTP status.
pub const HTTP_ERROR_PREFIX: &'static str = "HTTP error ";

/// Reason of a failure caused by an event that does not answer the work the
/// task was waiting on.
pub const UNEXPECTED_EVENT: &'static str = "unexpected event";

/// What one eligible record needs fetched: the source URL, the directory of
/// its brand and the path of the target file inside that directory.
#[derive(Debug, PartialEq, Eq)]
pub struct FetchTask {
    pub url: String,
    pub directory: String,
    pub path: String,
}

/// A fetch task as plain values.
pub struct FetchTaskView {
    pub url: Seq<char>,
    pub directory: Seq<char>,
    pub path: Seq<char>,
}

impl View for FetchTask {
    type V = FetchTaskView;

    open spec fn view(&self) -> FetchTaskView {
        FetchTaskView { url: self.url@, directory: self.directory@, path: self.path@ }
    }
}

impl DeepView for FetchTask {
    type V = FetchTaskView;

    open spec fn deep_view(&self) -> FetchTaskView {
        self@
    }
}

impl Clone for FetchTask {
    fn clone(&self) -> (copy: FetchTask)
        ensures
            copy == *self,
    {
        FetchTask {
            url: self.url.clone(),
            directory: self.directory.clone(),
            path: self.path.clone(),
        }
    }
}

/// How a fetch task ended.
#[derive(Debug, PartialEq, Eq)]
pub enum FetchOutcome {
    /// The asset was fetched and written to the target path.
    Downloaded,
    /// The target path existed already; no request was made.
    Skipped,
    /// The task failed for the given reason; nothing was written.
    Failed(String),
}

/// An outcome as plain values.
pub enum FetchOutcomeView {
    Downloaded,
    Skipped,
    Failed(Seq<char>),
}

impl View for FetchOutcome {
    type V = FetchOutcomeView;

    open spec fn view(&self) -> FetchOutcomeView {
        match self {
            FetchOutcome::Downloaded => FetchOutcomeView::Downloaded,
            FetchOutcome::Skipped => FetchOutcomeView::Skipped,
            FetchOutcome::Failed(reason) => FetchOutcomeView::Failed(reason@),
        }
    }
}

impl Clone for FetchOutcome {
    fn clone(&self) -> (copy: FetchOutcome)
        ensures
            copy == *self,
    {
        match self {
            FetchOutcome::Downloaded => FetchOutcome::Downloaded,
            FetchOutcome::Skipped => FetchOutcome::Skipped,
            FetchOutcome::Failed(reason) => FetchOutcome::Failed(reason.clone()),
        }
    }
}

/// Where a fetch task stands.
#[derive(Debug, PartialEq, Eq)]
pub enum FetchState {
    /// Planned; waiting for the brand directory to exist.
    Planned,
    /// Dispatched; waiting to learn whether the target path exists.
    Probing,
    /// Waiting for the response to the one GET request.
    Requesting,
    /// Waiting for the response body to be written to the target path.
    Writing,
    /// Ended, with this outcome. No event leads out of this state.
    Settled(FetchOutcome),
}

/// A state as plain values.
pub enum FetchStateView {
    Planned,
    Probing,
    Requesting,
    Writing,
    Settled(FetchOutcomeView),
}

impl View for FetchState {
    type V = FetchStateView;

    open spec fn view(&self) -> FetchStateView {
        match self {
            FetchState::Planned => FetchStateView::Planned,
            FetchState::Probing => FetchStateView::Probing,
            FetchState::Requesting => FetchStateView::Requesting,
            FetchState::Writing => FetchStateView::Writing,
            FetchState::Settled(outcome) => FetchStateView::Settled(outcome@),
        }
    }
}

impl DeepView for FetchState {
    type V = FetchStateView;

    open spec fn deep_view(&self) -> FetchStateView {
        self@
    }
}

impl Clone for FetchState {
    fn clone(&self) -> (copy: FetchState)
        ensures
            copy == *self,
    {
        match self {
            FetchState::Planned => FetchState::Planned,
            FetchState::Probing => FetchState::Probing,
            FetchState::Requesting => FetchState::Requesting,
            FetchState::Writing => FetchState::Writing,
            FetchState::Settled(outcome) => FetchState::Settled(outcome.clone()),
        }
    }
}

/// How a piece of outside work went.
#[derive(Debug, PartialEq, Eq)]
pub enum FetchEvent {
    /// The brand directory exists now (it was created, or was there before).
    DirectoryReady,
    /// The probe of the target path answered: `true` if the path exists.
    Probed(bool),
    /// The GET request was answered with this status.
    Responded(HttpStatus),
    /// The response body was written to the target path.
    Written,
    /// The work the task was waiting on failed: the directory could not be
    /// created, the probe or the write failed, or the request did not get an
    /// answer.
    Failed(String),
}

/// An event as plain values; a status stands as its code.
pub enum FetchEventView {
    DirectoryReady,
    Probed(bool),
    Responded(int),
    Written,
    Failed(Seq<char>),
}

impl View for FetchEvent {
    type V = FetchEventView;

    open spec fn view(&self) -> FetchEventView {
        match self {
            FetchEvent::DirectoryReady => FetchEventView::DirectoryReady,
            FetchEvent::Probed(exists) => FetchEventView::Probed(*exists),
            FetchEvent::Responded(status) => FetchEventView::Responded(status@),
            FetchEvent::Written => FetchEventView::Written,
            FetchEvent::Failed(reason) => FetchEventView::Failed(reason@),
        }
    }
}

/// The outside work a task waits on.
#[derive(Clone, Copy, Debug, PartialEq, Eq, Structural)]
pub enum FetchAction {
    /// Create the task's directory, parents included; a directory that exists
    /// already counts as created.
    EnsureDirectory,
    /// Find out whether the task's path exists.
    Probe,
    /// Send one GET request to the task's URL.
    Get,
    /// Write the whole response body to the task's path.
    Write,
    /// Nothing more to do for the task: its outcome is final.
    Report,
}

/// The state that follows `state` on `event`.
///
/// An ended task stays as it ended. A failure of the pending work ends the
/// task as failed with the reported reason. Otherwise the task moves on only
/// on the event that answers the work it waits on: an existing target ends it
/// as skipped, an absent one leads to the request, a 2xx status leads to the
/// write and any other status ends it as failed, a finished write ends it as
/// downloaded. Any other event ends the task as failed.
pub open spec fn step_spec(state: FetchStateView, event: FetchEventView) -> FetchStateView {
    match (state, event) {
        (FetchStateView::Settled(outcome), _) => FetchStateView::Settled(outcome),
        (_, FetchEventView::Failed(reason)) => FetchStateView::Settled(
            FetchOutcomeView::Failed(reason),
        ),
        (FetchStateView::Planned, FetchEventView::DirectoryReady) => FetchStateView::Probing,
        (FetchStateView::Probing, FetchEventView::Probed(exists)) => if exists {
            FetchStateView::Settled(FetchOutcomeView::Skipped)
        } else {
            FetchStateView::Requesting
        },
        (FetchStateView::Requesting, FetchEventView::Responded(code)) => if 200 <= code < 300 {
            FetchStateView::Writing
        } else {
            FetchStateView::Settled(
                FetchOutcomeView::Failed(HTTP_ERROR_PREFIX@ + status_text_of(code)),
            )
        },
        (FetchStateView::Writing, FetchEventView::Written) => FetchStateView::Settled(
            FetchOutcomeView::Downloaded,
        ),
        _ => FetchStateView::Settled(FetchOutcomeView::Failed(UNEXPECTED_EVENT@)),
    }
}

/// The work that a task in `state` waits on.
pub open spec fn pending_spec(state: FetchStateView) -> FetchAction {
    match state {
        FetchStateView::Planned => FetchAction::EnsureDirectory,
        FetchStateView::Probing => FetchAction::Probe,
        FetchStateView::Requesting => FetchAction::Get,
        FetchStateView::Writing => FetchAction::Write,
        FetchStateView::Settled(_) => FetchAction::Report,
    }
}

/// How far a task has come: each step of a task that has not ended takes it
/// further.
pub open spec fn progress_rank(state: FetchStateView) -> nat {
    match state {
        FetchStateView::Planned => 0,
        FetchStateView::Probing => 1,
        FetchStateView::Requesting => 2,
        FetchStateView::Writing => 3,
        FetchStateView::Settled(_) => 4,
    }
}

/// The state of a task that started as planned and has seen `events`, oldest
/// first.
pub open spec fn run_spec(events: Seq<FetchEventView>) -> FetchStateView
    decreases events.len(),
{
    if events.len() == 0 {
        FetchStateView::Planned
    } else {
        step_spec(run_spec(events.drop_last()), events.last())
    }
}

fn failed_unexpected() -> (state: FetchState)
    ensures
        state@ == FetchStateView::Settled(FetchOutcomeView::Failed(UNEXPECTED_EVENT@)),
{
    FetchState::Settled(FetchOutcome::Failed(UNEXPECTED_EVENT.to_owned()))
}

/// Takes a task from `state` to the state that follows on `event`.
pub fn step(state: &FetchState, event: FetchEvent) -> (next: FetchState)
    ensures
        next@ == step_spec(state@, event@),
{
    match state {
        FetchState::Settled(outcome) => FetchState::Settled(outcome.clone()),
        FetchState::Planned => match event {
            FetchEvent::Failed(reason) => FetchState::Settled(FetchOutcome::Failed(reason)),
            FetchEvent::DirectoryReady => FetchState::Probing,
            _ => failed_unexpected(),
        },
        FetchState::Probing => match event {
            FetchEvent::Failed(reason) => FetchState::Settled(FetchOutcome::Failed(reason)),
            FetchEvent::Probed(exists) => if exists {
                FetchState::Settled(FetchOutcome::Skipped)
            } else {
                FetchState::Requesting
            },
            _ => failed_unexpected(),
        },
        FetchState::Requesting => match event {
            FetchEvent::Failed(reason) => FetchState::Settled(FetchOutcome::Failed(reason)),
            FetchEvent::Responded(status) => if status.is_success() {
                FetchState::Writing
            } else {
                let mut reason = HTTP_ERROR_PREFIX.to_owned();
                let text = status.describe();
                reason.append(text.as_str());
                FetchState::Settled(FetchOutcome::Failed(reason))
            },
            _ => failed_unexpected(),
        },
        FetchState::Writing => match event {
            FetchEvent::Failed(reason) => FetchState::Settled(FetchOutcome::Failed(reason)),
            FetchEvent::Written => FetchState::Settled(FetchOutcome::Downloaded),
            _ => failed_unexpected(),
        },
    }
}

/// The work that a task in `state` waits on.
pub fn pending_action(state: &FetchState) -> (action: FetchAction)
    ensures
        action == pending_spec(state@),
{
    match state {
        FetchState::Planned => FetchAction::EnsureDirectory,
        FetchState::Probing => FetchAction::Probe,
        FetchState::Requesting => FetchAction::Get,
        FetchState::Writing => FetchAction::Write,
        FetchState::Settled(_) => FetchAction::Report,
    }
}

/// Every step of a task that has not ended takes it further, and an ended
/// task stays as it ended: no task goes back or tries again.
pub proof fn lemma_step_advances(state: FetchStateView, event: FetchEventView)
    ensures
        state is Settled ==> step_spec(state, event) == state,
        !(state is Settled) ==> progress_rank(step_spec(state, event)) > progress_rank(state),
{
}

/// A request is waited on only right after a probe that found the target
/// absent.
pub proof fn lemma_request_follows_absent_probe(state: FetchStateView, event: FetchEventView)
    requires
        step_spec(state, event) is Requesting,
    ensures
        state is Probing,
        event == FetchEventView::Probed(false),
{
}

/// A write is waited on only right after a response with a 2xx status.
pub proof fn lemma_write_follows_success(state: FetchStateView, event: FetchEventView)
    requires
        step_spec(state, event) is Writing,
    ensures
        state is Requesting,
        event matches FetchEventView::Responded(code) && 200 <= code < 300,
{
}

/// What a task has seen is never undone: its state after more events is at
/// least as far as after fewer, and further unless it had ended.
pub proof fn lemma_run_advances(events: Seq<FetchEventView>, earlier: int, later: int)
    requires
        0 <= earlier < later <= events.len(),
    ensures
        progress_rank(run_spec(events.take(earlier))) <= progress_rank(
            run_spec(events.take(later)),
        ),
        run_spec(events.take(earlier)) is Settled ==> run_spec(events.take(later)) == run_spec(
            events.take(earlier),
        ),
        !(run_spec(events.take(earlier)) is Settled) ==> progress_rank(
            run_spec(events.take(earlier)),
        ) < progress_rank(run_spec(events.take(later))),
    decreases later - earlier,
{
    let before = events.take(later - 1);
    assert(events.take(later).drop_last() =~= before);
    lemma_step_advances(run_spec(before), events.take(later).last());
    if earlier < later - 1 {
        lemma_run_advances(events, earlier, later - 1);
    }
}

/// One attempt per task: a task waits on a request at most once.
pub proof fn lemma_at_most_one_request(events: Seq<FetchEventView>, earlier: int, later: int)
    requires
        0 <= earlier < later <= events.len(),
        run_spec(events.take(earlier)) is Requesting,
    ensures
        !(run_spec(events.take(later)) is Requesting),
{
    lemma_run_advances(events, earlier, later);
}

/// A task whose target exists already ends as skipped and never waits on a
/// request, whatever is reported to it afterwards.
pub proof fn lemma_existing_target_is_skipped(events: Seq<FetchEventView>, upto: int)
    requires
        2 <= events.len(),
        events[0] == FetchEventView::DirectoryReady,
        events[1] == FetchEventView::Probed(true),
        0 <= upto <= events.len(),
    ensures
        !(run_spec(events.take(upto)) is Requesting),
        !(run_spec(events.take(upto)) is Writing),
        upto >= 2 ==> run_spec(events.take(upto)) == FetchStateView::Settled(
            FetchOutcomeView::Skipped,
        ),
{
    let none = events.take(0);
    let one = events.take(1);
    let two = events.take(2);
    assert(one.drop_last() =~= none);
    assert(two.drop_last() =~= one);
    assert(run_spec(none) == FetchStateView::Planned);
    assert(run_spec(one) == FetchStateView::Probing);
    assert(run_spec(two) == FetchStateView::Settled(FetchOutcomeView::Skipped));
    if upto > 2 {
        lemma_run_advances(events, 2, upto);
    } else if upto == 1 {
        assert(events.take(upto) == one);
    } else if upto == 0 {
        assert(events.take(upto) == none);
    }
}

} // verus!
