//! The progress reporter: a running count of completed tasks and one status
//! line per completion.

use crate::fetch::{FetchOutcome, FetchOutcomeView, FetchTask, FetchTaskView};
use crate::text::{decimal, decimal_spec};
use vstd::prelude::*;
use vstd::string::StringExecFns;

verus! {

/// The tag that a line starts with.
pub open spec fn tag_spec(outcome: FetchOutcomeView) -> Seq<char> {
    match outcome {
        FetchOutcomeView::Downloaded => "\u{2705} Downloaded "@,
        FetchOutcomeView::Skipped => "\u{23e9} Skipped "@,
        FetchOutcomeView::Failed(_) => "\u{274c} Failed "@,
    }
}

/// What a line says of the task after the counts.
pub open spec fn detail_spec(task: FetchTaskView, outcome: FetchOutcomeView) -> Seq<char> {
    match outcome {
        FetchOutcomeView::Downloaded => task.url + " \u{2192} "@ + task.path,
        FetchOutcomeView::Skipped => task.path + ", already exists"@,
        FetchOutcomeView::Failed(reason) => task.url + ": "@ + reason,
    }
}

/// The status line of a completed task: the tag of its outcome, the running
/// count `count of total`, and what happened to which URL or path.
pub open spec fn line_spec(
    task: FetchTaskView,
    outcome: FetchOutcomeView,
    count: nat,
    total: nat,
) -> Seq<char> {
    tag_spec(outcome) + decimal_spec(count) + " of "@ + decimal_spec(total) + ": "@ + detail_spec(
        task,
        outcome,
    )
}

/// Writes the status line of a completed task.
pub fn status_line(
    task: &FetchTask,
    outcome: &FetchOutcome,
    count: usize,
    total: usize,
) -> (line: String)
    ensures
        line@ == line_spec(task@, outcome@, count as nat, total as nat),
{
    let mut line = match outcome {
        FetchOutcome::Downloaded => "\u{2705} Downloaded ".to_owned(),
        FetchOutcome::Skipped => "\u{23e9} Skipped ".to_owned(),
        FetchOutcome::Failed(_) => "\u{274c} Failed ".to_owned(),
    };
    line.append(decimal(count).as_str());
    line.append(" of ");
    line.append(decimal(total).as_str());
    line.append(": ");
    let ghost head = line@;
    match outcome {
        FetchOutcome::Downloaded => {
            line.append(task.url.as_str());
            line.append(" \u{2192} ");
            line.append(task.path.as_str());
            assert(line@ =~= head + (task.url@ + " \u{2192} "@ + task.path@));
        },
        FetchOutcome::Skipped => {
            line.append(task.path.as_str());
            line.append(", already exists");
            assert(line@ =~= head + (task.path@ + ", already exists"@));
        },
        FetchOutcome::Failed(reason) => {
            line.append(task.url.as_str());
            line.append(": ");
            line.append(reason.as_str());
            assert(line@ =~= head + (task.url@ + ": "@ + reason@));
        },
    }
    line
}

/// A reporter as plain values: how many of the expected tasks have completed.
pub struct ProgressView {
    pub completed: nat,
    pub total: nat,
}

/// Counts completed tasks against the number of tasks expected. The count
/// never passes the total.
#[derive(Debug)]
pub struct ProgressReporter {
    completed: usize,
    total: usize,
}

impl View for ProgressReporter {
    type V = ProgressView;

    closed spec fn view(&self) -> ProgressView {
        ProgressView { completed: self.completed as nat, total: self.total as nat }
    }
}

impl ProgressReporter {
    #[verifier::type_invariant]
    spec fn within_total(self) -> bool {
        self.completed <= self.total
    }

    /// A reporter that expects `total` tasks and has seen none complete.
    pub fn new(total: usize) -> (reporter: ProgressReporter)
        ensures
            reporter@ == (ProgressView { completed: 0, total: total as nat }),
    {
        ProgressReporter { completed: 0, total }
    }

    /// The number of tasks that have completed.
    pub fn completed(&self) -> (count: usize)
        ensures
            count == self@.completed,
            count <= self@.total,
    {
        proof {
            use_type_invariant(self);
        }
        self.completed
    }

    /// The number of tasks expected.
    pub fn total(&self) -> (total: usize)
        ensures
            total == self@.total,
    {
        self.total
    }

    /// Whether every expected task has completed.
    pub fn is_complete(&self) -> (done: bool)
        ensures
            done == (self@.completed == self@.total),
    {
        self.completed == self.total
    }

    /// Counts one completed task and writes its status line. Once every
    /// expected task has completed, nothing is counted and no line is
    /// written.
    pub fn report(
        &mut self,
        task: &FetchTask,
        outcome: &FetchOutcome,
    ) -> (line: Option<String>)
        ensures
            final(self)@.total == old(self)@.total,
            old(self)@.completed < old(self)@.total ==> ({
                &&& final(self)@.completed == old(self)@.completed + 1
                &&& line matches Some(text)
                &&& text@ == line_spec(
                    task@,
                    outcome@,
                    final(self)@.completed,
                    final(self)@.total,
                )
            }),
            old(self)@.completed >= old(self)@.total ==> ({
                &&& final(self)@ == old(self)@
                &&& line is None
            }),
    {
        proof {
            use_type_invariant(&*self);
        }
        if self.completed < self.total {
            self.completed = self.completed + 1;
            Some(status_line(task, outcome, self.completed, self.total))
        } else {
            None
        }
    }
}

} // verus!
