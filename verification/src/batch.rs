//! Working off the lines of a log.

use vstd::prelude::*;

use crate::ingest::{process_line, resume};
#[allow(unused_imports)]
use crate::ingest::{line_effect, resume_effect};
#[allow(unused_imports)]
use crate::lines::texts;
use crate::progress::{FollowUp, Progress};
#[allow(unused_imports)]
use crate::progress::{FollowUpView, ProgressView};
use crate::state::FileState;
#[allow(unused_imports)]
use crate::state::FileStateView;
use crate::storage::{StorageAction, StorageReply};
#[allow(unused_imports)]
use crate::storage::StorageActionView;
use crate::time::Timestamp;

verus! {

/// How far the lines of a log have been worked off.
#[derive(Debug)]
pub enum BatchProgress {
    /// All lines are done.
    Finished,
    /// The storage is to do something. Then the follow-up is due, and after it
    /// the lines from `next_line` on.
    Perform { action: StorageAction, follow_up: FollowUp, next_line: usize },
}

/// What a [`BatchProgress`] holds.
#[verifier::ext_equal]
pub enum BatchProgressView {
    Finished,
    Perform { action: StorageActionView, follow_up: FollowUpView, next_line: int },
}

impl View for BatchProgress {
    type V = BatchProgressView;

    open spec fn view(&self) -> BatchProgressView {
        match self {
            BatchProgress::Finished => BatchProgressView::Finished,
            BatchProgress::Perform { action, follow_up, next_line } => BatchProgressView::Perform {
                action: action@,
                follow_up: follow_up@,
                next_line: *next_line as int,
            },
        }
    }
}

/// What the lines from `from` on do, up to the first action. A line whose
/// event fails does not keep the next line from being handled.
pub open spec fn lines_effect(state: FileStateView, lines: Seq<Seq<char>>, from: int) -> (
    FileStateView,
    BatchProgressView,
)
    decreases lines.len() - from,
{
    if from < 0 || from >= lines.len() {
        (state, BatchProgressView::Finished)
    } else {
        match line_effect(state, lines[from]) {
            (next, ProgressView::Perform { action, follow_up }) => (
                next,
                BatchProgressView::Perform { action, follow_up, next_line: from + 1 },
            ),
            (next, _) => lines_effect(next, lines, from + 1),
        }
    }
}

/// What follows the answer of the storage while lines are worked off: the rest
/// of the event, and then the lines from `next_line` on.
pub open spec fn resume_lines_effect(
    state: FileStateView,
    lines: Seq<Seq<char>>,
    next_line: int,
    follow_up: FollowUpView,
    reply: StorageReply,
    now: Timestamp,
) -> (FileStateView, BatchProgressView) {
    match resume_effect(state, follow_up, reply, now) {
        (next, ProgressView::Perform { action, follow_up }) => (
            next,
            BatchProgressView::Perform { action, follow_up, next_line },
        ),
        (next, _) => lines_effect(next, lines, next_line),
    }
}

/// Handles the lines from `from` on, up to the first action.
pub fn process_lines(state: &mut FileState, lines: &Vec<String>, from: usize) -> (progress:
    BatchProgress)
    ensures
        (final(state)@, progress@) == lines_effect(old(state)@, texts(lines@), from as int),
{
    let ghost all = texts(lines@);
    let mut at: usize = from;
    while at < lines.len()
        invariant
            all == texts(lines@),
            lines_effect(old(state)@, all, from as int) == lines_effect(state@, all, at as int),
        decreases lines.len() - at,
    {
        assert(all[at as int] == lines@[at as int]@);
        let progress: Progress = process_line(state, lines[at].as_str());
        at = at + 1;
        if let Progress::Perform { action, follow_up } = progress {
            return BatchProgress::Perform { action, follow_up, next_line: at };
        }
    }
    BatchProgress::Finished
}

/// Goes on with the lines after the storage has answered at the time `now`.
pub fn resume_lines(
    state: &mut FileState,
    lines: &Vec<String>,
    next_line: usize,
    follow_up: FollowUp,
    reply: StorageReply,
    now: Timestamp,
) -> (progress: BatchProgress)
    ensures
        (final(state)@, progress@) == resume_lines_effect(
            old(state)@,
            texts(lines@),
            next_line as int,
            follow_up@,
            reply,
            now,
        ),
{
    let progress: Progress = resume(state, follow_up, reply, now);
    if let Progress::Perform { action, follow_up } = progress {
        return BatchProgress::Perform { action, follow_up, next_line };
    }
    process_lines(state, lines, next_line)
}

} // verus!
