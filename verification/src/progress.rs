//! How far an event has been worked off.

use vstd::prelude::*;

use crate::state::PendingMessage;
#[allow(unused_imports)]
use crate::state::{messages_view, PendingMessageView};
use crate::storage::StorageAction;
#[allow(unused_imports)]
use crate::storage::StorageActionView;
use crate::time::Timestamp;
use crate::tokens::TokenTotals;

verus! {

/// What is left to do for an event once the storage has done what it was asked
/// for.
#[derive(Debug)]
pub enum FollowUp {
    /// Nothing.
    Nothing,
    /// Hand over what was pending for a session that is now known: the title,
    /// the summary and the messages.
    ReleaseTitle { session_id: String, at: Timestamp },
    /// Hand over the pending summary and messages.
    ReleaseSummary { session_id: String, at: Timestamp },
    /// Hand over the pending messages.
    ReleaseMessages { session_id: String, at: Timestamp },
    /// A pending message has been recorded; these remain.
    NextMessage {
        session_id: String,
        at: Timestamp,
        remaining: Vec<PendingMessage>,
        latest_id: Option<i64>,
    },
    /// Record the user message that the title was made of.
    RecordMessage {
        session_id: String,
        timestamp: Option<Timestamp>,
        snippet: String,
        seq: u64,
    },
    /// Remember the user message that has been recorded.
    RememberMessage { timestamp: Option<Timestamp>, snippet: String },
    /// Keep a note for the next turn.
    TakeNote { note: String },
    /// Count the tokens of the turn as recorded.
    CommitTurn { totals: TokenTotals },
}

/// What a [`FollowUp`] holds.
#[verifier::ext_equal]
pub enum FollowUpView {
    Nothing,
    ReleaseTitle { session_id: Seq<char>, at: Timestamp },
    ReleaseSummary { session_id: Seq<char>, at: Timestamp },
    ReleaseMessages { session_id: Seq<char>, at: Timestamp },
    NextMessage {
        session_id: Seq<char>,
        at: Timestamp,
        remaining: Seq<PendingMessageView>,
        latest_id: Option<i64>,
    },
    RecordMessage {
        session_id: Seq<char>,
        timestamp: Option<Timestamp>,
        snippet: Seq<char>,
        seq: u64,
    },
    RememberMessage { timestamp: Option<Timestamp>, snippet: Seq<char> },
    TakeNote { note: Seq<char> },
    CommitTurn { totals: TokenTotals },
}

impl View for FollowUp {
    type V = FollowUpView;

    open spec fn view(&self) -> FollowUpView {
        match self {
            FollowUp::Nothing => FollowUpView::Nothing,
            FollowUp::ReleaseTitle { session_id, at } => FollowUpView::ReleaseTitle {
                session_id: session_id@,
                at: *at,
            },
            FollowUp::ReleaseSummary { session_id, at } => FollowUpView::ReleaseSummary {
                session_id: session_id@,
                at: *at,
            },
            FollowUp::ReleaseMessages { session_id, at } => FollowUpView::ReleaseMessages {
                session_id: session_id@,
                at: *at,
            },
            FollowUp::NextMessage { session_id, at, remaining, latest_id } => {
                FollowUpView::NextMessage {
                    session_id: session_id@,
                    at: *at,
                    remaining: messages_view(remaining@),
                    latest_id: *latest_id,
                }
            },
            FollowUp::RecordMessage { session_id, timestamp, snippet, seq } => {
                FollowUpView::RecordMessage {
                    session_id: session_id@,
                    timestamp: *timestamp,
                    snippet: snippet@,
                    seq: *seq,
                }
            },
            FollowUp::RememberMessage { timestamp, snippet } => FollowUpView::RememberMessage {
                timestamp: *timestamp,
                snippet: snippet@,
            },
            FollowUp::TakeNote { note } => FollowUpView::TakeNote { note: note@ },
            FollowUp::CommitTurn { totals } => FollowUpView::CommitTurn { totals: *totals },
        }
    }
}

/// How far an event has been worked off.
#[derive(Debug)]
pub enum Progress {
    /// All is done.
    Done,
    /// An action failed, and the rest was given up.
    Failed,
    /// The storage is to do something, and then the follow-up is due.
    Perform { action: StorageAction, follow_up: FollowUp },
}

/// What a [`Progress`] holds.
#[verifier::ext_equal]
pub enum ProgressView {
    Done,
    Failed,
    Perform { action: StorageActionView, follow_up: FollowUpView },
}

impl View for Progress {
    type V = ProgressView;

    open spec fn view(&self) -> ProgressView {
        match self {
            Progress::Done => ProgressView::Done,
            Progress::Failed => ProgressView::Failed,
            Progress::Perform { action, follow_up } => ProgressView::Perform {
                action: action@,
                follow_up: follow_up@,
            },
        }
    }
}

} // verus!
