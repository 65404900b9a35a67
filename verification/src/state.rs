//! What is known of one session log between two scans.

use vstd::prelude::*;

use crate::path::{copy_path, LogPath};
#[allow(unused_imports)]
use crate::path::LogPathView;
use crate::text::{copy_text, opt_text};
use crate::time::Timestamp;
use crate::tokens::TokenTotals;

verus! {

/// A user message that waits until its session is known.
#[derive(Clone, Debug)]
pub struct PendingMessage {
    pub timestamp: Option<Timestamp>,
    pub snippet: String,
    pub seq: u64,
}

/// What a [`PendingMessage`] holds.
pub struct PendingMessageView {
    pub timestamp: Option<Timestamp>,
    pub snippet: Seq<char>,
    pub seq: u64,
}

impl View for PendingMessage {
    type V = PendingMessageView;

    open spec fn view(&self) -> PendingMessageView {
        PendingMessageView {
            timestamp: self.timestamp,
            snippet: self.snippet@,
            seq: self.seq,
        }
    }
}

/// What a list of pending messages holds.
pub open spec fn messages_view(messages: Seq<PendingMessage>) -> Seq<PendingMessageView> {
    messages.map_values(|m: PendingMessage| m@)
}

/// The user message that was handled last.
#[derive(Clone, Debug)]
pub struct LastUserMessage {
    pub timestamp: Option<Timestamp>,
    pub snippet: String,
}

/// What a [`LastUserMessage`] holds.
pub struct LastUserMessageView {
    pub timestamp: Option<Timestamp>,
    pub snippet: Seq<char>,
}

impl View for LastUserMessage {
    type V = LastUserMessageView;

    open spec fn view(&self) -> LastUserMessageView {
        LastUserMessageView { timestamp: self.timestamp, snippet: self.snippet@ }
    }
}

/// What is known of one session log: how far it has been read, the totals it
/// reported, and what waits for a later event.
#[derive(Debug)]
pub struct FileState {
    pub session_id: Option<String>,
    pub last_offset: u64,
    /// The totals that were reported last.
    pub last_seen: TokenTotals,
    /// The totals up to which turns have been recorded.
    pub last_committed: TokenTotals,
    pub current_model: Option<String>,
    pub current_effort: Option<String>,
    pub current_message_id: Option<i64>,
    pub current_message_seq: u64,
    pub pending_note: Option<String>,
    /// The number of notes so far.
    pub pending_note_seq: u64,
    /// The number of notes when the last turn was recorded.
    pub used_note_seq: u64,
    pub pending_title: Option<String>,
    pub pending_summary: Option<String>,
    pub pending_messages: Vec<PendingMessage>,
    pub last_user_message: Option<LastUserMessage>,
}

/// What a [`FileState`] holds.
#[verifier::ext_equal]
pub struct FileStateView {
    pub session_id: Option<Seq<char>>,
    pub last_offset: u64,
    pub last_seen: TokenTotals,
    pub last_committed: TokenTotals,
    pub current_model: Option<Seq<char>>,
    pub current_effort: Option<Seq<char>>,
    pub current_message_id: Option<i64>,
    pub current_message_seq: u64,
    pub pending_note: Option<Seq<char>>,
    pub pending_note_seq: u64,
    pub used_note_seq: u64,
    pub pending_title: Option<Seq<char>>,
    pub pending_summary: Option<Seq<char>>,
    pub pending_messages: Seq<PendingMessageView>,
    pub last_user_message: Option<LastUserMessageView>,
}

impl View for FileState {
    type V = FileStateView;

    open spec fn view(&self) -> FileStateView {
        FileStateView {
            session_id: opt_text(self.session_id),
            last_offset: self.last_offset,
            last_seen: self.last_seen,
            last_committed: self.last_committed,
            current_model: opt_text(self.current_model),
            current_effort: opt_text(self.current_effort),
            current_message_id: self.current_message_id,
            current_message_seq: self.current_message_seq,
            pending_note: opt_text(self.pending_note),
            pending_note_seq: self.pending_note_seq,
            used_note_seq: self.used_note_seq,
            pending_title: opt_text(self.pending_title),
            pending_summary: opt_text(self.pending_summary),
            pending_messages: messages_view(self.pending_messages@),
            last_user_message: match self.last_user_message {
                Some(last) => Some(last@),
                None => None,
            },
        }
    }
}

/// The part of a [`FileState`] that is kept in storage, under the path of its
/// log.
#[derive(Clone, Debug)]
pub struct IngestStateRow {
    pub path: LogPath,
    pub session_id: Option<String>,
    pub last_offset: u64,
    pub last_seen_input_tokens: u64,
    pub last_seen_cached_input_tokens: u64,
    pub last_seen_output_tokens: u64,
    pub last_seen_reasoning_output_tokens: u64,
    pub last_seen_total_tokens: u64,
    pub last_committed_input_tokens: u64,
    pub last_committed_cached_input_tokens: u64,
    pub last_committed_output_tokens: u64,
    pub last_committed_reasoning_output_tokens: u64,
    pub last_committed_total_tokens: u64,
    pub current_message_id: Option<i64>,
    pub current_message_seq: u64,
    pub current_model: Option<String>,
    pub current_effort: Option<String>,
}

/// What an [`IngestStateRow`] holds.
#[verifier::ext_equal]
pub struct IngestStateRowView {
    pub path: LogPathView,
    pub session_id: Option<Seq<char>>,
    pub last_offset: u64,
    pub last_seen: TokenTotals,
    pub last_committed: TokenTotals,
    pub current_message_id: Option<i64>,
    pub current_message_seq: u64,
    pub current_model: Option<Seq<char>>,
    pub current_effort: Option<Seq<char>>,
}

impl View for IngestStateRow {
    type V = IngestStateRowView;

    open spec fn view(&self) -> IngestStateRowView {
        IngestStateRowView {
            path: self.path@,
            session_id: opt_text(self.session_id),
            last_offset: self.last_offset,
            last_seen: TokenTotals {
                input_tokens: self.last_seen_input_tokens,
                cached_input_tokens: self.last_seen_cached_input_tokens,
                output_tokens: self.last_seen_output_tokens,
                reasoning_output_tokens: self.last_seen_reasoning_output_tokens,
                total_tokens: self.last_seen_total_tokens,
            },
            last_committed: TokenTotals {
                input_tokens: self.last_committed_input_tokens,
                cached_input_tokens: self.last_committed_cached_input_tokens,
                output_tokens: self.last_committed_output_tokens,
                reasoning_output_tokens: self.last_committed_reasoning_output_tokens,
                total_tokens: self.last_committed_total_tokens,
            },
            current_message_id: self.current_message_id,
            current_message_seq: self.current_message_seq,
            current_model: opt_text(self.current_model),
            current_effort: opt_text(self.current_effort),
        }
    }
}

impl FileStateView {
    /// A log that has not been read yet.
    pub open spec fn fresh() -> FileStateView {
        FileStateView {
            session_id: None,
            last_offset: 0,
            last_seen: crate::tokens::no_tokens(),
            last_committed: crate::tokens::no_tokens(),
            current_model: None,
            current_effort: None,
            current_message_id: None,
            current_message_seq: 0,
            pending_note: None,
            pending_note_seq: 0,
            used_note_seq: 0,
            pending_title: None,
            pending_summary: None,
            pending_messages: seq![],
            last_user_message: None,
        }
    }

    /// The state that a stored row describes. Nothing is pending in it.
    pub open spec fn restored(row: IngestStateRowView) -> FileStateView {
        FileStateView {
            session_id: row.session_id,
            last_offset: row.last_offset,
            last_seen: row.last_seen,
            last_committed: row.last_committed,
            current_model: row.current_model,
            current_effort: row.current_effort,
            current_message_id: row.current_message_id,
            current_message_seq: row.current_message_seq,
            ..FileStateView::fresh()
        }
    }

    /// The row that keeps this state under `path`.
    pub open spec fn row(self, path: LogPathView) -> IngestStateRowView {
        IngestStateRowView {
            path,
            session_id: self.session_id,
            last_offset: self.last_offset,
            last_seen: self.last_seen,
            last_committed: self.last_committed,
            current_message_id: self.current_message_id,
            current_message_seq: self.current_message_seq,
            current_model: self.current_model,
            current_effort: self.current_effort,
        }
    }

    /// The state once the log turned out to be shorter than it was, so that it
    /// is read from its start again. The session, the reasoning effort and a
    /// pending title or summary stay.
    pub open spec fn rewound(self) -> FileStateView {
        FileStateView {
            session_id: self.session_id,
            current_effort: self.current_effort,
            pending_title: self.pending_title,
            pending_summary: self.pending_summary,
            ..FileStateView::fresh()
        }
    }

    /// The state once the log is known to be `len` bytes long.
    pub open spec fn at_length(self, len: u64) -> FileStateView {
        if len < self.last_offset {
            self.rewound()
        } else {
            self
        }
    }
}

impl FileState {
    /// The state of a log that has not been read yet.
    pub fn new() -> (state: FileState)
        ensures
            state@ == FileStateView::fresh(),
    {
        let state = FileState {
            session_id: None,
            last_offset: 0,
            last_seen: TokenTotals::default(),
            last_committed: TokenTotals::default(),
            current_model: None,
            current_effort: None,
            current_message_id: None,
            current_message_seq: 0,
            pending_note: None,
            pending_note_seq: 0,
            used_note_seq: 0,
            pending_title: None,
            pending_summary: None,
            pending_messages: Vec::new(),
            last_user_message: None,
        };
        assert(state@ =~= FileStateView::fresh());
        state
    }

    /// The state that a stored row describes.
    pub fn from_state(row: &IngestStateRow) -> (state: FileState)
        ensures
            state@ == FileStateView::restored(row@),
            state.last_offset == row.last_offset,
            state.last_seen.input_tokens == row.last_seen_input_tokens,
            state.last_seen.cached_input_tokens == row.last_seen_cached_input_tokens,
            state.last_seen.output_tokens == row.last_seen_output_tokens,
            state.last_seen.reasoning_output_tokens == row.last_seen_reasoning_output_tokens,
            state.last_seen.total_tokens == row.last_seen_total_tokens,
            state.last_committed.input_tokens == row.last_committed_input_tokens,
            state.last_committed.cached_input_tokens == row.last_committed_cached_input_tokens,
            state.last_committed.output_tokens == row.last_committed_output_tokens,
            state.last_committed.reasoning_output_tokens
                == row.last_committed_reasoning_output_tokens,
            state.last_committed.total_tokens == row.last_committed_total_tokens,
            state.current_message_id == row.current_message_id,
            state.current_message_seq == row.current_message_seq,
    {
        let state = FileState {
            session_id: copy_text(&row.session_id),
            last_offset: row.last_offset,
            last_seen: TokenTotals {
                input_tokens: row.last_seen_input_tokens,
                cached_input_tokens: row.last_seen_cached_input_tokens,
                output_tokens: row.last_seen_output_tokens,
                reasoning_output_tokens: row.last_seen_reasoning_output_tokens,
                total_tokens: row.last_seen_total_tokens,
            },
            last_committed: TokenTotals {
                input_tokens: row.last_committed_input_tokens,
                cached_input_tokens: row.last_committed_cached_input_tokens,
                output_tokens: row.last_committed_output_tokens,
                reasoning_output_tokens: row.last_committed_reasoning_output_tokens,
                total_tokens: row.last_committed_total_tokens,
            },
            current_model: copy_text(&row.current_model),
            current_effort: copy_text(&row.current_effort),
            current_message_id: row.current_message_id,
            current_message_seq: row.current_message_seq,
            pending_note: None,
            pending_note_seq: 0,
            used_note_seq: 0,
            pending_title: None,
            pending_summary: None,
            pending_messages: Vec::new(),
            last_user_message: None,
        };
        assert(state@ =~= FileStateView::restored(row@));
        state
    }

    /// The row that keeps this state under `path`.
    pub fn to_state_row(&self, path: &LogPath) -> (row: IngestStateRow)
        ensures
            row@ == self@.row(path@),
            row.last_offset == self.last_offset,
            row.last_seen_input_tokens == self.last_seen.input_tokens,
            row.last_seen_cached_input_tokens == self.last_seen.cached_input_tokens,
            row.last_seen_output_tokens == self.last_seen.output_tokens,
            row.last_seen_reasoning_output_tokens == self.last_seen.reasoning_output_tokens,
            row.last_seen_total_tokens == self.last_seen.total_tokens,
            row.last_committed_input_tokens == self.last_committed.input_tokens,
            row.last_committed_cached_input_tokens == self.last_committed.cached_input_tokens,
            row.last_committed_output_tokens == self.last_committed.output_tokens,
            row.last_committed_reasoning_output_tokens
                == self.last_committed.reasoning_output_tokens,
            row.last_committed_total_tokens == self.last_committed.total_tokens,
            row.current_message_id == self.current_message_id,
            row.current_message_seq == self.current_message_seq,
    {
        IngestStateRow {
            path: copy_path(path),
            session_id: copy_text(&self.session_id),
            last_offset: self.last_offset,
            last_seen_input_tokens: self.last_seen.input_tokens,
            last_seen_cached_input_tokens: self.last_seen.cached_input_tokens,
            last_seen_output_tokens: self.last_seen.output_tokens,
            last_seen_reasoning_output_tokens: self.last_seen.reasoning_output_tokens,
            last_seen_total_tokens: self.last_seen.total_tokens,
            last_committed_input_tokens: self.last_committed.input_tokens,
            last_committed_cached_input_tokens: self.last_committed.cached_input_tokens,
            last_committed_output_tokens: self.last_committed.output_tokens,
            last_committed_reasoning_output_tokens: self.last_committed.reasoning_output_tokens,
            last_committed_total_tokens: self.last_committed.total_tokens,
            current_message_id: self.current_message_id,
            current_message_seq: self.current_message_seq,
            current_model: copy_text(&self.current_model),
            current_effort: copy_text(&self.current_effort),
        }
    }

    /// Takes note that the log is `len` bytes long: a log that became shorter
    /// is read from its start again.
    pub fn notice_length(&mut self, len: u64)
        ensures
            final(self)@ == old(self)@.at_length(len),
    {
        if len < self.last_offset {
            self.last_offset = 0;
            self.last_seen = TokenTotals::default();
            self.last_committed = TokenTotals::default();
            self.current_model = None;
            self.pending_note = None;
            self.pending_note_seq = 0;
            self.used_note_seq = 0;
            self.current_message_id = None;
            self.current_message_seq = 0;
            self.pending_messages.clear();
            self.last_user_message = None;
            assert(self@ =~= old(self)@.rewound());
        }
    }
}

/// Storing a state and restoring it gives the state back, except for what is
/// pending, which is not stored.
pub proof fn law_stored_state_comes_back(state: FileStateView, path: LogPathView)
    ensures
        FileStateView::restored(state.row(path)) == (FileStateView {
            pending_note: None,
            pending_note_seq: 0,
            used_note_seq: 0,
            pending_title: None,
            pending_summary: None,
            pending_messages: seq![],
            last_user_message: None,
            ..state
        }),
{
}

/// Restoring a row and storing the state again gives the row back.
pub proof fn law_stored_row_comes_back(row: IngestStateRowView)
    ensures
        FileStateView::restored(row).row(row.path) == row,
{
}

/// A row keeps how far its log was read, the totals, the session, the model, the
/// effort and the current message, each as it is.
pub proof fn law_rows_keep_what_is_known(state: FileStateView, path: LogPathView)
    ensures
        ({
            let row = state.row(path);
            &&& row.path == path
            &&& row.session_id == state.session_id
            &&& row.last_offset == state.last_offset
            &&& row.last_seen == state.last_seen
            &&& row.last_committed == state.last_committed
            &&& row.current_message_id == state.current_message_id
            &&& row.current_message_seq == state.current_message_seq
            &&& row.current_model == state.current_model
            &&& row.current_effort == state.current_effort
        }),
{
}

/// Of a log that was not read yet nothing is known: it is to be read from its
/// start, and nothing was counted, numbered or kept.
pub proof fn law_new_log_is_unknown()
    ensures
        ({
            let fresh = FileStateView::fresh();
            &&& fresh.last_offset == 0 && fresh.current_message_seq == 0
            &&& fresh.last_seen.input_tokens == 0 && fresh.last_seen.cached_input_tokens == 0
            &&& fresh.last_seen.output_tokens == 0 && fresh.last_seen.reasoning_output_tokens == 0
            &&& fresh.last_seen.total_tokens == 0 && fresh.last_committed == fresh.last_seen
            &&& fresh.pending_note_seq == 0 && fresh.used_note_seq == 0
            &&& fresh.session_id is None && fresh.current_model is None
            &&& fresh.current_effort is None && fresh.current_message_id is None
            &&& fresh.pending_note is None && fresh.pending_title is None
            &&& fresh.pending_summary is None && fresh.last_user_message is None
            &&& fresh.pending_messages.len() == 0
        }),
{
}

/// A log that became shorter is read from its start, as a new one, but for what
/// is known of its session and effort and for a title or summary that waits.
/// Any other log stays as it is.
pub proof fn law_shorter_log_starts_again(state: FileStateView, len: u64)
    ensures
        len >= state.last_offset ==> state.at_length(len) == state,
        len < state.last_offset ==> {
            let again = state.at_length(len);
            let fresh = FileStateView::fresh();
            &&& again.session_id == state.session_id
            &&& again.current_effort == state.current_effort
            &&& again.pending_title == state.pending_title
            &&& again.pending_summary == state.pending_summary
            &&& again == (FileStateView {
                session_id: again.session_id,
                current_effort: again.current_effort,
                pending_title: again.pending_title,
                pending_summary: again.pending_summary,
                ..fresh
            })
        },
{
}

} // verus!
