//! What the storage is asked to do, and what it answers.

use vstd::prelude::*;

use crate::session::SessionMeta;
#[allow(unused_imports)]
use crate::session::SessionMetaView;
#[allow(unused_imports)]
use crate::text::opt_text;
use crate::time::Timestamp;
use crate::tokens::TokenTotals;

verus! {

/// A turn of a session, with the tokens that it used.
#[derive(Clone, Debug)]
pub struct Turn {
    pub session_id: String,
    pub at: Timestamp,
    pub model: String,
    pub note: Option<String>,
    pub context_window: Option<u64>,
    pub effort: Option<String>,
    pub usage: TokenTotals,
    pub message_id: Option<i64>,
}

/// What a [`Turn`] holds.
#[verifier::ext_equal]
pub struct TurnView {
    pub session_id: Seq<char>,
    pub at: Timestamp,
    pub model: Seq<char>,
    pub note: Option<Seq<char>>,
    pub context_window: Option<u64>,
    pub effort: Option<Seq<char>>,
    pub usage: TokenTotals,
    pub message_id: Option<i64>,
}

impl View for Turn {
    type V = TurnView;

    open spec fn view(&self) -> TurnView {
        TurnView {
            session_id: self.session_id@,
            at: self.at,
            model: self.model@,
            note: opt_text(self.note),
            context_window: self.context_window,
            effort: opt_text(self.effort),
            usage: self.usage,
            message_id: self.message_id,
        }
    }
}

/// Something that the storage is asked to do.
#[derive(Clone, Debug)]
pub enum StorageAction {
    /// Creates the session, or updates what is known of it.
    UpsertSessionMeta { meta: SessionMeta },
    /// Gives the session a title, unless it has one.
    SetSessionTitleIfEmpty { session_id: String, title: String },
    /// Replaces the summary of the session, as of a point in time.
    SetSessionSummary { session_id: String, summary: String, at: Timestamp },
    /// Replaces the summary of the session.
    SetSessionSummaryOnly { session_id: String, summary: String },
    /// Records a user message. The answer is its identifier.
    RecordUserMessage { session_id: String, at: Timestamp, snippet: String, seq: u64 },
    /// Records a turn.
    RecordTurn { turn: Turn },
    /// Records the use of a tool.
    RecordToolCall { session_id: String, at: Timestamp, tool_name: String },
}

/// What a [`StorageAction`] holds.
#[verifier::ext_equal]
pub enum StorageActionView {
    UpsertSessionMeta { meta: SessionMetaView },
    SetSessionTitleIfEmpty { session_id: Seq<char>, title: Seq<char> },
    SetSessionSummary { session_id: Seq<char>, summary: Seq<char>, at: Timestamp },
    SetSessionSummaryOnly { session_id: Seq<char>, summary: Seq<char> },
    RecordUserMessage { session_id: Seq<char>, at: Timestamp, snippet: Seq<char>, seq: u64 },
    RecordTurn { turn: TurnView },
    RecordToolCall { session_id: Seq<char>, at: Timestamp, tool_name: Seq<char> },
}

impl View for StorageAction {
    type V = StorageActionView;

    open spec fn view(&self) -> StorageActionView {
        match self {
            StorageAction::UpsertSessionMeta { meta } => StorageActionView::UpsertSessionMeta {
                meta: meta@,
            },
            StorageAction::SetSessionTitleIfEmpty { session_id, title } => {
                StorageActionView::SetSessionTitleIfEmpty {
                    session_id: session_id@,
                    title: title@,
                }
            },
            StorageAction::SetSessionSummary { session_id, summary, at } => {
                StorageActionView::SetSessionSummary {
                    session_id: session_id@,
                    summary: summary@,
                    at: *at,
                }
            },
            StorageAction::SetSessionSummaryOnly { session_id, summary } => {
                StorageActionView::SetSessionSummaryOnly {
                    session_id: session_id@,
                    summary: summary@,
                }
            },
            StorageAction::RecordUserMessage { session_id, at, snippet, seq } => {
                StorageActionView::RecordUserMessage {
                    session_id: session_id@,
                    at: *at,
                    snippet: snippet@,
                    seq: *seq,
                }
            },
            StorageAction::RecordTurn { turn } => StorageActionView::RecordTurn { turn: turn@ },
            StorageAction::RecordToolCall { session_id, at, tool_name } => {
                StorageActionView::RecordToolCall {
                    session_id: session_id@,
                    at: *at,
                    tool_name: tool_name@,
                }
            },
        }
    }
}

impl StorageActionView {
    /// The session that the action is about.
    pub open spec fn session(self) -> Seq<char> {
        match self {
            StorageActionView::UpsertSessionMeta { meta } => meta.session_id,
            StorageActionView::SetSessionTitleIfEmpty { session_id, .. } => session_id,
            StorageActionView::SetSessionSummary { session_id, .. } => session_id,
            StorageActionView::SetSessionSummaryOnly { session_id, .. } => session_id,
            StorageActionView::RecordUserMessage { session_id, .. } => session_id,
            StorageActionView::RecordTurn { turn } => turn.session_id,
            StorageActionView::RecordToolCall { session_id, .. } => session_id,
        }
    }
}

/// What an optional action holds.
pub open spec fn opt_action(action: Option<StorageAction>) -> Option<StorageActionView> {
    match action {
        Some(a) => Some(a@),
        None => None,
    }
}

/// The answer of the storage to an action.
#[derive(Clone, Copy, Debug, PartialEq, Eq, Structural)]
pub enum StorageReply {
    /// The action failed.
    Failed,
    /// The action succeeded. The identifier is that of a recorded user
    /// message; after any other action it means nothing.
    Done { message_id: i64 },
}

} // verus!
