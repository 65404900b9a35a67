//! User and agent messages: titles, summaries, notes, and the messages that
//! wait for their session.

use vstd::prelude::*;

#[allow(unused_imports)]
use crate::notes::summary_line;
use crate::progress::{FollowUp, Progress};
#[allow(unused_imports)]
use crate::progress::{FollowUpView, ProgressView};
use crate::snippet::{format_snippet, SUMMARY_MAX_CHARS, TITLE_MAX_CHARS};
#[allow(unused_imports)]
use crate::snippet::snippet;
use crate::state::{FileState, LastUserMessage, PendingMessage};
#[allow(unused_imports)]
use crate::state::{messages_view, FileStateView, LastUserMessageView, PendingMessageView};
use crate::storage::StorageAction;
#[allow(unused_imports)]
use crate::storage::{opt_action, StorageActionView};
use crate::text::same_text;
use crate::time::Timestamp;
#[allow(unused_imports)]
use crate::time::{elapsed_nanos, whole_seconds};

verus! {

/// The seconds within which a repeated message counts as the same message.
pub const MESSAGE_DEDUPE_WINDOW_SECS: i64 = 2;

/// `n + 1`, or the largest number.
pub open spec fn next_number(n: u64) -> u64 {
    if n == u64::MAX {
        n
    } else {
        (n + 1) as u64
    }
}

/// The identifier of a recorded message, which is positive.
pub open spec fn valid_id(message_id: i64) -> Option<i64> {
    if message_id > 0 {
        Some(message_id)
    } else {
        None
    }
}

/// Whether a message with this rendering, at this point in time, repeats the
/// one handled last: they read alike, and were not seen to be more than the
/// window apart.
pub open spec fn is_repeat(
    state: FileStateView,
    line: Seq<char>,
    timestamp: Option<Timestamp>,
) -> bool {
    match state.last_user_message {
        Some(last) => last.snippet == line && match (last.timestamp, timestamp) {
            (Some(previous), Some(current)) => {
                let apart = whole_seconds(elapsed_nanos(current, previous));
                -MESSAGE_DEDUPE_WINDOW_SECS <= apart <= MESSAGE_DEDUPE_WINDOW_SECS
            },
            _ => true,
        },
        None => false,
    }
}

/// The state with `note` kept for the next turn.
pub open spec fn with_note(state: FileStateView, note: Seq<char>) -> FileStateView {
    FileStateView {
        pending_note: Some(note),
        pending_note_seq: next_number(state.pending_note_seq),
        ..state
    }
}

/// The state with a title that waits for its session, and the action that sets
/// the title where the session is known.
pub open spec fn title_effect(state: FileStateView, title: Seq<char>) -> (
    FileStateView,
    Option<StorageActionView>,
) {
    match state.session_id {
        Some(session_id) => (
            state,
            Some(StorageActionView::SetSessionTitleIfEmpty { session_id, title }),
        ),
        None => (FileStateView { pending_title: Some(title), ..state }, None),
    }
}

/// The state with a summary that waits for its session, and the action that
/// sets the summary where the session is known.
pub open spec fn summary_effect(
    state: FileStateView,
    summary: Seq<char>,
    timestamp: Option<Timestamp>,
) -> (FileStateView, Option<StorageActionView>) {
    match state.session_id {
        Some(session_id) => (
            state,
            Some(
                match timestamp {
                    Some(at) => StorageActionView::SetSessionSummary { session_id, summary, at },
                    None => StorageActionView::SetSessionSummaryOnly { session_id, summary },
                },
            ),
        ),
        None => (FileStateView { pending_summary: Some(summary), ..state }, None),
    }
}

/// What a user message does. Blank messages, injected context and repeats do
/// nothing. Any other message is numbered and becomes the title of a session
/// that has none; it is recorded, or waits for its session.
pub open spec fn user_message_effect(
    state: FileStateView,
    message: Seq<char>,
    timestamp: Option<Timestamp>,
) -> (FileStateView, ProgressView) {
    match snippet(message, TITLE_MAX_CHARS as nat) {
        Some(line) => if is_repeat(state, line, timestamp) {
            (state, ProgressView::Done)
        } else {
            let seq = next_number(state.current_message_seq);
            let numbered = FileStateView { current_message_seq: seq, ..state };
            match title_effect(numbered, line) {
                (titled, Some(action)) => (
                    titled,
                    ProgressView::Perform {
                        action,
                        follow_up: FollowUpView::RecordMessage {
                            session_id: state.session_id->0,
                            timestamp,
                            snippet: line,
                            seq,
                        },
                    },
                ),
                (titled, None) => (
                    FileStateView {
                        pending_messages: titled.pending_messages.push(
                            PendingMessageView { timestamp, snippet: line, seq },
                        ),
                        current_message_id: None,
                        last_user_message: Some(LastUserMessageView { timestamp, snippet: line }),
                        ..titled
                    },
                    ProgressView::Done,
                ),
            }
        },
        None => (state, ProgressView::Done),
    }
}

/// What follows the title of a user message: the message is recorded, at its
/// own time or else at `now`.
pub open spec fn message_recording(
    session_id: Seq<char>,
    timestamp: Option<Timestamp>,
    snippet: Seq<char>,
    seq: u64,
    now: Timestamp,
) -> ProgressView {
    ProgressView::Perform {
        action: StorageActionView::RecordUserMessage {
            session_id,
            at: match timestamp {
                Some(at) => at,
                None => now,
            },
            snippet,
            seq,
        },
        follow_up: FollowUpView::RememberMessage { timestamp, snippet },
    }
}

/// The state once a user message has been recorded as `message_id`.
pub open spec fn remembered(
    state: FileStateView,
    timestamp: Option<Timestamp>,
    snippet: Seq<char>,
    message_id: i64,
) -> FileStateView {
    FileStateView {
        current_message_id: valid_id(message_id),
        last_user_message: Some(LastUserMessageView { timestamp, snippet }),
        ..state
    }
}

/// What a message of the agent does: it becomes the summary of the session,
/// and then a note for the next turn.
pub open spec fn agent_message_effect(
    state: FileStateView,
    message: Seq<char>,
    timestamp: Option<Timestamp>,
) -> (FileStateView, ProgressView) {
    match summary_line(message) {
        Some(line) => match summary_effect(state, line, timestamp) {
            (summed, Some(action)) => (
                summed,
                ProgressView::Perform { action, follow_up: FollowUpView::TakeNote { note: line } },
            ),
            (summed, None) => (with_note(summed, line), ProgressView::Done),
        },
        None => (state, ProgressView::Done),
    }
}

/// What hands over the first of `remaining`, recorded at its own time or else
/// at `at`. Once none remains, the message recorded last is the current one.
pub open spec fn next_message_effect(
    state: FileStateView,
    session_id: Seq<char>,
    at: Timestamp,
    remaining: Seq<PendingMessageView>,
    latest_id: Option<i64>,
) -> (FileStateView, ProgressView) {
    if remaining.len() == 0 {
        (FileStateView { current_message_id: latest_id, ..state }, ProgressView::Done)
    } else {
        (
            state,
            ProgressView::Perform {
                action: StorageActionView::RecordUserMessage {
                    session_id,
                    at: match remaining[0].timestamp {
                        Some(own) => own,
                        None => at,
                    },
                    snippet: remaining[0].snippet,
                    seq: remaining[0].seq,
                },
                follow_up: FollowUpView::NextMessage {
                    session_id,
                    at,
                    remaining: remaining.skip(1),
                    latest_id,
                },
            },
        )
    }
}

/// What hands over the pending messages.
pub open spec fn release_messages_effect(
    state: FileStateView,
    session_id: Seq<char>,
    at: Timestamp,
) -> (FileStateView, ProgressView) {
    if state.pending_messages.len() == 0 {
        (state, ProgressView::Done)
    } else {
        next_message_effect(
            FileStateView { pending_messages: seq![], ..state },
            session_id,
            at,
            state.pending_messages,
            state.current_message_id,
        )
    }
}

/// What hands over the pending summary, and then the messages.
pub open spec fn release_summary_effect(
    state: FileStateView,
    session_id: Seq<char>,
    at: Timestamp,
) -> (FileStateView, ProgressView) {
    match state.pending_summary {
        Some(summary) => (
            FileStateView { pending_summary: None, ..state },
            ProgressView::Perform {
                action: StorageActionView::SetSessionSummary { session_id, summary, at },
                follow_up: FollowUpView::ReleaseMessages { session_id, at },
            },
        ),
        None => release_messages_effect(state, session_id, at),
    }
}

/// What hands over the pending title, then the summary and the messages.
pub open spec fn release_title_effect(
    state: FileStateView,
    session_id: Seq<char>,
    at: Timestamp,
) -> (FileStateView, ProgressView) {
    match state.pending_title {
        Some(title) => (
            FileStateView { pending_title: None, ..state },
            ProgressView::Perform {
                action: StorageActionView::SetSessionTitleIfEmpty { session_id, title },
                follow_up: FollowUpView::ReleaseSummary { session_id, at },
            },
        ),
        None => release_summary_effect(state, session_id, at),
    }
}

/// Keeps `note` for the next turn.
pub fn take_note(state: &mut FileState, note: String)
    ensures
        final(state)@ == with_note(old(state)@, note@),
{
    state.pending_note = Some(note);
    state.pending_note_seq = state.pending_note_seq.saturating_add(1);
    assert(state@ =~= with_note(old(state)@, note@));
}

/// Sets the title where the session is known, or keeps it until then.
pub fn apply_title(state: &mut FileState, title: &str) -> (action: Option<StorageAction>)
    ensures
        (final(state)@, opt_action(action)) == title_effect(old(state)@, title@),
{
    match &state.session_id {
        Some(session_id) => Some(
            StorageAction::SetSessionTitleIfEmpty {
                session_id: session_id.clone(),
                title: title.to_owned(),
            },
        ),
        None => {
            state.pending_title = Some(title.to_owned());
            assert(state@ =~= title_effect(old(state)@, title@).0);
            None
        },
    }
}

/// Sets the summary where the session is known, or keeps it until then.
pub fn apply_summary(
    state: &mut FileState,
    summary: &str,
    timestamp: Option<Timestamp>,
) -> (action: Option<StorageAction>)
    ensures
        (final(state)@, opt_action(action)) == summary_effect(old(state)@, summary@, timestamp),
{
    match &state.session_id {
        Some(session_id) => match timestamp {
            Some(at) => Some(
                StorageAction::SetSessionSummary {
                    session_id: session_id.clone(),
                    summary: summary.to_owned(),
                    at,
                },
            ),
            None => Some(
                StorageAction::SetSessionSummaryOnly {
                    session_id: session_id.clone(),
                    summary: summary.to_owned(),
                },
            ),
        },
        None => {
            state.pending_summary = Some(summary.to_owned());
            assert(state@ =~= summary_effect(old(state)@, summary@, timestamp).0);
            None
        },
    }
}

/// Whether a message with this rendering, at this point in time, repeats the
/// one handled last.
pub fn should_skip_duplicate_message(
    state: &FileState,
    snippet: &str,
    timestamp: Option<Timestamp>,
) -> (skip: bool)
    ensures
        skip == is_repeat(state@, snippet@, timestamp),
{
    match &state.last_user_message {
        Some(last) => {
            if !same_text(last.snippet.as_str(), snippet) {
                return false;
            }
            match (last.timestamp, timestamp) {
                (Some(previous), Some(current)) => {
                    let apart: i64 = current.seconds_since(previous);
                    -MESSAGE_DEDUPE_WINDOW_SECS <= apart && apart <= MESSAGE_DEDUPE_WINDOW_SECS
                },
                _ => true,
            }
        },
        None => false,
    }
}

/// Handles a user message.
pub fn handle_user_message(
    state: &mut FileState,
    message: &str,
    timestamp: Option<Timestamp>,
) -> (progress: Progress)
    ensures
        (final(state)@, progress@) == user_message_effect(old(state)@, message@, timestamp),
{
    let snippet: String = match format_snippet(message, TITLE_MAX_CHARS) {
        Some(snippet) => snippet,
        None => return Progress::Done,
    };
    if should_skip_duplicate_message(state, snippet.as_str(), timestamp) {
        return Progress::Done;
    }
    state.current_message_seq = state.current_message_seq.saturating_add(1);
    let seq: u64 = state.current_message_seq;
    let ghost numbered = FileStateView { current_message_seq: seq, ..old(state)@ };
    assert(state@ =~= numbered);
    match apply_title(state, snippet.as_str()) {
        Some(action) => {
            let session_id: String = match &state.session_id {
                Some(session_id) => session_id.clone(),
                None => String::new(),
            };
            Progress::Perform {
                action,
                follow_up: FollowUp::RecordMessage { session_id, timestamp, snippet, seq },
            }
        },
        None => {
            let ghost waiting = state.pending_messages@;
            let pending = PendingMessage { timestamp, snippet: snippet.clone(), seq };
            state.pending_messages.push(pending);
            assert(messages_view(state.pending_messages@) =~= messages_view(waiting).push(
                pending@,
            ));
            state.current_message_id = None;
            state.last_user_message = Some(LastUserMessage { timestamp, snippet });
            assert(state@ =~= user_message_effect(old(state)@, message@, timestamp).0);
            Progress::Done
        },
    }
}

/// Records the user message that the title was made of.
pub fn record_message(
    session_id: String,
    timestamp: Option<Timestamp>,
    snippet: String,
    seq: u64,
    now: Timestamp,
) -> (progress: Progress)
    ensures
        progress@ == message_recording(session_id@, timestamp, snippet@, seq, now),
{
    let at: Timestamp = match timestamp {
        Some(at) => at,
        None => now,
    };
    Progress::Perform {
        action: StorageAction::RecordUserMessage {
            session_id,
            at,
            snippet: snippet.clone(),
            seq,
        },
        follow_up: FollowUp::RememberMessage { timestamp, snippet },
    }
}

/// Remembers the user message that has been recorded as `message_id`.
pub fn remember_message(
    state: &mut FileState,
    timestamp: Option<Timestamp>,
    snippet: String,
    message_id: i64,
)
    ensures
        final(state)@ == remembered(old(state)@, timestamp, snippet@, message_id),
{
    state.current_message_id = if message_id > 0 {
        Some(message_id)
    } else {
        None
    };
    state.last_user_message = Some(LastUserMessage { timestamp, snippet });
    assert(state@ =~= remembered(old(state)@, timestamp, snippet@, message_id));
}

/// Handles a message of the agent.
pub fn handle_agent_message(
    state: &mut FileState,
    message: &str,
    timestamp: Option<Timestamp>,
) -> (progress: Progress)
    ensures
        (final(state)@, progress@) == agent_message_effect(old(state)@, message@, timestamp),
{
    let line: String = match format_snippet(message, SUMMARY_MAX_CHARS) {
        Some(line) => line,
        None => return Progress::Done,
    };
    match apply_summary(state, line.as_str(), timestamp) {
        Some(action) => Progress::Perform { action, follow_up: FollowUp::TakeNote { note: line } },
        None => {
            take_note(state, line);
            Progress::Done
        },
    }
}

/// Hands over the first of the remaining messages.
pub fn next_message(
    state: &mut FileState,
    session_id: String,
    at: Timestamp,
    remaining: Vec<PendingMessage>,
    latest_id: Option<i64>,
) -> (progress: Progress)
    ensures
        (final(state)@, progress@) == next_message_effect(
            old(state)@,
            session_id@,
            at,
            messages_view(remaining@),
            latest_id,
        ),
{
    let mut rest: Vec<PendingMessage> = remaining;
    if rest.len() == 0 {
        state.current_message_id = latest_id;
        assert(state@ =~= FileStateView { current_message_id: latest_id, ..old(state)@ });
        return Progress::Done;
    }
    let first: PendingMessage = rest.remove(0);
    assert(messages_view(rest@) =~= messages_view(remaining@).skip(1));
    assert(messages_view(remaining@)[0] == first@);
    let own: Timestamp = match first.timestamp {
        Some(own) => own,
        None => at,
    };
    Progress::Perform {
        action: StorageAction::RecordUserMessage {
            session_id: session_id.clone(),
            at: own,
            snippet: first.snippet,
            seq: first.seq,
        },
        follow_up: FollowUp::NextMessage { session_id, at, remaining: rest, latest_id },
    }
}

/// Hands over the pending messages.
pub fn flush_pending_messages(
    state: &mut FileState,
    session_id: String,
    at: Timestamp,
) -> (progress: Progress)
    ensures
        (final(state)@, progress@) == release_messages_effect(old(state)@, session_id@, at),
{
    if state.pending_messages.len() == 0 {
        return Progress::Done;
    }
    let mut pending: Vec<PendingMessage> = Vec::new();
    std::mem::swap(&mut pending, &mut state.pending_messages);
    assert(state@ =~= FileStateView { pending_messages: seq![], ..old(state)@ });
    let latest_id: Option<i64> = state.current_message_id;
    next_message(state, session_id, at, pending, latest_id)
}

/// Hands over the pending summary, and then the messages.
pub fn release_summary(
    state: &mut FileState,
    session_id: String,
    at: Timestamp,
) -> (progress: Progress)
    ensures
        (final(state)@, progress@) == release_summary_effect(old(state)@, session_id@, at),
{
    match state.pending_summary.take() {
        Some(summary) => {
            assert(state@ =~= FileStateView { pending_summary: None, ..old(state)@ });
            Progress::Perform {
                action: StorageAction::SetSessionSummary {
                    session_id: session_id.clone(),
                    summary,
                    at,
                },
                follow_up: FollowUp::ReleaseMessages { session_id, at },
            }
        },
        None => {
            assert(state@ =~= old(state)@);
            flush_pending_messages(state, session_id, at)
        },
    }
}

/// Hands over the pending title, then the summary and the messages.
pub fn release_title(
    state: &mut FileState,
    session_id: String,
    at: Timestamp,
) -> (progress: Progress)
    ensures
        (final(state)@, progress@) == release_title_effect(old(state)@, session_id@, at),
{
    match state.pending_title.take() {
        Some(title) => {
            assert(state@ =~= FileStateView { pending_title: None, ..old(state)@ });
            Progress::Perform {
                action: StorageAction::SetSessionTitleIfEmpty {
                    session_id: session_id.clone(),
                    title,
                },
                follow_up: FollowUp::ReleaseSummary { session_id, at },
            }
        },
        None => {
            assert(state@ =~= old(state)@);
            release_summary(state, session_id, at)
        },
    }
}

} // verus!
