//! The events of a session log, and what they do.
//!
//! An event changes the state of its log and may ask the storage for actions.
//! Each call here runs up to the next action: it gives the action back together
//! with what is left to do, and [`resume`] goes on from there once the storage
//! has answered.

use vstd::prelude::*;

use crate::json::{parse_json, Json};
#[allow(unused_imports)]
use crate::json::{json_of_text, JsonView};
use crate::messages::{
    flush_pending_messages, handle_agent_message, handle_user_message, next_message, record_message,
    release_summary, release_title, remember_message, take_note,
};
#[allow(unused_imports)]
use crate::messages::{
    agent_message_effect, message_recording, next_message_effect, release_messages_effect,
    release_summary_effect, release_title_effect, remembered, user_message_effect, valid_id,
    with_note,
};
use crate::notes::{extract_message_text, reasoning_summary_note, tool_call_note, web_search_note};
#[allow(unused_imports)]
use crate::notes::{
    message_text, reasoning_note_in, summary_line_of, tool_call_note_in, web_search_note_in,
};
use crate::progress::{FollowUp, Progress};
#[allow(unused_imports)]
use crate::progress::{FollowUpView, ProgressView};
use crate::session::{parse_session_meta, read_timestamp};
#[allow(unused_imports)]
use crate::session::{meta_in, timestamp_member};
use crate::snippet::{format_reasoning_note, format_snippet, normalize_model_id, SUMMARY_MAX_CHARS};
#[allow(unused_imports)]
use crate::snippet::{model_id, reasoning_note};
use crate::state::FileState;
#[allow(unused_imports)]
use crate::state::FileStateView;
use crate::storage::{StorageAction, StorageReply};
#[allow(unused_imports)]
use crate::storage::{opt_action, StorageActionView};
use crate::text::{same_ignoring_ascii_case, same_text, trim_str};
#[allow(unused_imports)]
use crate::text::{lower, trim};
use crate::time::Timestamp;
use crate::turns::{commit_turn, handle_token_count, record_tool_event};
#[allow(unused_imports)]
use crate::turns::{token_count_effect, tool_action, turn_committed};

verus! {

/// Nothing left to do in `state`.
pub open spec fn done(state: FileStateView) -> (FileStateView, ProgressView) {
    (state, ProgressView::Done)
}

/// The progress that at most one action leaves.
pub open spec fn asked(action: Option<StorageActionView>) -> ProgressView {
    match action {
        Some(a) => ProgressView::Perform { action: a, follow_up: FollowUpView::Nothing },
        None => ProgressView::Done,
    }
}

/// The state with `note` kept for the next turn, where there is one.
pub open spec fn with_optional_note(state: FileStateView, note: Option<Seq<char>>) -> FileStateView {
    match note {
        Some(n) => with_note(state, n),
        None => state,
    }
}

/// What the description of a session does: it makes the session known, which
/// releases what was pending for it.
pub open spec fn session_meta_effect(
    state: FileStateView,
    value: JsonView,
    timestamp: Option<Timestamp>,
) -> (FileStateView, ProgressView) {
    match meta_in(value, timestamp) {
        Some(meta) => (
            FileStateView { session_id: Some(meta.session_id), ..state },
            ProgressView::Perform {
                action: StorageActionView::UpsertSessionMeta { meta },
                follow_up: FollowUpView::ReleaseTitle {
                    session_id: meta.session_id,
                    at: meta.last_event_at,
                },
            },
        ),
        None => done(state),
    }
}

/// What the context of a turn does: it sets the model, where it names one, and
/// the reasoning effort.
pub open spec fn turn_context_effect(state: FileStateView, payload: JsonView) -> FileStateView {
    FileStateView {
        current_model: match payload.text_at("model"@) {
            Some(model) => Some(model_id(model)),
            None => state.current_model,
        },
        current_effort: match payload.text_at("effort"@) {
            Some(effort) => if trim(effort).len() > 0 {
                Some(trim(effort))
            } else {
                None
            },
            None => None,
        },
        ..state
    }
}

/// What an event message does, by its type.
pub open spec fn event_msg_effect(
    state: FileStateView,
    payload: JsonView,
    timestamp: Option<Timestamp>,
) -> (FileStateView, ProgressView) {
    let kind = payload.text_at("type"@);
    if kind == Some("token_count"@) {
        token_count_effect(state, payload, timestamp)
    } else if kind == Some("user_message"@) {
        match payload.text_at("message"@) {
            Some(message) => user_message_effect(state, message, timestamp),
            None => done(state),
        }
    } else if kind == Some("agent_message"@) {
        match payload.text_at("message"@) {
            Some(message) => agent_message_effect(state, message, timestamp),
            None => done(state),
        }
    } else if kind == Some("agent_reasoning"@) {
        match summary_line_of(payload.text_at("text"@)) {
            Some(line) => done(with_note(state, reasoning_note(line))),
            None => done(state),
        }
    } else {
        done(state)
    }
}

/// What a message among the response items does, by the role of its author.
pub open spec fn message_item_effect(
    state: FileStateView,
    payload: JsonView,
    timestamp: Option<Timestamp>,
) -> (FileStateView, ProgressView) {
    match (payload.text_at("role"@), message_text(payload)) {
        (Some(role), Some(text)) => if lower(role) == lower("user"@) {
            user_message_effect(state, text, timestamp)
        } else if lower(role) == lower("assistant"@) {
            agent_message_effect(state, text, timestamp)
        } else {
            done(state)
        },
        _ => done(state),
    }
}

/// What a response item does, by its type.
pub open spec fn response_item_effect(
    state: FileStateView,
    payload: JsonView,
    timestamp: Option<Timestamp>,
) -> (FileStateView, ProgressView) {
    let kind = payload.text_at("type"@);
    if kind == Some("message"@) {
        message_item_effect(state, payload, timestamp)
    } else if kind == Some("function_call"@) || kind == Some("custom_tool_call"@) {
        let noted = with_optional_note(state, tool_call_note_in(payload));
        match payload.text_at("name"@) {
            Some(name) => (noted, asked(tool_action(state, timestamp, name))),
            None => done(noted),
        }
    } else if kind == Some("web_search_call"@) {
        (
            with_note(state, web_search_note_in(payload)),
            asked(tool_action(state, timestamp, "web_search"@)),
        )
    } else if kind == Some("local_shell_call"@) {
        let name = match payload.text_at2("action"@, "type"@) {
            Some(action) => action,
            None => "local_shell"@,
        };
        (state, asked(tool_action(state, timestamp, name)))
    } else if kind == Some("reasoning"@) {
        done(with_optional_note(state, reasoning_note_in(payload)))
    } else {
        done(state)
    }
}

/// What an event of the given kind and time does.
pub open spec fn dispatch_effect(
    state: FileStateView,
    kind: Seq<char>,
    value: JsonView,
    timestamp: Option<Timestamp>,
) -> (FileStateView, ProgressView) {
    if kind == "session_meta"@ {
        session_meta_effect(state, value, timestamp)
    } else {
        match value.get("payload"@) {
            Some(payload) => if kind == "turn_context"@ {
                done(turn_context_effect(state, payload))
            } else if kind == "event_msg"@ {
                event_msg_effect(state, payload, timestamp)
            } else if kind == "response_item"@ {
                response_item_effect(state, payload, timestamp)
            } else {
                done(state)
            },
            None => done(state),
        }
    }
}

/// What the event `value` does. Values without a type do nothing.
pub open spec fn event_effect(state: FileStateView, value: JsonView) -> (
    FileStateView,
    ProgressView,
) {
    match value.text_at("type"@) {
        Some(kind) => dispatch_effect(state, kind, value, timestamp_member(value)),
        None => done(state),
    }
}

/// What follows the answer of the storage. A failed action ends the event and
/// changes nothing.
pub open spec fn resume_effect(
    state: FileStateView,
    follow_up: FollowUpView,
    reply: StorageReply,
    now: Timestamp,
) -> (FileStateView, ProgressView) {
    match reply {
        StorageReply::Failed => (state, ProgressView::Failed),
        StorageReply::Done { message_id } => match follow_up {
            FollowUpView::Nothing => done(state),
            FollowUpView::ReleaseTitle { session_id, at } => {
                release_title_effect(state, session_id, at)
            },
            FollowUpView::ReleaseSummary { session_id, at } => {
                release_summary_effect(state, session_id, at)
            },
            FollowUpView::ReleaseMessages { session_id, at } => {
                release_messages_effect(state, session_id, at)
            },
            FollowUpView::NextMessage { session_id, at, remaining, latest_id } => {
                next_message_effect(
                    state,
                    session_id,
                    at,
                    remaining,
                    match valid_id(message_id) {
                        Some(id) => Some(id),
                        None => latest_id,
                    },
                )
            },
            FollowUpView::RecordMessage { session_id, timestamp, snippet, seq } => (
                state,
                message_recording(session_id, timestamp, snippet, seq, now),
            ),
            FollowUpView::RememberMessage { timestamp, snippet } => done(
                remembered(state, timestamp, snippet, message_id),
            ),
            FollowUpView::TakeNote { note } => done(with_note(state, note)),
            FollowUpView::CommitTurn { totals } => done(turn_committed(state, totals)),
        },
    }
}

/// What a line of a session log does. Blank lines, and lines that are not
/// JSON, do nothing.
pub open spec fn line_effect(state: FileStateView, line: Seq<char>) -> (
    FileStateView,
    ProgressView,
) {
    if trim(line).len() == 0 {
        done(state)
    } else {
        match json_of_text(line) {
            Some(value) => event_effect(state, value),
            None => done(state),
        }
    }
}

/// The progress that at most one action leaves.
fn ask_for(action: Option<StorageAction>) -> (progress: Progress)
    ensures
        progress@ == asked(opt_action(action)),
{
    match action {
        Some(action) => Progress::Perform { action, follow_up: FollowUp::Nothing },
        None => Progress::Done,
    }
}

/// Handles the description of a session.
pub fn handle_session_meta(
    state: &mut FileState,
    value: &Json,
    timestamp: Option<Timestamp>,
) -> (progress: Progress)
    ensures
        (final(state)@, progress@) == session_meta_effect(old(state)@, value@, timestamp),
{
    match parse_session_meta(value, timestamp) {
        Some(meta) => {
            state.session_id = Some(meta.session_id.clone());
            assert(state@ =~= FileStateView {
                session_id: Some(meta.session_id@),
                ..old(state)@
            });
            let session_id: String = meta.session_id.clone();
            let at: Timestamp = meta.last_event_at;
            Progress::Perform {
                action: StorageAction::UpsertSessionMeta { meta },
                follow_up: FollowUp::ReleaseTitle { session_id, at },
            }
        },
        None => Progress::Done,
    }
}

/// Handles the context of a turn.
pub fn handle_turn_context(state: &mut FileState, payload: &Json)
    ensures
        final(state)@ == turn_context_effect(old(state)@, payload@),
{
    if let Some(model) = payload.str_at("model") {
        state.current_model = Some(normalize_model_id(model));
    }
    state.current_effort = match payload.str_at("effort") {
        Some(effort) => {
            let trimmed: String = trim_str(effort);
            if trimmed.as_str().is_empty() {
                None
            } else {
                Some(trimmed)
            }
        },
        None => None,
    };
    assert(state@ =~= turn_context_effect(old(state)@, payload@));
}

/// Handles an event message.
pub fn handle_event_msg(
    state: &mut FileState,
    payload: &Json,
    timestamp: Option<Timestamp>,
) -> (progress: Progress)
    ensures
        (final(state)@, progress@) == event_msg_effect(old(state)@, payload@, timestamp),
{
    let kind: &str = match payload.str_at("type") {
        Some(kind) => kind,
        None => return Progress::Done,
    };
    if same_text(kind, "token_count") {
        return handle_token_count(state, payload, timestamp);
    }
    if same_text(kind, "user_message") {
        return match payload.str_at("message") {
            Some(message) => handle_user_message(state, message, timestamp),
            None => Progress::Done,
        };
    }
    if same_text(kind, "agent_message") {
        return match payload.str_at("message") {
            Some(message) => handle_agent_message(state, message, timestamp),
            None => Progress::Done,
        };
    }
    if same_text(kind, "agent_reasoning") {
        if let Some(text) = payload.str_at("text") {
            if let Some(line) = format_snippet(text, SUMMARY_MAX_CHARS) {
                take_note(state, format_reasoning_note(line.as_str()));
            }
        }
    }
    Progress::Done
}

/// Handles a response item.
pub fn handle_response_item(
    state: &mut FileState,
    payload: &Json,
    timestamp: Option<Timestamp>,
) -> (progress: Progress)
    ensures
        (final(state)@, progress@) == response_item_effect(old(state)@, payload@, timestamp),
{
    let kind: &str = match payload.str_at("type") {
        Some(kind) => kind,
        None => return Progress::Done,
    };
    if same_text(kind, "message") {
        if let Some(role) = payload.str_at("role") {
            if let Some(text) = extract_message_text(payload) {
                if same_ignoring_ascii_case(role, "user") {
                    return handle_user_message(state, text.as_str(), timestamp);
                } else if same_ignoring_ascii_case(role, "assistant") {
                    return handle_agent_message(state, text.as_str(), timestamp);
                }
            }
        }
        return Progress::Done;
    }
    if same_text(kind, "function_call") || same_text(kind, "custom_tool_call") {
        if let Some(note) = tool_call_note(payload) {
            take_note(state, note);
        }
        return match payload.str_at("name") {
            Some(name) => ask_for(record_tool_event(state, timestamp, name)),
            None => Progress::Done,
        };
    }
    if same_text(kind, "web_search_call") {
        if let Some(note) = web_search_note(payload) {
            take_note(state, note);
        }
        return ask_for(record_tool_event(state, timestamp, "web_search"));
    }
    if same_text(kind, "local_shell_call") {
        return match payload.str_at2("action", "type") {
            Some(action) => ask_for(record_tool_event(state, timestamp, action)),
            None => ask_for(record_tool_event(state, timestamp, "local_shell")),
        };
    }
    if same_text(kind, "reasoning") {
        if let Some(note) = reasoning_summary_note(payload) {
            take_note(state, note);
        }
    }
    Progress::Done
}

/// Handles an event of the given kind and time.
pub fn dispatch_event(
    state: &mut FileState,
    kind: &str,
    value: &Json,
    timestamp: Option<Timestamp>,
) -> (progress: Progress)
    ensures
        (final(state)@, progress@) == dispatch_effect(old(state)@, kind@, value@, timestamp),
{
    if same_text(kind, "session_meta") {
        return handle_session_meta(state, value, timestamp);
    }
    let payload: &Json = match value.get("payload") {
        Some(payload) => payload,
        None => return Progress::Done,
    };
    if same_text(kind, "turn_context") {
        handle_turn_context(state, payload);
        Progress::Done
    } else if same_text(kind, "event_msg") {
        handle_event_msg(state, payload, timestamp)
    } else if same_text(kind, "response_item") {
        handle_response_item(state, payload, timestamp)
    } else {
        Progress::Done
    }
}

/// Handles the event `value`.
pub fn process_event(state: &mut FileState, value: &Json) -> (progress: Progress)
    ensures
        (final(state)@, progress@) == event_effect(old(state)@, value@),
{
    match value.str_at("type") {
        Some(kind) => dispatch_event(state, kind, value, read_timestamp(value)),
        None => Progress::Done,
    }
}

/// Handles a line of a session log.
pub fn process_line(state: &mut FileState, line: &str) -> (progress: Progress)
    ensures
        (final(state)@, progress@) == line_effect(old(state)@, line@),
{
    if trim_str(line).as_str().is_empty() {
        return Progress::Done;
    }
    match parse_json(line) {
        Some(value) => process_event(state, &value),
        None => Progress::Done,
    }
}

/// Goes on after the storage has answered at the time `now`.
pub fn resume(
    state: &mut FileState,
    follow_up: FollowUp,
    reply: StorageReply,
    now: Timestamp,
) -> (progress: Progress)
    ensures
        (final(state)@, progress@) == resume_effect(old(state)@, follow_up@, reply, now),
{
    let message_id: i64 = match reply {
        StorageReply::Failed => return Progress::Failed,
        StorageReply::Done { message_id } => message_id,
    };
    match follow_up {
        FollowUp::Nothing => Progress::Done,
        FollowUp::ReleaseTitle { session_id, at } => release_title(state, session_id, at),
        FollowUp::ReleaseSummary { session_id, at } => release_summary(state, session_id, at),
        FollowUp::ReleaseMessages { session_id, at } => {
            flush_pending_messages(state, session_id, at)
        },
        FollowUp::NextMessage { session_id, at, remaining, latest_id } => {
            let latest_id: Option<i64> = if message_id > 0 {
                Some(message_id)
            } else {
                latest_id
            };
            next_message(state, session_id, at, remaining, latest_id)
        },
        FollowUp::RecordMessage { session_id, timestamp, snippet, seq } => {
            record_message(session_id, timestamp, snippet, seq, now)
        },
        FollowUp::RememberMessage { timestamp, snippet } => {
            remember_message(state, timestamp, snippet, message_id);
            Progress::Done
        },
        FollowUp::TakeNote { note } => {
            take_note(state, note);
            Progress::Done
        },
        FollowUp::CommitTurn { totals } => {
            commit_turn(state, totals);
            Progress::Done
        },
    }
}

} // verus!
