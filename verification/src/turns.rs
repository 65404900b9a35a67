//! Turns: the tokens that a session reports, and what of them is new.

use vstd::prelude::*;

use crate::json::Json;
#[allow(unused_imports)]
use crate::json::JsonView;
use crate::progress::{FollowUp, Progress};
#[allow(unused_imports)]
use crate::progress::{FollowUpView, ProgressView};
use crate::state::FileState;
#[allow(unused_imports)]
use crate::state::FileStateView;
use crate::storage::{StorageAction, Turn};
#[allow(unused_imports)]
use crate::storage::{opt_action, StorageActionView, TurnView};
use crate::text::copy_text;
use crate::time::Timestamp;
use crate::tokens::TokenTotals;
#[allow(unused_imports)]
use crate::tokens::{no_tokens, totals_in};

verus! {

/// The unsigned number with the same 64 bits as `n`.
pub open spec fn unsigned_bits(n: i64) -> u64 {
    if n >= 0 {
        n as u64
    } else {
        (n + 0x1_0000_0000_0000_0000) as u64
    }
}

/// The size of the context window that `info` reports. A negative number
/// stands for the unsigned one with the same bits.
pub open spec fn context_window_in(info: JsonView) -> Option<u64> {
    match info.get("model_context_window"@) {
        Some(size) => match (size.unsigned(), size.signed()) {
            (Some(n), _) => Some(n),
            (None, Some(n)) => Some(unsigned_bits(n)),
            (None, None) => None,
        },
        None => None,
    }
}

/// The note that the next turn carries: the pending one, if it came after the
/// last turn.
pub open spec fn fresh_note(state: FileStateView) -> Option<Seq<char>> {
    if state.pending_note_seq > state.used_note_seq {
        state.pending_note
    } else {
        None
    }
}

/// What reported totals do.
///
/// Totals of which some kind went down start the count anew, and so do not
/// make a turn. Totals that did not change do nothing. Other totals make a
/// turn of what is new since the last turn, provided that there is anything
/// new and that the session, the model and the time are known.
pub open spec fn totals_effect(
    state: FileStateView,
    totals: TokenTotals,
    context_window: Option<u64>,
    timestamp: Option<Timestamp>,
) -> (FileStateView, ProgressView) {
    let seen = FileStateView { last_seen: totals, ..state };
    let usage = totals.minus(state.last_committed);
    if !state.last_seen.within(totals) {
        (FileStateView { last_committed: totals, ..seen }, ProgressView::Done)
    } else if totals == state.last_seen || usage == no_tokens() {
        (seen, ProgressView::Done)
    } else {
        match (state.current_model, state.session_id, timestamp) {
            (Some(model), Some(session_id), Some(at)) => (
                seen,
                ProgressView::Perform {
                    action: StorageActionView::RecordTurn {
                        turn: TurnView {
                            session_id,
                            at,
                            model,
                            note: fresh_note(state),
                            context_window,
                            effort: state.current_effort,
                            usage,
                            message_id: state.current_message_id,
                        },
                    },
                    follow_up: FollowUpView::CommitTurn { totals },
                },
            ),
            _ => (seen, ProgressView::Done),
        }
    }
}

/// What a report of token counts does.
pub open spec fn token_count_effect(
    state: FileStateView,
    payload: JsonView,
    timestamp: Option<Timestamp>,
) -> (FileStateView, ProgressView) {
    match payload.get("info"@) {
        Some(info) => match info.get("total_token_usage"@) {
            Some(usage) => match totals_in(usage) {
                Some(totals) => totals_effect(state, totals, context_window_in(info), timestamp),
                None => (state, ProgressView::Done),
            },
            None => (state, ProgressView::Done),
        },
        None => (state, ProgressView::Done),
    }
}

/// The state once the turn that brings the totals to `totals` is recorded. The
/// note that it carried counts as used.
pub open spec fn turn_committed(state: FileStateView, totals: TokenTotals) -> FileStateView {
    FileStateView {
        last_committed: totals,
        used_note_seq: if state.pending_note_seq > state.used_note_seq {
            state.pending_note_seq
        } else {
            state.used_note_seq
        },
        ..state
    }
}

/// The action that records the use of a tool, where the session and the time
/// are known.
pub open spec fn tool_action(
    state: FileStateView,
    timestamp: Option<Timestamp>,
    tool_name: Seq<char>,
) -> Option<StorageActionView> {
    match (state.session_id, timestamp) {
        (Some(session_id), Some(at)) => Some(
            StorageActionView::RecordToolCall { session_id, at, tool_name },
        ),
        _ => None,
    }
}

/// The unsigned number with the same 64 bits as `n`.
fn same_bits(n: i64) -> (bits: u64)
    ensures
        bits == unsigned_bits(n),
{
    let bits: u64 = n as u64;
    assert(n >= 0 ==> n as u64 == n) by (bit_vector);
    assert(n < 0 ==> n as u64 == n + 0x1_0000_0000_0000_0000) by (bit_vector);
    bits
}

/// The size of the context window that `info` reports.
pub fn context_window(info: &Json) -> (size: Option<u64>)
    ensures
        size == context_window_in(info@),
{
    match info.get("model_context_window") {
        Some(size) => match size.as_u64() {
            Some(n) => Some(n),
            None => match size.as_i64() {
                Some(n) => Some(same_bits(n)),
                None => None,
            },
        },
        None => None,
    }
}

/// Handles reported totals.
pub fn handle_totals(
    state: &mut FileState,
    totals: TokenTotals,
    context_window: Option<u64>,
    timestamp: Option<Timestamp>,
) -> (progress: Progress)
    ensures
        (final(state)@, progress@) == totals_effect(
            old(state)@,
            totals,
            context_window,
            timestamp,
        ),
{
    if totals.any_decreased(state.last_seen) {
        state.last_seen = totals;
        state.last_committed = totals;
        assert(state@ =~= FileStateView {
            last_seen: totals,
            last_committed: totals,
            ..old(state)@
        });
        return Progress::Done;
    }
    if totals == state.last_seen {
        assert(state@ =~= FileStateView { last_seen: totals, ..old(state)@ });
        return Progress::Done;
    }
    state.last_seen = totals;
    assert(state@ =~= FileStateView { last_seen: totals, ..old(state)@ });
    let model: String = match &state.current_model {
        Some(model) => model.clone(),
        None => return Progress::Done,
    };
    let session_id: String = match &state.session_id {
        Some(session_id) => session_id.clone(),
        None => return Progress::Done,
    };
    let usage: TokenTotals = totals.saturating_sub(state.last_committed);
    if usage.is_zero() {
        return Progress::Done;
    }
    let at: Timestamp = match timestamp {
        Some(at) => at,
        None => return Progress::Done,
    };
    let note: Option<String> = if state.pending_note_seq > state.used_note_seq {
        copy_text(&state.pending_note)
    } else {
        None
    };
    Progress::Perform {
        action: StorageAction::RecordTurn {
            turn: Turn {
                session_id,
                at,
                model,
                note,
                context_window,
                effort: copy_text(&state.current_effort),
                usage,
                message_id: state.current_message_id,
            },
        },
        follow_up: FollowUp::CommitTurn { totals },
    }
}

/// Handles a report of token counts.
pub fn handle_token_count(
    state: &mut FileState,
    payload: &Json,
    timestamp: Option<Timestamp>,
) -> (progress: Progress)
    ensures
        (final(state)@, progress@) == token_count_effect(old(state)@, payload@, timestamp),
{
    let info: &Json = match payload.get("info") {
        Some(info) => info,
        None => return Progress::Done,
    };
    let usage: &Json = match info.get("total_token_usage") {
        Some(usage) => usage,
        None => return Progress::Done,
    };
    let totals: TokenTotals = match TokenTotals::from_value(usage) {
        Some(totals) => totals,
        None => return Progress::Done,
    };
    handle_totals(state, totals, context_window(info), timestamp)
}

/// Counts the tokens of a turn as recorded, and its note as used.
pub fn commit_turn(state: &mut FileState, totals: TokenTotals)
    ensures
        final(state)@ == turn_committed(old(state)@, totals),
{
    state.last_committed = totals;
    if state.pending_note_seq > state.used_note_seq {
        state.used_note_seq = state.pending_note_seq;
    }
    assert(state@ =~= turn_committed(old(state)@, totals));
}

/// The action that records the use of a tool, where the session and the time
/// are known.
pub fn record_tool_event(
    state: &FileState,
    timestamp: Option<Timestamp>,
    tool_name: &str,
) -> (action: Option<StorageAction>)
    ensures
        opt_action(action) == tool_action(state@, timestamp, tool_name@),
{
    match (&state.session_id, timestamp) {
        (Some(session_id), Some(at)) => Some(
            StorageAction::RecordToolCall {
                session_id: session_id.clone(),
                at,
                tool_name: tool_name.to_owned(),
            },
        ),
        _ => None,
    }
}

} // verus!
