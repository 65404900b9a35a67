//! What the views of the library's types show: each field as what it holds.

use vstd::prelude::*;

#[allow(unused_imports)]
use crate::batch::{BatchProgress, BatchProgressView};
#[allow(unused_imports)]
use crate::lines::{byte_texts, texts};
#[allow(unused_imports)]
use crate::path::{parts_view, LogPath, PathPart, PathPartView};
#[allow(unused_imports)]
use crate::progress::{FollowUp, FollowUpView, Progress, ProgressView};
#[allow(unused_imports)]
use crate::scan::{
    rows_view, FileScan, ScanAnswer, ScanPhase, ScanPhaseView, ScanProgress, ScanProgressView,
    ScanRequest, ScanRequestView,
};
#[allow(unused_imports)]
use crate::session::{opt_meta, SessionMeta};
#[allow(unused_imports)]
use crate::state::{
    messages_view, FileState, IngestStateRow, LastUserMessage, PendingMessage, PendingMessageView,
};
#[allow(unused_imports)]
use crate::storage::{opt_action, StorageAction, StorageActionView, StorageReply, Turn};
#[allow(unused_imports)]
use crate::text::opt_text;
#[allow(unused_imports)]
use crate::usage::{events_view, DailyStat, UsageEvent};

verus! {

/// Lists show as lists of what their items show, in order and without a gap.
pub proof fn law_lists_show_their_items(
    messages: Seq<PendingMessage>,
    lines: Seq<String>,
    bytes: Seq<Vec<u8>>,
    parts: Seq<PathPart>,
    rows: Seq<IngestStateRow>,
    events: Seq<UsageEvent>,
)
    ensures
        messages_view(messages).len() == messages.len(),
        forall|i: int|
            0 <= i < messages.len() ==> #[trigger] messages_view(messages)[i] == messages[i]@,
        texts(lines).len() == lines.len(),
        forall|i: int| 0 <= i < lines.len() ==> #[trigger] texts(lines)[i] == lines[i]@,
        byte_texts(bytes).len() == bytes.len(),
        forall|i: int| 0 <= i < bytes.len() ==> #[trigger] byte_texts(bytes)[i] == bytes[i]@,
        parts_view(parts).len() == parts.len(),
        forall|i: int| 0 <= i < parts.len() ==> #[trigger] parts_view(parts)[i] == parts[i]@,
        rows_view(rows).len() == rows.len(),
        forall|i: int| 0 <= i < rows.len() ==> #[trigger] rows_view(rows)[i] == rows[i]@,
        events_view(events).len() == events.len(),
        forall|i: int| 0 <= i < events.len() ==> #[trigger] events_view(events)[i] == events[i]@,
{
}

/// What may be missing shows as what it is, where it is there.
pub proof fn law_options_show_what_they_hold(
    text: String,
    action: StorageAction,
    meta: SessionMeta,
)
    ensures
        opt_text(Some(text)) == Some(text@),
        opt_text(None) is None,
        opt_action(Some(action)) == Some(action@),
        opt_action(None) is None,
        opt_meta(Some(meta)) == Some(meta@),
        opt_meta(None) is None,
{
}

/// Messages show their time, their text and their number.
pub proof fn law_messages_show_their_fields(pending: PendingMessage, last: LastUserMessage)
    ensures
        pending@.timestamp == pending.timestamp,
        pending@.snippet == pending.snippet@,
        pending@.seq == pending.seq,
        last@.timestamp == last.timestamp,
        last@.snippet == last.snippet@,
{
}

/// The state of a log shows its fields.
pub proof fn law_states_show_their_fields(state: FileState)
    ensures
        state@.session_id == opt_text(state.session_id),
        state@.last_offset == state.last_offset,
        state@.last_seen == state.last_seen,
        state@.last_committed == state.last_committed,
        state@.current_model == opt_text(state.current_model),
        state@.current_effort == opt_text(state.current_effort),
        state@.current_message_id == state.current_message_id,
        state@.current_message_seq == state.current_message_seq,
        state@.pending_note == opt_text(state.pending_note),
        state@.pending_note_seq == state.pending_note_seq,
        state@.used_note_seq == state.used_note_seq,
        state@.pending_title == opt_text(state.pending_title),
        state@.pending_summary == opt_text(state.pending_summary),
        state@.pending_messages == messages_view(state.pending_messages@),
        state.last_user_message is None ==> state@.last_user_message is None,
        state.last_user_message matches Some(last) ==> state@.last_user_message == Some(last@),
{
}

/// A stored row shows its fields, and its counts by kind.
pub proof fn law_rows_show_their_fields(row: IngestStateRow)
    ensures
        row@.path == row.path@,
        row@.session_id == opt_text(row.session_id),
        row@.last_offset == row.last_offset,
        row@.last_seen.input_tokens == row.last_seen_input_tokens,
        row@.last_seen.cached_input_tokens == row.last_seen_cached_input_tokens,
        row@.last_seen.output_tokens == row.last_seen_output_tokens,
        row@.last_seen.reasoning_output_tokens == row.last_seen_reasoning_output_tokens,
        row@.last_seen.total_tokens == row.last_seen_total_tokens,
        row@.last_committed.input_tokens == row.last_committed_input_tokens,
        row@.last_committed.cached_input_tokens == row.last_committed_cached_input_tokens,
        row@.last_committed.output_tokens == row.last_committed_output_tokens,
        row@.last_committed.reasoning_output_tokens == row.last_committed_reasoning_output_tokens,
        row@.last_committed.total_tokens == row.last_committed_total_tokens,
        row@.current_message_id == row.current_message_id,
        row@.current_message_seq == row.current_message_seq,
        row@.current_model == opt_text(row.current_model),
        row@.current_effort == opt_text(row.current_effort),
{
}

/// A session's description shows its fields.
pub proof fn law_descriptions_show_their_fields(meta: SessionMeta)
    ensures
        meta@.session_id == meta.session_id@,
        meta@.started_at == meta.started_at,
        meta@.last_event_at == meta.last_event_at,
        meta@.cwd == opt_text(meta.cwd),
        meta@.repo_url == opt_text(meta.repo_url),
        meta@.repo_branch == opt_text(meta.repo_branch),
        meta@.repo_commit == opt_text(meta.repo_commit),
        meta@.model_provider == opt_text(meta.model_provider),
        meta@.subagent == opt_text(meta.subagent),
        meta@.last_model == opt_text(meta.last_model),
{
}

/// A turn shows its fields.
pub proof fn law_turns_show_their_fields(turn: Turn)
    ensures
        turn@.session_id == turn.session_id@,
        turn@.at == turn.at,
        turn@.model == turn.model@,
        turn@.note == opt_text(turn.note),
        turn@.context_window == turn.context_window,
        turn@.effort == opt_text(turn.effort),
        turn@.usage == turn.usage,
        turn@.message_id == turn.message_id,
{
}

/// An action shows what it is and its fields.
pub proof fn law_actions_show_their_fields(action: StorageAction)
    ensures
        action matches StorageAction::UpsertSessionMeta { meta } ==> action@ == (
        StorageActionView::UpsertSessionMeta { meta: meta@ }),
        action matches StorageAction::SetSessionTitleIfEmpty { session_id, title } ==> action@ == (
        StorageActionView::SetSessionTitleIfEmpty { session_id: session_id@, title: title@ }),
        action matches StorageAction::SetSessionSummary { session_id, summary, at } ==> action@ == (
        StorageActionView::SetSessionSummary { session_id: session_id@, summary: summary@, at }),
        action matches StorageAction::SetSessionSummaryOnly { session_id, summary } ==> action@ == (
        StorageActionView::SetSessionSummaryOnly { session_id: session_id@, summary: summary@ }),
        action matches StorageAction::RecordUserMessage { session_id, at, snippet, seq }
            ==> action@ == (StorageActionView::RecordUserMessage {
            session_id: session_id@,
            at,
            snippet: snippet@,
            seq,
        }),
        action matches StorageAction::RecordTurn { turn } ==> action@ == (
        StorageActionView::RecordTurn { turn: turn@ }),
        action matches StorageAction::RecordToolCall { session_id, at, tool_name } ==> action@ == (
        StorageActionView::RecordToolCall { session_id: session_id@, at, tool_name: tool_name@ }),
{
}

/// Progress shows what it asks for and what is left to do.
pub proof fn law_progress_shows_its_fields(
    progress: Progress,
    batch: BatchProgress,
    follow_up: FollowUp,
)
    ensures
        progress is Done ==> progress@ is Done,
        progress is Failed ==> progress@ is Failed,
        progress matches Progress::Perform { action, follow_up } ==> progress@ == (
        ProgressView::Perform { action: action@, follow_up: follow_up@ }),
        batch is Finished ==> batch@ is Finished,
        batch matches BatchProgress::Perform { action, follow_up, next_line } ==> batch@ == (
        BatchProgressView::Perform {
            action: action@,
            follow_up: follow_up@,
            next_line: next_line as int,
        }),
        follow_up is Nothing ==> follow_up@ is Nothing,
        follow_up matches FollowUp::ReleaseTitle { session_id, at } ==> follow_up@ == (
        FollowUpView::ReleaseTitle { session_id: session_id@, at }),
        follow_up matches FollowUp::ReleaseSummary { session_id, at } ==> follow_up@ == (
        FollowUpView::ReleaseSummary { session_id: session_id@, at }),
        follow_up matches FollowUp::ReleaseMessages { session_id, at } ==> follow_up@ == (
        FollowUpView::ReleaseMessages { session_id: session_id@, at }),
        follow_up matches FollowUp::NextMessage { session_id, at, remaining, latest_id }
            ==> follow_up@ == (FollowUpView::NextMessage {
            session_id: session_id@,
            at,
            remaining: messages_view(remaining@),
            latest_id,
        }),
        follow_up matches FollowUp::RecordMessage { session_id, timestamp, snippet, seq }
            ==> follow_up@ == (FollowUpView::RecordMessage {
            session_id: session_id@,
            timestamp,
            snippet: snippet@,
            seq,
        }),
        follow_up matches FollowUp::RememberMessage { timestamp, snippet } ==> follow_up@ == (
        FollowUpView::RememberMessage { timestamp, snippet: snippet@ }),
        follow_up matches FollowUp::TakeNote { note } ==> follow_up@ == (FollowUpView::TakeNote {
            note: note@,
        }),
        follow_up matches FollowUp::CommitTurn { totals } ==> follow_up@ == (
        FollowUpView::CommitTurn { totals }),
{
}

/// A scan shows its fields, and so do its phases, requests and progress.
pub proof fn law_scans_show_their_fields(
    scan: FileScan,
    phase: ScanPhase,
    request: ScanRequest,
    progress: ScanProgress,
    answer: ScanAnswer,
)
    ensures
        scan@.path == scan.path@,
        scan@.state == scan.state@,
        scan@.lines == texts(scan.lines@),
        scan@.new_offset == scan.new_offset,
        scan@.phase == scan.phase@,
        phase is Reading ==> phase@ is Reading,
        phase is Opening ==> phase@ is Opening,
        phase is Noting ==> phase@ is Noting,
        phase is Saving ==> phase@ is Saving,
        phase is Committing ==> phase@ is Committing,
        phase matches ScanPhase::Working { follow_up, next_line } ==> phase@ == (
        ScanPhaseView::Working { follow_up: follow_up@, next_line: next_line as int }),
        request matches ScanRequest::Read { offset } ==> request@ == (ScanRequestView::Read {
            offset,
        }),
        request is BeginTransaction ==> request@ is BeginTransaction,
        request matches ScanRequest::Perform { action } ==> request@ == (ScanRequestView::Perform {
            action: action@,
        }),
        request matches ScanRequest::UpdateActivity { at } ==> request@ == (
        ScanRequestView::UpdateActivity { at }),
        request matches ScanRequest::SaveState { row } ==> request@ == (
        ScanRequestView::SaveState { row: row@ }),
        request is Commit ==> request@ is Commit,
        progress is Finished ==> progress@ is Finished,
        progress is Failed ==> progress@ is Failed,
        progress matches ScanProgress::Ask { request, scan } ==> progress@ == (
        ScanProgressView::Ask { request: request@, scan: scan@ }),
        answer matches ScanAnswer::Done { message_id } ==> answer.reply() == (StorageReply::Done {
            message_id,
        }),
        !(answer is Done) ==> answer.reply() is Failed,
{
}

/// Paths show their spelling and their components.
pub proof fn law_paths_show_their_fields(path: LogPath, part: PathPart)
    ensures
        path@.spelling == path.spelling@,
        path@.parts == parts_view(path.parts@),
        part matches PathPart::Prefix(bytes) ==> part@ == PathPartView::Prefix(bytes@),
        part is Root ==> part@ is Root,
        part is Current ==> part@ is Current,
        part is Parent ==> part@ is Parent,
        part matches PathPart::Name(bytes) ==> part@ == PathPartView::Name(bytes@),
{
}

/// Usage events and daily statistics show their fields.
pub proof fn law_usage_shows_its_fields(event: UsageEvent, stat: DailyStat)
    ensures
        event@.timestamp == event.timestamp,
        event@.model == event.model@,
        event@.prompt_tokens == event.prompt_tokens,
        event@.completion_tokens == event.completion_tokens,
        event@.total_tokens == event.total_tokens,
        event@.cost_usd_bits == event.cost_usd_bits,
        stat@.date == stat.date@,
        stat@.model == stat.model@,
        stat@.prompt_tokens == stat.prompt_tokens,
        stat@.completion_tokens == stat.completion_tokens,
        stat@.total_tokens == stat.total_tokens,
        stat@.cost_usd_bits == stat.cost_usd_bits,
{
}

} // verus!
