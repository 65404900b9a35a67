//! What holds of the events of a session log as a whole.

use vstd::prelude::*;

#[allow(unused_imports)]
use crate::ingest::{event_effect, line_effect, resume_effect};
#[allow(unused_imports)]
use crate::json::{json_of_text, JsonView};
#[allow(unused_imports)]
use crate::messages::{
    is_repeat, next_message_effect, next_number, release_messages_effect, release_summary_effect,
    release_title_effect, user_message_effect, valid_id, with_note,
};
#[allow(unused_imports)]
use crate::progress::{FollowUpView, ProgressView};
#[allow(unused_imports)]
use crate::session::{meta_in, timestamp_member, SessionMetaView};
#[allow(unused_imports)]
use crate::state::{FileStateView, IngestStateRowView, LastUserMessageView, PendingMessageView};
#[allow(unused_imports)]
use crate::storage::{StorageActionView, StorageReply};
#[allow(unused_imports)]
use crate::text::trim;
#[allow(unused_imports)]
use crate::time::{elapsed_nanos, Timestamp};
#[allow(unused_imports)]
use crate::tokens::{no_tokens, totals_in, TokenTotals};
#[allow(unused_imports)]
use crate::turns::{fresh_note, totals_effect, turn_committed};

verus! {

/// Whether no more has been recorded in turns than was reported, and no more
/// notes have been used than were kept.
pub open spec fn counts_agree(state: FileStateView) -> bool {
    &&& state.last_committed.within(state.last_seen)
    &&& state.used_note_seq <= state.pending_note_seq
}

/// Whether a turn that is being recorded brings the count to what was reported
/// last.
pub open spec fn turn_is_current(state: FileStateView, progress: ProgressView) -> bool {
    match progress {
        ProgressView::Perform { follow_up: FollowUpView::CommitTurn { totals }, .. } => totals
            == state.last_seen,
        _ => true,
    }
}

/// The counts agree at the start: in a log that has not been read, in one that
/// is read from its start again, and in one restored from a row whose counts
/// agree.
pub proof fn law_counts_agree_at_the_start(state: FileStateView, row: IngestStateRowView)
    ensures
        counts_agree(FileStateView::fresh()),
        counts_agree(state.rewound()),
        row.last_committed.within(row.last_seen) ==> counts_agree(FileStateView::restored(row)),
{
}

/// Every event keeps the counts in agreement, up to its first action.
pub proof fn law_events_keep_counts(state: FileStateView, value: JsonView)
    requires
        counts_agree(state),
    ensures
        counts_agree(event_effect(state, value).0),
        turn_is_current(event_effect(state, value).0, event_effect(state, value).1),
{
}

/// Every answer of the storage keeps the counts in agreement.
pub proof fn law_answers_keep_counts(
    state: FileStateView,
    action: StorageActionView,
    follow_up: FollowUpView,
    reply: StorageReply,
    now: Timestamp,
)
    requires
        counts_agree(state),
        turn_is_current(state, ProgressView::Perform { action, follow_up }),
    ensures
        counts_agree(resume_effect(state, follow_up, reply, now).0),
        turn_is_current(
            resume_effect(state, follow_up, reply, now).0,
            resume_effect(state, follow_up, reply, now).1,
        ),
{
}

/// An answer of the storage, and the time at which it came.
pub struct Answer {
    pub reply: StorageReply,
    pub now: Timestamp,
}

/// The state and the progress once the storage has answered the actions of an
/// event, one after another, as far as the answers go.
pub open spec fn settled(
    state: FileStateView,
    progress: ProgressView,
    answers: Seq<Answer>,
) -> (FileStateView, ProgressView)
    decreases answers.len(),
{
    match progress {
        ProgressView::Perform { follow_up, .. } => if answers.len() == 0 {
            (state, progress)
        } else {
            let next = resume_effect(state, follow_up, answers[0].reply, answers[0].now);
            settled(next.0, next.1, answers.skip(1))
        },
        _ => (state, progress),
    }
}

/// The actions of an event that the storage carried out, in order.
pub open spec fn performed(
    state: FileStateView,
    progress: ProgressView,
    answers: Seq<Answer>,
) -> Seq<StorageActionView>
    decreases answers.len(),
{
    match progress {
        ProgressView::Perform { action, follow_up } => if answers.len() == 0 {
            seq![]
        } else {
            let next = resume_effect(state, follow_up, answers[0].reply, answers[0].now);
            let rest = performed(next.0, next.1, answers.skip(1));
            if answers[0].reply is Done {
                seq![action] + rest
            } else {
                rest
            }
        },
        _ => seq![],
    }
}

/// A line of a log, with the answers of the storage to its actions.
pub struct LoggedLine {
    pub line: Seq<char>,
    pub answers: Seq<Answer>,
}

/// The lines alone.
pub open spec fn lines_of(logged: Seq<LoggedLine>) -> Seq<Seq<char>> {
    logged.map_values(|l: LoggedLine| l.line)
}

/// The state after one line.
pub open spec fn after_line(state: FileStateView, logged: LoggedLine) -> FileStateView {
    let begun = line_effect(state, logged.line);
    settled(begun.0, begun.1, logged.answers).0
}

/// The actions of one line that the storage carried out.
pub open spec fn performed_by_line(state: FileStateView, logged: LoggedLine) -> Seq<
    StorageActionView,
> {
    let begun = line_effect(state, logged.line);
    performed(begun.0, begun.1, logged.answers)
}

/// The state after all lines, in order.
pub open spec fn after_lines(state: FileStateView, logged: Seq<LoggedLine>) -> FileStateView
    decreases logged.len(),
{
    if logged.len() == 0 {
        state
    } else {
        after_lines(after_line(state, logged[0]), logged.skip(1))
    }
}

/// The actions of all lines that the storage carried out, in order.
pub open spec fn performed_by_lines(state: FileStateView, logged: Seq<LoggedLine>) -> Seq<
    StorageActionView,
>
    decreases logged.len(),
{
    if logged.len() == 0 {
        seq![]
    } else {
        performed_by_line(state, logged[0]) + performed_by_lines(
            after_line(state, logged[0]),
            logged.skip(1),
        )
    }
}

/// The totals that an event reports, if it reports any.
pub open spec fn reported_totals(value: JsonView) -> Option<TokenTotals> {
    match value.get("payload"@) {
        Some(payload) => if value.text_at("type"@) == Some("event_msg"@) && payload.text_at(
            "type"@,
        ) == Some("token_count"@) {
            match payload.get("info"@) {
                Some(info) => match info.get("total_token_usage"@) {
                    Some(usage) => totals_in(usage),
                    None => None,
                },
                None => None,
            }
        } else {
            None
        },
        None => None,
    }
}

/// The totals that a line reports, if it reports any.
pub open spec fn totals_on(line: Seq<char>) -> Option<TokenTotals> {
    if trim(line).len() == 0 {
        None
    } else {
        match json_of_text(line) {
            Some(value) => reported_totals(value),
            None => None,
        }
    }
}

/// Whether no kind of tokens goes down in the totals that the lines report,
/// the totals before them being `seen`.
pub open spec fn totals_only_grow(seen: TokenTotals, lines: Seq<Seq<char>>) -> bool
    decreases lines.len(),
{
    lines.len() == 0 || match totals_on(lines[0]) {
        Some(totals) => seen.within(totals) && totals_only_grow(totals, lines.skip(1)),
        None => totals_only_grow(seen, lines.skip(1)),
    }
}

/// Amounts of tokens, by kind.
#[verifier::ext_equal]
pub struct Amounts {
    pub input: int,
    pub cached_input: int,
    pub output: int,
    pub reasoning_output: int,
    pub total: int,
}

/// The amounts in `totals`.
pub open spec fn amounts(totals: TokenTotals) -> Amounts {
    Amounts {
        input: totals.input_tokens as int,
        cached_input: totals.cached_input_tokens as int,
        output: totals.output_tokens as int,
        reasoning_output: totals.reasoning_output_tokens as int,
        total: totals.total_tokens as int,
    }
}

/// The amounts of both, kind by kind.
pub open spec fn sum(a: Amounts, b: Amounts) -> Amounts {
    Amounts {
        input: a.input + b.input,
        cached_input: a.cached_input + b.cached_input,
        output: a.output + b.output,
        reasoning_output: a.reasoning_output + b.reasoning_output,
        total: a.total + b.total,
    }
}

/// The tokens of the turns among `actions`.
pub open spec fn tokens_recorded(actions: Seq<StorageActionView>) -> Amounts
    decreases actions.len(),
{
    if actions.len() == 0 {
        amounts(no_tokens())
    } else {
        let rest = tokens_recorded(actions.skip(1));
        match actions[0] {
            StorageActionView::RecordTurn { turn } => sum(amounts(turn.usage), rest),
            _ => rest,
        }
    }
}

/// Whether a turn that is being recorded has the tokens that are not recorded
/// yet, and nothing else counts as one.
spec fn turn_is_exact(state: FileStateView, progress: ProgressView) -> bool {
    match progress {
        ProgressView::Perform {
            action: StorageActionView::RecordTurn { turn },
            follow_up: FollowUpView::CommitTurn { totals },
        } => turn.usage == totals.minus(state.last_committed) && totals == state.last_seen,
        ProgressView::Perform { action, follow_up } => !(action is RecordTurn) && !(
        follow_up is CommitTurn),
        _ => true,
    }
}

proof fn lemma_tokens_of_both(a: Seq<StorageActionView>, b: Seq<StorageActionView>)
    ensures
        tokens_recorded(a + b) == sum(tokens_recorded(a), tokens_recorded(b)),
    decreases a.len(),
{
    if a.len() == 0 {
        assert(a + b == b);
    } else {
        lemma_tokens_of_both(a.skip(1), b);
        assert((a + b).skip(1) == a.skip(1) + b);
    }
}

proof fn lemma_settling_adds_up(
    state: FileStateView,
    progress: ProgressView,
    answers: Seq<Answer>,
)
    requires
        counts_agree(state),
        turn_is_exact(state, progress),
    ensures
        ({
            let after = settled(state, progress, answers).0;
            let actions = performed(state, progress, answers);
            &&& counts_agree(after)
            &&& after.last_seen == state.last_seen
            &&& amounts(after.last_committed) == sum(
                amounts(state.last_committed),
                tokens_recorded(actions),
            )
        }),
    decreases answers.len(),
{
    if let ProgressView::Perform { action, follow_up } = progress {
        if answers.len() > 0 {
            let next = resume_effect(state, follow_up, answers[0].reply, answers[0].now);
            lemma_settling_adds_up(next.0, next.1, answers.skip(1));
            let rest = performed(next.0, next.1, answers.skip(1));
            assert((seq![action] + rest).skip(1) == rest);
        }
    }
}

/// The kinds of events have different names.
proof fn lemma_kinds_differ()
    ensures
        "event_msg"@ != "session_meta"@,
        "event_msg"@ != "turn_context"@,
        "session_meta"@ != "turn_context"@,
{
    reveal_strlit("session_meta");
    reveal_strlit("turn_context");
    reveal_strlit("event_msg");
    assert("session_meta"@.len() == 12 && "turn_context"@.len() == 12);
    assert("event_msg"@.len() == 9);
    assert("session_meta"@[0] == 's' && "turn_context"@[0] == 't');
}

/// The turns of a log add up. However lines and failures of the storage follow
/// each other, the tokens of the turns that were recorded make up the
/// difference between the totals counted as recorded before and after: nothing
/// is recorded twice, and what one turn missed the next one has. This holds as
/// long as no reported totals go down.
pub proof fn law_recorded_turns_add_up(state: FileStateView, logged: Seq<LoggedLine>)
    requires
        counts_agree(state),
        totals_only_grow(state.last_seen, lines_of(logged)),
    ensures
        counts_agree(after_lines(state, logged)),
        amounts(after_lines(state, logged).last_committed) == sum(
            amounts(state.last_committed),
            tokens_recorded(performed_by_lines(state, logged)),
        ),
    decreases logged.len(),
{
    if logged.len() > 0 {
        let first = logged[0];
        let begun = line_effect(state, first.line);
        assert(lines_of(logged)[0] == first.line);
        assert(lines_of(logged).skip(1) == lines_of(logged.skip(1)));
        assert(counts_agree(begun.0));
        assert(turn_is_exact(begun.0, begun.1));
        assert(begun.0.last_committed == state.last_committed);
        lemma_kinds_differ();
        assert(begun.0.last_seen == match totals_on(first.line) {
            Some(totals) => totals,
            None => state.last_seen,
        });
        lemma_settling_adds_up(begun.0, begun.1, first.answers);
        let next = after_line(state, first);
        law_recorded_turns_add_up(next, logged.skip(1));
        lemma_tokens_of_both(
            performed_by_line(state, first),
            performed_by_lines(next, logged.skip(1)),
        );
    }
}

/// Once a turn is recorded, all that was reported is recorded, so that the
/// next turn starts from there.
pub proof fn law_recorded_turn_leaves_nothing_out(
    state: FileStateView,
    action: StorageActionView,
    totals: TokenTotals,
    message_id: i64,
    now: Timestamp,
)
    requires
        turn_is_current(
            state,
            ProgressView::Perform { action, follow_up: FollowUpView::CommitTurn { totals } },
        ),
    ensures
        ({
            let after = resume_effect(
                state,
                FollowUpView::CommitTurn { totals },
                StorageReply::Done { message_id },
                now,
            );
            &&& after.1 is Done
            &&& after.0.last_committed == after.0.last_seen
        }),
{
}

/// Totals of which some kind went down start the count anew: no turn is
/// recorded, and the new totals count as recorded.
pub proof fn law_lower_totals_start_anew(
    state: FileStateView,
    totals: TokenTotals,
    context_window: Option<u64>,
    timestamp: Option<Timestamp>,
)
    requires
        !state.last_seen.within(totals),
    ensures
        totals_effect(state, totals, context_window, timestamp) == (
            FileStateView { last_seen: totals, last_committed: totals, ..state },
            ProgressView::Done,
        ),
{
}

/// The session that a follow-up is about, where it is about one.
pub open spec fn session_of(follow_up: FollowUpView) -> Option<Seq<char>> {
    match follow_up {
        FollowUpView::ReleaseTitle { session_id, .. } => Some(session_id),
        FollowUpView::ReleaseSummary { session_id, .. } => Some(session_id),
        FollowUpView::ReleaseMessages { session_id, .. } => Some(session_id),
        FollowUpView::NextMessage { session_id, .. } => Some(session_id),
        FollowUpView::RecordMessage { session_id, .. } => Some(session_id),
        _ => None,
    }
}

/// Whether all that is asked of the storage concerns the session of the log.
pub open spec fn asks_for_its_session(state: FileStateView, progress: ProgressView) -> bool {
    match progress {
        ProgressView::Perform { action, follow_up } => {
            &&& state.session_id == Some(action.session())
            &&& session_of(follow_up) matches Some(id) ==> state.session_id == Some(id)
        },
        _ => true,
    }
}

/// Events ask the storage only for actions on the session of their log: before
/// the session is known, for none but those that make it known.
pub proof fn law_events_ask_for_their_session(state: FileStateView, value: JsonView)
    ensures
        asks_for_its_session(event_effect(state, value).0, event_effect(state, value).1),
        state.session_id is Some ==> event_effect(state, value).0.session_id is Some,
{
}

/// What follows an answer asks only for actions on the same session, which
/// stays the session of the log.
pub proof fn law_answers_ask_for_their_session(
    state: FileStateView,
    action: StorageActionView,
    follow_up: FollowUpView,
    reply: StorageReply,
    now: Timestamp,
)
    requires
        asks_for_its_session(state, ProgressView::Perform { action, follow_up }),
    ensures
        asks_for_its_session(
            resume_effect(state, follow_up, reply, now).0,
            resume_effect(state, follow_up, reply, now).1,
        ),
        resume_effect(state, follow_up, reply, now).0.session_id == state.session_id,
{
}

/// A failed action ends its event and leaves the state as it is.
pub proof fn law_failure_changes_nothing(
    state: FileStateView,
    follow_up: FollowUpView,
    now: Timestamp,
)
    ensures
        resume_effect(state, follow_up, StorageReply::Failed, now) == (state, ProgressView::Failed),
{
}

/// An event of a kind that is not known does nothing.
pub proof fn law_unknown_events_do_nothing(state: FileStateView, value: JsonView)
    requires
        ({
            let kind = value.text_at("type"@);
            &&& kind != Some("session_meta"@)
            &&& kind != Some("turn_context"@)
            &&& kind != Some("event_msg"@)
            &&& kind != Some("response_item"@)
        }),
    ensures
        event_effect(state, value) == (state, ProgressView::Done),
{
}

/// A message that comes again at once does nothing, while its session is not
/// known.
pub proof fn law_pending_message_counts_once(
    state: FileStateView,
    message: Seq<char>,
    timestamp: Option<Timestamp>,
)
    requires
        state.session_id is None,
    ensures
        ({
            let after = user_message_effect(state, message, timestamp).0;
            user_message_effect(after, message, timestamp) == (after, ProgressView::Done)
        }),
{
    if let Some(at) = timestamp {
        assert(elapsed_nanos(at, at) == 0);
    }
}

/// A message that was recorded under any identifier and comes again at once
/// does nothing.
pub proof fn law_recorded_message_counts_once(
    state: FileStateView,
    message: Seq<char>,
    timestamp: Option<Timestamp>,
    title: Answer,
    recording: Answer,
)
    requires
        state.session_id is Some,
        title.reply is Done,
        recording.reply is Done,
    ensures
        ({
            let begun = user_message_effect(state, message, timestamp);
            let after = settled(begun.0, begun.1, seq![title, recording]);
            &&& after.1 is Done
            &&& user_message_effect(after.0, message, timestamp) == (after.0, ProgressView::Done)
        }),
{
    let answers = seq![title, recording];
    reveal_with_fuel(settled, 3);
    assert(answers.skip(1)[0] == recording);
    assert(answers.skip(1).skip(1) =~= seq![]);
    if let Some(at) = timestamp {
        assert(elapsed_nanos(at, at) == 0);
    }
}

/// A message repeats the one before if they read alike and lie less than three
/// seconds apart, or the time of one is not known.
pub proof fn law_repeats_are_less_than_three_seconds_apart(
    state: FileStateView,
    line: Seq<char>,
    other: Seq<char>,
    previous: Timestamp,
    current: Timestamp,
)
    requires
        state.last_user_message == Some(
            LastUserMessageView { timestamp: Some(previous), snippet: line },
        ),
    ensures
        is_repeat(state, line, Some(current)) <==> -3_000_000_000 < elapsed_nanos(
            current,
            previous,
        ) < 3_000_000_000,
        is_repeat(state, line, None),
        other != line ==> !is_repeat(state, other, Some(current)) && !is_repeat(state, other, None),
{
}

/// A note goes with one turn at most: right after a turn there is none, and a
/// new note goes with the next turn, as long as notes can be numbered.
pub proof fn law_note_goes_with_one_turn(
    state: FileStateView,
    totals: TokenTotals,
    note: Seq<char>,
)
    requires
        counts_agree(state),
    ensures
        fresh_note(turn_committed(state, totals)) is None,
        state.pending_note_seq < u64::MAX ==> fresh_note(with_note(state, note)) == Some(note),
        state.pending_note_seq < u64::MAX ==> fresh_note(
            with_note(turn_committed(state, totals), note),
        ) == Some(note),
{
}

/// What records the pending messages of a session, in order.
pub open spec fn message_actions(
    messages: Seq<PendingMessageView>,
    session_id: Seq<char>,
    at: Timestamp,
) -> Seq<StorageActionView> {
    messages.map_values(
        |message: PendingMessageView|
            StorageActionView::RecordUserMessage {
                session_id,
                at: match message.timestamp {
                    Some(own) => own,
                    None => at,
                },
                snippet: message.snippet,
                seq: message.seq,
            },
    )
}

/// What hands over all that is pending for a session: the title, the summary,
/// and the messages in the order in which they came.
pub open spec fn release_actions(
    state: FileStateView,
    session_id: Seq<char>,
    at: Timestamp,
) -> Seq<StorageActionView> {
    let title = match state.pending_title {
        Some(title) => seq![StorageActionView::SetSessionTitleIfEmpty { session_id, title }],
        None => seq![],
    };
    let summary = match state.pending_summary {
        Some(summary) => seq![StorageActionView::SetSessionSummary { session_id, summary, at }],
        None => seq![],
    };
    title + summary + message_actions(state.pending_messages, session_id, at)
}

/// The identifier of the message recorded last, given the answers to the
/// recording of messages; `before` where none of them has one.
pub open spec fn latest_id(before: Option<i64>, answers: Seq<Answer>) -> Option<i64>
    decreases answers.len(),
{
    if answers.len() == 0 {
        before
    } else {
        match answers.last().reply {
            StorageReply::Done { message_id } => match valid_id(message_id) {
                Some(id) => Some(id),
                None => latest_id(before, answers.drop_last()),
            },
            StorageReply::Failed => latest_id(before, answers.drop_last()),
        }
    }
}

/// Whether all answers tell of success.
pub open spec fn all_done(answers: Seq<Answer>) -> bool {
    forall|i: int| 0 <= i < answers.len() ==> (#[trigger] answers[i]).reply is Done
}

proof fn lemma_latest_id_first(before: Option<i64>, answers: Seq<Answer>)
    requires
        answers.len() > 0,
    ensures
        latest_id(before, answers) == latest_id(
            latest_id(before, answers.take(1)),
            answers.skip(1),
        ),
    decreases answers.len(),
{
    if answers.len() == 1 {
        assert(answers.take(1) == answers);
        assert(answers.skip(1) =~= seq![]);
    } else {
        lemma_latest_id_first(before, answers.drop_last());
        assert(answers.drop_last().take(1) == answers.take(1));
        assert(answers.drop_last().skip(1) == answers.skip(1).drop_last());
        assert(answers.skip(1).last() == answers.last());
    }
}

proof fn lemma_messages_released(
    state: FileStateView,
    session_id: Seq<char>,
    at: Timestamp,
    remaining: Seq<PendingMessageView>,
    before: Option<i64>,
    answers: Seq<Answer>,
)
    requires
        all_done(answers),
        answers.len() == remaining.len(),
    ensures
        ({
            let begun = next_message_effect(state, session_id, at, remaining, before);
            &&& performed(begun.0, begun.1, answers) == message_actions(
                remaining,
                session_id,
                at,
            )
            &&& settled(begun.0, begun.1, answers) == (
                FileStateView { current_message_id: latest_id(before, answers), ..state },
                ProgressView::Done,
            )
        }),
    decreases remaining.len(),
{
    let begun = next_message_effect(state, session_id, at, remaining, before);
    if remaining.len() == 0 {
        assert(message_actions(remaining, session_id, at) =~= seq![]);
    } else {
        let rest = remaining.skip(1);
        assert(answers[0].reply is Done);
        let id = answers[0].reply->message_id;
        let next_id = match valid_id(id) {
            Some(id) => Some(id),
            None => before,
        };
        assert(all_done(answers.skip(1))) by {
            assert forall|i: int| 0 <= i < answers.skip(1).len() implies (
            #[trigger] answers.skip(1)[i]).reply is Done by {
                assert(answers.skip(1)[i] == answers[i + 1]);
            }
        }
        lemma_messages_released(state, session_id, at, rest, next_id, answers.skip(1));
        lemma_latest_id_first(before, answers);
        assert(answers.take(1).drop_last() =~= seq![]);
        reveal_with_fuel(latest_id, 2);
        assert(latest_id(before, answers.take(1)) == next_id);
        let first = message_actions(remaining, session_id, at)[0];
        assert(message_actions(remaining, session_id, at) =~= seq![first] + message_actions(
            rest,
            session_id,
            at,
        ));
    }
}

/// What was pending is handed over, each thing once and in order.
proof fn lemma_pending_released(
    state: FileStateView,
    session_id: Seq<char>,
    at: Timestamp,
    answers: Seq<Answer>,
)
    requires
        all_done(answers),
        answers.len() == release_actions(state, session_id, at).len(),
    ensures
        ({
            let begun = release_title_effect(state, session_id, at);
            let after = settled(begun.0, begun.1, answers);
            let recorded = answers.skip(answers.len() - state.pending_messages.len());
            &&& performed(begun.0, begun.1, answers) == release_actions(state, session_id, at)
            &&& after == (
                FileStateView {
                    pending_title: None,
                    pending_summary: None,
                    pending_messages: seq![],
                    current_message_id: latest_id(state.current_message_id, recorded),
                    ..state
                },
                ProgressView::Done,
            )
        }),
{
    let untitled = FileStateView { pending_title: None, ..state };
    let bare = FileStateView { pending_summary: None, ..untitled };
    let t: int = if state.pending_title is Some { 1 } else { 0 };
    let u: int = if state.pending_summary is Some { 1 } else { 0 };
    let after_title = answers.skip(t);
    let after_summary = after_title.skip(u);
    assert(after_summary =~= answers.skip(t + u));
    assert(all_done(after_summary)) by {
        assert forall|i: int| 0 <= i < after_summary.len() implies (
        #[trigger] after_summary[i]).reply is Done by {
            assert(after_summary[i] == answers[i + t + u]);
        }
    }
    assert(answers.skip(0) =~= answers);
    assert(after_title.skip(0) =~= after_title);
    let messages = message_actions(state.pending_messages, session_id, at);
    let m = release_messages_effect(bare, session_id, at);
    let empty = FileStateView { pending_messages: seq![], ..bare };
    lemma_messages_released(
        empty,
        session_id,
        at,
        state.pending_messages,
        state.current_message_id,
        after_summary,
    );
    if state.pending_messages.len() == 0 {
        assert(empty =~= bare);
        assert(messages =~= seq![]);
        assert(after_summary =~= seq![]);
    }
    assert(performed(m.0, m.1, after_summary) == messages);
    let after = settled(m.0, m.1, after_summary);
    assert(after.0 =~= FileStateView {
        current_message_id: latest_id(state.current_message_id, after_summary),
        ..empty
    });
    let s = release_summary_effect(untitled, session_id, at);
    let summary = match state.pending_summary {
        Some(summary) => seq![StorageActionView::SetSessionSummary { session_id, summary, at }],
        None => seq![],
    };
    if u == 1 {
        assert(after_title[0] == answers[t]);
        assert(answers[t].reply is Done);
    } else {
        assert(untitled =~= bare);
        assert(summary + messages =~= messages);
    }
    assert(performed(s.0, s.1, after_title) == summary + messages);
    assert(settled(s.0, s.1, after_title) == after);
    if t == 1 {
        assert(answers[0].reply is Done);
    } else {
        assert(untitled =~= state);
    }
    let begun = release_title_effect(state, session_id, at);
    assert(performed(begun.0, begun.1, answers) =~= release_actions(state, session_id, at));
    assert(settled(begun.0, begun.1, answers) == after);
}

/// Once a session becomes known, all that was pending for it is handed over,
/// each thing once and in order: the title, the summary and the messages, the
/// last of which becomes the current message. Then nothing is pending.
pub proof fn law_known_session_gets_what_was_pending(
    state: FileStateView,
    value: JsonView,
    meta: SessionMetaView,
    answers: Seq<Answer>,
)
    requires
        value.text_at("type"@) == Some("session_meta"@),
        meta_in(value, timestamp_member(value)) == Some(meta),
        all_done(answers),
        answers.len() == 1 + release_actions(state, meta.session_id, meta.last_event_at).len(),
    ensures
        ({
            let begun = event_effect(state, value);
            let recorded = answers.skip(answers.len() - state.pending_messages.len());
            &&& performed(begun.0, begun.1, answers) == seq![
                StorageActionView::UpsertSessionMeta { meta },
            ] + release_actions(state, meta.session_id, meta.last_event_at)
            &&& settled(begun.0, begun.1, answers) == (
                FileStateView {
                    session_id: Some(meta.session_id),
                    pending_title: None,
                    pending_summary: None,
                    pending_messages: seq![],
                    current_message_id: latest_id(state.current_message_id, recorded),
                    ..state
                },
                ProgressView::Done,
            )
        }),
{
    let begun = event_effect(state, value);
    let rest = answers.skip(1);
    assert(answers[0].reply is Done);
    assert(all_done(rest)) by {
        assert forall|i: int| 0 <= i < rest.len() implies (#[trigger] rest[i]).reply is Done by {
            assert(rest[i] == answers[i + 1]);
        }
    }
    lemma_pending_released(begun.0, meta.session_id, meta.last_event_at, rest);
    assert(rest.skip(rest.len() - state.pending_messages.len()) =~= answers.skip(
        answers.len() - state.pending_messages.len(),
    ));
}

/// Whether the pending messages are numbered in the order in which they came,
/// none higher than the message numbered last.
pub open spec fn messages_in_order(state: FileStateView) -> bool {
    let pending = state.pending_messages;
    &&& forall|i: int, j: int|
        0 <= i < j < pending.len() ==> (#[trigger] pending[i]).seq < (#[trigger] pending[j]).seq
    &&& forall|i: int|
        0 <= i < pending.len() ==> (#[trigger] pending[i]).seq <= state.current_message_seq
}

/// Events and answers keep the pending messages in order, as long as messages
/// can be numbered.
pub proof fn law_messages_stay_in_order(
    state: FileStateView,
    value: JsonView,
    follow_up: FollowUpView,
    reply: StorageReply,
    now: Timestamp,
)
    requires
        messages_in_order(state),
        state.current_message_seq < u64::MAX,
    ensures
        messages_in_order(event_effect(state, value).0),
        messages_in_order(resume_effect(state, follow_up, reply, now).0),
{
}

/// Each event numbers at most one message, with the next number, and no number
/// goes down. An answer numbers none.
pub proof fn law_messages_are_numbered_one_by_one(
    state: FileStateView,
    value: JsonView,
    follow_up: FollowUpView,
    reply: StorageReply,
    now: Timestamp,
)
    ensures
        ({
            let after = event_effect(state, value).0.current_message_seq;
            after == state.current_message_seq || after == next_number(state.current_message_seq)
        }),
        resume_effect(state, follow_up, reply, now).0.current_message_seq
            == state.current_message_seq,
{
}

/// Whether at most one note was kept between the two states: the note and its
/// number stay, or the note is a new one under the next number.
pub open spec fn at_most_one_note(before: FileStateView, after: FileStateView) -> bool {
    ||| after.pending_note == before.pending_note && after.pending_note_seq
        == before.pending_note_seq
    ||| after.pending_note is Some && after.pending_note_seq == next_number(
        before.pending_note_seq,
    )
}

/// What the answers of the storage leave as it is, by what is still to do.
proof fn lemma_settling_keeps(
    state: FileStateView,
    progress: ProgressView,
    answers: Seq<Answer>,
)
    ensures
        ({
            let after = settled(state, progress, answers).0;
            &&& after.last_offset == state.last_offset
            &&& after.session_id == state.session_id
            &&& after.current_model == state.current_model
            &&& after.current_effort == state.current_effort
            &&& after.last_seen == state.last_seen
            &&& !(progress is Perform && progress->follow_up is CommitTurn)
                ==> after.last_committed == state.last_committed && after.used_note_seq
                == state.used_note_seq
            &&& !(progress is Perform && progress->follow_up is TakeNote) ==> after.pending_note
                == state.pending_note && after.pending_note_seq == state.pending_note_seq
            &&& at_most_one_note(state, after)
        }),
    decreases answers.len(),
{
    if let ProgressView::Perform { action, follow_up } = progress {
        if answers.len() > 0 {
            let next = resume_effect(state, follow_up, answers[0].reply, answers[0].now);
            lemma_settling_keeps(next.0, next.1, answers.skip(1));
        }
    }
}

/// An event changes only what it is about, whatever the storage answers. The
/// offset never changes. The totals, and what counts as recorded and as used,
/// change only on a report of totals, the session only on its description, the
/// model and the effort only on the context of a turn. An event keeps at most
/// one note.
pub proof fn law_events_change_what_they_are_about(
    state: FileStateView,
    value: JsonView,
    answers: Seq<Answer>,
)
    ensures
        ({
            let begun = event_effect(state, value);
            let after = settled(begun.0, begun.1, answers).0;
            let kind = value.text_at("type"@);
            &&& after.last_offset == state.last_offset
            &&& reported_totals(value) is None ==> after.last_seen == state.last_seen
                && after.last_committed == state.last_committed && after.used_note_seq
                == state.used_note_seq
            &&& kind != Some("session_meta"@) ==> after.session_id == state.session_id
            &&& kind != Some("turn_context"@) ==> after.current_model == state.current_model
                && after.current_effort == state.current_effort
            &&& at_most_one_note(state, after)
        }),
{
    let begun = event_effect(state, value);
    lemma_kinds_differ();
    lemma_settling_keeps(begun.0, begun.1, answers);
    assert(reported_totals(value) is None ==> begun.0.last_seen == state.last_seen
        && begun.0.last_committed == state.last_committed && begun.0.used_note_seq
        == state.used_note_seq && !(begun.1 is Perform && begun.1->follow_up is CommitTurn));
    assert(begun.1 is Perform && begun.1->follow_up is TakeNote ==> begun.0.pending_note
        == state.pending_note && begun.0.pending_note_seq == state.pending_note_seq);
    assert(at_most_one_note(state, begun.0));
}

/// After a report of totals, an event that reports the same totals does
/// nothing, whether or not the storage recorded their turn.
pub proof fn law_same_report_does_nothing(
    state: FileStateView,
    value: JsonView,
    answers: Seq<Answer>,
    again: JsonView,
)
    requires
        reported_totals(value) is Some,
        reported_totals(again) == reported_totals(value),
    ensures
        ({
            let begun = event_effect(state, value);
            let after = settled(begun.0, begun.1, answers).0;
            event_effect(after, again) == (after, ProgressView::Done)
        }),
{
    let begun = event_effect(state, value);
    let totals = reported_totals(value)->0;
    lemma_kinds_differ();
    lemma_settling_keeps(begun.0, begun.1, answers);
    let after = settled(begun.0, begun.1, answers).0;
    assert(begun.0.last_seen == totals);
    assert(after =~= FileStateView { last_seen: totals, ..after });
}

/// Whether a line is blank or not JSON.
pub open spec fn is_silent(line: Seq<char>) -> bool {
    trim(line).len() == 0 || json_of_text(line) is None
}

/// The lines that are neither blank nor malformed, in order.
pub open spec fn telling(lines: Seq<Seq<char>>) -> Seq<Seq<char>>
    decreases lines.len(),
{
    if lines.len() == 0 {
        seq![]
    } else if is_silent(lines[0]) {
        telling(lines.skip(1))
    } else {
        seq![lines[0]] + telling(lines.skip(1))
    }
}

/// The lines that are neither blank nor malformed, with their answers.
pub open spec fn telling_logged(logged: Seq<LoggedLine>) -> Seq<LoggedLine>
    decreases logged.len(),
{
    if logged.len() == 0 {
        seq![]
    } else if is_silent(logged[0].line) {
        telling_logged(logged.skip(1))
    } else {
        seq![logged[0]] + telling_logged(logged.skip(1))
    }
}

/// Blank and malformed lines leave no trace: they change nothing, ask for
/// nothing, and the lines after them are handled as if they were not there.
pub proof fn law_silent_lines_leave_no_trace(state: FileStateView, logged: Seq<LoggedLine>)
    ensures
        lines_of(telling_logged(logged)) == telling(lines_of(logged)),
        after_lines(state, logged) == after_lines(state, telling_logged(logged)),
        performed_by_lines(state, logged) == performed_by_lines(state, telling_logged(logged)),
    decreases logged.len(),
{
    if logged.len() == 0 {
        assert(lines_of(telling_logged(logged)) =~= telling(lines_of(logged)));
    } else {
        let first = logged[0];
        let rest = logged.skip(1);
        assert(lines_of(logged)[0] == first.line);
        assert(lines_of(logged).skip(1) =~= lines_of(rest));
        law_silent_lines_leave_no_trace(after_line(state, first), rest);
        let kept = telling_logged(rest);
        if is_silent(first.line) {
            assert(after_line(state, first) == state);
            assert(performed_by_lines(state, logged) =~= performed_by_lines(state, rest));
        } else {
            let whole = seq![first] + kept;
            assert(whole.skip(1) =~= kept);
            assert(lines_of(whole) =~= seq![first.line] + lines_of(kept));
        }
    }
}

} // verus!
