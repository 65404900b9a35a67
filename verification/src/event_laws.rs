//! What each kind of event is for: what it changes, and what it asks for.

use vstd::prelude::*;

#[allow(unused_imports)]
use crate::ingest::{event_effect, line_effect, resume_effect};
#[allow(unused_imports)]
use crate::json::{json_of_text, JsonView};
#[allow(unused_imports)]
use crate::laws::{performed, settled, Answer};
#[allow(unused_imports)]
use crate::notes::{message_text, reasoning_note_in, tool_call_note_in, web_search_note_in};
#[allow(unused_imports)]
use crate::progress::{FollowUpView, ProgressView};
#[allow(unused_imports)]
use crate::session::{meta_in, timestamp_member, SessionMetaView};
#[allow(unused_imports)]
use crate::snippet::{model_id, reasoning_note, snippet};
#[allow(unused_imports)]
use crate::state::{FileStateView, LastUserMessageView, PendingMessageView};
#[allow(unused_imports)]
use crate::storage::{StorageActionView, StorageReply, TurnView};
#[allow(unused_imports)]
use crate::text::{lower, trim};
#[allow(unused_imports)]
use crate::time::{elapsed_nanos, Timestamp};
#[allow(unused_imports)]
use crate::tokens::{totals_in, TokenTotals};
#[allow(unused_imports)]
use crate::turns::context_window_in;

verus! {

/// Whether `value` is an event of the given kind whose payload is of the given
/// type.
pub open spec fn is_event(
    value: JsonView,
    kind: Seq<char>,
    payload: JsonView,
    payload_type: Seq<char>,
) -> bool {
    &&& value.text_at("type"@) == Some(kind)
    &&& value.get("payload"@) == Some(payload)
    &&& payload.text_at("type"@) == Some(payload_type)
}

proof fn lemma_names_differ()
    ensures
        "session_meta"@.len() == 12 && "turn_context"@.len() == 12,
        "session_meta"@ != "turn_context"@,
        "event_msg"@.len() == 9 && "response_item"@.len() == 13,
        "token_count"@.len() == 11 && "user_message"@.len() == 12,
        "agent_message"@.len() == 13 && "agent_reasoning"@.len() == 15,
        "message"@.len() == 7 && "function_call"@.len() == 13,
        "custom_tool_call"@.len() == 16 && "web_search_call"@.len() == 15,
        "local_shell_call"@.len() == 16 && "reasoning"@.len() == 9,
        "custom_tool_call"@ != "local_shell_call"@,
        lower("user"@) != lower("assistant"@),
{
    reveal_strlit("session_meta");
    reveal_strlit("turn_context");
    reveal_strlit("event_msg");
    reveal_strlit("response_item");
    reveal_strlit("token_count");
    reveal_strlit("user_message");
    reveal_strlit("agent_message");
    reveal_strlit("agent_reasoning");
    reveal_strlit("message");
    reveal_strlit("function_call");
    reveal_strlit("custom_tool_call");
    reveal_strlit("web_search_call");
    reveal_strlit("local_shell_call");
    reveal_strlit("reasoning");
    reveal_strlit("user");
    reveal_strlit("assistant");
    assert("session_meta"@[0] == 's' && "turn_context"@[0] == 't');
    assert("custom_tool_call"@[0] == 'c' && "local_shell_call"@[0] == 'l');
    assert(lower("user"@).len() == 4 && lower("assistant"@).len() == 9);
}

/// The totals that a report of token counts gives, if it gives any.
pub open spec fn totals_of(payload: JsonView) -> Option<TokenTotals> {
    match payload.get("info"@) {
        Some(info) => match info.get("total_token_usage"@) {
            Some(reported) => totals_in(reported),
            None => None,
        },
        None => None,
    }
}

/// Whether no kind of tokens counts more in `a` than in `b`.
pub open spec fn nowhere_more(a: TokenTotals, b: TokenTotals) -> bool {
    &&& a.input_tokens <= b.input_tokens
    &&& a.cached_input_tokens <= b.cached_input_tokens
    &&& a.output_tokens <= b.output_tokens
    &&& a.reasoning_output_tokens <= b.reasoning_output_tokens
    &&& a.total_tokens <= b.total_tokens
}

/// What `a` counts beyond `b`, which is nothing where `b` counts more.
pub open spec fn beyond(a: u64, b: u64) -> int {
    if a > b {
        a - b
    } else {
        0
    }
}

/// Every report of new tokens makes a turn: where no total went down and some
/// kind counts more than was recorded, and the session, the model and the time
/// are known, exactly what is new is recorded, under them and with the note,
/// the effort and the message that are current. Once it is recorded, all that
/// was reported counts as recorded.
pub proof fn law_new_tokens_make_a_turn(
    state: FileStateView,
    value: JsonView,
    payload: JsonView,
    totals: TokenTotals,
    answer: Answer,
)
    requires
        is_event(value, "event_msg"@, payload, "token_count"@),
        totals_of(payload) == Some(totals),
        nowhere_more(state.last_seen, totals),
        totals != state.last_seen,
        !nowhere_more(totals, state.last_committed),
        state.session_id is Some,
        state.current_model is Some,
        timestamp_member(value) is Some,
    ensures
        ({
            let begun = event_effect(state, value);
            &&& begun.0 == (FileStateView { last_seen: totals, ..state })
            &&& begun.1 is Perform
            &&& begun.1->follow_up == (FollowUpView::CommitTurn { totals })
            &&& begun.1->action matches StorageActionView::RecordTurn { turn }
            &&& turn.usage.input_tokens == beyond(
                totals.input_tokens,
                state.last_committed.input_tokens,
            )
            &&& turn.usage.cached_input_tokens == beyond(
                totals.cached_input_tokens,
                state.last_committed.cached_input_tokens,
            )
            &&& turn.usage.output_tokens == beyond(
                totals.output_tokens,
                state.last_committed.output_tokens,
            )
            &&& turn.usage.reasoning_output_tokens == beyond(
                totals.reasoning_output_tokens,
                state.last_committed.reasoning_output_tokens,
            )
            &&& turn.usage.total_tokens == beyond(
                totals.total_tokens,
                state.last_committed.total_tokens,
            )
            &&& Some(turn.session_id) == state.session_id
            &&& Some(turn.model) == state.current_model
            &&& Some(turn.at) == timestamp_member(value)
            &&& turn.effort == state.current_effort
            &&& turn.message_id == state.current_message_id
            &&& turn.context_window == context_window_in(payload.get("info"@)->0)
            &&& state.pending_note_seq > state.used_note_seq ==> turn.note == state.pending_note
            &&& state.pending_note_seq <= state.used_note_seq ==> turn.note is None
        }),
        answer.reply is Done ==> ({
            let begun = event_effect(state, value);
            let after = settled(begun.0, begun.1, seq![answer]);
            &&& after.1 is Done
            &&& performed(begun.0, begun.1, seq![answer]) == seq![begun.1->action]
            &&& after.0.last_seen == totals
            &&& after.0.last_committed == totals
            &&& after.0.used_note_seq == state.pending_note_seq || (after.0.used_note_seq
                == state.used_note_seq && state.used_note_seq >= state.pending_note_seq)
            &&& after.0 == (FileStateView {
                last_seen: totals,
                last_committed: totals,
                used_note_seq: after.0.used_note_seq,
                ..state
            })
        }),
{
    lemma_names_differ();
    let begun = event_effect(state, value);
    reveal_with_fuel(settled, 2);
    reveal_with_fuel(performed, 2);
    assert(seq![answer].skip(1) =~= seq![]);
    assert(begun.1 is Perform);
    assert(seq![begun.1->action] + Seq::<StorageActionView>::empty() =~= seq![begun.1->action]);
}

/// A report makes no turn where nothing is new, or where the session, the model
/// or the time is not known. It is taken note of all the same, so that it
/// changes the totals that were reported last and nothing else.
pub proof fn law_reports_without_a_turn(
    state: FileStateView,
    value: JsonView,
    payload: JsonView,
    totals: TokenTotals,
)
    requires
        is_event(value, "event_msg"@, payload, "token_count"@),
        totals_of(payload) == Some(totals),
        nowhere_more(state.last_seen, totals),
        totals == state.last_seen || nowhere_more(totals, state.last_committed)
            || state.session_id is None || state.current_model is None || timestamp_member(
            value,
        ) is None,
    ensures
        event_effect(state, value) == (
            FileStateView { last_seen: totals, ..state },
            ProgressView::Done,
        ),
{
    lemma_names_differ();
}

/// A report in which some total went down starts the count anew: the totals
/// count as seen and as recorded, and no turn is made. A report without totals
/// does nothing.
pub proof fn law_reports_that_start_anew(state: FileStateView, value: JsonView, payload: JsonView)
    requires
        is_event(value, "event_msg"@, payload, "token_count"@),
    ensures
        totals_of(payload) is None ==> event_effect(state, value) == (state, ProgressView::Done),
        totals_of(payload) matches Some(totals) ==> !nowhere_more(state.last_seen, totals)
            ==> event_effect(state, value) == (
            FileStateView { last_seen: totals, last_committed: totals, ..state },
            ProgressView::Done,
        ),
{
    lemma_names_differ();
}

/// The size of a context window is the unsigned number that is reported. A
/// negative number stands for the one that has the same 64 bits. Anything else
/// is no size.
pub proof fn law_context_windows(info: JsonView, size: JsonView)
    ensures
        info.get("model_context_window"@) is None ==> context_window_in(info) is None,
        info.get("model_context_window"@) == Some(size) ==> {
            &&& size.unsigned() is Some ==> context_window_in(info) == size.unsigned()
            &&& size.unsigned() is None && size.signed() is None ==> context_window_in(info) is None
            &&& size.unsigned() is None ==> (size.signed() matches Some(n) ==> {
                &&& context_window_in(info) matches Some(bits)
                &&& n < 0 ==> bits == n + 0x1_0000_0000_0000_0000
                &&& n >= 0 ==> bits == n
            })
        },
{
}

/// A user message among the response items does what the same message, at the
/// same time, does as an event message. Its role counts in any case.
pub proof fn law_user_messages_are_alike(
    state: FileStateView,
    item: JsonView,
    item_payload: JsonView,
    event: JsonView,
    event_payload: JsonView,
    role: Seq<char>,
    text: Seq<char>,
)
    requires
        is_event(item, "response_item"@, item_payload, "message"@),
        is_event(event, "event_msg"@, event_payload, "user_message"@),
        item_payload.text_at("role"@) == Some(role),
        lower(role) == lower("user"@),
        message_text(item_payload) == Some(text),
        event_payload.text_at("message"@) == Some(text),
        timestamp_member(item) == timestamp_member(event),
    ensures
        event_effect(state, item) == event_effect(state, event),
{
    lemma_names_differ();
}

/// Whether a message that reads `line` repeats the one before: it reads alike,
/// and lies less than three seconds apart as far as the times are known.
pub open spec fn repeats(
    state: FileStateView,
    line: Seq<char>,
    timestamp: Option<Timestamp>,
) -> bool {
    &&& state.last_user_message matches Some(last)
    &&& last.snippet == line
    &&& last.timestamp is Some && timestamp is Some ==> -3_000_000_000 < elapsed_nanos(
        timestamp->0,
        last.timestamp->0,
    ) < 3_000_000_000
}

/// The number after `n`, as long as there is one.
pub open spec fn number_after(n: u64) -> u64 {
    if n < u64::MAX {
        (n + 1) as u64
    } else {
        u64::MAX
    }
}

/// Every user message of a known session that is not blank, not injected and no
/// repeat is recorded: it is offered as the title, and recorded with the next
/// number and at its own time, or else at that of the answer before. Then it is
/// the current message and the last one.
pub proof fn law_user_message_is_recorded(
    state: FileStateView,
    value: JsonView,
    payload: JsonView,
    message: Seq<char>,
    session_id: Seq<char>,
    line: Seq<char>,
    title: Answer,
    recording: Answer,
)
    requires
        is_event(value, "event_msg"@, payload, "user_message"@),
        payload.text_at("message"@) == Some(message),
        snippet(message, 200) == Some(line),
        state.session_id == Some(session_id),
        !repeats(state, line, timestamp_member(value)),
        title.reply is Done,
        recording.reply is Done,
    ensures
        ({
            let begun = event_effect(state, value);
            let answers = seq![title, recording];
            let after = settled(begun.0, begun.1, answers);
            let number = number_after(state.current_message_seq);
            let at = match timestamp_member(value) {
                Some(own) => own,
                None => title.now,
            };
            let id = recording.reply->message_id;
            &&& begun.0 == (FileStateView { current_message_seq: number, ..state })
            &&& performed(begun.0, begun.1, answers) == seq![
                StorageActionView::SetSessionTitleIfEmpty { session_id, title: line },
                StorageActionView::RecordUserMessage { session_id, at, snippet: line, seq: number },
            ]
            &&& after == (
                FileStateView {
                    current_message_seq: number,
                    current_message_id: if id > 0 {
                        Some(id)
                    } else {
                        None
                    },
                    last_user_message: Some(
                        LastUserMessageView { timestamp: timestamp_member(value), snippet: line },
                    ),
                    ..state
                },
                ProgressView::Done,
            )
        }),
{
    lemma_names_differ();
    let begun = event_effect(state, value);
    let answers = seq![title, recording];
    reveal_with_fuel(settled, 3);
    reveal_with_fuel(performed, 3);
    assert(answers.skip(1)[0] == recording);
    assert(answers.skip(1).skip(1) =~= seq![]);
    assert(begun.1 is Perform);
    assert(performed(begun.0, begun.1, answers) =~= seq![
        StorageActionView::SetSessionTitleIfEmpty { session_id, title: line },
        StorageActionView::RecordUserMessage {
            session_id,
            at: match timestamp_member(value) {
                Some(own) => own,
                None => title.now,
            },
            snippet: line,
            seq: number_after(state.current_message_seq),
        },
    ]);
}

/// Every such message of a session that is not known yet waits for it: it is
/// the pending title, and the last of the pending messages, under the next
/// number. It is the last message, and there is no current one.
pub proof fn law_user_message_waits(
    state: FileStateView,
    value: JsonView,
    payload: JsonView,
    message: Seq<char>,
    line: Seq<char>,
)
    requires
        is_event(value, "event_msg"@, payload, "user_message"@),
        payload.text_at("message"@) == Some(message),
        snippet(message, 200) == Some(line),
        state.session_id is None,
        !repeats(state, line, timestamp_member(value)),
    ensures
        event_effect(state, value) == (
            FileStateView {
                current_message_seq: number_after(state.current_message_seq),
                current_message_id: None,
                pending_title: Some(line),
                pending_messages: state.pending_messages + seq![
                    PendingMessageView {
                        timestamp: timestamp_member(value),
                        snippet: line,
                        seq: number_after(state.current_message_seq),
                    },
                ],
                last_user_message: Some(
                    LastUserMessageView { timestamp: timestamp_member(value), snippet: line },
                ),
                ..state
            },
            ProgressView::Done,
        ),
{
    lemma_names_differ();
    let after = event_effect(state, value).0;
    assert(after.pending_messages =~= state.pending_messages + seq![
        PendingMessageView {
            timestamp: timestamp_member(value),
            snippet: line,
            seq: number_after(state.current_message_seq),
        },
    ]);
}

/// A user message does nothing where it has no text, is blank or injected, or
/// is a repeat.
pub proof fn law_other_user_messages_do_nothing(
    state: FileStateView,
    value: JsonView,
    payload: JsonView,
)
    requires
        is_event(value, "event_msg"@, payload, "user_message"@),
        payload.text_at("message"@) matches Some(message) ==> (snippet(
            message,
            200,
        ) matches Some(line) ==> repeats(state, line, timestamp_member(value))),
    ensures
        event_effect(state, value) == (state, ProgressView::Done),
{
    lemma_names_differ();
}

/// The state with a new note for the next turn.
pub open spec fn keeping_note(state: FileStateView, note: Seq<char>) -> FileStateView {
    FileStateView {
        pending_note: Some(note),
        pending_note_seq: number_after(state.pending_note_seq),
        ..state
    }
}

/// A message of the assistant among the response items does what the same
/// message, at the same time, does as an event message of the agent. Its role
/// counts in any case.
pub proof fn law_agent_messages_are_alike(
    state: FileStateView,
    item: JsonView,
    item_payload: JsonView,
    event: JsonView,
    event_payload: JsonView,
    role: Seq<char>,
    text: Seq<char>,
)
    requires
        is_event(item, "response_item"@, item_payload, "message"@),
        is_event(event, "event_msg"@, event_payload, "agent_message"@),
        item_payload.text_at("role"@) == Some(role),
        lower(role) == lower("assistant"@),
        message_text(item_payload) == Some(text),
        event_payload.text_at("message"@) == Some(text),
        timestamp_member(item) == timestamp_member(event),
    ensures
        event_effect(state, item) == event_effect(state, event),
{
    lemma_names_differ();
}

/// A message item does nothing where it has no role or no text, or where it is
/// by anyone but the user and the assistant.
pub proof fn law_other_message_items_do_nothing(
    state: FileStateView,
    value: JsonView,
    payload: JsonView,
)
    requires
        is_event(value, "response_item"@, payload, "message"@),
        message_text(payload) is Some ==> (payload.text_at("role"@) matches Some(role) ==> lower(
            role,
        ) != lower("user"@) && lower(role) != lower("assistant"@)),
    ensures
        event_effect(state, value) == (state, ProgressView::Done),
{
    lemma_names_differ();
}

/// A message of the agent becomes the summary of a known session, as of its
/// time where that is known, and then the note for the next turn. Where the
/// storage fails, it is no note either.
pub proof fn law_agent_message_is_the_summary(
    state: FileStateView,
    value: JsonView,
    payload: JsonView,
    message: Seq<char>,
    session_id: Seq<char>,
    line: Seq<char>,
    answer: Answer,
)
    requires
        is_event(value, "event_msg"@, payload, "agent_message"@),
        payload.text_at("message"@) == Some(message),
        snippet(message, 160) == Some(line),
        state.session_id == Some(session_id),
    ensures
        ({
            let begun = event_effect(state, value);
            let after = settled(begun.0, begun.1, seq![answer]);
            &&& begun.0 == state
            &&& begun.1 is Perform
            &&& timestamp_member(value) matches Some(at) ==> begun.1->action == (
            StorageActionView::SetSessionSummary { session_id, summary: line, at })
            &&& timestamp_member(value) is None ==> begun.1->action == (
            StorageActionView::SetSessionSummaryOnly { session_id, summary: line })
            &&& answer.reply is Done ==> after == (keeping_note(state, line), ProgressView::Done)
            &&& answer.reply is Failed ==> after == (state, ProgressView::Failed)
        }),
{
    lemma_names_differ();
    reveal_with_fuel(settled, 2);
}

/// A message of the agent waits as the summary of a session that is not known
/// yet, and is the note for the next turn. One that is blank, injected or has
/// no text does nothing.
pub proof fn law_agent_message_waits(
    state: FileStateView,
    value: JsonView,
    payload: JsonView,
    message: Seq<char>,
)
    requires
        is_event(value, "event_msg"@, payload, "agent_message"@),
    ensures
        payload.text_at("message"@) is None ==> event_effect(state, value) == (
            state,
            ProgressView::Done,
        ),
        payload.text_at("message"@) == Some(message) && snippet(message, 160) is None
            ==> event_effect(state, value) == (state, ProgressView::Done),
        payload.text_at("message"@) == Some(message) && state.session_id is None ==> (snippet(
            message,
            160,
        ) matches Some(line) ==> event_effect(state, value) == (
            keeping_note(FileStateView { pending_summary: Some(line), ..state }, line),
            ProgressView::Done,
        )),
{
    lemma_names_differ();
}

/// Reasoning is noted, from event messages and from response items, and does
/// nothing else.
pub proof fn law_reasoning_gives_a_note(
    state: FileStateView,
    value: JsonView,
    payload: JsonView,
    text: Seq<char>,
)
    ensures
        is_event(value, "event_msg"@, payload, "agent_reasoning"@) ==> {
            &&& payload.text_at("text"@) is None ==> event_effect(state, value) == (
                state,
                ProgressView::Done,
            )
            &&& payload.text_at("text"@) == Some(text) ==> event_effect(state, value) == (
                match snippet(text, 160) {
                    Some(line) => keeping_note(state, reasoning_note(line)),
                    None => state,
                },
                ProgressView::Done,
            )
        },
        is_event(value, "response_item"@, payload, "reasoning"@) ==> event_effect(state, value) == (
            match reasoning_note_in(payload) {
                Some(note) => keeping_note(state, note),
                None => state,
            },
            ProgressView::Done,
        ),
{
    lemma_names_differ();
}

/// What asks the storage to record the use of a tool, and nothing more. Without
/// a session or a time nothing is asked.
pub open spec fn asks_for_tool(
    state: FileStateView,
    value: JsonView,
    tool_name: Seq<char>,
    progress: ProgressView,
) -> bool {
    if state.session_id is Some && timestamp_member(value) is Some {
        progress == (ProgressView::Perform {
            action: StorageActionView::RecordToolCall {
                session_id: state.session_id->0,
                at: timestamp_member(value)->0,
                tool_name,
            },
            follow_up: FollowUpView::Nothing,
        })
    } else {
        progress is Done
    }
}

/// A call of a tool with a name is noted and recorded under that name. One
/// without a name does nothing.
pub proof fn law_tool_calls_are_recorded(
    state: FileStateView,
    value: JsonView,
    payload: JsonView,
    name: Seq<char>,
)
    requires
        is_event(value, "response_item"@, payload, "function_call"@) || is_event(
            value,
            "response_item"@,
            payload,
            "custom_tool_call"@,
        ),
    ensures
        payload.text_at("name"@) is None ==> event_effect(state, value) == (
            state,
            ProgressView::Done,
        ),
        payload.text_at("name"@) == Some(name) ==> {
            &&& tool_call_note_in(payload) is Some
            &&& event_effect(state, value).0 == keeping_note(state, tool_call_note_in(payload)->0)
            &&& asks_for_tool(state, value, name, event_effect(state, value).1)
        },
{
    lemma_names_differ();
}

/// A web search is noted, and recorded as the tool `web_search`. A call of the
/// local shell is recorded under the type of its action, or as `local_shell`
/// where that is not given, and is not noted.
pub proof fn law_other_tools_are_recorded(
    state: FileStateView,
    value: JsonView,
    payload: JsonView,
    action: Seq<char>,
)
    ensures
        is_event(value, "response_item"@, payload, "web_search_call"@) ==> {
            &&& event_effect(state, value).0 == keeping_note(state, web_search_note_in(payload))
            &&& asks_for_tool(state, value, "web_search"@, event_effect(state, value).1)
        },
        is_event(value, "response_item"@, payload, "local_shell_call"@) ==> {
            &&& event_effect(state, value).0 == state
            &&& payload.text_at2("action"@, "type"@) == Some(action) ==> asks_for_tool(
                state,
                value,
                action,
                event_effect(state, value).1,
            )
            &&& payload.text_at2("action"@, "type"@) is None ==> asks_for_tool(
                state,
                value,
                "local_shell"@,
                event_effect(state, value).1,
            )
        },
{
    lemma_names_differ();
}

/// The context of a turn sets the model where it names one, and the effort in
/// any case: the effort after it depends on its payload alone, and is none
/// where the payload has no text for it, or a blank one. It changes nothing
/// else and asks for nothing.
pub proof fn law_turn_contexts(
    state: FileStateView,
    other: FileStateView,
    value: JsonView,
    payload: JsonView,
    text: Seq<char>,
)
    requires
        value.text_at("type"@) == Some("turn_context"@),
        value.get("payload"@) == Some(payload),
    ensures
        ({
            let after = event_effect(state, value).0;
            &&& event_effect(state, value).1 is Done
            &&& after.current_effort == event_effect(other, value).0.current_effort
            &&& payload.text_at("effort"@) is None ==> after.current_effort is None
            &&& payload.text_at("effort"@) == Some(text) && trim(text).len() == 0
                ==> after.current_effort is None
            &&& payload.text_at("effort"@) == Some(text) && trim(text).len() > 0
                ==> after.current_effort == Some(trim(text))
            &&& payload.text_at("model"@) == Some(text) ==> after.current_model == Some(
                model_id(text),
            )
            &&& payload.text_at("model"@) is None ==> after.current_model == state.current_model
            &&& after == (FileStateView {
                current_model: after.current_model,
                current_effort: after.current_effort,
                ..state
            })
        }),
{
    lemma_names_differ();
}

/// The description of a session makes it the session of the log, and is handed
/// to the storage. A description that does not name a session, or whose time is
/// not known, does nothing.
pub proof fn law_session_descriptions(state: FileStateView, value: JsonView, meta: SessionMetaView)
    requires
        value.text_at("type"@) == Some("session_meta"@),
    ensures
        meta_in(value, timestamp_member(value)) is None ==> event_effect(state, value) == (
            state,
            ProgressView::Done,
        ),
        meta_in(value, timestamp_member(value)) == Some(meta) ==> {
            &&& event_effect(state, value).0 == (FileStateView {
                session_id: Some(meta.session_id),
                ..state
            })
            &&& event_effect(state, value).1 == (ProgressView::Perform {
                action: StorageActionView::UpsertSessionMeta { meta },
                follow_up: FollowUpView::ReleaseTitle {
                    session_id: meta.session_id,
                    at: meta.last_event_at,
                },
            })
        },
{
    lemma_names_differ();
}

/// An event without a payload does nothing, and neither does one whose payload
/// is of a type that is not known.
pub proof fn law_unknown_payloads_do_nothing(
    state: FileStateView,
    value: JsonView,
    payload: JsonView,
)
    ensures
        value.get("payload"@) is None ==> event_effect(state, value) == (state, ProgressView::Done),
        value.text_at("type"@) == Some("event_msg"@) && value.get("payload"@) == Some(payload)
            && payload.text_at("type"@) != Some("token_count"@) && payload.text_at("type"@) != Some(
            "user_message"@,
        ) && payload.text_at("type"@) != Some("agent_message"@) && payload.text_at("type"@) != Some(
            "agent_reasoning"@,
        ) ==> event_effect(state, value) == (state, ProgressView::Done),
        value.text_at("type"@) == Some("response_item"@) && value.get("payload"@) == Some(payload)
            && payload.text_at("type"@) != Some("message"@) && payload.text_at("type"@) != Some(
            "function_call"@,
        ) && payload.text_at("type"@) != Some("custom_tool_call"@) && payload.text_at("type"@)
            != Some("web_search_call"@) && payload.text_at("type"@) != Some("local_shell_call"@)
            && payload.text_at("type"@) != Some("reasoning"@) ==> event_effect(state, value) == (
            state,
            ProgressView::Done,
        ),
{
    lemma_names_differ();
}

/// A line is its event: it does what the value that it spells does. Blank lines,
/// and lines that spell none, do nothing.
pub proof fn law_lines_are_their_events(state: FileStateView, line: Seq<char>)
    ensures
        trim(line).len() == 0 || json_of_text(line) is None ==> line_effect(state, line) == (
            state,
            ProgressView::Done,
        ),
        trim(line).len() > 0 ==> (json_of_text(line) matches Some(value) ==> line_effect(
            state,
            line,
        ) == event_effect(state, value)),
{
}

/// What follows a recorded message, turn, tool or summary. Each is remembered,
/// counted or noted as what it was, and nothing else changes.
pub proof fn law_answers_are_taken_in(
    state: FileStateView,
    message_id: i64,
    now: Timestamp,
    session_id: Seq<char>,
    timestamp: Option<Timestamp>,
    line: Seq<char>,
    seq: u64,
    totals: TokenTotals,
)
    ensures
        ({
            let done = StorageReply::Done { message_id };
            &&& resume_effect(state, FollowUpView::Nothing, done, now) == (
                state,
                ProgressView::Done,
            )
            &&& resume_effect(
                state,
                FollowUpView::RecordMessage { session_id, timestamp, snippet: line, seq },
                done,
                now,
            ) == (
                state,
                ProgressView::Perform {
                    action: StorageActionView::RecordUserMessage {
                        session_id,
                        at: if timestamp is Some {
                            timestamp->0
                        } else {
                            now
                        },
                        snippet: line,
                        seq,
                    },
                    follow_up: FollowUpView::RememberMessage { timestamp, snippet: line },
                },
            )
            &&& resume_effect(
                state,
                FollowUpView::RememberMessage { timestamp, snippet: line },
                done,
                now,
            ) == (
                FileStateView {
                    current_message_id: if message_id > 0 {
                        Some(message_id)
                    } else {
                        None
                    },
                    last_user_message: Some(LastUserMessageView { timestamp, snippet: line }),
                    ..state
                },
                ProgressView::Done,
            )
            &&& resume_effect(state, FollowUpView::TakeNote { note: line }, done, now) == (
                keeping_note(state, line),
                ProgressView::Done,
            )
            &&& resume_effect(state, FollowUpView::CommitTurn { totals }, done, now) == (
                FileStateView {
                    last_committed: totals,
                    used_note_seq: if state.used_note_seq < state.pending_note_seq {
                        state.pending_note_seq
                    } else {
                        state.used_note_seq
                    },
                    ..state
                },
                ProgressView::Done,
            )
        }),
{
}

/// What was pending is handed over one thing after another: the title, then the
/// summary, then the messages from the first to the last. Each is taken out
/// when it is handed over, and what is not there is passed over.
pub proof fn law_pending_things_follow_each_other(
    state: FileStateView,
    session_id: Seq<char>,
    at: Timestamp,
    message_id: i64,
    now: Timestamp,
)
    ensures
        ({
            let done = StorageReply::Done { message_id };
            let titled = FollowUpView::ReleaseTitle { session_id, at };
            let summed = FollowUpView::ReleaseSummary { session_id, at };
            let told = FollowUpView::ReleaseMessages { session_id, at };
            &&& state.pending_title matches Some(title) ==> resume_effect(state, titled, done, now)
                == (
                FileStateView { pending_title: None, ..state },
                ProgressView::Perform {
                    action: StorageActionView::SetSessionTitleIfEmpty { session_id, title },
                    follow_up: summed,
                },
            )
            &&& state.pending_title is None ==> resume_effect(state, titled, done, now)
                == resume_effect(state, summed, done, now)
            &&& state.pending_summary matches Some(summary) ==> resume_effect(
                state,
                summed,
                done,
                now,
            ) == (
                FileStateView { pending_summary: None, ..state },
                ProgressView::Perform {
                    action: StorageActionView::SetSessionSummary { session_id, summary, at },
                    follow_up: told,
                },
            )
            &&& state.pending_summary is None ==> resume_effect(state, summed, done, now)
                == resume_effect(state, told, done, now)
            &&& state.pending_messages.len() == 0 ==> resume_effect(state, told, done, now) == (
                state,
                ProgressView::Done,
            )
            &&& state.pending_messages.len() > 0 ==> resume_effect(state, told, done, now) == (
                FileStateView { pending_messages: seq![], ..state },
                message_handed_over(
                    session_id,
                    at,
                    state.pending_messages,
                    state.current_message_id,
                ),
            )
        }),
{
}

/// What hands over the first of the messages, and leaves the others.
pub open spec fn message_handed_over(
    session_id: Seq<char>,
    at: Timestamp,
    messages: Seq<PendingMessageView>,
    latest_id: Option<i64>,
) -> ProgressView {
    ProgressView::Perform {
        action: StorageActionView::RecordUserMessage {
            session_id,
            at: if messages[0].timestamp is Some {
                messages[0].timestamp->0
            } else {
                at
            },
            snippet: messages[0].snippet,
            seq: messages[0].seq,
        },
        follow_up: FollowUpView::NextMessage {
            session_id,
            at,
            remaining: messages.drop_first(),
            latest_id,
        },
    }
}

/// The pending messages follow each other until none is left. Then the one that
/// was given an identifier last is the current one.
pub proof fn law_pending_messages_follow_each_other(
    state: FileStateView,
    session_id: Seq<char>,
    at: Timestamp,
    remaining: Seq<PendingMessageView>,
    latest_id: Option<i64>,
    message_id: i64,
    now: Timestamp,
)
    ensures
        ({
            let latest = if message_id > 0 {
                Some(message_id)
            } else {
                latest_id
            };
            let after = resume_effect(
                state,
                FollowUpView::NextMessage { session_id, at, remaining, latest_id },
                StorageReply::Done { message_id },
                now,
            );
            &&& remaining.len() == 0 ==> after == (
                FileStateView { current_message_id: latest, ..state },
                ProgressView::Done,
            )
            &&& remaining.len() > 0 ==> after == (
                state,
                message_handed_over(session_id, at, remaining, latest),
            )
        }),
{
}

} // verus!
