use codex_usage_proxy::ingest::{process_line, resume};
use codex_usage_proxy::progress::Progress;
use codex_usage_proxy::state::FileState;
use codex_usage_proxy::storage::{StorageAction, StorageReply};
use codex_usage_proxy::time::{parse_timestamp, Timestamp};

const NOW: &str = "2025-06-01T00:00:00Z";

/// A storage that answers one reply after another, and then with success.
struct Fake {
    replies: Vec<StorageReply>,
    performed: Vec<String>,
}

fn fake(replies: Vec<StorageReply>) -> Fake {
    Fake { replies, performed: Vec::new() }
}

fn now() -> Timestamp {
    parse_timestamp(NOW).unwrap()
}

fn clock(at: Timestamp) -> i64 {
    at.secs() % 3600
}

fn text(value: &Option<String>) -> &str {
    value.as_deref().unwrap_or("-")
}

fn describe(action: &StorageAction) -> String {
    match action {
        StorageAction::UpsertSessionMeta { meta } => format!("meta {}", meta.session_id),
        StorageAction::SetSessionTitleIfEmpty { session_id, title } => {
            format!("title {} {}", session_id, title)
        }
        StorageAction::SetSessionSummary { session_id, summary, at } => {
            format!("summary {} {} @{}", session_id, summary, clock(*at))
        }
        StorageAction::SetSessionSummaryOnly { session_id, summary } => {
            format!("summary {} {}", session_id, summary)
        }
        StorageAction::RecordUserMessage { session_id, at, snippet, seq } => {
            format!("message {} {} {} @{}", session_id, seq, snippet, clock(*at))
        }
        StorageAction::RecordTurn { turn } => format!(
            "turn {} {} {} {} {:?} {}/{}/{}/{}/{} {:?} @{}",
            turn.session_id,
            turn.model,
            text(&turn.note),
            text(&turn.effort),
            turn.context_window,
            turn.usage.input_tokens,
            turn.usage.cached_input_tokens,
            turn.usage.output_tokens,
            turn.usage.reasoning_output_tokens,
            turn.usage.total_tokens,
            turn.message_id,
            clock(turn.at)
        ),
        StorageAction::RecordToolCall { session_id, at, tool_name } => {
            format!("tool {} {} @{}", session_id, tool_name, clock(*at))
        }
    }
}

/// Handles a line, and says whether its event went through.
fn handle(state: &mut FileState, storage: &mut Fake, line: &str) -> bool {
    let mut progress = process_line(state, line);
    loop {
        match progress {
            Progress::Done => return true,
            Progress::Failed => return false,
            Progress::Perform { action, follow_up } => {
                let reply = if storage.replies.is_empty() {
                    StorageReply::Done { message_id: 0 }
                } else {
                    storage.replies.remove(0)
                };
                if reply != StorageReply::Failed {
                    storage.performed.push(describe(&action));
                }
                progress = resume(state, follow_up, reply, now());
            }
        }
    }
}

fn run(state: &mut FileState, lines: &[String]) -> Vec<String> {
    let mut storage = fake(Vec::new());
    for line in lines {
        assert!(handle(state, &mut storage, line));
    }
    storage.performed
}

fn at(second: i64) -> String {
    format!("2025-01-02T03:00:{:02}Z", second)
}

fn meta(second: i64) -> String {
    format!(
        r#"{{"type":"session_meta","timestamp":"{}","payload":{{"id":"s1"}}}}"#,
        at(second)
    )
}

fn event(second: i64, kind: &str, payload: &str) -> String {
    format!(r#"{{"type":"{}","timestamp":"{}","payload":{}}}"#, kind, at(second), payload)
}

fn user(second: i64, message: &str) -> String {
    event(second, "event_msg", &format!(r#"{{"type":"user_message","message":"{}"}}"#, message))
}

fn agent(second: i64, message: &str) -> String {
    event(second, "event_msg", &format!(r#"{{"type":"agent_message","message":"{}"}}"#, message))
}

fn context(model: &str) -> String {
    event(0, "turn_context", &format!(r#"{{"model":"{}","effort":" high "}}"#, model))
}

fn tokens(second: i64, input: u64, output: u64) -> String {
    let payload = format!(
        r#"{{"type":"token_count","info":{{"model_context_window":1000,"total_token_usage":
        {{"input_tokens":{},"output_tokens":{},"total_tokens":{}}}}}}}"#,
        input,
        output,
        input + output
    )
    .replace('\n', "");
    event(second, "event_msg", &payload)
}

/// A log whose session and model are known.
fn known() -> FileState {
    let mut state = FileState::new();
    run(&mut state, &[meta(0), context("openai/gpt-5")]);
    state
}

#[test]
fn lines_that_tell_nothing_do_nothing() {
    let mut state = FileState::new();
    let lines = [
        "",
        "   ",
        "not json",
        "[]",
        "{}",
        r#"{"type":5}"#,
        r#"{"type":"unknown","payload":{}}"#,
        r#"{"type":"event_msg"}"#,
        r#"{"type":"event_msg","payload":{"type":"unknown"}}"#,
        r#"{"type":"event_msg","payload":{}}"#,
        r#"{"type":"response_item","payload":{"type":"unknown"}}"#,
        r#"{"type":"response_item","payload":[]}"#,
        r#"{"type":"session_meta"}"#,
        r#"{"type":"session_meta","payload":{"id":"s1"}}"#,
        r#"{"type":"turn_context"}"#,
    ];
    for line in lines {
        assert_eq!(run(&mut state, &[line.to_string()]), Vec::<String>::new());
    }
    assert_eq!(format!("{:?}", state), format!("{:?}", FileState::new()));
}

#[test]
fn a_session_becomes_known() {
    let mut state = FileState::new();
    assert_eq!(run(&mut state, &[meta(4)]), vec!["meta s1"]);
    assert_eq!(state.session_id.as_deref(), Some("s1"));
}

#[test]
fn the_context_of_a_turn_sets_model_and_effort() {
    let mut state = known();
    assert_eq!(state.current_model.as_deref(), Some("gpt-5"));
    assert_eq!(state.current_effort.as_deref(), Some("high"));
    run(&mut state, &[event(0, "turn_context", r#"{"effort":"  "}"#)]);
    assert_eq!(state.current_model.as_deref(), Some("gpt-5"));
    assert_eq!(state.current_effort, None);
    run(&mut state, &[event(0, "turn_context", r#"{"model":"o3"}"#)]);
    assert_eq!(state.current_model.as_deref(), Some("o3"));
}

#[test]
fn a_user_message_gives_the_title_and_is_recorded() {
    let mut state = known();
    let mut storage = fake(vec![
        StorageReply::Done { message_id: 0 },
        StorageReply::Done { message_id: 17 },
    ]);
    assert!(handle(&mut state, &mut storage, &user(5, "Fix  it")));
    assert_eq!(storage.performed, vec!["title s1 Fix it", "message s1 1 Fix it @5"]);
    assert_eq!(state.current_message_id, Some(17));
    assert_eq!(state.current_message_seq, 1);
}

#[test]
fn a_message_without_a_time_is_recorded_at_present() {
    let mut state = known();
    let line = r#"{"type":"event_msg","payload":{"type":"user_message","message":"x"}}"#;
    assert_eq!(
        run(&mut state, &[line.to_string()]),
        vec!["title s1 x".to_string(), format!("message s1 1 x @{}", clock(now()))]
    );
    assert_eq!(state.current_message_id, None);
}

#[test]
fn messages_wait_for_their_session() {
    let mut state = FileState::new();
    let none = run(&mut state, &[user(1, "first"), user(2, "second"), agent(3, "done")]);
    assert_eq!(none, Vec::<String>::new());
    assert_eq!(state.pending_title.as_deref(), Some("second"));
    assert_eq!(state.pending_summary.as_deref(), Some("done"));
    assert_eq!(state.pending_messages.len(), 2);
    let mut storage = fake(vec![
        StorageReply::Done { message_id: 0 },
        StorageReply::Done { message_id: 0 },
        StorageReply::Done { message_id: 0 },
        StorageReply::Done { message_id: 8 },
        StorageReply::Done { message_id: 0 },
    ]);
    assert!(handle(&mut state, &mut storage, &meta(9)));
    assert_eq!(
        storage.performed,
        vec![
            "meta s1",
            "title s1 second",
            "summary s1 done @9",
            "message s1 1 first @1",
            "message s1 2 second @2",
        ]
    );
    assert_eq!(state.current_message_id, Some(8));
    assert_eq!(state.pending_title, None);
    assert_eq!(state.pending_summary, None);
    assert!(state.pending_messages.is_empty());
}

#[test]
fn a_pending_message_without_a_time_takes_that_of_the_session() {
    let mut state = FileState::new();
    let line = r#"{"type":"event_msg","payload":{"type":"user_message","message":"x"}}"#;
    run(&mut state, &[line.to_string()]);
    assert_eq!(run(&mut state, &[meta(9)]), vec!["meta s1", "title s1 x", "message s1 1 x @9"]);
}

#[test]
fn what_was_handed_over_when_the_storage_failed_is_gone() {
    let mut state = FileState::new();
    run(&mut state, &[user(1, "first"), agent(3, "done")]);
    let mut storage = fake(vec![StorageReply::Done { message_id: 0 }, StorageReply::Failed]);
    assert!(!handle(&mut state, &mut storage, &meta(9)));
    assert_eq!(storage.performed, vec!["meta s1"]);
    assert_eq!(state.pending_title, None);
    assert_eq!(state.pending_summary.as_deref(), Some("done"));
    assert_eq!(state.pending_messages.len(), 1);
    let mut storage = fake(vec![
        StorageReply::Done { message_id: 0 },
        StorageReply::Done { message_id: 0 },
        StorageReply::Failed,
    ]);
    assert!(!handle(&mut state, &mut storage, &meta(9)));
    assert_eq!(storage.performed, vec!["meta s1", "summary s1 done @9"]);
    assert!(state.pending_messages.is_empty());
}

#[test]
fn repeated_messages_count_once() {
    let mut state = known();
    let reported_twice = [
        user(5, "Fix it"),
        event(
            7,
            "response_item",
            r#"{"type":"message","role":"User","content":[{"text":" Fix "},{"text":"it"}]}"#,
        ),
    ];
    assert_eq!(
        run(&mut state, &reported_twice),
        vec!["title s1 Fix it", "message s1 1 Fix it @5"]
    );
    assert_eq!(
        run(&mut state, &[user(8, "Fix it")]),
        vec!["title s1 Fix it", "message s1 2 Fix it @8"]
    );
    assert_eq!(run(&mut state, &[user(6, "Fix it")]), Vec::<String>::new());
    assert_eq!(
        run(&mut state, &[user(6, "Other")]),
        vec!["title s1 Other", "message s1 3 Other @6"]
    );
}

#[test]
fn repeats_are_less_than_three_seconds_apart() {
    let mut state = known();
    run(&mut state, &[user(10, "x")]);
    let later = user(12, "x").replace(":12Z", ":12.999999999Z");
    assert_eq!(run(&mut state, &[later]), Vec::<String>::new());
    let earlier = user(7, "x").replace(":07Z", ":07.000000001Z");
    assert_eq!(run(&mut state, &[earlier]), Vec::<String>::new());
    assert_eq!(run(&mut state, &[user(13, "x")]).len(), 2);
}

#[test]
fn pending_messages_count_once_too() {
    let mut state = FileState::new();
    run(&mut state, &[user(5, "x"), user(5, "x")]);
    assert_eq!(state.pending_messages.len(), 1);
    assert_eq!(state.current_message_seq, 1);
}

#[test]
fn a_failed_message_is_numbered_but_not_remembered() {
    let mut state = known();
    let mut storage = fake(vec![StorageReply::Done { message_id: 0 }, StorageReply::Failed]);
    assert!(!handle(&mut state, &mut storage, &user(5, "x")));
    assert_eq!(state.current_message_seq, 1);
    assert!(state.last_user_message.is_none());
    assert_eq!(run(&mut state, &[user(5, "x")]), vec!["title s1 x", "message s1 2 x @5"]);
}

#[test]
fn an_agent_message_gives_summary_and_note() {
    let mut state = known();
    assert_eq!(run(&mut state, &[agent(5, "All  done")]), vec!["summary s1 All done @5"]);
    assert_eq!(state.pending_note.as_deref(), Some("All done"));
    assert_eq!(state.pending_note_seq, 1);
    let line = r#"{"type":"event_msg","payload":{"type":"agent_message","message":"y"}}"#;
    assert_eq!(run(&mut state, &[line.to_string()]), vec!["summary s1 y"]);
    let mut storage = fake(vec![StorageReply::Failed]);
    assert!(!handle(&mut state, &mut storage, &agent(6, "lost")));
    assert_eq!(state.pending_note.as_deref(), Some("y"));
    assert_eq!(state.pending_note_seq, 2);
}

#[test]
fn an_assistant_item_gives_summary_and_note() {
    let mut state = known();
    let line = event(
        5,
        "response_item",
        r#"{"type":"message","role":"ASSISTANT","content":"hello there"}"#,
    );
    assert_eq!(run(&mut state, &[line]), vec!["summary s1 hello there @5"]);
    assert_eq!(state.pending_note.as_deref(), Some("hello there"));
    let other =
        event(5, "response_item", r#"{"type":"message","role":"developer","content":"x"}"#);
    assert_eq!(run(&mut state, &[other]), Vec::<String>::new());
}

#[test]
fn reasoning_gives_a_note() {
    let mut state = known();
    run(&mut state, &[event(5, "event_msg", r#"{"type":"agent_reasoning","text":"**Plan**"}"#)]);
    assert_eq!(state.pending_note.as_deref(), Some("reasoning: Plan"));
    let line = event(5, "response_item", r#"{"type":"reasoning","summary":[{"text":"Next"}]}"#);
    run(&mut state, &[line]);
    assert_eq!(state.pending_note.as_deref(), Some("reasoning: Next"));
    assert_eq!(state.pending_note_seq, 2);
}

#[test]
fn the_use_of_tools_is_recorded() {
    let mut state = known();
    let lines = [
        event(
            1,
            "response_item",
            r#"{"type":"function_call","name":"shell","arguments":"{\"command\":\"ls\"}"}"#,
        ),
        event(2, "response_item", r#"{"type":"custom_tool_call","name":"patch","input":"p"}"#),
        event(3, "response_item", r#"{"type":"web_search_call","action":{"query":"q"}}"#),
        event(4, "response_item", r#"{"type":"local_shell_call","action":{"type":"exec"}}"#),
        event(5, "response_item", r#"{"type":"local_shell_call"}"#),
        event(6, "response_item", r#"{"type":"function_call"}"#),
    ];
    let mut notes = Vec::new();
    let mut performed = Vec::new();
    for line in lines {
        performed.extend(run(&mut state, &[line]));
        notes.push(state.pending_note.clone().unwrap());
    }
    assert_eq!(
        performed,
        vec![
            "tool s1 shell @1",
            "tool s1 patch @2",
            "tool s1 web_search @3",
            "tool s1 exec @4",
            "tool s1 local_shell @5",
        ]
    );
    assert_eq!(
        notes,
        vec![
            "tool: shell (ls)",
            "tool: patch (p)",
            "web_search: q",
            "web_search: q",
            "web_search: q",
            "web_search: q",
        ]
    );
}

#[test]
fn tools_are_not_recorded_without_session_or_time() {
    let call = r#"{"type":"function_call","name":"shell"}"#;
    let mut state = FileState::new();
    assert_eq!(run(&mut state, &[event(1, "response_item", call)]), Vec::<String>::new());
    assert_eq!(state.pending_note.as_deref(), Some("tool: shell"));
    let mut state = known();
    let line = format!(r#"{{"type":"response_item","payload":{}}}"#, call);
    assert_eq!(run(&mut state, &[line]), Vec::<String>::new());
}

#[test]
fn turns_have_the_tokens_that_are_new() {
    let mut state = known();
    let lines =
        [tokens(1, 100, 20), tokens(2, 100, 20), agent(3, "working"), tokens(4, 150, 25)];
    assert_eq!(
        run(&mut state, &lines),
        vec![
            "turn s1 gpt-5 - high Some(1000) 100/0/20/0/120 None @1",
            "summary s1 working @3",
            "turn s1 gpt-5 working high Some(1000) 50/0/5/0/55 None @4",
        ]
    );
    assert_eq!(state.last_committed, state.last_seen);
    assert_eq!(state.last_seen.total_tokens, 175);
}

#[test]
fn a_note_goes_with_one_turn() {
    let mut state = known();
    run(&mut state, &[agent(1, "note"), tokens(2, 1, 1)]);
    assert_eq!(
        run(&mut state, &[tokens(3, 2, 2)]),
        vec!["turn s1 gpt-5 - high Some(1000) 1/0/1/0/2 None @3"]
    );
}

#[test]
fn a_failed_turn_is_made_up_for() {
    let mut state = known();
    let mut storage = fake(vec![StorageReply::Failed]);
    assert!(!handle(&mut state, &mut storage, &tokens(1, 10, 5)));
    assert_eq!(state.last_seen.total_tokens, 15);
    assert!(state.last_committed.is_zero());
    assert_eq!(run(&mut state, &[tokens(2, 10, 5)]), Vec::<String>::new());
    assert_eq!(
        run(&mut state, &[tokens(3, 11, 5)]),
        vec!["turn s1 gpt-5 - high Some(1000) 11/0/5/0/16 None @3"]
    );
}

#[test]
fn lower_totals_start_the_count_anew() {
    let mut state = known();
    run(&mut state, &[tokens(1, 100, 20)]);
    assert_eq!(run(&mut state, &[tokens(2, 10, 30)]), Vec::<String>::new());
    assert_eq!(state.last_committed.input_tokens, 10);
    assert_eq!(
        run(&mut state, &[tokens(3, 12, 31)]),
        vec!["turn s1 gpt-5 - high Some(1000) 2/0/1/0/3 None @3"]
    );
}

#[test]
fn turns_need_model_session_and_time() {
    let mut state = FileState::new();
    assert_eq!(run(&mut state, &[tokens(1, 5, 5)]), Vec::<String>::new());
    run(&mut state, &[meta(0)]);
    assert_eq!(run(&mut state, &[tokens(2, 6, 6)]), Vec::<String>::new());
    run(&mut state, &[context("m")]);
    let timeless = tokens(3, 7, 7).replace(r#""timestamp":"2025-01-02T03:00:03Z","#, "");
    assert_eq!(run(&mut state, &[timeless]), Vec::<String>::new());
    assert_eq!(
        run(&mut state, &[tokens(4, 8, 8)]),
        vec!["turn s1 m - high Some(1000) 8/0/8/0/16 None @4"]
    );
}

#[test]
fn reports_without_totals_do_nothing() {
    let mut state = known();
    let lines = [
        event(1, "event_msg", r#"{"type":"token_count"}"#),
        event(1, "event_msg", r#"{"type":"token_count","info":null}"#),
        event(1, "event_msg", r#"{"type":"token_count","info":{}}"#),
        event(1, "event_msg", r#"{"type":"token_count","info":{"total_token_usage":{}}}"#),
    ];
    assert_eq!(run(&mut state, &lines), Vec::<String>::new());
    assert!(state.last_seen.is_zero());
}

#[test]
fn context_windows_are_read_as_unsigned() {
    let mut state = known();
    let negative = tokens(1, 1, 1).replace(":1000,", ":-1,");
    assert_eq!(
        run(&mut state, &[negative]),
        vec!["turn s1 gpt-5 - high Some(18446744073709551615) 1/0/1/0/2 None @1"]
    );
    let odd = tokens(2, 2, 2).replace(":1000,", ":1.5,");
    assert_eq!(
        run(&mut state, &[odd]),
        vec!["turn s1 gpt-5 - high None 1/0/1/0/2 None @2"]
    );
}

#[test]
fn turns_name_the_current_message() {
    let mut state = known();
    let mut storage = fake(vec![
        StorageReply::Done { message_id: 1 },
        StorageReply::Done { message_id: 23 },
    ]);
    assert!(handle(&mut state, &mut storage, &user(1, "go")));
    assert_eq!(
        run(&mut state, &[tokens(2, 1, 0)]),
        vec!["turn s1 gpt-5 - high Some(1000) 1/0/0/0/1 Some(23) @2"]
    );
}

#[test]
fn recorded_turns_add_up() {
    let mut state = known();
    let mut performed = Vec::new();
    for step in 1..=20_u64 {
        let replies = match step % 3 {
            0 => vec![StorageReply::Failed],
            _ => vec![StorageReply::Done { message_id: 0 }],
        };
        let mut storage = fake(replies);
        handle(&mut state, &mut storage, &tokens(step as i64, step * step, 0));
        performed.extend(storage.performed);
    }
    let mut recorded: u64 = 0;
    for turn in &performed {
        let usage = turn.split(' ').nth(6).unwrap();
        recorded += usage.split('/').next().unwrap().parse::<u64>().unwrap();
    }
    assert_eq!(performed.len(), 14);
    assert_eq!(recorded, 400);
    assert_eq!(state.last_committed.input_tokens, 400);
}

#[test]
fn messages_are_numbered_one_by_one() {
    let mut state = FileState::new();
    run(&mut state, &[user(1, "a"), user(1, "a"), user(1, "b"), agent(1, "x"), user(9, "a")]);
    let mut numbers: Vec<u64> = Vec::new();
    for message in &state.pending_messages {
        numbers.push(message.seq);
    }
    assert_eq!(numbers, vec![1, 2, 3]);
    assert_eq!(state.current_message_seq, 3);
}

#[test]
fn the_same_report_again_does_nothing() {
    for reply in [StorageReply::Done { message_id: 0 }, StorageReply::Failed] {
        let mut state = known();
        let mut storage = fake(vec![reply]);
        handle(&mut state, &mut storage, &tokens(1, 10, 5));
        let before = format!("{:?}", state);
        assert_eq!(run(&mut state, &[tokens(2, 10, 5)]), Vec::<String>::new());
        assert_eq!(format!("{:?}", state), before);
    }
}

#[test]
fn events_change_only_what_they_are_about() {
    let lines = [
        user(1, "hello"),
        agent(2, "working"),
        event(3, "response_item", r#"{"type":"function_call","name":"ls"}"#),
        event(4, "event_msg", r#"{"type":"agent_reasoning","text":"hm"}"#),
    ];
    let mut state = known();
    run(&mut state, &[tokens(0, 3, 4)]);
    state.last_offset = 99;
    for line in lines {
        let notes: u64 = state.pending_note_seq;
        let (seen, committed, used) =
            (state.last_seen, state.last_committed, state.used_note_seq);
        run(&mut state, &[line]);
        assert_eq!(state.last_offset, 99);
        assert_eq!((state.last_seen, state.last_committed), (seen, committed));
        assert_eq!(state.used_note_seq, used);
        assert_eq!(state.session_id.as_deref(), Some("s1"));
        assert_eq!(state.current_model.as_deref(), Some("gpt-5"));
        assert_eq!(state.current_effort.as_deref(), Some("high"));
        assert!(state.pending_note_seq == notes || state.pending_note_seq == notes + 1);
    }
    assert_eq!(state.pending_note_seq, 3);
}
