use codex_usage_proxy::path::{LogPath, PathPart};
use codex_usage_proxy::state::{FileState, IngestStateRow, LastUserMessage, PendingMessage};
use codex_usage_proxy::tokens::TokenTotals;

fn path() -> LogPath {
    LogPath {
        spelling: b"/logs/a.jsonl".to_vec(),
        parts: vec![
            PathPart::Root,
            PathPart::Name(b"logs".to_vec()),
            PathPart::Name(b"a.jsonl".to_vec()),
        ],
    }
}

fn row() -> IngestStateRow {
    IngestStateRow {
        path: path(),
        session_id: Some("s1".to_string()),
        last_offset: 42,
        last_seen_input_tokens: 1,
        last_seen_cached_input_tokens: 2,
        last_seen_output_tokens: 3,
        last_seen_reasoning_output_tokens: 4,
        last_seen_total_tokens: 5,
        last_committed_input_tokens: 6,
        last_committed_cached_input_tokens: 7,
        last_committed_output_tokens: 8,
        last_committed_reasoning_output_tokens: 9,
        last_committed_total_tokens: 10,
        current_message_id: Some(11),
        current_message_seq: 12,
        current_model: Some("gpt-5".to_string()),
        current_effort: Some("high".to_string()),
    }
}

/// A state in which everything is set.
fn busy() -> FileState {
    let mut state = FileState::from_state(&row());
    state.pending_note = Some("note".to_string());
    state.pending_note_seq = 3;
    state.used_note_seq = 2;
    state.pending_title = Some("title".to_string());
    state.pending_summary = Some("summary".to_string());
    state.pending_messages =
        vec![PendingMessage { timestamp: None, snippet: "hello".to_string(), seq: 12 }];
    state.last_user_message =
        Some(LastUserMessage { timestamp: None, snippet: "hello".to_string() });
    state
}

#[test]
fn a_new_log_is_unknown() {
    let state = FileState::new();
    assert_eq!(state.session_id, None);
    assert_eq!(state.last_offset, 0);
    assert!(state.last_seen.is_zero());
    assert!(state.last_committed.is_zero());
    assert_eq!(state.current_message_seq, 0);
    assert!(state.pending_messages.is_empty());
}

#[test]
fn a_stored_row_comes_back() {
    let again = FileState::from_state(&row()).to_state_row(&path());
    assert_eq!(format!("{:?}", again), format!("{:?}", row()));
}

#[test]
fn a_stored_state_comes_back_without_what_is_pending() {
    let state = FileState::from_state(&busy().to_state_row(&path()));
    assert_eq!(format!("{:?}", state), format!("{:?}", FileState::from_state(&row())));
    let expected = TokenTotals {
        input_tokens: 6,
        cached_input_tokens: 7,
        output_tokens: 8,
        reasoning_output_tokens: 9,
        total_tokens: 10,
    };
    assert_eq!(state.last_committed, expected);
    assert_eq!(state.last_seen.total_tokens, 5);
    assert_eq!(state.pending_note, None);
    assert_eq!(state.pending_note_seq, 0);
    assert_eq!(state.pending_title, None);
    assert!(state.pending_messages.is_empty());
}

#[test]
fn a_shorter_log_starts_again() {
    let mut state = busy();
    state.notice_length(41);
    assert_eq!(state.session_id.as_deref(), Some("s1"));
    assert_eq!(state.last_offset, 0);
    assert!(state.last_seen.is_zero());
    assert!(state.last_committed.is_zero());
    assert_eq!(state.current_model, None);
    assert_eq!(state.current_effort.as_deref(), Some("high"));
    assert_eq!(state.current_message_id, None);
    assert_eq!(state.current_message_seq, 0);
    assert_eq!(state.pending_note, None);
    assert_eq!((state.pending_note_seq, state.used_note_seq), (0, 0));
    assert_eq!(state.pending_title.as_deref(), Some("title"));
    assert_eq!(state.pending_summary.as_deref(), Some("summary"));
    assert!(state.pending_messages.is_empty());
    assert!(state.last_user_message.is_none());
}

#[test]
fn a_longer_log_goes_on() {
    let mut state = busy();
    state.notice_length(43);
    assert_eq!(format!("{:?}", state), format!("{:?}", busy()));
}
