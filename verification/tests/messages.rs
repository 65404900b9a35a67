use codex_usage_proxy::messages::{
    apply_summary, apply_title, should_skip_duplicate_message, take_note,
    MESSAGE_DEDUPE_WINDOW_SECS,
};
use codex_usage_proxy::state::{FileState, LastUserMessage};
use codex_usage_proxy::storage::StorageAction;
use codex_usage_proxy::time::Timestamp;

fn at(secs: i64) -> Option<Timestamp> {
    Timestamp::from_parts(secs, 0)
}

fn after_message(timestamp: Option<Timestamp>) -> FileState {
    let mut state = FileState::new();
    state.last_user_message = Some(LastUserMessage { timestamp, snippet: "hi".to_string() });
    state
}

#[test]
fn repeats_are_skipped_within_the_window() {
    assert_eq!(MESSAGE_DEDUPE_WINDOW_SECS, 2);
    let state = after_message(at(100));
    for secs in 90..=110_i64 {
        let near = (98..=102).contains(&secs);
        assert_eq!(should_skip_duplicate_message(&state, "hi", at(secs)), near);
        assert!(!should_skip_duplicate_message(&state, "other", at(secs)));
    }
}

#[test]
fn repeats_are_skipped_where_a_time_is_missing() {
    assert!(should_skip_duplicate_message(&after_message(None), "hi", at(5)));
    assert!(should_skip_duplicate_message(&after_message(at(5)), "hi", None));
    assert!(should_skip_duplicate_message(&after_message(None), "hi", None));
    assert!(!should_skip_duplicate_message(&after_message(None), "ho", None));
    assert!(!should_skip_duplicate_message(&FileState::new(), "hi", None));
}

#[test]
fn titles_and_summaries_wait_for_the_session() {
    let mut state = FileState::new();
    assert!(apply_title(&mut state, "t").is_none());
    assert!(apply_summary(&mut state, "s", at(1)).is_none());
    assert_eq!(state.pending_title.as_deref(), Some("t"));
    assert_eq!(state.pending_summary.as_deref(), Some("s"));
    state.session_id = Some("id".to_string());
    assert!(matches!(
        apply_title(&mut state, "t2"),
        Some(StorageAction::SetSessionTitleIfEmpty { session_id, title })
            if session_id == "id" && title == "t2"
    ));
    assert!(matches!(
        apply_summary(&mut state, "s2", at(1)),
        Some(StorageAction::SetSessionSummary { session_id, summary, at: point })
            if session_id == "id" && summary == "s2" && Some(point) == at(1)
    ));
    assert!(matches!(
        apply_summary(&mut state, "s3", None),
        Some(StorageAction::SetSessionSummaryOnly { session_id, summary })
            if session_id == "id" && summary == "s3"
    ));
    assert_eq!(state.pending_title.as_deref(), Some("t"));
}

#[test]
fn notes_are_numbered_up_to_the_largest_number() {
    let mut state = FileState::new();
    take_note(&mut state, "a".to_string());
    assert_eq!((state.pending_note.as_deref(), state.pending_note_seq), (Some("a"), 1));
    state.pending_note_seq = u64::MAX;
    take_note(&mut state, "b".to_string());
    assert_eq!((state.pending_note.as_deref(), state.pending_note_seq), (Some("b"), u64::MAX));
}
