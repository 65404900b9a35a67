use codex_usage_proxy::path::{copy_path, same_path, LogPath, PathPart};
use codex_usage_proxy::scan::{
    process_file, FileScan, ScanAnswer, ScanProgress, ScanRequest, SessionIngestor,
};
use codex_usage_proxy::state::{FileState, IngestStateRow};
use codex_usage_proxy::storage::StorageAction;
use codex_usage_proxy::time::Timestamp;
use std::path::{Component, Path};

/// The path that `text` spells.
fn log_path(text: &str) -> LogPath {
    let mut parts = Vec::new();
    for part in Path::new(text).components() {
        parts.push(match part {
            Component::Prefix(prefix) => {
                PathPart::Prefix(format!("{:?}", prefix.kind()).into_bytes())
            }
            Component::RootDir => PathPart::Root,
            Component::CurDir => PathPart::Current,
            Component::ParentDir => PathPart::Parent,
            Component::Normal(name) => PathPart::Name(name.as_encoded_bytes().to_vec()),
        });
    }
    LogPath { spelling: text.as_bytes().to_vec(), parts }
}

fn path() -> LogPath {
    log_path("/logs/a.jsonl")
}

fn now() -> Timestamp {
    Timestamp::from_parts(1_000, 0).unwrap()
}

fn empty() -> SessionIngestor {
    SessionIngestor::new(&Vec::new())
}

fn row(offset: u64, total: u64) -> IngestStateRow {
    let mut state = FileState::new();
    state.session_id = Some("s1".to_string());
    state.current_model = Some("m".to_string());
    state.last_offset = offset;
    state.last_seen.total_tokens = total;
    state.last_committed.total_tokens = total;
    state.to_state_row(&path())
}

fn name(request: &ScanRequest) -> String {
    match request {
        ScanRequest::Read { offset } => format!("read {}", offset),
        ScanRequest::BeginTransaction => "begin".to_string(),
        ScanRequest::Perform { action } => match action {
            StorageAction::UpsertSessionMeta { meta } => format!("meta {}", meta.session_id),
            StorageAction::RecordTurn { turn } => format!("turn {}", turn.usage.total_tokens),
            StorageAction::RecordToolCall { tool_name, .. } => format!("tool {}", tool_name),
            other => format!("{:?}", other),
        },
        ScanRequest::UpdateActivity { at } => format!("active {}", at.secs()),
        ScanRequest::SaveState { row } => {
            format!("save {} {}", row.last_offset, row.last_committed_total_tokens)
        }
        ScanRequest::Commit => "commit".to_string(),
    }
}

/// Scans a log. The request at position `failing` fails.
fn scan(
    ingestor: &mut SessionIngestor,
    log: &[u8],
    failing: Option<usize>,
) -> (Vec<String>, bool) {
    let mut asked = Vec::new();
    let mut progress = process_file(ingestor, &path(), Some(log.len() as u64));
    loop {
        match progress {
            ScanProgress::Finished => return (asked, true),
            ScanProgress::Failed => return (asked, false),
            ScanProgress::Ask { request, scan } => {
                let answer = if failing == Some(asked.len()) {
                    ScanAnswer::Failed
                } else if let ScanRequest::Read { offset } = &request {
                    ScanAnswer::Bytes { bytes: log[*offset as usize..].to_vec() }
                } else {
                    ScanAnswer::Done { message_id: 0 }
                };
                asked.push(name(&request));
                progress = scan.advance(ingestor, answer, now());
            }
        }
    }
}

fn log() -> Vec<u8> {
    let lines = [
        r#"{"type":"session_meta","timestamp":"2025-01-02T03:00:00Z","payload":{"id":"s1"}}"#,
        "nonsense",
        r#"{"type":"turn_context","payload":{"model":"m"}}"#,
        r#"{"type":"response_item","timestamp":"2025-01-02T03:00:01Z","payload":{"type":"function_call","name":"ls"}}"#,
        r#"{"type":"event_msg","timestamp":"2025-01-02T03:00:02Z","payload":{"type":"token_count","info":{"total_token_usage":{"input_tokens":3,"output_tokens":4,"total_tokens":7}}}}"#,
        "",
    ];
    lines.join("\n").into_bytes()
}

fn offset_of(ingestor: &mut SessionIngestor) -> u64 {
    let state = ingestor.take_state(&path());
    let offset: u64 = state.last_offset;
    ingestor.put_state(&path(), state);
    offset
}

#[test]
fn a_scan_is_one_transaction() {
    let mut ingestor = empty();
    let log = log();
    let (asked, finished) = scan(&mut ingestor, &log, None);
    assert!(finished);
    assert_eq!(
        asked,
        vec![
            "read 0".to_string(),
            "begin".to_string(),
            "meta s1".to_string(),
            "tool ls".to_string(),
            "turn 7".to_string(),
            "active 1000".to_string(),
            format!("save {} 7", log.len()),
            "commit".to_string(),
        ]
    );
    assert_eq!(offset_of(&mut ingestor), log.len() as u64);
}

#[test]
fn an_unchanged_log_is_left_alone() {
    let mut ingestor = empty();
    scan(&mut ingestor, &log(), None);
    assert_eq!(scan(&mut ingestor, &log(), None), (Vec::new(), true));
    assert_eq!(scan(&mut empty(), b"", None), (Vec::new(), true));
}

#[test]
fn a_line_is_handled_once_it_is_complete() {
    let mut ingestor = empty();
    let mut log = log();
    scan(&mut ingestor, &log, None);
    let read = log.len();
    log.extend(br#"{"type":"event_msg","timestamp":"2025-01-02T03:00:09Z","payload":{"type":"token_count","info":"#);
    let (asked, finished) = scan(&mut ingestor, &log, None);
    assert_eq!(asked, vec![format!("read {}", read)]);
    assert!(finished);
    assert_eq!(offset_of(&mut ingestor), read as u64);
    log.extend(br#"{"total_token_usage":{"input_tokens":5,"output_tokens":5,"total_tokens":10}}}}"#);
    log.push(b'\n');
    let (asked, finished) = scan(&mut ingestor, &log, None);
    assert!(finished);
    assert_eq!(asked[2], "turn 3");
    assert_eq!(asked[4], format!("save {} 10", log.len()));
}

#[test]
fn a_shorter_log_is_read_again() {
    let rows = vec![row(1_000_000, 5)];
    let mut ingestor = SessionIngestor::new(&rows);
    let (asked, finished) = scan(&mut ingestor, &log(), None);
    assert!(finished);
    assert_eq!(asked[0], "read 0");
    assert_eq!(asked[4], "turn 7");
}

#[test]
fn a_stored_log_is_read_on() {
    let log = log();
    let start = log.iter().position(|b| *b == b'\n').unwrap() as u64 + 1;
    let rows = vec![row(3, 0), row(start, 2)];
    let mut ingestor = SessionIngestor::new(&rows);
    let (asked, finished) = scan(&mut ingestor, &log, None);
    assert!(finished);
    assert_eq!(asked[0], format!("read {}", start));
    assert_eq!(asked[2], "tool ls");
    assert_eq!(asked[3], "turn 5");
}

#[test]
fn a_failed_action_ends_its_event_only() {
    let mut ingestor = empty();
    let (asked, finished) = scan(&mut ingestor, &log(), Some(3));
    assert!(finished);
    assert_eq!(asked[3], "tool ls");
    assert_eq!(asked[4], "turn 7");
    let mut ingestor = empty();
    let (asked, finished) = scan(&mut ingestor, &log(), Some(4));
    assert!(finished);
    assert_eq!(asked[6], format!("save {} 0", log().len()));
}

#[test]
fn any_other_failure_forgets_the_log() {
    for failing in [0, 1, 5, 6, 7_usize] {
        let mut ingestor = empty();
        let (asked, finished) = scan(&mut ingestor, &log(), Some(failing));
        assert!(!finished);
        assert_eq!(asked.len(), failing + 1);
        let (again, finished) = scan(&mut ingestor, &log(), None);
        assert!(finished);
        assert_eq!(again.len(), 8);
        assert_eq!(again[0], "read 0");
    }
}

#[test]
fn other_logs_are_not_touched() {
    let other = log_path("/logs/b.jsonl");
    let mut ingestor = empty();
    let mut state = FileState::new();
    state.last_offset = 77;
    ingestor.put_state(&other, state);
    scan(&mut ingestor, &log(), None);
    scan(&mut ingestor, b"{}\n", Some(1));
    assert_eq!(ingestor.take_state(&other).last_offset, 77);
    assert_eq!(ingestor.take_state(&other).last_offset, 0);
}

#[test]
fn answers_that_do_not_fit_end_the_scan() {
    let mut ingestor = empty();
    let progress = process_file(&mut ingestor, &path(), Some(3));
    let scan: FileScan = match progress {
        ScanProgress::Ask { scan, .. } => scan,
        _ => panic!("the log is to be read"),
    };
    let progress = scan.advance(&mut ingestor, ScanAnswer::Done { message_id: 1 }, now());
    assert!(matches!(progress, ScanProgress::Failed));
}

#[test]
fn a_scan_notes_the_present_moment() {
    let mut ingestor = empty();
    let log = b"{}\n".to_vec();
    let before: i64 = Timestamp::now().secs();
    let mut progress = process_file(&mut ingestor, &path(), Some(3));
    let mut noted: Option<i64> = None;
    loop {
        match progress {
            ScanProgress::Ask { request, scan } => {
                if let ScanRequest::UpdateActivity { at } = &request {
                    noted = Some(at.secs());
                }
                let answer = match request {
                    ScanRequest::Read { .. } => ScanAnswer::Bytes { bytes: log.clone() },
                    _ => ScanAnswer::Done { message_id: 0 },
                };
                progress = scan.advance_now(&mut ingestor, answer);
            }
            ScanProgress::Finished => break,
            ScanProgress::Failed => panic!("nothing failed"),
        }
    }
    let after: i64 = Timestamp::now().secs();
    assert!(before <= noted.unwrap() && noted.unwrap() <= after);
}

#[test]
fn a_log_of_unknown_length_is_passed_over() {
    let mut ingestor = SessionIngestor::new(&vec![row(42, 5)]);
    let progress = process_file(&mut ingestor, &path(), None);
    assert!(matches!(progress, ScanProgress::Finished));
    assert_eq!(ingestor.take_state(&path()).last_offset, 42);
}

#[test]
fn paths_are_the_same_where_their_components_are() {
    let texts = [
        "/x/y", "/x//y", "//x/y/", "/x/./y", "/./x/y/.", "x/y", "./x/y", "././x/y", "/x/../x/y",
        "/x", "/x/y/z", "/X/y", "", ".", "..", "/", "/x/.y",
    ];
    for a in texts {
        for b in texts {
            let expected = Path::new(a) == Path::new(b);
            assert_eq!(same_path(&log_path(a), &log_path(b)), expected, "{} {}", a, b);
        }
        let copy = copy_path(&log_path(a));
        assert_eq!(format!("{:?}", copy), format!("{:?}", log_path(a)));
    }
    assert!(same_path(&log_path("/x//y"), &log_path("/x/y")));
    assert!(!same_path(&log_path("./x/y"), &log_path("x/y")));
}

#[test]
fn a_log_is_known_under_every_spelling_of_its_path() {
    let mut state = FileState::new();
    state.last_offset = 5;
    let stored = state.to_state_row(&log_path("/x//y"));
    assert_eq!(stored.path.spelling, b"/x//y".to_vec());
    let mut ingestor = SessionIngestor::new(&vec![stored]);
    let progress = process_file(&mut ingestor, &log_path("/x/y"), Some(5));
    assert!(matches!(progress, ScanProgress::Finished));
    let progress = process_file(&mut ingestor, &log_path("/x/./y"), Some(8));
    assert!(matches!(
        progress,
        ScanProgress::Ask { request: ScanRequest::Read { offset: 5 }, .. }
    ));
}

#[test]
fn a_row_keeps_the_spelling_that_was_found() {
    let mut ingestor = empty();
    let mut progress = process_file(&mut ingestor, &log_path("/x//y"), Some(3));
    let mut saved: Option<Vec<u8>> = None;
    while let ScanProgress::Ask { request, scan } = progress {
        let answer = match request {
            ScanRequest::Read { .. } => ScanAnswer::Bytes { bytes: b"{}\n".to_vec() },
            ScanRequest::SaveState { row } => {
                saved = Some(row.path.spelling);
                ScanAnswer::Done { message_id: 0 }
            }
            _ => ScanAnswer::Done { message_id: 0 },
        };
        progress = scan.advance(&mut ingestor, answer, now());
    }
    assert_eq!(saved, Some(b"/x//y".to_vec()));
    assert_eq!(ingestor.take_state(&log_path("/x/y")).last_offset, 3);
}

#[test]
fn blank_and_malformed_lines_change_only_the_offset() {
    let mut plain = empty();
    let (expected, _) = scan(&mut plain, &log(), None);
    let mut noisy: Vec<u8> = Vec::new();
    for line in log().split_inclusive(|b| *b == b'\n') {
        noisy.extend(b"\n  \t\n{\"type\":\n\xff\n");
        noisy.extend(line);
    }
    let mut ingestor = empty();
    let (asked, finished) = scan(&mut ingestor, &noisy, None);
    assert!(finished);
    assert_eq!(asked[..6], expected[..6]);
    assert_eq!(asked[6], format!("save {} 7", noisy.len()));
    let mut with = ingestor.take_state(&path());
    let without = plain.take_state(&path());
    assert_eq!(with.last_offset, noisy.len() as u64);
    with.last_offset = without.last_offset;
    assert_eq!(format!("{:?}", with), format!("{:?}", without));
}
