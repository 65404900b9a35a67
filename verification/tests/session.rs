use codex_usage_proxy::json::parse_json;
use codex_usage_proxy::session::{parse_session_meta, read_timestamp, session_meta_at};
use codex_usage_proxy::time::{parse_timestamp, Timestamp};

const EARLY: &str = "2025-01-02T03:04:05Z";
const LATE: &str = "2025-01-02T03:04:09Z";

fn point(text: &str) -> Timestamp {
    parse_timestamp(text).unwrap()
}

#[test]
fn a_session_describes_itself() {
    let text = format!(
        r#"{{"type":"session_meta","payload":{{"id":"s1","timestamp":"{}","cwd":"/w",
        "git":{{"repository_url":"u","branch":"b","commit_hash":"c"}},
        "model_provider":"openai","source":{{"subagent":"review"}}}}}}"#,
        EARLY
    );
    let meta = parse_session_meta(&parse_json(&text).unwrap(), Some(point(LATE))).unwrap();
    assert_eq!(meta.session_id, "s1");
    assert_eq!(meta.started_at, point(EARLY));
    assert_eq!(meta.last_event_at, point(EARLY));
    assert_eq!(meta.cwd.as_deref(), Some("/w"));
    assert_eq!(meta.repo_url.as_deref(), Some("u"));
    assert_eq!(meta.repo_branch.as_deref(), Some("b"));
    assert_eq!(meta.repo_commit.as_deref(), Some("c"));
    assert_eq!(meta.model_provider.as_deref(), Some("openai"));
    assert_eq!(meta.subagent.as_deref(), Some("review"));
    assert_eq!(meta.last_model, None);
}

#[test]
fn the_time_of_the_event_stands_in() {
    let value = parse_json(r#"{"payload":{"id":"s1","timestamp":"never","source":"cli"}}"#).unwrap();
    let meta = parse_session_meta(&value, Some(point(LATE))).unwrap();
    assert_eq!(meta.started_at, point(LATE));
    assert_eq!(meta.cwd, None);
    assert_eq!(meta.repo_url, None);
    assert_eq!(meta.subagent, None);
    assert!(parse_session_meta(&value, None).is_none());
}

#[test]
fn a_session_needs_a_name() {
    let late = Some(point(LATE));
    assert!(parse_session_meta(&parse_json(r#"{"payload":{}}"#).unwrap(), late).is_none());
    assert!(parse_session_meta(&parse_json(r#"{"payload":{"id":7}}"#).unwrap(), late).is_none());
    assert!(parse_session_meta(&parse_json(r#"{"id":"s1"}"#).unwrap(), late).is_none());
    assert!(session_meta_at(&parse_json("{}").unwrap(), point(LATE)).is_none());
}

#[test]
fn the_time_of_an_event_is_read() {
    let value = parse_json(&format!(r#"{{"timestamp":"{}"}}"#, LATE)).unwrap();
    assert_eq!(read_timestamp(&value), Some(point(LATE)));
    assert_eq!(read_timestamp(&parse_json(r#"{"timestamp":5}"#).unwrap()), None);
    assert_eq!(read_timestamp(&parse_json("{}").unwrap()), None);
}
