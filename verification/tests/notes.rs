use codex_usage_proxy::json::{parse_json, Json};
use codex_usage_proxy::notes::{
    argument_detail, extract_message_text, reasoning_summary_note, tool_call_note, tool_note,
    web_search_note,
};

fn json(text: &str) -> Json {
    parse_json(text).unwrap()
}

fn tool(text: &str) -> Option<String> {
    tool_call_note(&json(text))
}

fn reasoning(text: &str) -> Option<String> {
    reasoning_summary_note(&json(text))
}

#[test]
fn the_text_of_a_message_is_its_content() {
    let text = extract_message_text(&json(r#"{"content":" as it is "}"#));
    assert_eq!(text.as_deref(), Some(" as it is "));
    let text = extract_message_text(&json(
        r#"{"content":[{"text":" one "},{"text":"  "},{"image":1},{"text":"two"},"three"]}"#,
    ));
    assert_eq!(text.as_deref(), Some("one two"));
}

#[test]
fn a_message_may_have_no_text() {
    assert_eq!(extract_message_text(&json("{}")), None);
    assert_eq!(extract_message_text(&json(r#"{"content":[]}"#)), None);
    assert_eq!(extract_message_text(&json(r#"{"content":[{"text":" "}]}"#)), None);
    assert_eq!(extract_message_text(&json(r#"{"content":5}"#)), None);
    assert_eq!(extract_message_text(&json(r#"{"content":""}"#)).as_deref(), Some(""));
}

#[test]
fn tool_calls_are_noted_with_a_detail() {
    assert_eq!(
        tool(r#"{"name":"shell","arguments":"{\"command\":\"ls  -l\"}"}"#).as_deref(),
        Some("tool: shell (ls -l)")
    );
    assert_eq!(
        tool(r#"{"name":"t","arguments":"{\"query\":\"q\",\"path\":\"p\"}"}"#).as_deref(),
        Some("tool: t (q)")
    );
    assert_eq!(
        tool(r#"{"name":"t","arguments":"{\"path\":\"p\",\"input\":\"i\"}"}"#).as_deref(),
        Some("tool: t (p)")
    );
    assert_eq!(
        tool(r#"{"name":"t","arguments":"{\"input\":\"i\",\"code\":\"c\"}"}"#).as_deref(),
        Some("tool: t (i)")
    );
    assert_eq!(
        tool(r#"{"name":"t","arguments":"{\"code\":\"c\"}"}"#).as_deref(),
        Some("tool: t (c)")
    );
    assert_eq!(
        tool(r#"{"name":"t","arguments":"not json"}"#).as_deref(),
        Some("tool: t (not json)")
    );
    assert_eq!(tool(r#"{"name":"t","input":"*** Patch"}"#).as_deref(), Some("tool: t (*** Patch)"));
}

#[test]
fn tool_calls_may_have_no_detail() {
    assert_eq!(tool(r#"{"name":"t"}"#).as_deref(), Some("tool: t"));
    assert_eq!(tool(r#"{"name":"t","arguments":"{}","input":"i"}"#).as_deref(), Some("tool: t"));
    assert_eq!(
        tool(r#"{"name":"t","arguments":"{\"command\":\" \",\"query\":\"q\"}"}"#).as_deref(),
        Some("tool: t")
    );
    assert_eq!(
        tool(r#"{"name":"t","arguments":"{\"command\":[\"ls\"],\"query\":\"q\"}"}"#).as_deref(),
        Some("tool: t (q)")
    );
    assert_eq!(tool(r#"{"arguments":"{}"}"#), None);
}

#[test]
fn details_of_arguments_are_given_by_what_they_are() {
    let parsed = Some(json(r#"{"command":"c"}"#));
    assert_eq!(argument_detail("args", &parsed).as_deref(), Some("c"));
    assert_eq!(argument_detail("args", &None).as_deref(), Some("args"));
    assert_eq!(argument_detail("args", &Some(json("[]"))), None);
    assert_eq!(tool_note("n", &Some("d".to_string())), "tool: n (d)");
    assert_eq!(tool_note("n", &None), "tool: n");
}

#[test]
fn searches_are_noted_with_their_query() {
    let note = web_search_note(&json(r#"{"action":{"query":" rust  verus "}}"#));
    assert_eq!(note.as_deref(), Some("web_search: rust verus"));
    assert_eq!(web_search_note(&json("{}")).as_deref(), Some("web_search"));
    let blank = web_search_note(&json(r#"{"action":{"query":" "}}"#));
    assert_eq!(blank.as_deref(), Some("web_search"));
}

#[test]
fn reasoning_is_noted_by_its_summary_or_content() {
    assert_eq!(
        reasoning(r#"{"summary":[{"text":" "},{"text":"**Plan**"},{"text":"x"}]}"#).as_deref(),
        Some("reasoning: Plan")
    );
    assert_eq!(
        reasoning(r#"{"summary":[{"other":1},"as text"]}"#).as_deref(),
        Some("reasoning: as text")
    );
    assert_eq!(
        reasoning(r#"{"summary":[],"content":["skipped",{"text":"from content"}]}"#).as_deref(),
        Some("reasoning: from content")
    );
    assert_eq!(reasoning(r#"{"content":["only text"]}"#), None);
    assert_eq!(reasoning("{}"), None);
}
