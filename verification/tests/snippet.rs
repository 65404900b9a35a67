use codex_usage_proxy::snippet::{
    filter_title_candidate, format_reasoning_note, format_snippet, normalize_model_id,
    SUMMARY_MAX_CHARS, TITLE_MAX_CHARS,
};

#[test]
fn blank_text_has_no_snippet() {
    assert_eq!(format_snippet("", 10), None);
    assert_eq!(format_snippet(" \t\n\u{3000}", 10), None);
}

#[test]
fn snippets_are_one_line() {
    assert_eq!(
        format_snippet("  Fix\n the\t\tbug  ", TITLE_MAX_CHARS),
        Some("Fix the bug".to_string())
    );
}

#[test]
fn snippet_limits() {
    assert_eq!(TITLE_MAX_CHARS, 200);
    assert_eq!(SUMMARY_MAX_CHARS, 160);
    let fits = "x".repeat(160);
    assert_eq!(format_snippet(&fits, SUMMARY_MAX_CHARS), Some(fits.clone()));
    let over = "x".repeat(161);
    let cut = format!("{}…", "x".repeat(159));
    assert_eq!(format_snippet(&over, SUMMARY_MAX_CHARS), Some(cut));
}

#[test]
fn long_text_is_cut_without_trailing_space() {
    assert_eq!(format_snippet("hello big world", 11), Some("hello big…".to_string()));
    assert_eq!(format_snippet("hello big world", 10), Some("hello big…".to_string()));
    assert_eq!(format_snippet("ab", 1), Some("…".to_string()));
    assert_eq!(format_snippet("ab", 0), Some("…".to_string()));
}

#[test]
fn limits_count_characters_not_bytes() {
    assert_eq!(format_snippet("grüße", 5), Some("grüße".to_string()));
    assert_eq!(format_snippet("grüße", 4), Some("grü…".to_string()));
}

#[test]
fn injected_context_has_no_snippet() {
    let markers = [
        "<environment_context>",
        "# AGENTS.md instructions",
        "<INSTRUCTIONS>",
        "<user_instructions>",
        "<system_instructions>",
        "<developer_instructions>",
        "<System>",
    ];
    for marker in markers {
        assert_eq!(format_snippet(&format!("{} x", marker), 50), None);
        assert_eq!(format_snippet(&format!("hello {}", marker), 50), None);
        assert_eq!(filter_title_candidate(marker), None);
    }
    assert_eq!(filter_title_candidate(" a <b> "), Some(" a <b> ".to_string()));
    assert_eq!(format_snippet("instructions", 50), Some("instructions".to_string()));
}

#[test]
fn model_names_lose_their_provider() {
    assert_eq!(normalize_model_id("gpt-5"), "gpt-5");
    assert_eq!(normalize_model_id(" openai/gpt-5 "), "gpt-5");
    assert_eq!(normalize_model_id("openai.gpt-5"), "gpt-5");
    assert_eq!(normalize_model_id("openai/ gpt-5"), "gpt-5");
    assert_eq!(normalize_model_id("openai/ \t gpt-5 \n"), "gpt-5");
    assert_eq!(normalize_model_id("openai. openai.x"), "openai.x");
    assert_eq!(normalize_model_id("openai/  "), "");
    assert_eq!(normalize_model_id("openai/"), "");
    assert_eq!(normalize_model_id("openai"), "openai");
    assert_eq!(normalize_model_id("OpenAI/gpt-5"), "OpenAI/gpt-5");
    assert_eq!(normalize_model_id("openai/openai/gpt-5"), "openai/gpt-5");
    assert_eq!(normalize_model_id(""), "");
}

#[test]
fn reasoning_notes_lose_their_emphasis() {
    assert_eq!(format_reasoning_note("**Thinking hard**"), "reasoning: Thinking hard");
    assert_eq!(format_reasoning_note(" __Plan__ "), "reasoning: Plan");
    assert_eq!(format_reasoning_note("**_ a _**"), "reasoning: a");
    assert_eq!(format_reasoning_note("_*a*_"), "reasoning: *a*");
    assert_eq!(format_reasoning_note(" *** "), "reasoning: ***");
    assert_eq!(format_reasoning_note("plain"), "reasoning: plain");
}

#[test]
fn a_snippet_of_a_snippet_is_the_same() {
    let texts = ["  a  b\n c ", "one two three four", "grüße aus  Köln", "x"];
    for text in texts {
        for max in 0..20_usize {
            let line = format_snippet(text, max).unwrap();
            assert_eq!(format_snippet(&line, max), Some(line.clone()), "{} {}", text, max);
        }
    }
}

#[test]
fn a_snippet_can_become_injected_context() {
    let line = format_snippet("# agents.md \n instructions", 50).unwrap();
    assert_eq!(line, "# agents.md instructions");
    assert_eq!(format_snippet(&line, 50), None);
}

#[test]
fn asterisks_make_no_difference_to_a_reasoning_note() {
    for text in ["Plan", "_Plan_", "a * b", "*a*"] {
        let note = format_reasoning_note(text);
        for before in 0..4_usize {
            for after in 0..4_usize {
                let starred = format!("{}{}{}", "*".repeat(before), text, "*".repeat(after));
                assert_eq!(format_reasoning_note(&starred), note);
            }
        }
    }
    assert_eq!(format_reasoning_note("**_**"), "reasoning: **_**");
    assert_eq!(format_reasoning_note("****"), "reasoning: ****");
    assert_eq!(format_reasoning_note(""), "reasoning: ");
    assert_eq!(format_reasoning_note("* _a_ *"), "reasoning: _a_");
}
