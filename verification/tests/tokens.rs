use codex_usage_proxy::json::parse_json;
use codex_usage_proxy::tokens::TokenTotals;

fn totals(input: u64, cached: u64, output: u64, reasoning: u64, total: u64) -> TokenTotals {
    TokenTotals {
        input_tokens: input,
        cached_input_tokens: cached,
        output_tokens: output,
        reasoning_output_tokens: reasoning,
        total_tokens: total,
    }
}

fn read(text: &str) -> Option<TokenTotals> {
    TokenTotals::from_value(&parse_json(text).unwrap())
}

#[test]
fn totals_are_read_from_json() {
    let text = r#"{"input_tokens":10,"cached_input_tokens":4,"output_tokens":3,
        "reasoning_output_tokens":2,"total_tokens":13}"#;
    assert_eq!(read(text), Some(totals(10, 4, 3, 2, 13)));
}

#[test]
fn two_kinds_of_tokens_may_be_missing() {
    let text = r#"{"input_tokens":10,"output_tokens":3,"total_tokens":13}"#;
    assert_eq!(read(text), Some(totals(10, 0, 3, 0, 13)));
    let odd = r#"{"input_tokens":1,"cached_input_tokens":"x","output_tokens":2,
        "reasoning_output_tokens":-1,"total_tokens":3}"#;
    assert_eq!(read(odd), Some(totals(1, 0, 2, 0, 3)));
}

#[test]
fn three_kinds_of_tokens_must_be_there() {
    assert_eq!(read(r#"{"output_tokens":3,"total_tokens":13}"#), None);
    assert_eq!(read(r#"{"input_tokens":3,"total_tokens":13}"#), None);
    assert_eq!(read(r#"{"input_tokens":3,"output_tokens":13}"#), None);
    assert_eq!(read(r#"{"input_tokens":-3,"output_tokens":1,"total_tokens":1}"#), None);
    assert_eq!(read(r#"{"input_tokens":3.5,"output_tokens":1,"total_tokens":1}"#), None);
    assert_eq!(read("[]"), None);
}

#[test]
fn zero_is_zero_in_every_kind() {
    assert!(TokenTotals::default().is_zero());
    assert!(totals(0, 0, 0, 0, 0).is_zero());
    assert!(!totals(1, 0, 0, 0, 0).is_zero());
    assert!(!totals(0, 1, 0, 0, 0).is_zero());
    assert!(!totals(0, 0, 1, 0, 0).is_zero());
    assert!(!totals(0, 0, 0, 1, 0).is_zero());
    assert!(!totals(0, 0, 0, 0, 1).is_zero());
}

#[test]
fn a_decrease_in_any_kind_is_noticed() {
    let base = totals(5, 5, 5, 5, 5);
    assert!(!base.any_decreased(base));
    assert!(!totals(6, 5, 5, 5, 9).any_decreased(base));
    assert!(totals(4, 9, 9, 9, 9).any_decreased(base));
    assert!(totals(9, 4, 9, 9, 9).any_decreased(base));
    assert!(totals(9, 9, 4, 9, 9).any_decreased(base));
    assert!(totals(9, 9, 9, 4, 9).any_decreased(base));
    assert!(totals(9, 9, 9, 9, 4).any_decreased(base));
}

#[test]
fn subtraction_stops_at_zero() {
    let rest = totals(10, 1, 7, u64::MAX, 3).saturating_sub(totals(4, 2, 7, 1, 5));
    assert_eq!(rest, totals(6, 0, 0, u64::MAX - 1, 0));
}
