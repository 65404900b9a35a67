use codex_usage_proxy::time::Timestamp;
use codex_usage_proxy::usage::{clamp_to_signed, UsageAggregator, UsageEvent};

fn event(total: u64) -> UsageEvent {
    UsageEvent {
        timestamp: Timestamp::from_parts(86_400, 0).unwrap(),
        model: "gpt-5".to_string(),
        prompt_tokens: 1,
        completion_tokens: 2,
        total_tokens: total,
        cost_usd_bits: (0.25_f64).to_bits(),
    }
}

fn at_hand(aggregator: &UsageAggregator) -> Vec<u64> {
    let mut totals: Vec<u64> = Vec::new();
    for i in 0..aggregator.recent_len() {
        totals.push(aggregator.recent_event(i).unwrap().total_tokens);
    }
    totals
}

#[test]
fn an_event_counts_for_its_day() {
    let stat = event(3).daily_stat();
    assert_eq!(stat.date, "1970-01-02");
    assert_eq!(stat.model, "gpt-5");
    assert_eq!(stat.prompt_tokens, 1);
    assert_eq!(stat.completion_tokens, 2);
    assert_eq!(stat.total_tokens, 3);
    assert_eq!(f64::from_bits(stat.cost_usd_bits), 0.25);
}

#[test]
fn an_event_can_count_for_any_day() {
    let stat = event(3).daily_stat_on("2025-01-02".to_string());
    assert_eq!(stat.date, "2025-01-02");
    assert_eq!(stat.total_tokens, 3);
}

#[test]
fn large_counts_are_clamped() {
    assert_eq!(clamp_to_signed(0), 0);
    assert_eq!(clamp_to_signed(i64::MAX as u64), i64::MAX);
    assert_eq!(clamp_to_signed(i64::MAX as u64 + 1), i64::MAX);
    assert_eq!(clamp_to_signed(u64::MAX), i64::MAX);
    assert_eq!(event(u64::MAX).daily_stat().total_tokens, i64::MAX);
}

#[test]
fn the_latest_events_are_kept() {
    let mut aggregator = UsageAggregator::new(3);
    assert_eq!(at_hand(&aggregator), Vec::<u64>::new());
    for total in 1..=5_u64 {
        aggregator.handle_event(event(total), true);
    }
    assert_eq!(at_hand(&aggregator), vec![5, 4, 3]);
    assert!(aggregator.recent_event(3).is_none());
}

#[test]
fn an_event_that_was_not_recorded_is_not_kept() {
    let mut aggregator = UsageAggregator::new(2);
    aggregator.handle_event(event(1), true);
    aggregator.handle_event(event(2), false);
    assert_eq!(at_hand(&aggregator), vec![1]);
}

#[test]
fn one_event_can_be_kept() {
    let mut aggregator = UsageAggregator::new(1);
    aggregator.handle_event(event(1), true);
    aggregator.handle_event(event(2), true);
    assert_eq!(at_hand(&aggregator), vec![2]);
}

#[test]
fn without_a_capacity_all_events_stay() {
    let mut aggregator = UsageAggregator::new(0);
    aggregator.handle_event(event(1), true);
    aggregator.handle_event(event(2), true);
    assert_eq!(at_hand(&aggregator), vec![2, 1]);
}
