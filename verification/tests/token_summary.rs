use codexmanager_service::token_summary::{
    clamp_token_count, saturating_add_i64, saturating_sub_i64, summarize_token_totals,
    RawTokenTotals, TokenReport,
};

#[test]
fn summary_clamps_negative_counts() {
    let raw = RawTokenTotals {
        input_tokens: -5,
        cached_input_tokens: -1,
        output_tokens: 7,
        reasoning_output_tokens: -3,
    };
    assert_eq!(
        summarize_token_totals(&raw),
        TokenReport {
            input_tokens: 0,
            cached_input_tokens: 0,
            output_tokens: 7,
            reasoning_output_tokens: 0,
            today_tokens: 7,
        }
    );
}

#[test]
fn summary_subtracts_cached_input() {
    let raw = RawTokenTotals {
        input_tokens: 1_000,
        cached_input_tokens: 400,
        output_tokens: 250,
        reasoning_output_tokens: 30,
    };
    let report = summarize_token_totals(&raw);
    assert_eq!(report.today_tokens, 850);
    assert_eq!(report.reasoning_output_tokens, 30);
}

#[test]
fn summary_today_tokens_may_go_negative_when_cache_exceeds_input() {
    let raw = RawTokenTotals {
        input_tokens: 10,
        cached_input_tokens: 50,
        output_tokens: 5,
        reasoning_output_tokens: 0,
    };
    assert_eq!(summarize_token_totals(&raw).today_tokens, -35);
}

#[test]
fn summary_today_tokens_saturate() {
    let raw = RawTokenTotals {
        input_tokens: i64::MAX,
        cached_input_tokens: 0,
        output_tokens: i64::MAX,
        reasoning_output_tokens: 0,
    };
    assert_eq!(summarize_token_totals(&raw).today_tokens, i64::MAX);
}

#[test]
fn clamp_and_saturation_helpers() {
    assert_eq!(clamp_token_count(-1), 0);
    assert_eq!(clamp_token_count(42), 42);
    assert_eq!(saturating_add_i64(i64::MAX, 1), i64::MAX);
    assert_eq!(saturating_add_i64(i64::MIN, -1), i64::MIN);
    assert_eq!(saturating_add_i64(2, 3), 5);
    assert_eq!(saturating_sub_i64(i64::MIN, 1), i64::MIN);
    assert_eq!(saturating_sub_i64(i64::MAX, -1), i64::MAX);
    assert_eq!(saturating_sub_i64(2, 3), -1);
}
