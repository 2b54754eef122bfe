//! Normalising the token counts of a request-log report: negative counts
//! read as zero, and the day's billed tokens are the uncached input plus the
//! output, saturating at `i64::MAX`.

use vstd::prelude::*;

verus! {

/// Token counts as the request log sums them, possibly negative.
#[derive(Debug, Clone, Copy, PartialEq, Eq)]
pub struct RawTokenTotals {
    pub input_tokens: i64,
    pub cached_input_tokens: i64,
    pub output_tokens: i64,
    pub reasoning_output_tokens: i64,
}

/// The token counts a report shows.
#[derive(Debug, Clone, Copy, PartialEq, Eq)]
pub struct TokenReport {
    pub input_tokens: i64,
    pub cached_input_tokens: i64,
    pub output_tokens: i64,
    pub reasoning_output_tokens: i64,
    pub today_tokens: i64,
}

pub open spec fn non_negative(v: i64) -> i64 {
    if v < 0 {
        0
    } else {
        v
    }
}

/// `v` clamped into the range of `i64`.
pub open spec fn saturate(v: int) -> i64 {
    if v > i64::MAX {
        i64::MAX
    } else if v < i64::MIN {
        i64::MIN
    } else {
        v as i64
    }
}

/// The day's billed tokens: input not served from cache, plus output.
pub open spec fn today_tokens_of(raw: RawTokenTotals) -> i64 {
    saturate(
        non_negative(raw.input_tokens) - non_negative(raw.cached_input_tokens) + non_negative(
            raw.output_tokens,
        ),
    )
}

pub open spec fn token_report_of(raw: RawTokenTotals) -> TokenReport {
    TokenReport {
        input_tokens: non_negative(raw.input_tokens),
        cached_input_tokens: non_negative(raw.cached_input_tokens),
        output_tokens: non_negative(raw.output_tokens),
        reasoning_output_tokens: non_negative(raw.reasoning_output_tokens),
        today_tokens: today_tokens_of(raw),
    }
}

/// A token count with negative values read as zero (`i64::max(v, 0)`).
pub fn clamp_token_count(v: i64) -> (r: i64)
    ensures
        r == non_negative(v),
{
    if v < 0 {
        0
    } else {
        v
    }
}

/// `a + b`, saturating at the bounds of `i64` as `i64::saturating_add` does.
pub fn saturating_add_i64(a: i64, b: i64) -> (r: i64)
    ensures
        r == saturate(a + b),
{
    match a.checked_add(b) {
        Some(v) => v,
        None => if b > 0 {
            i64::MAX
        } else {
            i64::MIN
        },
    }
}

/// `a - b`, saturating at the bounds of `i64` as `i64::saturating_sub` does.
pub fn saturating_sub_i64(a: i64, b: i64) -> (r: i64)
    ensures
        r == saturate(a - b),
{
    match a.checked_sub(b) {
        Some(v) => v,
        None => if b < 0 {
            i64::MAX
        } else {
            i64::MIN
        },
    }
}

/// The report's counts from the log's sums.
pub fn summarize_token_totals(raw: &RawTokenTotals) -> (r: TokenReport)
    ensures
        r == token_report_of(*raw),
        raw.input_tokens >= 0 ==> r.input_tokens == raw.input_tokens,
        raw.input_tokens < 0 ==> r.input_tokens == 0,
        raw.cached_input_tokens >= 0 ==> r.cached_input_tokens == raw.cached_input_tokens,
        raw.cached_input_tokens < 0 ==> r.cached_input_tokens == 0,
        raw.output_tokens >= 0 ==> r.output_tokens == raw.output_tokens,
        raw.output_tokens < 0 ==> r.output_tokens == 0,
        raw.reasoning_output_tokens >= 0 ==> r.reasoning_output_tokens == raw.reasoning_output_tokens,
        raw.reasoning_output_tokens < 0 ==> r.reasoning_output_tokens == 0,
        r.input_tokens - r.cached_input_tokens + r.output_tokens <= i64::MAX ==> r.today_tokens
            == r.input_tokens - r.cached_input_tokens + r.output_tokens,
        r.input_tokens - r.cached_input_tokens + r.output_tokens > i64::MAX ==> r.today_tokens
            == i64::MAX,
{
    let input_tokens: i64 = clamp_token_count(raw.input_tokens);
    let cached_input_tokens: i64 = clamp_token_count(raw.cached_input_tokens);
    let output_tokens: i64 = clamp_token_count(raw.output_tokens);
    let reasoning_output_tokens: i64 = clamp_token_count(raw.reasoning_output_tokens);
    let non_cached_input_tokens: i64 = saturating_sub_i64(input_tokens, cached_input_tokens);
    TokenReport {
        input_tokens,
        cached_input_tokens,
        output_tokens,
        reasoning_output_tokens,
        today_tokens: saturating_add_i64(non_cached_input_tokens, output_tokens),
    }
}

/// The four reported counts are never negative, and the day's tokens never
/// exceed input plus output; they fall below zero only when more input was
/// cached than was read and written together.
pub proof fn lemma_token_report_bounds(raw: RawTokenTotals)
    ensures
        token_report_of(raw).input_tokens >= 0,
        token_report_of(raw).cached_input_tokens >= 0,
        token_report_of(raw).output_tokens >= 0,
        token_report_of(raw).reasoning_output_tokens >= 0,
        token_report_of(raw).today_tokens <= token_report_of(raw).input_tokens + token_report_of(
            raw,
        ).output_tokens,
        token_report_of(raw).today_tokens < 0 <==> token_report_of(raw).cached_input_tokens
            > token_report_of(raw).input_tokens + token_report_of(raw).output_tokens,
{
}

/// Each reported count is its own logged sum, read as zero when negative,
/// whatever the other sums are; the day's tokens are the reported input minus
/// the reported cached input plus the reported output, capped at `i64::MAX`.
pub proof fn lemma_token_report_fields(raw: RawTokenTotals)
    ensures
        token_report_of(raw).input_tokens == (if raw.input_tokens >= 0 {
            raw.input_tokens
        } else {
            0
        }),
        token_report_of(raw).cached_input_tokens == (if raw.cached_input_tokens >= 0 {
            raw.cached_input_tokens
        } else {
            0
        }),
        token_report_of(raw).output_tokens == (if raw.output_tokens >= 0 {
            raw.output_tokens
        } else {
            0
        }),
        token_report_of(raw).reasoning_output_tokens == (if raw.reasoning_output_tokens >= 0 {
            raw.reasoning_output_tokens
        } else {
            0
        }),
        ({
            let rep = token_report_of(raw);
            let total = rep.input_tokens - rep.cached_input_tokens + rep.output_tokens;
            rep.today_tokens == (if total > i64::MAX {
                i64::MAX as int
            } else {
                total
            })
        }),
{
}

/// Changing one logged sum changes no other reported count.
pub proof fn lemma_token_report_fields_independent(raw: RawTokenTotals, other: RawTokenTotals)
    ensures
        raw.input_tokens == other.input_tokens ==> token_report_of(raw).input_tokens
            == token_report_of(other).input_tokens,
        raw.cached_input_tokens == other.cached_input_tokens ==> token_report_of(
            raw,
        ).cached_input_tokens == token_report_of(other).cached_input_tokens,
        raw.output_tokens == other.output_tokens ==> token_report_of(raw).output_tokens
            == token_report_of(other).output_tokens,
        raw.reasoning_output_tokens == other.reasoning_output_tokens ==> token_report_of(
            raw,
        ).reasoning_output_tokens == token_report_of(other).reasoning_output_tokens,
{
}

} // verus!
