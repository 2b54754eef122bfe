use codexmanager_service::calendar::SECS_PER_DAY;
use codexmanager_service::day_bounds::{
    clock_timestamp, day_bounds_from_local, local_day_bounds_from_reading, local_day_bounds_ts,
    resolve_day_bounds_ts, LocalStamp, FIRST_CLOCK_SECS, LAST_CLOCK_SECS,
    MAX_REQUESTED_DAY_RANGE_SECS,
};

#[test]
fn resolve_day_bounds_uses_requested_range_when_complete() {
    assert_eq!(
        resolve_day_bounds_ts(Some(1_700_000_000), Some(1_700_086_400)).unwrap(),
        (1_700_000_000, 1_700_086_400)
    );
}

#[test]
fn resolve_day_bounds_rejects_partial_range() {
    let error = resolve_day_bounds_ts(Some(1_700_000_000), None).unwrap_err();
    assert!(error.contains("provided together"));
}

#[test]
fn resolve_day_bounds_rejects_oversized_range() {
    let error =
        resolve_day_bounds_ts(Some(0), Some(MAX_REQUESTED_DAY_RANGE_SECS + 1)).unwrap_err();
    assert!(error.contains("too large"));
}

#[test]
fn resolve_day_bounds_rejects_missing_start() {
    assert_eq!(
        resolve_day_bounds_ts(None, Some(10)).unwrap_err(),
        "dayStartTs and dayEndTs must be provided together"
    );
}

#[test]
fn resolve_day_bounds_rejects_reversed_and_empty_ranges() {
    assert_eq!(
        resolve_day_bounds_ts(Some(100), Some(100)).unwrap_err(),
        "dayEndTs must be greater than dayStartTs"
    );
    assert_eq!(
        resolve_day_bounds_ts(Some(100), Some(99)).unwrap_err(),
        "dayEndTs must be greater than dayStartTs"
    );
}

#[test]
fn resolve_day_bounds_accepts_exactly_two_days() {
    assert_eq!(MAX_REQUESTED_DAY_RANGE_SECS, 172_800);
    assert_eq!(
        resolve_day_bounds_ts(Some(0), Some(MAX_REQUESTED_DAY_RANGE_SECS)).unwrap(),
        (0, 172_800)
    );
}

#[test]
fn resolve_day_bounds_rejects_span_beyond_i64() {
    assert_eq!(
        resolve_day_bounds_ts(Some(i64::MIN), Some(i64::MAX)).unwrap_err(),
        "requested day range is too large"
    );
}

#[test]
fn resolve_day_bounds_without_request_uses_local_day() {
    let (start, end) = resolve_day_bounds_ts(None, None).unwrap();
    assert!(start <= end);
    assert!(end - start >= 22 * 3600 && end - start <= 26 * 3600);
}

#[test]
fn local_day_covers_now() {
    let before = std::time::SystemTime::now()
        .duration_since(std::time::UNIX_EPOCH)
        .unwrap()
        .as_secs() as i64;
    let (start, end) = local_day_bounds_ts().unwrap();
    let after = std::time::SystemTime::now()
        .duration_since(std::time::UNIX_EPOCH)
        .unwrap()
        .as_secs() as i64;
    assert!(start <= after);
    assert!(end + 1 >= before);
    assert!(start < end);
}

#[test]
fn local_bounds_single_instants() {
    assert_eq!(
        day_bounds_from_local(50, LocalStamp::Single(0), LocalStamp::Single(86_400)),
        (0, 86_400)
    );
}

#[test]
fn local_bounds_fold_takes_earliest_start_and_latest_end() {
    assert_eq!(
        day_bounds_from_local(
            50,
            LocalStamp::Ambiguous(3_600, 0),
            LocalStamp::Ambiguous(86_400, 90_000)
        ),
        (0, 90_000)
    );
}

#[test]
fn local_bounds_gap_uses_now_and_a_plain_day() {
    assert_eq!(
        day_bounds_from_local(1_000, LocalStamp::Missing, LocalStamp::Missing),
        (1_000, 1_000 + SECS_PER_DAY)
    );
}

#[test]
fn local_bounds_end_never_before_start() {
    assert_eq!(
        day_bounds_from_local(0, LocalStamp::Single(500), LocalStamp::Single(100)),
        (500, 500)
    );
}

#[test]
fn clock_timestamp_rounds_down_before_the_epoch() {
    assert_eq!(clock_timestamp(Ok((5, 0))), Some(5));
    assert_eq!(clock_timestamp(Ok((5, 999_999_999))), Some(5));
    assert_eq!(clock_timestamp(Err((5, 0))), Some(-5));
    assert_eq!(clock_timestamp(Err((5, 1))), Some(-6));
    assert_eq!(clock_timestamp(Ok((LAST_CLOCK_SECS as u64, 0))), Some(LAST_CLOCK_SECS));
    assert_eq!(clock_timestamp(Ok((LAST_CLOCK_SECS as u64 + 1, 0))), None);
    assert_eq!(clock_timestamp(Err((-FIRST_CLOCK_SECS as u64, 0))), Some(FIRST_CLOCK_SECS));
    assert_eq!(clock_timestamp(Err((-FIRST_CLOCK_SECS as u64, 1))), None);
}

#[test]
fn local_day_from_reading_brackets_the_reading() {
    for now in [0i64, 1_700_000_000, 4_102_444_800, 86_399] {
        let (start, end) = local_day_bounds_from_reading(Ok((now as u64, 0))).unwrap();
        assert!(start <= end);
        assert!(start <= now + SECS_PER_DAY && now - 2 * SECS_PER_DAY < start);
        assert!(end - start <= 2 * SECS_PER_DAY);
    }
}

#[test]
fn local_day_before_the_epoch() {
    let (start, end) = local_day_bounds_from_reading(Err((1_000_000, 500))).unwrap();
    assert!(start <= end);
    assert!(start <= -1_000_001 + SECS_PER_DAY);
}

#[test]
fn local_day_refused_at_the_calendar_ends() {
    assert_eq!(
        local_day_bounds_from_reading(Ok((LAST_CLOCK_SECS as u64 + 1, 0))).unwrap_err(),
        "read local clock failed"
    );
    assert_eq!(
        local_day_bounds_from_reading(Err((-FIRST_CLOCK_SECS as u64 + 1, 0))).unwrap_err(),
        "read local clock failed"
    );
    assert!(local_day_bounds_from_reading(Ok((LAST_CLOCK_SECS as u64, 0))).is_ok());
}
