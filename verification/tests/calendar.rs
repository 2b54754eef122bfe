use codexmanager_service::calendar::{
    is_leap_year_number, local_midnight_secs, next_day, CalendarDay,
};

#[test]
fn leap_years() {
    assert!(is_leap_year_number(2000));
    assert!(!is_leap_year_number(1900));
    assert!(is_leap_year_number(2024));
    assert!(!is_leap_year_number(2023));
    assert!(is_leap_year_number(0));
    assert!(is_leap_year_number(-4));
    assert!(!is_leap_year_number(-100));
}

#[test]
fn next_day_rolls_over_years() {
    assert_eq!(
        next_day(CalendarDay { year: 2024, ordinal: 365 }),
        Some(CalendarDay { year: 2024, ordinal: 366 })
    );
    assert_eq!(
        next_day(CalendarDay { year: 2024, ordinal: 366 }),
        Some(CalendarDay { year: 2025, ordinal: 1 })
    );
    assert_eq!(
        next_day(CalendarDay { year: 2023, ordinal: 365 }),
        Some(CalendarDay { year: 2024, ordinal: 1 })
    );
    assert_eq!(next_day(CalendarDay { year: 262142, ordinal: 365 }), None);
}

#[test]
fn midnights_match_unix_time() {
    assert_eq!(local_midnight_secs(CalendarDay { year: 1970, ordinal: 1 }), 0);
    assert_eq!(local_midnight_secs(CalendarDay { year: 2000, ordinal: 1 }), 946_684_800);
    assert_eq!(local_midnight_secs(CalendarDay { year: 2024, ordinal: 60 }), 1_709_164_800);
    assert_eq!(local_midnight_secs(CalendarDay { year: 1969, ordinal: 365 }), -86_400);
    assert_eq!(
        local_midnight_secs(CalendarDay { year: -262143, ordinal: 1 }),
        -8_334_601_228_800
    );
    assert_eq!(
        local_midnight_secs(CalendarDay { year: 262142, ordinal: 365 }),
        8_210_266_790_400
    );
}
