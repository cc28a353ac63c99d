use chrono::{DateTime, NaiveTime, TimeDelta};
use obsidian_lite::durations::EventDurationKind;
use obsidian_lite::schedule::{reminder_time, Moment, DELTA_LIMIT_SECS, FIRST_SECOND, LAST_SECOND};

fn to_moment(dt: chrono::NaiveDateTime) -> Moment {
    let utc = dt.and_utc();
    Moment { secs: utc.timestamp(), nanos: utc.timestamp_subsec_nanos() }
}

#[test]
fn representable_range_matches_chrono() {
    assert!(DateTime::from_timestamp(FIRST_SECOND, 0).is_some());
    assert!(DateTime::from_timestamp(FIRST_SECOND - 1, 999_999_999).is_none());
    assert!(DateTime::from_timestamp(LAST_SECOND, 999_999_999).is_some());
    assert!(DateTime::from_timestamp(LAST_SECOND + 1, 0).is_none());
}

#[test]
fn delta_limit_matches_chrono() {
    assert!(TimeDelta::try_seconds(DELTA_LIMIT_SECS).is_some());
    assert!(TimeDelta::try_seconds(DELTA_LIMIT_SECS + 1).is_none());
    assert!(TimeDelta::try_seconds(-DELTA_LIMIT_SECS).is_some());
    assert!(TimeDelta::try_seconds(-DELTA_LIMIT_SECS - 1).is_none());
}

#[test]
fn reminder_times_match_chrono_arithmetic() {
    let starts = [
        Moment { secs: 1715355000, nanos: 0 },
        Moment { secs: 1715355000, nanos: 500_000_000 },
        Moment { secs: -1, nanos: 1 },
        Moment { secs: FIRST_SECOND + 7200, nanos: 3 },
        Moment { secs: LAST_SECOND - 10, nanos: 999_999_999 },
    ];
    let counts = [0u64, 1, 2, 24, 1u64 << 20, 1u64 << 31, 1u64 << 40, 1u64 << 42, 1u64 << 62,
        (1u64 << 63) - 1, 1u64 << 63, u64::MAX - 1, u64::MAX];
    for start in starts {
        let naive = DateTime::from_timestamp(start.secs, start.nanos).unwrap().naive_utc();
        let seven = NaiveTime::from_hms_opt(7, 0, 0).unwrap();
        assert_eq!(
            reminder_time(EventDurationKind::StartOfDay, start),
            Some(to_moment(naive.date().and_time(seven)))
        );
        for t in counts {
            let by_hours = TimeDelta::try_hours(t as i64).and_then(|d| naive.checked_sub_signed(d));
            assert_eq!(reminder_time(EventDurationKind::Hour(t), start), by_hours.map(to_moment));
            let by_minutes =
                TimeDelta::try_minutes(t as i64).and_then(|d| naive.checked_sub_signed(d));
            assert_eq!(reminder_time(EventDurationKind::Minute(t), start), by_minutes.map(to_moment));
        }
    }
}
