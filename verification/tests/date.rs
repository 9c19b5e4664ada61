use rustube::date::{
    option_date_before_or_same, Date, Timestamp, MAX_JULIAN_DAY, MAX_UNIX_TIMESTAMP, MIN_JULIAN_DAY, MIN_UNIX_TIMESTAMP,
    UNIX_EPOCH_JULIAN_DAY,
};

#[test]
fn julian_day_range() {
    assert_eq!(Date::from_julian_day(MIN_JULIAN_DAY).unwrap().julian_day(), MIN_JULIAN_DAY);
    assert_eq!(Date::from_julian_day(MAX_JULIAN_DAY).unwrap().julian_day(), MAX_JULIAN_DAY);
    assert!(Date::from_julian_day(MIN_JULIAN_DAY - 1).is_none());
    assert!(Date::from_julian_day(MAX_JULIAN_DAY + 1).is_none());
    assert!(Date::from_julian_day(i32::MIN).is_none());
}

#[test]
fn date_of_unix_timestamp() {
    assert_eq!(Date::from_unix_timestamp(0).unwrap().julian_day(), UNIX_EPOCH_JULIAN_DAY);
    assert_eq!(Date::from_unix_timestamp(86399).unwrap().julian_day(), UNIX_EPOCH_JULIAN_DAY);
    assert_eq!(Date::from_unix_timestamp(-1).unwrap().julian_day(), UNIX_EPOCH_JULIAN_DAY - 1);
    // 2019-01-01 00:00:00 UTC
    assert_eq!(Date::from_unix_timestamp(1_546_300_800).unwrap().julian_day(), 2_458_485);
    assert_eq!(Date::from_unix_timestamp(1_546_300_800 + 3 * 86400 + 5).unwrap().julian_day(), 2_458_488);
    assert_eq!(Date::from_unix_timestamp(MIN_UNIX_TIMESTAMP).unwrap().julian_day(), MIN_JULIAN_DAY);
    assert_eq!(Date::from_unix_timestamp(MAX_UNIX_TIMESTAMP).unwrap().julian_day(), MAX_JULIAN_DAY);
    assert!(Date::from_unix_timestamp(MIN_UNIX_TIMESTAMP - 1).is_none());
    assert!(Date::from_unix_timestamp(MAX_UNIX_TIMESTAMP + 1).is_none());
}

#[test]
fn midnight_of_date() {
    let d = Date::from_julian_day(2_458_485).unwrap();
    assert_eq!(d.midnight_unix_timestamp(), 1_546_300_800);
    let epoch = Date::from_julian_day(UNIX_EPOCH_JULIAN_DAY).unwrap();
    assert_eq!(epoch.midnight_unix_timestamp(), 0);
    assert_eq!(Date::from_julian_day(MIN_JULIAN_DAY).unwrap().midnight_unix_timestamp(), MIN_UNIX_TIMESTAMP);
}

#[test]
fn date_written_as_midnight_reads_back() {
    for jd in [MIN_JULIAN_DAY, -1, 0, UNIX_EPOCH_JULIAN_DAY - 1, 2_458_485, MAX_JULIAN_DAY] {
        let d = Date::from_julian_day(jd).unwrap();
        let back = Date::from_unix_timestamp(d.midnight_unix_timestamp()).unwrap();
        assert_eq!(back, d);
    }
}

#[test]
fn parse_year_month_day() {
    assert_eq!(Date::parse_ymd("20190101").unwrap().julian_day(), 2_458_485);
    assert_eq!(Date::parse_ymd("19700101").unwrap().julian_day(), UNIX_EPOCH_JULIAN_DAY);
    assert_eq!(Date::parse_ymd("20000229").unwrap().julian_day(), 2_451_604);
    assert!(Date::parse_ymd("20190230").is_none());
    assert!(Date::parse_ymd("2019-01-01").is_none());
    assert!(Date::parse_ymd("").is_none());
    assert!(Date::parse_ymd("201901011").is_none());
}

#[test]
fn timestamp_range() {
    assert_eq!(Timestamp::from_unix_timestamp(1_600_000_000).unwrap().unix_timestamp(), 1_600_000_000);
    assert_eq!(Timestamp::from_unix_timestamp(MIN_UNIX_TIMESTAMP).unwrap().unix_timestamp(), MIN_UNIX_TIMESTAMP);
    assert!(Timestamp::from_unix_timestamp(MAX_UNIX_TIMESTAMP + 1).is_none());
    assert!(Timestamp::from_unix_timestamp(i64::MIN).is_none());
}

#[test]
fn dates_in_calendar_order() {
    let a = Some(Date::from_julian_day(10).unwrap());
    let b = Some(Date::from_julian_day(11).unwrap());
    assert!(option_date_before_or_same(&None, &a));
    assert!(!option_date_before_or_same(&a, &None));
    assert!(option_date_before_or_same(&None, &None));
    assert!(option_date_before_or_same(&a, &b));
    assert!(option_date_before_or_same(&a, &a));
    assert!(!option_date_before_or_same(&b, &a));
}
