use rust_web_demo::models::time::Time;

#[test]
fn time_writes_seconds_precision() {
    let t = Time::from_timestamp(0, 0).unwrap();
    assert_eq!(t.encode(), "1970-01-01 00:00:00");
    let t = Time::from_timestamp(1431648000, 999_999_999).unwrap();
    assert_eq!(t.encode(), "2015-05-15 00:00:00");
}

#[test]
fn time_reads_back_what_it_writes() {
    let t = Time::decode("2016-05-01 12:30:45");
    assert_eq!(t.encode(), "2016-05-01 12:30:45");
    assert_eq!(t.timestamp(), 1462105845);
    assert_eq!(t.subsec_nanos(), 0);
    let u = Time::from_timestamp(1462105845, 0).unwrap();
    assert_eq!(Time::decode(&u.encode()), u);
}

#[test]
fn time_rejects_other_text() {
    assert!(Time::try_decode("2016-05-01").is_none());
    assert!(Time::try_decode("not a time").is_none());
    assert!(Time::try_decode("2016-13-01 00:00:00").is_none());
    assert!(Time::try_decode("2016-02-29 23:59:59").is_some());
}

#[test]
fn time_range() {
    assert!(Time::from_timestamp(i64::MAX, 0).is_none());
    assert!(Time::from_timestamp(0, 2_000_000_000).is_none());
}

#[test]
fn time_now_is_representable() {
    let t = Time::new();
    assert!(Time::from_timestamp(t.timestamp(), t.subsec_nanos()).is_some());
    assert_eq!(t.encode().len(), 19);
}

#[test]
fn time_from_clock_offsets() {
    let t = Time::from_clock_offset(Ok((5, 7)));
    assert_eq!((t.timestamp(), t.subsec_nanos()), (5, 7));
    let t = Time::from_clock_offset(Err((1, 500_000_000)));
    assert_eq!((t.timestamp(), t.subsec_nanos()), (-2, 500_000_000));
    let t = Time::from_clock_offset(Err((3, 0)));
    assert_eq!((t.timestamp(), t.subsec_nanos()), (-3, 0));
    assert_eq!(t.encode(), "1969-12-31 23:59:57");
    let t = Time::from_clock_offset(Ok((u64::MAX, 0)));
    assert_eq!((t.timestamp(), t.subsec_nanos()), (0, 0));
    let t = Time::from_clock_offset(Ok((i64::MAX as u64, 0)));
    assert_eq!((t.timestamp(), t.subsec_nanos()), (0, 0));
}

#[test]
fn time_round_trip_to_the_second() {
    let min = chrono::DateTime::<chrono::Utc>::MIN_UTC.timestamp();
    let max = chrono::DateTime::<chrono::Utc>::MAX_UTC.timestamp();
    for (secs, nanos) in [(0i64, 0u32), (1462105845, 123), (-1, 999_999_999), (-62167219200, 0),
                          (-62167219201, 5), (253402300799, 0), (253402300800, 0), (min, 0), (max, 0)] {
        let t = Time::from_timestamp(secs, nanos).unwrap();
        let back = Time::decode(&t.encode());
        assert_eq!((back.timestamp(), back.subsec_nanos()), (secs, 0), "at {}", secs);
    }
}
