use app_core::sdcard::{update_wall_clock, DummyTimeSource, RtcTimeSource, WallClock};

#[test]
fn wall_clock_round_trip() {
    let clock = update_wall_clock(2026, 4, 22, 19, 3, 14);
    let ts = RtcTimeSource::new(clock).get_timestamp();
    assert_eq!(ts.year_since_1970, 56);
    assert_eq!(ts.zero_indexed_month, 3);
    assert_eq!(ts.zero_indexed_day, 21);
    assert_eq!(ts.hours, 19);
    assert_eq!(ts.minutes, 3);
    assert_eq!(ts.seconds, 14);
}

#[test]
fn wall_clock_clamps_prehistoric_years() {
    let clock = update_wall_clock(1900, 1, 1, 0, 0, 0);
    let ts = RtcTimeSource::new(clock).get_timestamp();
    assert_eq!(ts.year_since_1970, 10);
}

#[test]
fn unwritten_clock_reads_fat_epoch() {
    let ts = RtcTimeSource::new(WallClock { date: 0, time: 0 }).get_timestamp();
    assert_eq!((ts.year_since_1970, ts.zero_indexed_month, ts.zero_indexed_day), (10, 0, 0));
}

#[test]
fn wall_clock_packs_fields_and_clamps() {
    let c = update_wall_clock(2026, 4, 22, 19, 3, 14);
    assert_eq!(c.date, (56 << 9) | (3 << 5) | 21);
    assert_eq!(c.time, (19 << 12) | (3 << 6) | 14);
    // Month 13 clamps to December, day 40 to the 31st, year 2300 to 1970+254.
    let ts = RtcTimeSource::new(update_wall_clock(2300, 13, 40, 0, 0, 0)).get_timestamp();
    assert_eq!((ts.year_since_1970, ts.zero_indexed_month, ts.zero_indexed_day), (254, 11, 30));
}

#[test]
fn dummy_source_is_fixed() {
    let ts = DummyTimeSource.get_timestamp();
    assert_eq!((ts.year_since_1970, ts.zero_indexed_month, ts.zero_indexed_day), (56, 3, 2));
    assert_eq!((ts.hours, ts.minutes, ts.seconds), (0, 0, 0));
}
