//! The wall clock that stamps files on the SD card: calendar date and
//! time packed into two 32-bit words (so that they can be shared through
//! atomics), and the FAT timestamp read back from them.
//!
//! Date word, least significant bit first: zero-indexed day (5 bits),
//! zero-indexed month (4 bits), years since 1970 (8 bits). A date word
//! of 0 means "never written" and reads as the FAT epoch (1980-01-01).
//! Time word: seconds (6 bits), minutes (6 bits), hours (5 bits).

use vstd::prelude::*;

verus! {

/// A calendar timestamp as the FAT filesystem records it.
#[derive(Debug, Clone, Copy, PartialEq, Eq, Structural)]
pub struct Timestamp {
    pub year_since_1970: u8,
    pub zero_indexed_month: u8,
    pub zero_indexed_day: u8,
    pub hours: u8,
    pub minutes: u8,
    pub seconds: u8,
}

/// The packed wall clock: date and time words.
#[derive(Debug, Clone, Copy, PartialEq, Eq, Structural)]
pub struct WallClock {
    pub date: u32,
    pub time: u32,
}

/// `v - sub` saturated at 0 and clamped to `max`.
pub open spec fn spec_sat_clamp(v: int, sub: int, max: int) -> int {
    let d = if v > sub { v - sub } else { 0 };
    if d < max { d } else { max }
}

/// The date word of a calendar date: years since 1970 (clamped to
/// 0..=254), month and day made zero-indexed (clamped to 0..=11 and
/// 0..=30).
pub open spec fn spec_pack_date(year: u16, month: u8, day: u8) -> u32 {
    (spec_sat_clamp(year as int, 1970, 254) * 512 + spec_sat_clamp(month as int, 1, 11) * 32 + spec_sat_clamp(
        day as int,
        1,
        30,
    )) as u32
}

/// The time word of a time of day (each field truncated to its width).
pub open spec fn spec_pack_time(hour: u8, minute: u8, second: u8) -> u32 {
    ((hour % 32) as int * 4096 + (minute % 64) as int * 64 + (second % 64) as int) as u32
}

/// The FAT epoch, 1980-01-01 00:00:00.
pub open spec fn spec_fat_epoch() -> Timestamp {
    Timestamp {
        year_since_1970: 10,
        zero_indexed_month: 0,
        zero_indexed_day: 0,
        hours: 0,
        minutes: 0,
        seconds: 0,
    }
}

/// The timestamp of a packed wall clock.
pub open spec fn spec_timestamp(c: WallClock) -> Timestamp {
    if c.date == 0 {
        spec_fat_epoch()
    } else {
        Timestamp {
            year_since_1970: ((c.date / 512) % 256) as u8,
            zero_indexed_month: ((c.date / 32) % 16) as u8,
            zero_indexed_day: (c.date % 32) as u8,
            hours: ((c.time / 4096) % 32) as u8,
            minutes: ((c.time / 64) % 64) as u8,
            seconds: (c.time % 64) as u8,
        }
    }
}

fn sat_clamp(v: u16, sub: u16, max: u16) -> (r: u32)
    ensures
        r == spec_sat_clamp(v as int, sub as int, max as int),
{
    let d = if v > sub { v - sub } else { 0 };
    (if d < max { d } else { max }) as u32
}

/// Pack a calendar date and time into the wall-clock words.
pub fn update_wall_clock(year: u16, month: u8, day: u8, hour: u8, minute: u8, second: u8) -> (c: WallClock)
    ensures
        c.date == spec_pack_date(year, month, day),
        c.time == spec_pack_time(hour, minute, second),
{
    let y = sat_clamp(year, 1970, 254);
    let m = sat_clamp(month as u16, 1, 11);
    let d = sat_clamp(day as u16, 1, 30);
    let date = (y << 9) | (m << 5) | d;
    assert(date == y * 512 + m * 32 + d) by (bit_vector)
        requires
            y <= 254,
            m <= 11,
            d <= 30,
            date == (y << 9) | (m << 5) | d,
    ;
    let h = hour as u32;
    let mi = minute as u32;
    let s = second as u32;
    let time = ((h & 0x1F) << 12) | ((mi & 0x3F) << 6) | (s & 0x3F);
    assert(time == (h % 32) * 4096 + (mi % 64) * 64 + (s % 64)) by (bit_vector)
        requires
            h < 256,
            mi < 256,
            s < 256,
            time == ((h & 0x1F) << 12) | ((mi & 0x3F) << 6) | (s & 0x3F),
    ;
    WallClock { date, time }
}

/// The timestamp source backed by the wall clock.
#[derive(Debug, Clone, Copy)]
pub struct RtcTimeSource {
    pub clock: WallClock,
}

impl RtcTimeSource {
    /// A source reading `clock`.
    pub fn new(clock: WallClock) -> (s: Self)
        ensures
            s.clock == clock,
    {
        RtcTimeSource { clock }
    }

    /// The current timestamp: the FAT epoch until a date has been
    /// written, else the packed fields.
    pub fn get_timestamp(&self) -> (t: Timestamp)
        ensures
            t == spec_timestamp(self.clock),
    {
        let date = self.clock.date;
        let time = self.clock.time;
        if date == 0 {
            return Timestamp {
                year_since_1970: 10,
                zero_indexed_month: 0,
                zero_indexed_day: 0,
                hours: 0,
                minutes: 0,
                seconds: 0,
            };
        }
        let t = Timestamp {
            year_since_1970: ((date >> 9) & 0xFF) as u8,
            zero_indexed_month: ((date >> 5) & 0x0F) as u8,
            zero_indexed_day: (date & 0x1F) as u8,
            hours: ((time >> 12) & 0x1F) as u8,
            minutes: ((time >> 6) & 0x3F) as u8,
            seconds: (time & 0x3F) as u8,
        };
        assert(((date >> 9) & 0xFF) == (date / 512) % 256 && ((date >> 5) & 0x0F) == (date / 32) % 16 && (date
            & 0x1F) == date % 32) by (bit_vector);
        assert(((time >> 12) & 0x1F) == (time / 4096) % 32 && ((time >> 6) & 0x3F) == (time / 64) % 64 && (time
            & 0x3F) == time % 64) by (bit_vector);
        t
    }
}

/// A timestamp source that always reads 2026-04-03 00:00:00.
#[derive(Debug, Clone, Copy)]
pub struct DummyTimeSource;

impl DummyTimeSource {
    /// The fixed timestamp.
    pub fn get_timestamp(&self) -> (t: Timestamp)
        ensures
            t == (Timestamp {
                year_since_1970: 56,
                zero_indexed_month: 3,
                zero_indexed_day: 2,
                hours: 0,
                minutes: 0,
                seconds: 0,
            }),
    {
        Timestamp { year_since_1970: 56, zero_indexed_month: 3, zero_indexed_day: 2, hours: 0, minutes: 0, seconds: 0 }
    }
}

/// Writing a valid date and time other than 1970-01-01 and reading the
/// timestamp back gives the same calendar fields (zero-indexed month and
/// day, years counted from 1970).
pub proof fn lemma_wall_clock_round_trip(year: u16, month: u8, day: u8, hour: u8, minute: u8, second: u8)
    requires
        1970 <= year <= 1970 + 254,
        1 <= month <= 12,
        1 <= day <= 31,
        hour < 24,
        minute < 60,
        second < 60,
        !(year == 1970 && month == 1 && day == 1),
    ensures
        spec_timestamp(WallClock { date: spec_pack_date(year, month, day), time: spec_pack_time(hour, minute, second) })
            == (Timestamp {
            year_since_1970: (year - 1970) as u8,
            zero_indexed_month: (month - 1) as u8,
            zero_indexed_day: (day - 1) as u8,
            hours: hour,
            minutes: minute,
            seconds: second,
        }),
{
    let y = year - 1970;
    let m = month - 1;
    let d = day - 1;
    let date = y * 512 + m * 32 + d;
    assert(date > 0);
    assert(date / 512 == y && date / 32 % 16 == m && date % 32 == d) by (nonlinear_arith)
        requires
            0 <= y <= 254,
            0 <= m <= 11,
            0 <= d <= 30,
            date == y * 512 + m * 32 + d,
    ;
    let t = hour * 4096 + minute * 64 + second;
    assert(t / 4096 == hour && t / 64 % 64 == minute && t % 64 == second) by (nonlinear_arith)
        requires
            0 <= hour < 24,
            0 <= minute < 60,
            0 <= second < 60,
            t == hour * 4096 + minute * 64 + second,
    ;
}

/// A year before 1970 is clamped to 1970; on January 1st that packs to
/// the "never written" date, which reads as the FAT epoch.
pub proof fn lemma_wall_clock_clamps_early_years(year: u16, month: u8, day: u8, hour: u8, minute: u8, second: u8)
    requires
        year <= 1970,
        month <= 1,
        day <= 1,
    ensures
        spec_timestamp(WallClock { date: spec_pack_date(year, month, day), time: spec_pack_time(hour, minute, second) })
            == spec_fat_epoch(),
{
}

} // verus!
