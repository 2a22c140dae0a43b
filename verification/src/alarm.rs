//! Alarm list, next-alarm search, RTC reprogramming plan, snooze time and
//! the weekday calculation they rely on.

use vstd::prelude::*;

verus! {

/// Maximum number of user-configurable alarms.
pub const MAX_ALARMS: usize = 8;

/// One alarm entry.
#[derive(Debug, Clone, Copy)]
pub struct AlarmEntry {
    pub hour: u8,
    pub minute: u8,
    /// Bitmask of active days: bit 0 = Sunday ... bit 6 = Saturday.
    pub days: u8,
    pub enabled: bool,
}

impl Default for AlarmEntry {
    /// Midnight, every day, disabled.
    fn default() -> (e: Self)
        ensures
            e == AlarmEntry::spec_default(),
    {
        AlarmEntry { hour: 0, minute: 0, days: 0x7F, enabled: false }
    }
}

/// True if the entry is enabled and its day bit for `weekday` is set.
pub open spec fn spec_fires_on(e: AlarmEntry, weekday: u8) -> bool {
    e.enabled && (e.days & (1u8 << weekday)) != 0
}

impl AlarmEntry {
    pub open spec fn spec_default() -> AlarmEntry {
        AlarmEntry { hour: 0, minute: 0, days: 0x7F, enabled: false }
    }

    /// True if this alarm fires on the given weekday (0=Sunday..6=Saturday).
    pub fn fires_on(&self, weekday: u8) -> (r: bool)
        requires
            weekday < 8,
        ensures
            r == spec_fires_on(*self, weekday),
    {
        self.enabled && (self.days & (1u8 << weekday)) != 0
    }
}

/// Persistent alarm list plus transient runtime flags.
#[derive(Debug, Clone, Copy)]
pub struct AlarmState {
    pub entries: [AlarmEntry; MAX_ALARMS],
    /// Index of the alarm currently programmed into the RTC, if any.
    pub active_hw: Option<usize>,
    /// An alarm has fired and the user hasn't dismissed it.
    pub alerting: bool,
    /// A snooze is active; regular reprogramming is skipped.
    pub snoozed: bool,
}

impl Default for AlarmState {
    fn default() -> (s: Self)
        ensures
            s == AlarmState::spec_default(),
    {
        AlarmState {
            entries: [
                AlarmEntry::default(), AlarmEntry::default(), AlarmEntry::default(), AlarmEntry::default(),
                AlarmEntry::default(), AlarmEntry::default(), AlarmEntry::default(), AlarmEntry::default(),
            ],
            active_hw: None,
            alerting: false,
            snoozed: false,
        }
    }
}

/// Number of enabled entries among the first `n`.
pub open spec fn spec_count_enabled(entries: [AlarmEntry; MAX_ALARMS], n: int) -> int
    decreases n,
{
    if n <= 0 {
        0
    } else {
        spec_count_enabled(entries, n - 1) + if entries[n - 1].enabled { 1int } else { 0int }
    }
}

/// At most `n` of the first `n` entries are enabled.
pub proof fn lemma_count_enabled_bounded(entries: [AlarmEntry; MAX_ALARMS], n: int)
    ensures
        0 <= spec_count_enabled(entries, n) <= (if n < 0 { 0 } else { n }),
    decreases n,
{
    if n > 0 {
        lemma_count_enabled_bounded(entries, n - 1);
    }
}

/// The first day offset `d..=7` from `weekday` on which the entry fires,
/// skipping today (offset 0) if the alarm time is not after now; offset 7
/// is today's weekday next week.
pub open spec fn spec_first_day(e: AlarmEntry, now_mins: int, alarm_mins: int, weekday: int, d: int) -> Option<int>
    decreases 8 - d,
{
    if d < 0 || d >= 8 {
        None
    } else if spec_fires_on(e, ((weekday + d) % 7) as u8) && !(d == 0 && alarm_mins <= now_mins) {
        Some(d)
    } else {
        spec_first_day(e, now_mins, alarm_mins, weekday, d + 1)
    }
}

/// How many minutes ahead the entry next fires, counted as the search
/// counts them: the difference for later today, and `d * 1440 + alarm
/// minutes` for a later day `d` (up to the same weekday next week).
/// `None` if disabled or firing on no day of the week.
pub open spec fn spec_minutes_until(e: AlarmEntry, hour: u8, minute: u8, weekday: u8) -> Option<int> {
    let now = hour * 60 + minute;
    let am = e.hour * 60 + e.minute;
    if !e.enabled {
        None
    } else {
        match spec_first_day(e, now, am, weekday as int, 0) {
            None => None,
            Some(d) => Some(if d == 0 { am - now } else { d * 1440 + am }),
        }
    }
}

/// Entry `i` is the next alarm: it fires, no entry fires sooner, and no
/// earlier entry fires as soon.
pub open spec fn spec_is_next(entries: [AlarmEntry; MAX_ALARMS], hour: u8, minute: u8, weekday: u8, i: int) -> bool {
    &&& 0 <= i < MAX_ALARMS
    &&& spec_minutes_until(entries[i], hour, minute, weekday) is Some
    &&& forall|j: int| 0 <= j < MAX_ALARMS && #[trigger] spec_minutes_until(entries[j], hour, minute, weekday) is Some
        ==> spec_minutes_until(entries[i], hour, minute, weekday).unwrap()
            <= spec_minutes_until(entries[j], hour, minute, weekday).unwrap()
    &&& forall|j: int| 0 <= j < i && #[trigger] spec_minutes_until(entries[j], hour, minute, weekday) is Some
        ==> spec_minutes_until(entries[i], hour, minute, weekday).unwrap()
            < spec_minutes_until(entries[j], hour, minute, weekday).unwrap()
}

/// The next alarm to fire after `hour:minute` on `weekday`, or `None` if
/// no enabled entry fires on any weekday.
pub open spec fn spec_next_alarm(entries: [AlarmEntry; MAX_ALARMS], hour: u8, minute: u8, weekday: u8) -> Option<usize> {
    if exists|i: int| spec_is_next(entries, hour, minute, weekday, i) {
        Some((choose|i: int| spec_is_next(entries, hour, minute, weekday, i)) as usize)
    } else {
        None
    }
}

/// What the RTC must be commanded to after a reprogramming check.
#[derive(Debug, Clone, Copy, PartialEq, Eq, Structural)]
pub enum AlarmReprogram {
    /// Program the RTC to fire at the given hour:minute.
    SetAlarm { hour: u8, minute: u8 },
    /// Clear the RTC alarm (no enabled alarms).
    CancelAlarm,
}

/// The state after a reprogramming check and the command it yields.
pub open spec fn spec_plan_reprogram(s: AlarmState, hour: u8, minute: u8, weekday: u8) -> (AlarmState, Option<AlarmReprogram>) {
    let next = spec_next_alarm(s.entries, hour, minute, weekday);
    if s.snoozed || next == s.active_hw {
        (s, None)
    } else {
        (
            AlarmState { active_hw: next, ..s },
            Some(match next {
                Some(i) => AlarmReprogram::SetAlarm { hour: s.entries[i as int].hour, minute: s.entries[i as int].minute },
                None => AlarmReprogram::CancelAlarm,
            }),
        )
    }
}

proof fn lemma_is_next_unique(entries: [AlarmEntry; MAX_ALARMS], hour: u8, minute: u8, weekday: u8, a: int, b: int)
    requires
        spec_is_next(entries, hour, minute, weekday, a),
        spec_is_next(entries, hour, minute, weekday, b),
    ensures
        a == b,
{
    if a < b {
        assert(spec_minutes_until(entries[a], hour, minute, weekday) is Some);
    } else if b < a {
        assert(spec_minutes_until(entries[b], hour, minute, weekday) is Some);
    }
}

/// First day offset from 0 on which the entry fires (see [`spec_first_day`]).
fn first_firing_day(entry: &AlarmEntry, now_mins: u16, alarm_mins: u16, weekday: u8) -> (r: Option<u8>)
    requires
        weekday <= 249,
    ensures
        r matches Some(d) ==> spec_first_day(*entry, now_mins as int, alarm_mins as int, weekday as int, 0) == Some(d as int),
        r is None ==> spec_first_day(*entry, now_mins as int, alarm_mins as int, weekday as int, 0) is None,
{
    let mut d: u8 = 0;
    while d < 8
        invariant
            d <= 8,
            weekday <= 249,
            spec_first_day(*entry, now_mins as int, alarm_mins as int, weekday as int, 0)
                == spec_first_day(*entry, now_mins as int, alarm_mins as int, weekday as int, d as int),
        decreases 8 - d,
    {
        let check_day = ((weekday as u16 + d as u16) % 7) as u8;
        if entry.fires_on(check_day) && !(d == 0 && alarm_mins <= now_mins) {
            return Some(d);
        }
        d = d + 1;
    }
    None
}

impl AlarmState {
    pub open spec fn spec_default() -> AlarmState {
        AlarmState {
            entries: [
                AlarmEntry::spec_default(), AlarmEntry::spec_default(), AlarmEntry::spec_default(),
                AlarmEntry::spec_default(), AlarmEntry::spec_default(), AlarmEntry::spec_default(),
                AlarmEntry::spec_default(), AlarmEntry::spec_default(),
            ],
            active_hw: None,
            alerting: false,
            snoozed: false,
        }
    }

    /// Count of enabled alarms.
    pub fn enabled_count(&self) -> (n: usize)
        ensures
            n == spec_count_enabled(self.entries, MAX_ALARMS as int),
    {
        let mut n: usize = 0;
        let mut i: usize = 0;
        while i < MAX_ALARMS
            invariant
                i <= MAX_ALARMS,
                n == spec_count_enabled(self.entries, i as int),
                n <= i,
            decreases MAX_ALARMS - i,
        {
            if self.entries[i].enabled {
                n = n + 1;
            }
            i = i + 1;
        }
        n
    }

    /// Find the next alarm that fires after the given time and weekday,
    /// looking up to a full week ahead (an alarm that already passed today
    /// fires again next week). Returns its index, or `None` if no enabled
    /// alarm fires on any weekday.
    pub fn next_alarm(&self, hour: u8, minute: u8, weekday: u8) -> (r: Option<usize>)
        requires
            weekday <= 249,
        ensures
            r == spec_next_alarm(self.entries, hour, minute, weekday),
    {
        let now_mins: u16 = hour as u16 * 60 + minute as u16;
        let mut best: Option<(usize, u16)> = None;
        let mut i: usize = 0;
        while i < MAX_ALARMS
            invariant
                i <= MAX_ALARMS,
                weekday <= 249,
                now_mins == hour * 60 + minute,
                best is None ==> forall|j: int| 0 <= j < i ==>
                    (#[trigger] spec_minutes_until(self.entries[j], hour, minute, weekday)) is None,
                best matches Some((bi, bm)) ==> {
                    &&& bi < i
                    &&& spec_minutes_until(self.entries[bi as int], hour, minute, weekday) == Some(bm as int)
                    &&& forall|j: int| 0 <= j < i && #[trigger] spec_minutes_until(self.entries[j], hour, minute, weekday) is Some
                        ==> bm <= spec_minutes_until(self.entries[j], hour, minute, weekday).unwrap()
                    &&& forall|j: int| 0 <= j < bi && #[trigger] spec_minutes_until(self.entries[j], hour, minute, weekday) is Some
                        ==> bm < spec_minutes_until(self.entries[j], hour, minute, weekday).unwrap()
                },
            decreases MAX_ALARMS - i,
        {
            let entry = &self.entries[i];
            if entry.enabled {
                let alarm_mins: u16 = entry.hour as u16 * 60 + entry.minute as u16;
                match first_firing_day(entry, now_mins, alarm_mins, weekday) {
                    None => {},
                    Some(day_offset) => {
                        proof {
                            lemma_first_day_range(*entry, now_mins as int, alarm_mins as int, weekday as int, 0);
                        }
                        let mins_until: u16 = if day_offset == 0 {
                            alarm_mins - now_mins
                        } else {
                            day_offset as u16 * 24 * 60 + alarm_mins
                        };
                        match best {
                            Some((_, best_mins)) => {
                                if mins_until < best_mins {
                                    best = Some((i, mins_until));
                                }
                            },
                            None => {
                                best = Some((i, mins_until));
                            },
                        }
                    },
                }
            }
            i = i + 1;
        }
        match best {
            Some((bi, _)) => {
                proof {
                    assert(spec_is_next(self.entries, hour, minute, weekday, bi as int));
                    let c = choose|k: int| spec_is_next(self.entries, hour, minute, weekday, k);
                    lemma_is_next_unique(self.entries, hour, minute, weekday, bi as int, c);
                }
                Some(bi)
            },
            None => {
                assert(!exists|k: int| spec_is_next(self.entries, hour, minute, weekday, k));
                None
            },
        }
    }

    /// Clock time `minutes_from_now` minutes after `hour:minute`, with
    /// hour and midnight wraparound.
    pub fn compute_snooze(hour: u8, minute: u8, minutes_from_now: u8) -> (r: (u8, u8))
        requires
            hour + (minute + minutes_from_now) / 60 <= 255,
        ensures
            r.0 == (hour + (minute + minutes_from_now) / 60) % 24,
            r.1 == (minute + minutes_from_now) % 60,
            r.0 < 24 && r.1 < 60,
            hour < 24 && minute < 60 ==>
                r.0 * 60 + r.1 == (hour * 60 + minute + minutes_from_now) % 1440,
    {
        let total: u16 = minute as u16 + minutes_from_now as u16;
        let snooze_minute = (total % 60) as u8;
        let hours_added = (total / 60) as u8;
        let snooze_hour = (hour + hours_added) % 24;
        proof {
            lemma_snooze_clock(hour as int, total as int);
        }
        (snooze_hour, snooze_minute)
    }

    /// Decide what the RTC should be programmed to, record the new target
    /// in `active_hw`, and return the command to forward. Returns `None`
    /// when snoozed or when the target did not change.
    pub fn plan_reprogram(&mut self, hour: u8, minute: u8, weekday: u8) -> (r: Option<AlarmReprogram>)
        requires
            weekday <= 249,
        ensures
            (*final(self), r) == spec_plan_reprogram(*old(self), hour, minute, weekday),
    {
        if self.snoozed {
            return None;
        }
        let next = self.next_alarm(hour, minute, weekday);
        let same = match (next, self.active_hw) {
            (Some(a), Some(b)) => a == b,
            (None, None) => true,
            _ => false,
        };
        if same {
            return None;
        }
        self.active_hw = next;
        Some(match next {
            Some(idx) => {
                assert(spec_is_next(self.entries, hour, minute, weekday, idx as int)) by {
                    let c = choose|k: int| spec_is_next(self.entries, hour, minute, weekday, k);
                    assert(spec_is_next(self.entries, hour, minute, weekday, c));
                };
                let e = &self.entries[idx];
                AlarmReprogram::SetAlarm { hour: e.hour, minute: e.minute }
            },
            None => AlarmReprogram::CancelAlarm,
        })
    }
}

proof fn lemma_first_day_range(e: AlarmEntry, now_mins: int, alarm_mins: int, weekday: int, d: int)
    requires
        spec_first_day(e, now_mins, alarm_mins, weekday, d) is Some,
    ensures
        0 <= spec_first_day(e, now_mins, alarm_mins, weekday, d).unwrap() < 8,
        d <= spec_first_day(e, now_mins, alarm_mins, weekday, d).unwrap(),
        spec_first_day(e, now_mins, alarm_mins, weekday, d).unwrap() == 0 ==> alarm_mins > now_mins,
    decreases 8 - d,
{
    if d < 0 || d >= 8 {
    } else if spec_fires_on(e, ((weekday + d) % 7) as u8) && !(d == 0 && alarm_mins <= now_mins) {
    } else {
        lemma_first_day_range(e, now_mins, alarm_mins, weekday, d + 1);
    }
}

proof fn lemma_snooze_clock(hour: int, total: int)
    requires
        0 <= hour,
        0 <= total,
    ensures
        hour < 24 ==> ((hour + total / 60) % 24) * 60 + total % 60 == (hour * 60 + total) % 1440,
{
    let a = total / 60;
    let b = total % 60;
    assert(total == a * 60 + b && 0 <= b < 60) by (nonlinear_arith)
        requires 0 <= total, a == total / 60, b == total % 60;
    let s = hour + a;
    let q = s / 24;
    let r = s % 24;
    assert(s == q * 24 + r && 0 <= r < 24) by (nonlinear_arith)
        requires 0 <= s, q == s / 24, r == s % 24;
    assert(hour * 60 + total == q * 1440 + (r * 60 + b)) by (nonlinear_arith)
        requires total == a * 60 + b, s == hour + a, s == q * 24 + r;
    assert((q * 1440 + (r * 60 + b)) % 1440 == r * 60 + b) by (nonlinear_arith)
        requires 0 <= r < 24, 0 <= b < 60, 0 <= q;
}

/// A reprogramming check is idempotent: repeating it with the same time
/// and weekday changes nothing further and yields no command.
pub proof fn lemma_plan_reprogram_idempotent(s: AlarmState, hour: u8, minute: u8, weekday: u8)
    ensures
        ({
            let s1 = spec_plan_reprogram(s, hour, minute, weekday).0;
            spec_plan_reprogram(s1, hour, minute, weekday) == (s1, None::<AlarmReprogram>)
        }),
{
}

/// While a snooze is active, reprogramming never touches the RTC.
pub proof fn lemma_snooze_blocks_reprogram(s: AlarmState, hour: u8, minute: u8, weekday: u8)
    requires
        s.snoozed,
    ensures
        spec_plan_reprogram(s, hour, minute, weekday) == (s, None::<AlarmReprogram>),
{
}

/// The next alarm is always an enabled entry.
pub proof fn lemma_next_alarm_is_enabled(entries: [AlarmEntry; MAX_ALARMS], hour: u8, minute: u8, weekday: u8)
    ensures
        spec_next_alarm(entries, hour, minute, weekday) matches Some(i) ==> entries[i as int].enabled,
{
    if exists|i: int| spec_is_next(entries, hour, minute, weekday, i) {
        let c = choose|i: int| spec_is_next(entries, hour, minute, weekday, i);
        assert(spec_is_next(entries, hour, minute, weekday, c));
        assert(spec_minutes_until(entries[c], hour, minute, weekday) is Some);
    }
}

/// With every entry disabled there is no next alarm.
pub proof fn lemma_no_enabled_no_next(entries: [AlarmEntry; MAX_ALARMS], hour: u8, minute: u8, weekday: u8)
    requires
        forall|j: int| 0 <= j < MAX_ALARMS ==> !(#[trigger] entries[j]).enabled,
    ensures
        spec_next_alarm(entries, hour, minute, weekday) is None,
{
    if exists|i: int| spec_is_next(entries, hour, minute, weekday, i) {
        let c = choose|i: int| spec_is_next(entries, hour, minute, weekday, i);
        assert(spec_is_next(entries, hour, minute, weekday, c));
        assert(!entries[c].enabled);
    }
}

/// Minutes from `hour:minute` on `weekday` until the entry next fires:
/// the first firing day `d` ahead (0 = later today, 7 = today's weekday
/// next week) times a day, plus the alarm's minute of the day, less now.
pub open spec fn spec_wait(e: AlarmEntry, hour: u8, minute: u8, weekday: u8) -> Option<int> {
    let now = hour * 60 + minute;
    let am = e.hour * 60 + e.minute;
    if !e.enabled {
        None
    } else {
        match spec_first_day(e, now, am, weekday as int, 0) {
            None => None,
            Some(d) => Some(d * 1440 + am - now),
        }
    }
}

/// The entry fires on some weekday.
pub open spec fn spec_fires_some_day(e: AlarmEntry) -> bool {
    exists|w: int| 0 <= w < 7 && #[trigger] spec_fires_on(e, w as u8)
}

/// Entries `0..n` with the soonest search measure, earliest index first.
spec fn spec_best_upto(entries: [AlarmEntry; MAX_ALARMS], hour: u8, minute: u8, weekday: u8, n: int) -> Option<int>
    decreases n,
{
    if n <= 0 {
        None
    } else {
        let prev = spec_best_upto(entries, hour, minute, weekday, n - 1);
        let m = spec_minutes_until(entries[n - 1], hour, minute, weekday);
        match (prev, m) {
            (None, Some(_)) => Some(n - 1),
            (Some(b), Some(v)) => if v < spec_minutes_until(entries[b], hour, minute, weekday).unwrap() {
                Some(n - 1)
            } else {
                Some(b)
            },
            _ => prev,
        }
    }
}

proof fn lemma_best_upto(entries: [AlarmEntry; MAX_ALARMS], hour: u8, minute: u8, weekday: u8, n: int)
    requires
        0 <= n <= MAX_ALARMS,
    ensures
        spec_best_upto(entries, hour, minute, weekday, n) is None ==> forall|j: int|
            0 <= j < n ==> (#[trigger] spec_minutes_until(entries[j], hour, minute, weekday)) is None,
        spec_best_upto(entries, hour, minute, weekday, n) matches Some(b) ==> {
            &&& 0 <= b < n
            &&& spec_minutes_until(entries[b], hour, minute, weekday) is Some
            &&& forall|j: int| 0 <= j < n && #[trigger] spec_minutes_until(entries[j], hour, minute, weekday) is Some
                ==> spec_minutes_until(entries[b], hour, minute, weekday).unwrap()
                    <= spec_minutes_until(entries[j], hour, minute, weekday).unwrap()
            &&& forall|j: int| 0 <= j < b && #[trigger] spec_minutes_until(entries[j], hour, minute, weekday) is Some
                ==> spec_minutes_until(entries[b], hour, minute, weekday).unwrap()
                    < spec_minutes_until(entries[j], hour, minute, weekday).unwrap()
        },
    decreases n,
{
    if n > 0 {
        lemma_best_upto(entries, hour, minute, weekday, n - 1);
    }
}

/// Some entry fires in the week ahead exactly when some search step
/// finds it.
proof fn lemma_first_day_found(e: AlarmEntry, now_mins: int, alarm_mins: int, weekday: int, d: int, k: int)
    requires
        0 <= d <= k < 8,
        spec_fires_on(e, ((weekday + k) % 7) as u8),
        !(k == 0 && alarm_mins <= now_mins),
    ensures
        spec_first_day(e, now_mins, alarm_mins, weekday, d) is Some,
    decreases k - d,
{
    if d < k && !(spec_fires_on(e, ((weekday + d) % 7) as u8) && !(d == 0 && alarm_mins <= now_mins)) {
        lemma_first_day_found(e, now_mins, alarm_mins, weekday, d + 1, k);
    }
}

proof fn lemma_first_day_none(e: AlarmEntry, now_mins: int, alarm_mins: int, weekday: int, d: int)
    requires
        0 <= weekday,
        forall|w: int| 0 <= w < 7 ==> !#[trigger] spec_fires_on(e, w as u8),
    ensures
        spec_first_day(e, now_mins, alarm_mins, weekday, d) is None,
    decreases 8 - d,
{
    if 0 <= d < 8 {
        let w = (weekday + d) % 7;
        if d >= 0 {
            assert(0 <= w < 7);
            assert(!spec_fires_on(e, w as u8));
        }
        lemma_first_day_none(e, now_mins, alarm_mins, weekday, d + 1);
    }
}

/// There is a next alarm exactly when some enabled entry fires on some
/// weekday: an alarm that already passed today still fires next week.
pub proof fn lemma_next_alarm_exists_iff_some_fires(entries: [AlarmEntry; MAX_ALARMS], hour: u8, minute: u8, weekday: u8)
    requires
        weekday <= 249,
    ensures
        spec_next_alarm(entries, hour, minute, weekday) is Some <==> exists|k: int|
            0 <= k < MAX_ALARMS && #[trigger] spec_fires_some_day(entries[k]),
{
    let now = hour * 60 + minute;
    if exists|k: int| 0 <= k < MAX_ALARMS && #[trigger] spec_fires_some_day(entries[k]) {
        let k = choose|k: int| 0 <= k < MAX_ALARMS && #[trigger] spec_fires_some_day(entries[k]);
        let e = entries[k];
        let w = choose|w: int| 0 <= w < 7 && #[trigger] spec_fires_on(e, w as u8);
        let am = e.hour * 60 + e.minute;
        let wd = weekday as int;
        let d = (w - wd % 7 + 7) % 7;
        assert((wd + d) % 7 == w && 0 <= d < 7) by (nonlinear_arith)
            requires 0 <= w < 7, 0 <= wd, d == (w - wd % 7 + 7) % 7;
        if d == 0 && am <= now {
            assert((wd + 7) % 7 == w) by (nonlinear_arith)
                requires (wd + 0) % 7 == w, 0 <= wd;
            lemma_first_day_found(e, now, am, wd, 0, 7);
        } else {
            lemma_first_day_found(e, now, am, wd, 0, d);
        }
        assert(e.enabled);
        assert(spec_minutes_until(entries[k], hour, minute, weekday) is Some);
        lemma_best_upto(entries, hour, minute, weekday, MAX_ALARMS as int);
        let b = spec_best_upto(entries, hour, minute, weekday, MAX_ALARMS as int).unwrap();
        assert(spec_is_next(entries, hour, minute, weekday, b));
    } else {
        assert forall|j: int| 0 <= j < MAX_ALARMS implies (#[trigger] spec_minutes_until(entries[j], hour, minute, weekday)) is None by {
            let e = entries[j];
            assert(!spec_fires_some_day(e));
            assert forall|w: int| 0 <= w < 7 implies !#[trigger] spec_fires_on(e, w as u8) by {
                if spec_fires_on(e, w as u8) {
                    assert(spec_fires_some_day(e));
                }
            }
            lemma_first_day_none(e, now, e.hour * 60 + e.minute, weekday as int, 0);
        }
        if exists|i: int| spec_is_next(entries, hour, minute, weekday, i) {
            let c = choose|i: int| spec_is_next(entries, hour, minute, weekday, i);
            assert(spec_minutes_until(entries[c], hour, minute, weekday) is Some);
        }
    }
}

/// Whether day offset `d` is a firing day for the search: the entry fires
/// on that weekday, and for today only if its time is still ahead.
pub open spec fn spec_firing_offset(e: AlarmEntry, now_mins: int, alarm_mins: int, weekday: int, d: int) -> bool {
    spec_fires_on(e, ((weekday + d) % 7) as u8) && !(d == 0 && alarm_mins <= now_mins)
}

proof fn lemma_first_day_least(e: AlarmEntry, now_mins: int, alarm_mins: int, weekday: int, start: int)
    requires
        0 <= start <= 8,
    ensures
        spec_first_day(e, now_mins, alarm_mins, weekday, start) matches Some(d) ==> {
            &&& start <= d < 8
            &&& spec_firing_offset(e, now_mins, alarm_mins, weekday, d)
            &&& forall|k: int| start <= k < d ==> !#[trigger] spec_firing_offset(e, now_mins, alarm_mins, weekday, k)
        },
        spec_first_day(e, now_mins, alarm_mins, weekday, start) is None ==> forall|k: int|
            start <= k < 8 ==> !#[trigger] spec_firing_offset(e, now_mins, alarm_mins, weekday, k),
    decreases 8 - start,
{
    if start < 8 {
        lemma_first_day_least(e, now_mins, alarm_mins, weekday, start + 1);
    }
}

/// Whether the entry's alarm time falls `t` minutes (at least one) after
/// `hour:minute` on `weekday`, on a day the entry fires.
pub open spec fn spec_lands(e: AlarmEntry, hour: u8, minute: u8, weekday: u8, t: int) -> bool {
    let now = hour * 60 + minute;
    &&& 1 <= t
    &&& (now + t) % 1440 == e.hour * 60 + e.minute
    &&& spec_fires_on(e, ((weekday + (now + t) / 1440) % 7) as u8)
}

/// For a valid clock time and alarm time, the wait is the first minute
/// (from one on) at which the entry's alarm goes off, within the week
/// ahead; without a wait the alarm goes off at no minute of that week.
pub proof fn lemma_wait_is_first_landing(e: AlarmEntry, hour: u8, minute: u8, weekday: u8)
    requires
        hour < 24,
        minute < 60,
        e.hour < 24,
        e.minute < 60,
    ensures
        spec_wait(e, hour, minute, weekday) matches Some(w) ==> {
            &&& 1 <= w <= 10080
            &&& spec_lands(e, hour, minute, weekday, w)
            &&& forall|t: int| 1 <= t < w ==> !#[trigger] spec_lands(e, hour, minute, weekday, t)
        },
        spec_wait(e, hour, minute, weekday) is None ==> forall|t: int|
            1 <= t <= 10080 ==> !#[trigger] spec_lands(e, hour, minute, weekday, t),
{
    let now = hour * 60 + minute;
    let am = e.hour * 60 + e.minute;
    let wd = weekday as int;
    assert(0 <= now < 1440 && 0 <= am < 1440);
    lemma_first_day_least(e, now, am, wd, 0);
    let fd = spec_first_day(e, now, am, wd, 0);
    // A landing minute `t` is a firing day offset `d` on from now.
    assert forall|t: int| #[trigger] spec_lands(e, hour, minute, weekday, t) implies {
        let d = (now + t) / 1440;
        &&& d >= 0
        &&& t == d * 1440 + am - now
        &&& spec_firing_offset(e, now, am, wd, d)
    } by {
        let d = (now + t) / 1440;
        vstd::arithmetic::div_mod::lemma_fundamental_div_mod(now + t, 1440);
        assert(now + t == 1440 * d + am);
        assert(d >= 0);
        if d == 0 {
            assert(am > now);
        }
    }
    if e.enabled && fd is Some {
        let d = fd.unwrap();
        let w = d * 1440 + am - now;
        assert(spec_wait(e, hour, minute, weekday) == Some(w));
        vstd::arithmetic::div_mod::lemma_fundamental_div_mod_converse(now + w, 1440, d, am);
        assert(spec_lands(e, hour, minute, weekday, w));
        if d == 7 {
            assert((wd + 7) % 7 == (wd + 0) % 7) by (nonlinear_arith)
                requires wd >= 0;
            assert(!spec_firing_offset(e, now, am, wd, 0));
            assert(am <= now);
        }
        assert(w <= 10080);
        assert forall|t: int| 1 <= t < w implies !#[trigger] spec_lands(e, hour, minute, weekday, t) by {
            if spec_lands(e, hour, minute, weekday, t) {
                let d2 = (now + t) / 1440;
                assert(d2 * 1440 < d * 1440);
                assert(d2 < d) by (nonlinear_arith)
                    requires d2 * 1440 < d * 1440;
                assert(!spec_firing_offset(e, now, am, wd, d2));
            }
        }
    } else {
        assert forall|t: int| 1 <= t <= 10080 implies !#[trigger] spec_lands(e, hour, minute, weekday, t) by {
            if spec_lands(e, hour, minute, weekday, t) {
                let d2 = (now + t) / 1440;
                assert(d2 <= 7) by (nonlinear_arith)
                    requires d2 == (now + t) / 1440, 0 <= now < 1440, t <= 10080, 1 <= t;
                assert(spec_firing_offset(e, now, am, wd, d2));
                assert(e.enabled);
            }
        }
    }
}

/// The search measure and the wait agree on whether the entry fires, and
/// order entries the same way: the same value for a firing later today
/// (under a day), the measure less now for a later day (at least a day).
spec fn spec_measure_agrees(e: AlarmEntry, hour: u8, minute: u8, weekday: u8) -> bool {
    let mu = spec_minutes_until(e, hour, minute, weekday);
    let wt = spec_wait(e, hour, minute, weekday);
    let now = hour * 60 + minute;
    &&& (mu is Some <==> wt is Some)
    &&& mu is Some ==> ((mu.unwrap() < 1440 && wt.unwrap() == mu.unwrap() && wt.unwrap() < 1440) || (mu.unwrap()
        >= 1440 && wt.unwrap() == mu.unwrap() - now && wt.unwrap() >= 1440 + (e.hour * 60 + e.minute) - now))
}

/// For a valid clock time and valid alarm times, the next alarm is the
/// one that fires soonest (the lowest index among equally soon ones),
/// counting an alarm that already passed today as firing next week.
pub proof fn lemma_next_alarm_soonest(entries: [AlarmEntry; MAX_ALARMS], hour: u8, minute: u8, weekday: u8)
    requires
        hour < 24,
        minute < 60,
        forall|k: int| 0 <= k < MAX_ALARMS ==> (#[trigger] entries[k]).hour < 24 && entries[k].minute < 60,
    ensures
        spec_next_alarm(entries, hour, minute, weekday) is None <==> forall|k: int|
            0 <= k < MAX_ALARMS ==> (#[trigger] spec_wait(entries[k], hour, minute, weekday)) is None,
        spec_next_alarm(entries, hour, minute, weekday) matches Some(i) ==> {
            &&& spec_wait(entries[i as int], hour, minute, weekday) is Some
            &&& forall|k: int| 0 <= k < MAX_ALARMS && (#[trigger] spec_wait(entries[k], hour, minute, weekday)) is Some
                ==> spec_wait(entries[i as int], hour, minute, weekday).unwrap() < spec_wait(entries[k], hour, minute, weekday).unwrap()
                    || (spec_wait(entries[i as int], hour, minute, weekday).unwrap() == spec_wait(entries[k], hour, minute, weekday).unwrap()
                        && i <= k)
        },
{
    let now = hour * 60 + minute;
    // The search measure and the wait agree on which entries fire, and
    // order them the same way.
    assert forall|k: int| 0 <= k < MAX_ALARMS implies #[trigger] spec_measure_agrees(entries[k], hour, minute, weekday) by {
        let e = entries[k];
        let am = e.hour * 60 + e.minute;
        if e.enabled && spec_first_day(e, now, am, weekday as int, 0) is Some {
            lemma_first_day_range(e, now, am, weekday as int, 0);
        }
    }
    if exists|i: int| spec_is_next(entries, hour, minute, weekday, i) {
        let i = choose|i: int| spec_is_next(entries, hour, minute, weekday, i);
        assert(spec_is_next(entries, hour, minute, weekday, i));
        assert(spec_minutes_until(entries[i], hour, minute, weekday) is Some);
        assert forall|k: int| 0 <= k < MAX_ALARMS && (#[trigger] spec_wait(entries[k], hour, minute, weekday)) is Some
            implies spec_wait(entries[i], hour, minute, weekday).unwrap() < spec_wait(entries[k], hour, minute, weekday).unwrap()
                || (spec_wait(entries[i], hour, minute, weekday).unwrap() == spec_wait(entries[k], hour, minute, weekday).unwrap()
                    && i <= k) by {
            assert(spec_measure_agrees(entries[k], hour, minute, weekday));
            assert(spec_measure_agrees(entries[i], hour, minute, weekday));
            assert(spec_minutes_until(entries[k], hour, minute, weekday) is Some);
        }
    } else {
        assert forall|k: int| 0 <= k < MAX_ALARMS implies (#[trigger] spec_wait(entries[k], hour, minute, weekday)) is None by {
            if spec_wait(entries[k], hour, minute, weekday) is Some {
                assert(spec_measure_agrees(entries[k], hour, minute, weekday));
                assert(spec_minutes_until(entries[k], hour, minute, weekday) is Some);
                lemma_best_upto(entries, hour, minute, weekday, MAX_ALARMS as int);
                let b = spec_best_upto(entries, hour, minute, weekday, MAX_ALARMS as int).unwrap();
                assert(spec_is_next(entries, hour, minute, weekday, b));
            }
        }
    }
}

/// The next alarm is the first to go off: for a valid clock time and
/// valid alarm times, there is none exactly when no entry goes off in
/// the week ahead, and otherwise the chosen entry goes off at minute `w`
/// with no entry going off earlier and no lower-numbered entry at `w`.
pub proof fn lemma_next_alarm_first_to_ring(entries: [AlarmEntry; MAX_ALARMS], hour: u8, minute: u8, weekday: u8)
    requires
        hour < 24,
        minute < 60,
        forall|k: int| 0 <= k < MAX_ALARMS ==> (#[trigger] entries[k]).hour < 24 && entries[k].minute < 60,
    ensures
        spec_next_alarm(entries, hour, minute, weekday) is None <==> forall|k: int, t: int|
            0 <= k < MAX_ALARMS && 1 <= t <= 10080 ==> !#[trigger] spec_lands(entries[k], hour, minute, weekday, t),
        spec_next_alarm(entries, hour, minute, weekday) matches Some(i) ==> exists|w: int| {
            &&& 1 <= w <= 10080
            &&& #[trigger] spec_lands(entries[i as int], hour, minute, weekday, w)
            &&& forall|k: int, t: int|
                0 <= k < MAX_ALARMS && 1 <= t < w ==> !#[trigger] spec_lands(entries[k], hour, minute, weekday, t)
            &&& forall|k: int| 0 <= k < i ==> !#[trigger] spec_lands(entries[k], hour, minute, weekday, w)
        },
{
    lemma_next_alarm_soonest(entries, hour, minute, weekday);
    assert forall|k: int| 0 <= k < MAX_ALARMS implies #[trigger] spec_first_landing(entries[k], hour, minute, weekday) by {
        lemma_wait_is_first_landing(entries[k], hour, minute, weekday);
    }
    match spec_next_alarm(entries, hour, minute, weekday) {
        Some(i) => {
            let ii = i as int;
            assert(spec_first_landing(entries[ii], hour, minute, weekday));
            let w = spec_wait(entries[ii], hour, minute, weekday).unwrap();
            assert forall|k: int, t: int| 0 <= k < MAX_ALARMS && 1 <= t < w implies !#[trigger] spec_lands(
                entries[k],
                hour,
                minute,
                weekday,
                t,
            ) by {
                assert(spec_first_landing(entries[k], hour, minute, weekday));
                if spec_lands(entries[k], hour, minute, weekday, t) {
                    assert(spec_wait(entries[k], hour, minute, weekday) is Some);
                }
            }
            assert forall|k: int| 0 <= k < ii implies !#[trigger] spec_lands(entries[k], hour, minute, weekday, w) by {
                assert(spec_first_landing(entries[k], hour, minute, weekday));
                if spec_lands(entries[k], hour, minute, weekday, w) {
                    assert(spec_wait(entries[k], hour, minute, weekday) is Some);
                }
            }
            assert(spec_lands(entries[ii], hour, minute, weekday, w));
        },
        None => {
            assert forall|k: int, t: int| 0 <= k < MAX_ALARMS && 1 <= t <= 10080 implies !#[trigger] spec_lands(
                entries[k],
                hour,
                minute,
                weekday,
                t,
            ) by {
                assert(spec_first_landing(entries[k], hour, minute, weekday));
                assert(spec_wait(entries[k], hour, minute, weekday) is None);
            }
        },
    }
    if forall|k: int, t: int|
        0 <= k < MAX_ALARMS && 1 <= t <= 10080 ==> !#[trigger] spec_lands(entries[k], hour, minute, weekday, t) {
        assert forall|k: int| 0 <= k < MAX_ALARMS implies (#[trigger] spec_wait(entries[k], hour, minute, weekday)) is None by {
            assert(spec_first_landing(entries[k], hour, minute, weekday));
            if spec_wait(entries[k], hour, minute, weekday) is Some {
                let w = spec_wait(entries[k], hour, minute, weekday).unwrap();
                assert(spec_lands(entries[k], hour, minute, weekday, w));
            }
        }
    }
}

/// What [`lemma_wait_is_first_landing`] shows of one entry.
spec fn spec_first_landing(e: AlarmEntry, hour: u8, minute: u8, weekday: u8) -> bool {
    &&& spec_wait(e, hour, minute, weekday) matches Some(w) ==> {
        &&& 1 <= w <= 10080
        &&& spec_lands(e, hour, minute, weekday, w)
        &&& forall|t: int| 1 <= t < w ==> !#[trigger] spec_lands(e, hour, minute, weekday, t)
    }
    &&& spec_wait(e, hour, minute, weekday) is None ==> forall|t: int|
        1 <= t <= 10080 ==> !#[trigger] spec_lands(e, hour, minute, weekday, t)
}

// ---- Weekday ------------------------------------------------------------------------

/// Rust's truncating integer division.
pub open spec fn tdiv(a: int, b: int) -> int {
    if a >= 0 { a / b } else { -((-a) / b) }
}

/// Rust's truncating remainder.
pub open spec fn trem(a: int, b: int) -> int {
    a - b * tdiv(a, b)
}

/// Zeller's congruence: the month shifted so March is 3 and January and
/// February are 13 and 14 of the previous year.
pub open spec fn zeller_my(year: int, month: int) -> (int, int) {
    if month < 3 { (month + 12, year - 1) } else { (month, year) }
}

/// Zeller's `h`: 0 = Saturday, 1 = Sunday, ...
pub open spec fn zeller_h(year: int, month: int, day: int) -> int {
    let (m, y) = zeller_my(year, month);
    let k = trem(y, 100);
    let j = tdiv(y, 100);
    trem(day + tdiv(13 * (m + 1), 5) + k + tdiv(k, 4) + tdiv(j, 4) + 5 * j, 7)
}

/// Every intermediate of the weekday computation fits in an `i32`.
pub open spec fn zeller_fits(year: int, month: int, day: int) -> bool {
    let (m, y) = zeller_my(year, month);
    let k = trem(y, 100);
    let j = tdiv(y, 100);
    &&& i32::MIN <= m + 1 && 13 * (m + 1) <= i32::MAX && i32::MIN <= 13 * (m + 1)
    &&& i32::MIN <= year - 1
    &&& i32::MIN <= 5 * j <= i32::MAX
    &&& i32::MIN <= day + tdiv(13 * (m + 1), 5) <= i32::MAX
    &&& i32::MIN <= day + tdiv(13 * (m + 1), 5) + k <= i32::MAX
    &&& i32::MIN <= day + tdiv(13 * (m + 1), 5) + k + tdiv(k, 4) <= i32::MAX
    &&& i32::MIN <= day + tdiv(13 * (m + 1), 5) + k + tdiv(k, 4) + tdiv(j, 4) <= i32::MAX
    &&& i32::MIN <= day + tdiv(13 * (m + 1), 5) + k + tdiv(k, 4) + tdiv(j, 4) + 5 * j <= i32::MAX
}

/// Day of week via Zeller's congruence, 0=Sunday..6=Saturday.
pub open spec fn spec_day_of_week(year: int, month: int, day: int) -> int {
    trem(zeller_h(year, month, day) + 6, 7)
}

/// Day of week via Zeller's congruence, returning 0=Sunday..6=Saturday
/// for real dates (for arithmetic on negative inputs the result is the
/// truncated remainder, as computed).
#[verifier::rlimit(40)]
pub fn day_of_week(year: i32, month: i32, day: i32) -> (w: u8)
    requires
        zeller_fits(year as int, month as int, day as int),
    ensures
        w as int == spec_day_of_week(year as int, month as int, day as int) % 256,
        zeller_h(year as int, month as int, day as int) >= 0 ==> w < 7,
{
    let ghost (gm, gy) = zeller_my(year as int, month as int);
    let (m, y) = if month < 3 { (month + 12, year - 1) } else { (month, year) };
    assert(m == gm && y == gy);
    let k = y % 100;
    assert(k == trem(y as int, 100));
    let j = y / 100;
    assert(j == tdiv(y as int, 100));
    let a = (13 * (m + 1)) / 5;
    assert(a == tdiv(13 * (m + 1), 5));
    let kq = k / 4;
    assert(kq == tdiv(k as int, 4));
    let jq = j / 4;
    assert(jq == tdiv(j as int, 4));
    let sum = day + a + k + kq + jq + 5 * j;
    let h = sum % 7;
    assert(h == trem(sum as int, 7));
    assert(h == zeller_h(year as int, month as int, day as int));
    let r = (h + 6) % 7;
    assert(r == trem(h + 6, 7));
    assert(h >= 0 ==> 0 <= r < 7);
    (r as u8)
}

/// Days from 1970-01-01 to the proleptic Gregorian date `year-month-day`
/// (negative before it), for years from 1 on.
pub open spec fn spec_days_from_civil(year: int, month: int, day: int) -> int {
    let y = if month <= 2 { year - 1 } else { year };
    let era = y / 400;
    let yoe = y % 400;
    let mp = if month > 2 { month - 3 } else { month + 9 };
    let doy = (153 * mp + 2) / 5 + day - 1;
    let doe = yoe * 365 + yoe / 4 - yoe / 100 + doy;
    era * 146097 + doe - 719468
}

/// The month terms of the two counts agree modulo a week.
proof fn lemma_month_terms(month: int)
    requires
        1 <= month <= 12,
    ensures
        ({
            let mz = zeller_my(0, month).0;
            let mp = if month > 2 { month - 3 } else { month + 9 };
            ((153 * mp + 2) / 5 - tdiv(13 * (mz + 1), 5) - 4) % 7 == 0
        }),
{
}

/// The weekday computation is the calendar's: for a year from 1 on, the
/// weekday (0 = Sunday) is the number of days since 1970-01-01 (a
/// Thursday) plus four, modulo seven. The month and day need not be in
/// range: the count runs on through them.
pub proof fn lemma_weekday_is_days_since_epoch(year: int, month: int, day: int)
    requires
        1 <= year,
        1 <= month <= 12,
        0 <= day,
    ensures
        spec_day_of_week(year, month, day) == (spec_days_from_civil(year, month, day) + 4) % 7,
{
    let (mz, y) = zeller_my(year, month);
    assert(y >= 0 && 3 <= mz <= 14);
    let k = y % 100;
    let j = y / 100;
    vstd::arithmetic::div_mod::lemma_fundamental_div_mod(y, 100);
    assert(trem(y, 100) == k && tdiv(y, 100) == j);
    assert(0 <= k < 100 && j >= 0);
    let q = j / 4;
    let jp = j % 4;
    vstd::arithmetic::div_mod::lemma_fundamental_div_mod(j, 4);
    assert(tdiv(j, 4) == q && 0 <= jp < 4 && q >= 0);
    let k4 = k / 4;
    vstd::arithmetic::div_mod::lemma_fundamental_div_mod(k, 4);
    assert(tdiv(k, 4) == k4 && 0 <= k % 4 < 4);
    let yoe = 100 * jp + k;
    assert(y == 400 * q + yoe && 0 <= yoe < 400) by (nonlinear_arith)
        requires y == 100 * j + k, j == 4 * q + jp, 0 <= k < 100, 0 <= jp < 4, yoe == 100 * jp + k;
    vstd::arithmetic::div_mod::lemma_fundamental_div_mod_converse(y, 400, q, yoe);
    vstd::arithmetic::div_mod::lemma_fundamental_div_mod_converse(yoe, 4, 25 * jp + k4, k % 4);
    vstd::arithmetic::div_mod::lemma_fundamental_div_mod_converse(yoe, 100, jp, k);
    let a = tdiv(13 * (mz + 1), 5);
    assert(a >= 0);
    let mp = if month > 2 { month - 3 } else { month + 9 };
    let b = (153 * mp + 2) / 5;
    lemma_month_terms(month);
    assert(zeller_my(0, month).0 == mz);
    let c = (b - a - 4) / 7;
    vstd::arithmetic::div_mod::lemma_fundamental_div_mod(b - a - 4, 7);
    assert(b - a - 4 == 7 * c);
    let sum = day + a + k + k4 + q + 5 * j;
    assert(sum >= 0);
    assert(zeller_h(year, month, day) == sum % 7);
    let days = spec_days_from_civil(year, month, day);
    assert(days == q * 146097 + (yoe * 365 + (25 * jp + k4) - jp + b + day - 1) - 719468);
    let t = 20868 * q + 5217 * jp + 52 * k + c - 102781;
    assert(days + 4 == 7 * t + (sum + 6)) by (nonlinear_arith)
        requires
            days == q * 146097 + (yoe * 365 + (25 * jp + k4) - jp + b + day - 1) - 719468,
            yoe == 100 * jp + k,
            sum == day + a + k + k4 + q + 5 * j,
            j == 4 * q + jp,
            b - a - 4 == 7 * c,
            t == 20868 * q + 5217 * jp + 52 * k + c - 102781;
    vstd::arithmetic::div_mod::lemma_mod_multiples_vanish(t, sum + 6, 7);
    vstd::arithmetic::div_mod::lemma_add_mod_noop(sum, 6, 7);
    assert(sum % 7 + 6 >= 0);
    assert(spec_day_of_week(year, month, day) == (sum % 7 + 6) % 7);
}

/// For every date with a year from 1 on (any 32-bit year), the weekday
/// computation stays in range, and its result is below 7 and is the
/// calendar's: days since 1970-01-01 plus four, modulo seven.
pub proof fn lemma_day_of_week_calendar(year: i32, month: i32, day: i32)
    requires
        1 <= year,
        1 <= month <= 12,
        1 <= day <= 31,
    ensures
        zeller_fits(year as int, month as int, day as int),
        zeller_h(year as int, month as int, day as int) >= 0,
        0 <= spec_day_of_week(year as int, month as int, day as int) < 7,
        spec_day_of_week(year as int, month as int, day as int) == (spec_days_from_civil(
            year as int,
            month as int,
            day as int,
        ) + 4) % 7,
{
    let (m, y) = zeller_my(year as int, month as int);
    assert(0 <= y <= i32::MAX && 3 <= m <= 14);
    let k = trem(y, 100);
    let j = tdiv(y, 100);
    assert(0 <= k < 100 && 0 <= j <= 21474836);
    assert(0 <= tdiv(13 * (m + 1), 5) <= 39);
    assert(0 <= tdiv(k, 4) <= 24);
    assert(0 <= tdiv(j, 4) <= 5368709);
    lemma_weekday_is_days_since_epoch(year as int, month as int, day as int);
}

/// Within a month, the next day's weekday is the next weekday.
pub proof fn lemma_next_day_next_weekday(year: int, month: int, day: int)
    requires
        1 <= year,
        1 <= month <= 12,
        0 <= day,
    ensures
        spec_day_of_week(year, month, day + 1) == (spec_day_of_week(year, month, day) + 1) % 7,
{
    lemma_weekday_is_days_since_epoch(year, month, day);
    lemma_weekday_is_days_since_epoch(year, month, day + 1);
    let d = spec_days_from_civil(year, month, day);
    assert(spec_days_from_civil(year, month, day + 1) == d + 1);
    vstd::arithmetic::div_mod::lemma_add_mod_noop(d + 4, 1, 7);
}

/// The weekday (0 = Sunday) of a calendar date, as [`day_of_week`]
/// computes it from the date's fields.
pub open spec fn spec_weekday(t: crate::data::TimeData) -> u8 {
    (spec_day_of_week(t.year as int, t.month as int, t.day as int) % 256) as u8
}

/// For any date with a 16-bit year and byte-sized month and day, the
/// weekday computation stays in range and yields a weekday below 7.
pub proof fn lemma_weekday_in_range(year: u16, month: u8, day: u8)
    ensures
        zeller_fits(year as int, month as int, day as int),
        zeller_h(year as int, month as int, day as int) >= 0,
{
    let (m, y) = zeller_my(year as int, month as int);
    assert(-1 <= y <= 65535 && 1 <= m <= 255);
    let k = trem(y, 100);
    let j = tdiv(y, 100);
    assert(-1 <= k <= 99 && -1 <= j <= 655) by {
        if y < 0 {
            assert(tdiv(y, 100) == 0);
        }
    }
    assert(0 <= tdiv(13 * (m + 1), 5) <= 700);
    assert(-1 <= tdiv(k, 4) <= 25);
    assert(0 <= tdiv(j, 4) <= 164);
    assert(y < 0 ==> k == -1 && j == 0 && tdiv(k, 4) == 0);
}

} // verus!
