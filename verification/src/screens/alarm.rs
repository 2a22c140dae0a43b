//! Alarm screen.
//!
//! List view: one row per alarm (time, weekdays, on/off toggle), scrolled
//! by dragging; tapping a row's toggle zone flips the alarm, tapping the
//! rest of the row opens it for editing. Edit view: a weekday selector
//! and a four-digit `HHMM` keypad; confirming a valid time stores the
//! alarm enabled. Alert view: shown when an alarm rings, with SNOOZE and
//! DISMISS buttons.

use vstd::prelude::*;

use crate::alarm::{
    lemma_count_enabled_bounded, lemma_weekday_in_range, spec_count_enabled, spec_fires_on, spec_weekday,
    AlarmEntry, AlarmState, MAX_ALARMS,
};
use crate::events::SystemEvent;
use crate::layout::{spec_clamp, Rect, ScrollState, SCREEN_W, VSTACK_SIDE_MARGIN};
use crate::numpad::{spec_apply, spec_hit, spec_prefilled, Numpad, NumpadAction, MAX_DIGITS};
use crate::screens::{handle_scroll_drag, rect_hit, AppChrome};
use crate::text::{hhmm, push_pad2, spec_hhmm, spec_pad2};
use crate::ui_types::{Action, SystemData};
use crate::widgets::FlashTone;

verus! {

/// Height of one alarm row.
pub const ROW_H: i32 = 80;

/// Vertical gap between alarm rows.
pub const ROW_GAP: i32 = 8;

/// Vertical step from one row's top edge to the next.
pub const ROW_STEP: i32 = ROW_H + ROW_GAP;

/// Padding above the first row and below the last.
pub const LIST_TOP_PAD: i32 = 4;

/// Width of a row: the screen minus the side margins.
pub const ROW_W: i32 = SCREEN_W - VSTACK_SIDE_MARGIN * 2;

/// Width of the toggle zone at a row's right end.
pub const TOGGLE_ZONE_W: i32 = 60;

/// Offset of the edit view's time label below the content top.
pub const EDIT_TIME_OFFSET: i32 = 28;

/// Offset of the weekday selector row below the content top.
pub const DAY_ROW_OFFSET: i32 = EDIT_TIME_OFFSET + 64;

/// Offset of the edit keypad's top below the content top.
pub const EDIT_NUMPAD_OFFSET: i32 = EDIT_TIME_OFFSET + 110;

/// Horizontal spacing between weekday cells.
pub const DAY_SPACING: i32 = 48;

/// Hit radius around a weekday cell's centre.
pub const DAY_HIT_R: i32 = 24;

/// Centre x of the first weekday cell: `(SCREEN_W - 7 * DAY_SPACING) / 2 + DAY_SPACING / 2`.
pub const DAY_START_X: i32 = 61;

/// Digits the alarm keypad accepts (`HHMM`).
pub const TIME_DIGITS: usize = 4;

/// Motion updates per alert-flash phase.
pub const FLASH_PHASE_TICKS: u8 = 5;

/// Height of the Alert view's readout panel.
pub const ALERT_READOUT_H: i32 = 130;

/// Gap between the Alert readout and the action row.
pub const ALERT_READOUT_BUTTON_GAP: i32 = 8;

/// Bit of the days mask (0 = Sunday) for each selector cell, which runs
/// Monday first.
pub open spec fn spec_day_bit(i: int) -> u8 {
    if i == 6 { 0 } else { (i + 1) as u8 }
}

fn day_bit(i: usize) -> (b: u8)
    requires
        i < 7,
    ensures
        b == spec_day_bit(i as int),
{
    if i == 6 { 0 } else { (i + 1) as u8 }
}

/// Total height of the list content.
pub open spec fn spec_list_content_h() -> int {
    LIST_TOP_PAD + MAX_ALARMS * ROW_STEP - ROW_GAP + LIST_TOP_PAD
}

/// Total height of the list content: all rows plus top and bottom
/// padding.
pub fn list_content_h() -> (h: i32)
    ensures
        h == spec_list_content_h(),
{
    LIST_TOP_PAD + 8 * ROW_STEP - ROW_GAP + LIST_TOP_PAD
}

/// Which view the alarm screen shows.
#[derive(Debug, Clone, Copy, PartialEq, Eq, Structural)]
pub enum AlarmView {
    List,
    Edit { index: usize },
    /// An alarm is ringing.
    Alert,
}

/// The alarm screen's state as a value.
pub struct AlarmScreenView {
    pub view: AlarmView,
    pub scroll: ScrollState,
    pub digits: Seq<u8>,
    pub edit_days: u8,
    pub alert_ticks: u8,
}

/// Alarm screen state.
pub struct AlarmScreen {
    view: AlarmView,
    /// Scroll state of the row list.
    list_scroll: ScrollState,
    numpad: Numpad,
    /// Days mask being edited.
    edit_days: u8,
    /// Motion updates counted while ringing (drives the flash).
    alert_ticks: u8,
    chrome: AppChrome,
}

/// Height of the list viewport: content top to just above the home bar.
pub open spec fn spec_viewport_h(c: AppChrome) -> int {
    c.home_bar_y - 4 - c.content_top
}

/// Rect of row `idx` with the list scrolled by `scroll`.
pub open spec fn spec_row_rect(c: AppChrome, idx: int, scroll: int) -> Rect {
    Rect {
        x: VSTACK_SIDE_MARGIN,
        y: (c.content_top + LIST_TOP_PAD + idx * ROW_STEP - scroll) as i32,
        width: ROW_W as u32,
        height: ROW_H as u32,
    }
}

/// The row under `(x, y)`, if any.
pub open spec fn spec_row_at(c: AppChrome, scroll: int, x: int, y: int) -> Option<int> {
    if exists|i: int| 0 <= i < MAX_ALARMS && #[trigger] spec_row_rect(c, i, scroll).spec_contains(x, y) {
        Some(choose|i: int| 0 <= i < MAX_ALARMS && #[trigger] spec_row_rect(c, i, scroll).spec_contains(x, y))
    } else {
        None
    }
}

/// The weekday cell under `(x, y)` in the edit view, if any.
pub open spec fn spec_day_cell(c: AppChrome, x: int, y: int) -> Option<int> {
    let row_y = c.content_top + DAY_ROW_OFFSET;
    if row_y - 12 <= y <= row_y + 22 && exists|i: int| 0 <= i < 7 && #[trigger] spec_near_day(x, i) {
        Some(choose|i: int| 0 <= i < 7 && #[trigger] spec_near_day(x, i))
    } else {
        None
    }
}

/// Whether `x` is within the hit radius of weekday cell `i`.
pub open spec fn spec_near_day(x: int, i: int) -> bool {
    let cx = DAY_START_X + i * DAY_SPACING;
    -DAY_HIT_R < x - cx < DAY_HIT_R
}

/// Digit `j` of `digits` right-aligned in the four-digit `HHMM` field.
pub open spec fn spec_pad4(digits: Seq<u8>, j: int) -> int {
    let offset = if 4 > digits.len() { 4 - digits.len() } else { 0 };
    if offset <= j < offset + digits.len() { digits[j - offset] as int } else { 0 }
}

/// Hour and minute of an `HHMM` entry.
pub open spec fn spec_entry_time(digits: Seq<u8>) -> (int, int) {
    (spec_pad4(digits, 0) * 10 + spec_pad4(digits, 1), spec_pad4(digits, 2) * 10 + spec_pad4(digits, 3))
}

/// The alarm list with entry `i` replaced by `e`.
pub open spec fn spec_set_entry(entries: [AlarmEntry; 8], i: int, e: AlarmEntry) -> [AlarmEntry; 8] {
    [
        if i == 0 { e } else { entries[0] },
        if i == 1 { e } else { entries[1] },
        if i == 2 { e } else { entries[2] },
        if i == 3 { e } else { entries[3] },
        if i == 4 { e } else { entries[4] },
        if i == 5 { e } else { entries[5] },
        if i == 6 { e } else { entries[6] },
        if i == 7 { e } else { entries[7] },
    ]
}

/// `d` with the alarm list replaced by `entries`.
pub open spec fn spec_with_entries(d: SystemData, entries: [AlarmEntry; 8]) -> SystemData {
    SystemData { alarms: crate::alarm::AlarmState { entries: entries, ..d.alarms }, ..d }
}

/// `d` with the alerting flag set to `on`.
pub open spec fn spec_with_alerting(d: SystemData, on: bool) -> SystemData {
    SystemData { alarms: crate::alarm::AlarmState { alerting: on, ..d.alarms }, ..d }
}

/// The list view's response to an event.
pub open spec fn spec_list_event(s: AlarmScreenView, d: SystemData, e: SystemEvent, c: AppChrome) -> (AlarmScreenView, SystemData, Action) {
    match e {
        SystemEvent::Tap { x, y } => {
            if c.back_zone.spec_contains(x as int, y as int) {
                (s, d, Action::Back)
            } else if y < c.content_top || y >= c.content_top + spec_viewport_h(c) {
                (s, d, Action::Nothing)
            } else {
                match spec_row_at(c, s.scroll.spec_offset(), x as int, y as int) {
                    Some(i) => {
                        let entry = d.alarms.entries[i];
                        if x >= VSTACK_SIDE_MARGIN + ROW_W - TOGGLE_ZONE_W {
                            let flipped = AlarmEntry { enabled: !entry.enabled, ..entry };
                            (s, spec_with_entries(d, spec_set_entry(d.alarms.entries, i, flipped)), Action::PersistAlarms)
                        } else {
                            let raw = seq![
                                entry.hour / 10,
                                entry.hour % 10,
                                entry.minute / 10,
                                entry.minute % 10,
                            ];
                            (
                                AlarmScreenView {
                                    digits: spec_prefilled(raw, TIME_DIGITS as int),
                                    edit_days: entry.days,
                                    view: AlarmView::Edit { index: i as usize },
                                    ..s
                                },
                                d,
                                Action::Redraw,
                            )
                        }
                    },
                    None => (s, d, Action::Nothing),
                }
            }
        },
        SystemEvent::TouchPressed { y, .. } => {
            let over = spec_list_content_h() - spec_viewport_h(c);
            let m = if over < 0 { 0 } else { over };
            let target = match s.scroll.spec_last_drag_y() {
                None => s.scroll.spec_offset(),
                Some(last) => s.scroll.spec_offset() - (y - last),
            };
            let offset = spec_clamp(target, 0, m);
            (
                AlarmScreenView { scroll: ScrollState::spec_of(offset as i32, Some(y as i32)), ..s },
                d,
                if offset != s.scroll.spec_offset() { Action::Redraw } else { Action::Nothing },
            )
        },
        SystemEvent::TouchReleased => (
            AlarmScreenView { scroll: ScrollState::spec_of(s.scroll.spec_offset() as i32, None), ..s },
            d,
            Action::Nothing,
        ),
        _ => (s, d, Action::Nothing),
    }
}

/// The edit view's response to an event while editing entry `index`.
pub open spec fn spec_edit_event(s: AlarmScreenView, d: SystemData, e: SystemEvent, c: AppChrome, index: int) -> (AlarmScreenView, SystemData, Action) {
    match e {
        SystemEvent::Tap { x, y } => {
            if c.back_zone.spec_contains(x as int, y as int) {
                (AlarmScreenView { view: AlarmView::List, ..s }, d, Action::Redraw)
            } else {
                match spec_day_cell(c, x as int, y as int) {
                    Some(i) => (
                        AlarmScreenView { edit_days: s.edit_days ^ (1u8 << spec_day_bit(i)), ..s },
                        d,
                        Action::Redraw,
                    ),
                    None => match spec_hit(c.content_top + EDIT_NUMPAD_OFFSET, x as int, y as int) {
                        Some(NumpadAction::Confirm) => {
                            let (h, m) = spec_entry_time(s.digits);
                            if h < 24 && m < 60 {
                                let entry = AlarmEntry { hour: h as u8, minute: m as u8, days: s.edit_days, enabled: true };
                                (
                                    AlarmScreenView { view: AlarmView::List, ..s },
                                    spec_with_entries(d, spec_set_entry(d.alarms.entries, index, entry)),
                                    Action::PersistAlarms,
                                )
                            } else {
                                (s, d, Action::Redraw)
                            }
                        },
                        Some(other) => {
                            let (digits, changed) = spec_apply(s.digits, TIME_DIGITS as int, other);
                            (AlarmScreenView { digits: digits, ..s }, d, if changed { Action::Redraw } else { Action::Nothing })
                        },
                        None => (s, d, Action::Nothing),
                    },
                }
            }
        },
        _ => (s, d, Action::Nothing),
    }
}

/// The alert view's response to an event.
pub open spec fn spec_alert_event(s: AlarmScreenView, d: SystemData, e: SystemEvent, c: AppChrome) -> (AlarmScreenView, SystemData, Action) {
    match e {
        SystemEvent::MotionUpdated { .. } => {
            let t = if s.alert_ticks == 255 { 0u8 } else { (s.alert_ticks + 1) as u8 };
            (
                AlarmScreenView { alert_ticks: t, ..s },
                d,
                if t / FLASH_PHASE_TICKS != s.alert_ticks / FLASH_PHASE_TICKS { Action::Redraw } else { Action::Nothing },
            )
        },
        SystemEvent::Tap { x, y } => {
            if c.back_zone.spec_contains(x as int, y as int) {
                (s, spec_with_alerting(d, false), Action::DismissAlarm)
            } else if c.spec_bottom_left().spec_contains(x as int, y as int) {
                (s, spec_with_alerting(d, false), Action::SnoozeAlarm)
            } else if c.spec_bottom_right().spec_contains(x as int, y as int) {
                (s, spec_with_alerting(d, false), Action::DismissAlarm)
            } else {
                (s, d, Action::Nothing)
            }
        },
        _ => (s, d, Action::Nothing),
    }
}

/// The alarm screen's response to an event. A fired alarm rings (alert
/// view, buzzing) when it ends a snooze or when the programmed alarm
/// fires on today's weekday; the snooze flag is cleared either way.
pub open spec fn spec_alarm_event(s: AlarmScreenView, d: SystemData, e: SystemEvent, c: AppChrome) -> (AlarmScreenView, SystemData, Action) {
    if e is PowerButtonLong {
        (s, d, Action::Shutdown)
    } else if e is AlarmFired {
        let d1 = SystemData { alarms: crate::alarm::AlarmState { snoozed: false, ..d.alarms }, ..d };
        let rings = d.alarms.snoozed || (d.alarms.active_hw matches Some(i) && spec_fires_on(
            d.alarms.entries[i as int],
            spec_weekday(d.time),
        ));
        if rings {
            (
                AlarmScreenView { view: AlarmView::Alert, alert_ticks: 0, ..s },
                spec_with_alerting(d1, true),
                Action::StartBuzz { on_ms: 200, off_ms: 100 },
            )
        } else {
            (s, d1, Action::Nothing)
        }
    } else {
        match s.view {
            AlarmView::List => spec_list_event(s, d, e, c),
            AlarmView::Edit { index } => spec_edit_event(s, d, e, c, index as int),
            AlarmView::Alert => spec_alert_event(s, d, e, c),
        }
    }
}

/// What an event needs to be handled without leaving the data's range:
/// a fired alarm that is not a snooze must name an existing entry, and
/// confirming an edit needs the entered hour and minute to fit a byte.
pub open spec fn spec_alarm_event_ok(s: AlarmScreenView, d: SystemData, e: SystemEvent, c: AppChrome) -> bool {
    &&& (e is AlarmFired && !d.alarms.snoozed && d.alarms.active_hw is Some) ==> d.alarms.active_hw->0 < MAX_ALARMS
    &&& (s.view is Edit && e is Tap && !c.back_zone.spec_contains(e->Tap_x as int, e->Tap_y as int)
        && spec_day_cell(c, e->Tap_x as int, e->Tap_y as int) is None && spec_hit(
        c.content_top + EDIT_NUMPAD_OFFSET,
        e->Tap_x as int,
        e->Tap_y as int,
    ) == Some(NumpadAction::Confirm)) ==> spec_entry_time(s.digits).0 <= 255 && spec_entry_time(s.digits).1 <= 255
}

impl AlarmScreen {
    /// The screen's state as a value.
    pub closed spec fn spec_view(&self) -> AlarmScreenView {
        AlarmScreenView {
            view: self.view,
            scroll: self.list_scroll,
            digits: self.numpad.spec_digits(),
            edit_days: self.edit_days,
            alert_ticks: self.alert_ticks,
        }
    }

    pub closed spec fn spec_chrome(&self) -> AppChrome {
        self.chrome
    }

    /// The keypad is the four-digit time keypad below the weekday row,
    /// an edited entry exists, the scroll offset stays within the list's
    /// overflow and the drag position is a panel coordinate.
    pub closed spec fn wf(&self) -> bool {
        &&& self.numpad.wf()
        &&& self.numpad.spec_max_digits() == TIME_DIGITS
        &&& self.numpad.spec_top_y() == self.chrome.content_top + EDIT_NUMPAD_OFFSET
        &&& self.numpad.spec_digits().len() <= TIME_DIGITS
        &&& self.chrome.wf()
        &&& (self.view matches AlarmView::Edit { index } ==> index < MAX_ALARMS)
        &&& 0 <= self.list_scroll.spec_offset() <= spec_list_content_h()
        &&& (self.list_scroll.spec_last_drag_y() matches Some(l) ==> 0 <= l <= 65535)
    }

    /// The screen on its list view, scrolled to the top.
    pub fn new(chrome: AppChrome) -> (s: Self)
        requires
            chrome.wf(),
        ensures
            s.wf(),
            s.spec_chrome() == chrome,
            s.spec_view().view == AlarmView::List,
            s.spec_view().scroll.spec_offset() == 0,
            s.spec_view().scroll.spec_last_drag_y() is None,
            s.spec_view().digits == Seq::<u8>::empty(),
            s.spec_view().edit_days == 0x7F,
            s.spec_view().alert_ticks == 0,
    {
        AlarmScreen {
            view: AlarmView::List,
            list_scroll: ScrollState::new(),
            numpad: Numpad::new(4).with_top(chrome.content_top + EDIT_NUMPAD_OFFSET),
            edit_days: 0x7F,
            alert_ticks: 0,
            chrome,
        }
    }

    /// Fold an event into the screen.
    pub fn on_event(&mut self, event: &SystemEvent, data: &mut SystemData) -> (a: Action)
        requires
            old(self).wf(),
            spec_alarm_event_ok(old(self).spec_view(), *old(data), *event, old(self).spec_chrome()),
        ensures
            final(self).wf(),
            final(self).spec_chrome() == old(self).spec_chrome(),
            (final(self).spec_view(), *final(data), a) == spec_alarm_event(
                old(self).spec_view(),
                *old(data),
                *event,
                old(self).spec_chrome(),
            ),
    {
        if let SystemEvent::PowerButtonLong = event {
            return Action::Shutdown;
        }
        if let SystemEvent::AlarmFired = event {
            let t = data.time;
            proof {
                lemma_weekday_in_range(t.year, t.month, t.day);
            }
            let weekday = crate::alarm::day_of_week(t.year as i32, t.month as i32, t.day as i32);
            let is_snooze = data.alarms.snoozed;
            data.alarms.snoozed = false;
            if is_snooze {
                data.alarms.alerting = true;
                self.view = AlarmView::Alert;
                self.alert_ticks = 0;
                return Action::StartBuzz { on_ms: 200, off_ms: 100 };
            }
            if let Some(idx) = data.alarms.active_hw {
                if data.alarms.entries[idx].fires_on(weekday) {
                    data.alarms.alerting = true;
                    self.view = AlarmView::Alert;
                    self.alert_ticks = 0;
                    return Action::StartBuzz { on_ms: 200, off_ms: 100 };
                }
            }
            return Action::Nothing;
        }
        match self.view {
            AlarmView::List => self.list_event(event, data),
            AlarmView::Edit { index } => self.edit_event(event, data, index),
            AlarmView::Alert => self.alert_event(event, data),
        }
    }

    fn list_event(&mut self, event: &SystemEvent, data: &mut SystemData) -> (a: Action)
        requires
            old(self).wf(),
            old(self).view == AlarmView::List,
        ensures
            final(self).wf(),
            final(self).chrome == old(self).chrome,
            (final(self).spec_view(), *final(data), a) == spec_list_event(
                old(self).spec_view(),
                *old(data),
                *event,
                old(self).chrome,
            ),
    {
        let viewport_h = self.chrome.home_bar_y - 4 - self.chrome.content_top;
        match event {
            SystemEvent::Tap { x, y } => {
                if self.chrome.back_hit(*x, *y) {
                    return Action::Back;
                }
                let scroll = self.list_scroll.offset();
                let py = *y as i32;
                if py < self.chrome.content_top || py >= self.chrome.content_top + viewport_h {
                    return Action::Nothing;
                }
                let mut idx: usize = 0;
                while idx < MAX_ALARMS
                    invariant
                        0 <= idx <= MAX_ALARMS,
                        *event == (SystemEvent::Tap { x: *x, y: *y }),
                        !self.chrome.back_zone.spec_contains(*x as int, *y as int),
                        self.chrome.content_top <= *y < self.chrome.content_top + spec_viewport_h(self.chrome),
                        scroll == self.list_scroll.spec_offset(),
                        self.wf(),
                        self.view == AlarmView::List,
                        *self == *old(self),
                        *data == *old(data),
                        forall|j: int|
                            0 <= j < idx ==> !#[trigger] spec_row_rect(self.chrome, j, scroll as int).spec_contains(
                                *x as int,
                                *y as int,
                            ),
                    decreases MAX_ALARMS - idx,
                {
                    let rect = self.row_rect(idx, scroll);
                    if rect_hit(rect, *x, *y) {
                        proof {
                            lemma_rows_disjoint(self.chrome, idx as int, scroll as int, *x as int, *y as int);
                        }
                        if (*x as i32) >= VSTACK_SIDE_MARGIN + ROW_W - TOGGLE_ZONE_W {
                            let on = data.alarms.entries[idx].enabled;
                            data.alarms.entries[idx].enabled = !on;
                            proof {
                                let entry = old(data).alarms.entries[idx as int];
                                let flipped = AlarmEntry { enabled: !entry.enabled, ..entry };
                                assert(data.alarms.entries =~= spec_set_entry(old(data).alarms.entries, idx as int, flipped));
                            }
                            return Action::PersistAlarms;
                        }
                        let entry = data.alarms.entries[idx];
                        let raw = [entry.hour / 10, entry.hour % 10, entry.minute / 10, entry.minute % 10];
                        proof {
                            assert(raw@ =~= seq![entry.hour / 10, entry.hour % 10, entry.minute / 10, entry.minute % 10]);
                        }
                        self.numpad.prefill(&raw);
                        self.edit_days = entry.days;
                        self.view = AlarmView::Edit { index: idx };
                        return Action::Redraw;
                    }
                    idx = idx + 1;
                }
                proof {
                    assert(spec_row_at(self.chrome, scroll as int, *x as int, *y as int) is None);
                }
                Action::Nothing
            },
            SystemEvent::TouchPressed { .. } | SystemEvent::TouchReleased => {
                let moved = handle_scroll_drag(&mut self.list_scroll, event, viewport_h, list_content_h());
                proof {
                    crate::layout::lemma_scroll_state_fields(self.list_scroll);
                    crate::layout::lemma_scroll_state_fields(old(self).list_scroll);
                    if let SystemEvent::TouchPressed { y, .. } = *event {
                        crate::layout::lemma_scroll_state_of(self.list_scroll.spec_offset() as i32, Some(y as i32));
                    }
                }
                if moved {
                    Action::Redraw
                } else {
                    Action::Nothing
                }
            },
            _ => Action::Nothing,
        }
    }

    fn edit_event(&mut self, event: &SystemEvent, data: &mut SystemData, index: usize) -> (a: Action)
        requires
            old(self).wf(),
            old(self).view == (AlarmView::Edit { index }),
            spec_alarm_event_ok(old(self).spec_view(), *old(data), *event, old(self).chrome),
        ensures
            final(self).wf(),
            final(self).chrome == old(self).chrome,
            (final(self).spec_view(), *final(data), a) == spec_edit_event(
                old(self).spec_view(),
                *old(data),
                *event,
                old(self).chrome,
                index as int,
            ),
    {
        match event {
            SystemEvent::Tap { x, y } => {
                if self.chrome.back_hit(*x, *y) {
                    self.view = AlarmView::List;
                    return Action::Redraw;
                }
                if let Some(i) = self.day_cell_at(*x, *y) {
                    let bit = day_bit(i);
                    self.edit_days = self.edit_days ^ (1u8 << bit);
                    return Action::Redraw;
                }
                match self.numpad.hit_test(*x, *y) {
                    Some(NumpadAction::Confirm) => {
                        let digits = self.numpad.digit_slice();
                        let p = crate::screens::settings::pad_digits(digits, 4);
                        proof {
                            assert(forall|j: int| 0 <= j < 4 ==> p[j] as int == #[trigger] spec_pad4(digits@, j));
                        }
                        let h = p[0] * 10 + p[1];
                        let m = p[2] * 10 + p[3];
                        if h < 24 && m < 60 {
                            data.alarms.entries[index] = AlarmEntry { hour: h, minute: m, days: self.edit_days, enabled: true };
                            proof {
                                let entry = AlarmEntry { hour: h, minute: m, days: self.edit_days, enabled: true };
                                assert(data.alarms.entries =~= spec_set_entry(old(data).alarms.entries, index as int, entry));
                            }
                            self.view = AlarmView::List;
                            return Action::PersistAlarms;
                        }
                        Action::Redraw
                    },
                    Some(other) => {
                        if self.numpad.apply(other) {
                            Action::Redraw
                        } else {
                            Action::Nothing
                        }
                    },
                    None => Action::Nothing,
                }
            },
            _ => Action::Nothing,
        }
    }

    fn alert_event(&mut self, event: &SystemEvent, data: &mut SystemData) -> (a: Action)
        requires
            old(self).wf(),
        ensures
            final(self).wf(),
            final(self).chrome == old(self).chrome,
            (final(self).spec_view(), *final(data), a) == spec_alert_event(
                old(self).spec_view(),
                *old(data),
                *event,
                old(self).chrome,
            ),
    {
        match event {
            SystemEvent::MotionUpdated { .. } => {
                let old_phase = self.alert_ticks / FLASH_PHASE_TICKS;
                self.alert_ticks = if self.alert_ticks == 255 { 0 } else { self.alert_ticks + 1 };
                let new_phase = self.alert_ticks / FLASH_PHASE_TICKS;
                if new_phase != old_phase {
                    Action::Redraw
                } else {
                    Action::Nothing
                }
            },
            SystemEvent::Tap { x, y } => {
                if self.chrome.back_hit(*x, *y) {
                    data.alarms.alerting = false;
                    return Action::DismissAlarm;
                }
                let (left, right) = self.chrome.bottom_tiles();
                if rect_hit(left, *x, *y) {
                    data.alarms.alerting = false;
                    Action::SnoozeAlarm
                } else if rect_hit(right, *x, *y) {
                    data.alarms.alerting = false;
                    Action::DismissAlarm
                } else {
                    Action::Nothing
                }
            },
            _ => Action::Nothing,
        }
    }

    /// The weekday cell under `(x, y)` in the edit view, if any.
    fn day_cell_at(&self, x: u16, y: u16) -> (r: Option<usize>)
        requires
            self.wf(),
        ensures
            match r {
                Some(i) => i < 7 && spec_day_cell(self.chrome, x as int, y as int) == Some(i as int),
                None => spec_day_cell(self.chrome, x as int, y as int) is None,
            },
    {
        let py = y as i32;
        let px = x as i32;
        let row_y = self.chrome.content_top + DAY_ROW_OFFSET;
        if py >= row_y - 12 && py <= row_y + 22 {
            let mut i: usize = 0;
            while i < 7
                invariant
                    0 <= i <= 7,
                    px == x,
                    py == y,
                    row_y == self.chrome.content_top + DAY_ROW_OFFSET,
                    row_y - 12 <= py <= row_y + 22,
                    self.wf(),
                    forall|j: int| 0 <= j < i ==> !#[trigger] spec_near_day(px as int, j),
                decreases 7 - i,
            {
                let cx = DAY_START_X + i as i32 * DAY_SPACING;
                let dx = px - cx;
                if dx > -DAY_HIT_R && dx < DAY_HIT_R {
                    proof {
                        lemma_day_cells_disjoint(self.chrome, i as int, px as int, py as int);
                    }
                    return Some(i);
                }
                i = i + 1;
            }
        }
        None
    }

    /// Whether [`Self::on_event`] is defined for `event`: a ringing
    /// alarm's programmed index lies in the list, and a confirmed time
    /// entry's hour and minute fit a byte.
    pub fn accepts(&self, event: &SystemEvent, data: &SystemData) -> (r: bool)
        requires
            self.wf(),
        ensures
            r == spec_alarm_event_ok(self.spec_view(), *data, *event, self.spec_chrome()),
    {
        let fired_ok = match event {
            SystemEvent::AlarmFired => data.alarms.snoozed || match data.alarms.active_hw {
                Some(i) => i < MAX_ALARMS,
                None => true,
            },
            _ => true,
        };
        let entry_ok = match (self.view, event) {
            (AlarmView::Edit { .. }, SystemEvent::Tap { x, y }) => {
                if self.chrome.back_hit(*x, *y) {
                    true
                } else if self.day_cell_at(*x, *y).is_some() {
                    true
                } else {
                    match self.numpad.hit_test(*x, *y) {
                        Some(NumpadAction::Confirm) => {
                            let digits = self.numpad.digit_slice();
                            let p = crate::screens::settings::pad_digits(digits, 4);
                            proof {
                                assert(forall|j: int| 0 <= j < 4 ==> p[j] as int == #[trigger] spec_pad4(digits@, j));
                            }
                            p[0] as u16 * 10 + p[1] as u16 <= 255 && p[2] as u16 * 10 + p[3] as u16 <= 255
                        },
                        _ => true,
                    }
                }
            },
            _ => true,
        };
        fired_ok && entry_ok
    }

    fn row_rect(&self, idx: usize, scroll: i32) -> (r: Rect)
        requires
            self.chrome.wf(),
            idx < MAX_ALARMS,
            0 <= scroll <= spec_list_content_h(),
        ensures
            r == spec_row_rect(self.chrome, idx as int, scroll as int),
    {
        let y = self.chrome.content_top + LIST_TOP_PAD + idx as i32 * ROW_STEP - scroll;
        Rect { x: VSTACK_SIDE_MARGIN, y, width: 354, height: 80 }
    }
}

/// The list's scroll viewport: full width, from the content top to just
/// above the home bar.
pub fn list_viewport_rect(chrome: &AppChrome) -> (r: Rect)
    requires
        chrome.wf(),
    ensures
        r == (Rect {
            x: 0,
            y: chrome.content_top,
            width: SCREEN_W as u32,
            height: spec_viewport_h(*chrome) as u32,
        }),
{
    let top = chrome.content_top;
    let bot = chrome.home_bar_y - 4;
    Rect { x: 0, y: top, width: SCREEN_W as u32, height: (bot - top) as u32 }
}

/// Top of the ringing readout: centred between the content top and the
/// action row.
pub open spec fn spec_alert_readout_top(c: AppChrome) -> int {
    c.content_top + crate::layout::spec_trunc_div(
        c.spec_bottom_tile_y() - ALERT_READOUT_BUTTON_GAP - c.content_top - ALERT_READOUT_H,
        2,
    )
}

/// The readout panel of the Alert view.
pub fn alert_readout_rect(chrome: &AppChrome) -> (r: Rect)
    requires
        chrome.wf(),
    ensures
        r == (Rect {
            x: VSTACK_SIDE_MARGIN,
            y: spec_alert_readout_top(*chrome) as i32,
            width: (SCREEN_W - VSTACK_SIDE_MARGIN * 2) as u32,
            height: ALERT_READOUT_H as u32,
        }),
{
    let bottom_tile_y = crate::layout::SCREEN_H - chrome.bottom_safe_margin - 38;
    let top = chrome.content_top + (bottom_tile_y - ALERT_READOUT_BUTTON_GAP - chrome.content_top - ALERT_READOUT_H)
        / 2;
    Rect { x: VSTACK_SIDE_MARGIN, y: top, width: 354, height: 130 }
}

/// The Alert view's readout: the time of the alarm programmed into the
/// RTC, or `--:--` when none is.
pub open spec fn spec_alert_readout_text(alarms: AlarmState) -> Seq<u8> {
    match alarms.active_hw {
        Some(i) => spec_hhmm(alarms.entries[i as int].hour, alarms.entries[i as int].minute),
        None => seq![45u8, 45u8, 58u8, 45u8, 45u8],
    }
}

/// Text of the Alert view's readout.
pub fn alert_readout_text(alarms: &AlarmState) -> (t: Vec<u8>)
    requires
        alarms.active_hw matches Some(i) ==> i < MAX_ALARMS,
    ensures
        t@ == spec_alert_readout_text(*alarms),
{
    match alarms.active_hw {
        Some(i) => hhmm(alarms.entries[i].hour, alarms.entries[i].minute),
        None => {
            let t = vec![45u8, 45u8, 58u8, 45u8, 45u8];
            proof {
                assert(t@ =~= seq![45u8, 45u8, 58u8, 45u8, 45u8]);
            }
            t
        },
    }
}

/// The list header's telemetry: `x`, the number of enabled alarms
/// (two digits), then ` ACTIVE`.
pub open spec fn spec_list_telemetry(alarms: AlarmState) -> Seq<u8> {
    seq![120u8] + spec_pad2(spec_count_enabled(alarms.entries, MAX_ALARMS as int)) + seq![
        32u8,
        65u8,
        67u8,
        84u8,
        73u8,
        86u8,
        69u8,
    ]
}

/// Text of the list header's telemetry.
pub fn list_telemetry(alarms: &AlarmState) -> (t: Vec<u8>)
    ensures
        t@ == spec_list_telemetry(*alarms),
{
    let n = alarms.enabled_count();
    proof {
        lemma_count_enabled_bounded(alarms.entries, MAX_ALARMS as int);
    }
    let mut t: Vec<u8> = Vec::new();
    t.push(120u8);
    push_pad2(&mut t, n as u64);
    let suffix: [u8; 7] = [32u8, 65u8, 67u8, 84u8, 73u8, 86u8, 69u8];
    let mut i: usize = 0;
    while i < 7
        invariant
            i <= 7,
            t@ == seq![120u8] + spec_pad2(n as int) + suffix@.take(i as int),
        decreases 7 - i,
    {
        t.push(suffix[i]);
        proof {
            assert(suffix@.take(i + 1) =~= suffix@.take(i as int).push(suffix@[i as int]));
        }
        i = i + 1;
    }
    proof {
        assert(suffix@.take(7) =~= seq![32u8, 65u8, 67u8, 84u8, 73u8, 86u8, 69u8]);
        assert(t@ =~= spec_list_telemetry(*alarms));
    }
    t
}

/// Whether day cell `i` (Monday first) of a row is lit: the alarm is
/// enabled and fires on that day.
pub fn row_day_active(entry: &AlarmEntry, i: usize) -> (r: bool)
    requires
        i < 7,
    ensures
        r == spec_fires_on(*entry, spec_day_bit(i as int)),
{
    entry.fires_on(day_bit(i))
}

/// Whether row `idx` carries the NEXT tag: its alarm is enabled and is
/// the one programmed into the RTC.
pub fn row_is_next(alarms: &AlarmState, idx: usize) -> (r: bool)
    requires
        idx < MAX_ALARMS,
    ensures
        r == (alarms.entries[idx as int].enabled && alarms.active_hw == Some(idx)),
{
    alarms.entries[idx].enabled && match alarms.active_hw {
        Some(i) => i == idx,
        None => false,
    }
}

impl AlarmScreen {
    /// Colour phase of the ringing readout: accent and danger alternate
    /// every [`FLASH_PHASE_TICKS`] motion updates.
    pub fn alert_color(&self) -> (t: FlashTone)
        ensures
            t == (if (self.spec_view().alert_ticks / FLASH_PHASE_TICKS) % 2 == 0 {
                FlashTone::Accent
            } else {
                FlashTone::Danger
            }),
    {
        let phase = self.alert_ticks / FLASH_PHASE_TICKS;
        if phase % 2 == 0 { FlashTone::Accent } else { FlashTone::Danger }
    }
}

/// Alarm rows do not overlap: a point in row `i` is the row
/// [`spec_row_at`] picks.
proof fn lemma_rows_disjoint(c: AppChrome, i: int, scroll: int, x: int, y: int)
    requires
        0 <= i < MAX_ALARMS,
        spec_row_rect(c, i, scroll).spec_contains(x, y),
        c.wf(),
        0 <= scroll <= spec_list_content_h(),
    ensures
        spec_row_at(c, scroll, x, y) == Some(i),
{
    let k = choose|j: int| 0 <= j < MAX_ALARMS && #[trigger] spec_row_rect(c, j, scroll).spec_contains(x, y);
    assert(0 <= k < MAX_ALARMS && spec_row_rect(c, k, scroll).spec_contains(x, y));
    assert(k == i) by {
        if k < i {
            assert(c.content_top + LIST_TOP_PAD + k * ROW_STEP + ROW_H <= c.content_top + LIST_TOP_PAD + i * ROW_STEP)
                by (nonlinear_arith)
                requires k < i;
        } else if k > i {
            assert(c.content_top + LIST_TOP_PAD + i * ROW_STEP + ROW_H <= c.content_top + LIST_TOP_PAD + k * ROW_STEP)
                by (nonlinear_arith)
                requires i < k;
        }
    }
}

/// Weekday cells do not overlap: a point near cell `i` is the cell
/// [`spec_day_cell`] picks (within the selector row).
proof fn lemma_day_cells_disjoint(c: AppChrome, i: int, x: int, y: int)
    requires
        0 <= i < 7,
        spec_near_day(x, i),
        c.content_top + DAY_ROW_OFFSET - 12 <= y <= c.content_top + DAY_ROW_OFFSET + 22,
    ensures
        spec_day_cell(c, x, y) == Some(i),
{
    assert(spec_near_day(x, i));
    let k = choose|j: int| 0 <= j < 7 && #[trigger] spec_near_day(x, j);
    assert(0 <= k < 7 && spec_near_day(x, k));
    assert(k == i) by {
        if k < i {
            assert(k * DAY_SPACING + DAY_SPACING <= i * DAY_SPACING) by (nonlinear_arith)
                requires k < i;
        } else if k > i {
            assert(i * DAY_SPACING + DAY_SPACING <= k * DAY_SPACING) by (nonlinear_arith)
                requires i < k;
        }
    }
}

/// Toggling the same weekday twice in the editor restores the days mask.
pub proof fn lemma_day_toggle_involutive(days: u8, i: int)
    requires
        0 <= i < 7,
    ensures
        (days ^ (1u8 << spec_day_bit(i))) ^ (1u8 << spec_day_bit(i)) == days,
{
    let b = spec_day_bit(i);
    assert(b < 8);
    assert((days ^ (1u8 << b)) ^ (1u8 << b) == days) by (bit_vector)
        requires b < 8;
}

/// While an alarm rings (alert view), a tap on the header's back chevron
/// dismisses it, as does the right tile; only the left tile, outside the
/// back zone, snoozes. Either way the ringing flag is cleared and nothing
/// else changes. A tap anywhere else does nothing.
pub proof fn lemma_alert_taps(s: AlarmScreenView, d: SystemData, x: u16, y: u16, c: AppChrome)
    requires
        s.view == AlarmView::Alert,
    ensures
        ({
            let (s1, d1, a) = spec_alarm_event(s, d, SystemEvent::Tap { x, y }, c);
            let back = c.back_zone.spec_contains(x as int, y as int);
            let left = c.spec_bottom_left().spec_contains(x as int, y as int);
            let right = c.spec_bottom_right().spec_contains(x as int, y as int);
            &&& s1 == s
            &&& back ==> a == Action::DismissAlarm
            &&& (a == Action::SnoozeAlarm) <==> (left && !back)
            &&& (a == Action::DismissAlarm) <==> (back || right)
            &&& (a == Action::DismissAlarm || a == Action::SnoozeAlarm) ==> d1 == (SystemData {
                alarms: crate::alarm::AlarmState { alerting: false, ..d.alarms },
                ..d
            })
            &&& !(back || left || right) ==> a == Action::Nothing && d1 == d
        }),
{
    assert(!(c.spec_bottom_left().spec_contains(x as int, y as int) && c.spec_bottom_right().spec_contains(
        x as int,
        y as int,
    )));
}

/// Confirming the edit view's keypad with a valid time of day stores, in
/// the entry being edited and no other, the entered hour and minute with
/// the chosen days, enabled, asks for the alarms to be saved and returns
/// to the list. An invalid time changes nothing and redraws.
pub proof fn lemma_edit_confirm_stores_entry(s: AlarmScreenView, d: SystemData, x: u16, y: u16, c: AppChrome, index: usize)
    requires
        s.view == (AlarmView::Edit { index }),
        index < MAX_ALARMS,
        !c.back_zone.spec_contains(x as int, y as int),
        spec_day_cell(c, x as int, y as int) is None,
        spec_hit(c.content_top + EDIT_NUMPAD_OFFSET, x as int, y as int) == Some(NumpadAction::Confirm),
    ensures
        ({
            let (s1, d1, a) = spec_alarm_event(s, d, SystemEvent::Tap { x, y }, c);
            let (h, m) = spec_entry_time(s.digits);
            if h < 24 && m < 60 {
                &&& d1.alarms.entries[index as int] == (AlarmEntry {
                    hour: h as u8,
                    minute: m as u8,
                    days: s.edit_days,
                    enabled: true,
                })
                &&& forall|j: int| 0 <= j < MAX_ALARMS && j != index ==> d1.alarms.entries[j] == d.alarms.entries[j]
                &&& d1 == (SystemData { alarms: crate::alarm::AlarmState { entries: d1.alarms.entries, ..d.alarms }, ..d })
                &&& a == Action::PersistAlarms
                &&& s1.view == AlarmView::List
            } else {
                &&& d1 == d
                &&& s1 == s
                &&& a == Action::Redraw
            }
        }),
{
}

} // verus!
