//! Settings screen: one screen holding a sub-view state machine (index,
//! clock with its time and date editors, IMU self-tests, battery, and the
//! storage views), with the header geometry, the keypad seeds and the
//! entry checks the sub-views share.

use vstd::prelude::*;

use crate::data::TimeData;
use crate::events::{SelfTestId, SelfTestResult, SwipeDir, SwipeRegion, SystemEvent};
use crate::layout::{content_card_rect, Rect, VStack, SCREEN_W};
use crate::numpad::{spec_apply, spec_hit, spec_prefilled, Numpad, NumpadAction, DEFAULT_TOP};
use crate::screens::rect_hit;
use crate::ui_types::{Action, SystemData};
use crate::numpad::MAX_DIGITS;
use crate::widgets::{header_icon_hit, spec_header_icon_hit, HEADER_H, STATUS_BAR_H};

verus! {

/// Y of the top status bar.
pub const STATUS_Y: i32 = 0;

/// Top of the settings header: below the status bar with an 8 px gap.
pub const HDR_TOP: i32 = STATUS_Y + STATUS_BAR_H + 8;

/// Height of the settings header.
pub const HDR_H: i32 = HEADER_H;

/// Header rect shared by every settings sub-view.
pub fn hdr_rect() -> (r: Rect)
    ensures
        r == (Rect { x: 0, y: HDR_TOP, width: SCREEN_W as u32, height: HDR_H as u32 }),
{
    Rect { x: 0, y: HDR_TOP, width: 410, height: 28 }
}

/// Whether a tap lands on the back chevron of the settings header.
pub fn header_back_hit(x: u16, y: u16) -> (r: bool)
    ensures
        r == spec_header_icon_hit(x as int, y as int, 0, HDR_TOP as int, HDR_H as int),
{
    header_icon_hit(x, y, hdr_rect())
}

/// Entry `j` of `digits` right-aligned in a field `len` wide (zeros to
/// the left, and beyond the field).
pub open spec fn spec_pad_at(digits: Seq<u8>, len: int, j: int) -> u8 {
    let offset = if len > digits.len() { len - digits.len() } else { 0 };
    if offset <= j < offset + digits.len() { digits[j - offset] } else { 0 }
}

/// `digits` right-aligned in a field `len` wide, in a
/// [`MAX_DIGITS`]-entry array (what falls past its end is dropped).
pub fn pad_digits(digits: &[u8], len: usize) -> (p: [u8; MAX_DIGITS])
    ensures
        forall|j: int| 0 <= j < MAX_DIGITS ==> #[trigger] p[j] == spec_pad_at(digits@, len as int, j),
{
    let mut p = [0u8; MAX_DIGITS];
    let n = digits.len();
    let offset = if len > n { len - n } else { 0 };
    let mut i: usize = 0;
    while i < n
        invariant
            0 <= i <= n,
            n == digits@.len(),
            offset == (if len > n { len - n } else { 0 }),
            forall|j: int|
                0 <= j < MAX_DIGITS ==> #[trigger] p[j] == (if offset <= j < offset + i { digits@[j - offset] } else { 0u8 }),
        decreases n - i,
    {
        if offset + i < 8 {
            p[offset + i] = digits[i];
        }
        i = i + 1;
    }
    p
}

/// Keypad seed of the time editor: the digits of hour, minute, second.
pub open spec fn spec_time_prefill(t: TimeData) -> Seq<u8> {
    seq![
        t.hour / 10,
        t.hour % 10,
        t.minute / 10,
        t.minute % 10,
        t.second / 10,
        t.second % 10,
    ]
}

/// Digits the time editor opens with (`HHMMSS`).
pub fn time_prefill(t: &TimeData) -> (p: [u8; 6])
    ensures
        p@ == spec_time_prefill(*t),
{
    let p = [t.hour / 10, t.hour % 10, t.minute / 10, t.minute % 10, t.second / 10, t.second % 10];
    proof {
        assert(p@ =~= spec_time_prefill(*t));
    }
    p
}

/// Keypad seed of the date editor: the digits of day, month and the
/// four-digit year.
pub open spec fn spec_date_prefill(t: TimeData) -> Seq<u8> {
    seq![
        t.day / 10,
        t.day % 10,
        t.month / 10,
        t.month % 10,
        (t.year / 1000) as u8,
        ((t.year / 100) % 10) as u8,
        ((t.year / 10) % 10) as u8,
        (t.year % 10) as u8,
    ]
}

/// Digits the date editor opens with (`DDMMYYYY`).
pub fn date_prefill(t: &TimeData) -> (p: [u8; 8])
    ensures
        p@ == spec_date_prefill(*t),
{
    let p = [
        t.day / 10,
        t.day % 10,
        t.month / 10,
        t.month % 10,
        (t.year / 1000) as u8,
        ((t.year / 100) % 10) as u8,
        ((t.year / 10) % 10) as u8,
        (t.year % 10) as u8,
    ];
    proof {
        assert(p@ =~= spec_date_prefill(*t));
    }
    p
}

/// Two-digit field starting at entry `j` of the right-aligned entry.
pub open spec fn spec_pair(digits: Seq<u8>, len: int, j: int) -> int {
    spec_pad_at(digits, len, j) * 10 + spec_pad_at(digits, len, j + 1)
}

/// The entry's fields fit the bytes they are computed in.
pub open spec fn spec_time_entry_fits(digits: Seq<u8>) -> bool {
    &&& spec_pair(digits, 6, 0) <= 255
    &&& spec_pair(digits, 6, 2) <= 255
    &&& spec_pair(digits, 6, 4) <= 255
}

/// What confirming an `HHMMSS` entry does: set the clock to that time of
/// `today` when it is a valid time of day, else nothing (the entry stays
/// for the user to correct).
pub open spec fn spec_confirm_time(digits: Seq<u8>, today: TimeData) -> Option<Action> {
    let h = spec_pair(digits, 6, 0);
    let m = spec_pair(digits, 6, 2);
    let s = spec_pair(digits, 6, 4);
    if h < 24 && m < 60 && s < 60 {
        Some(
            Action::SetTime {
                year: today.year,
                month: today.month,
                day: today.day,
                hour: h as u8,
                minute: m as u8,
                second: s as u8,
            },
        )
    } else {
        None
    }
}

/// Confirm the time editor's entry.
pub fn confirm_time(digits: &[u8], today: &TimeData) -> (a: Option<Action>)
    requires
        spec_time_entry_fits(digits@),
    ensures
        a == spec_confirm_time(digits@, *today),
{
    let p = pad_digits(digits, 6);
    let h = p[0] * 10 + p[1];
    let m = p[2] * 10 + p[3];
    let s = p[4] * 10 + p[5];
    if h < 24 && m < 60 && s < 60 {
        Some(Action::SetTime { year: today.year, month: today.month, day: today.day, hour: h, minute: m, second: s })
    } else {
        None
    }
}

/// Year of a `DDMMYYYY` entry.
pub open spec fn spec_entry_year(digits: Seq<u8>) -> int {
    spec_pad_at(digits, 8, 4) * 1000 + spec_pad_at(digits, 8, 5) * 100 + spec_pad_at(digits, 8, 6) * 10
        + spec_pad_at(digits, 8, 7)
}

/// The entry's fields fit the integers they are computed in.
pub open spec fn spec_date_entry_fits(digits: Seq<u8>) -> bool {
    &&& spec_pair(digits, 8, 0) <= 255
    &&& spec_pair(digits, 8, 2) <= 255
    &&& spec_entry_year(digits) <= 65535
}

/// What confirming a `DDMMYYYY` entry does: set the clock to that date at
/// the current time of day when the day is 1..=31, the month 1..=12 and
/// the year 2000..=2099, else nothing.
pub open spec fn spec_confirm_date(digits: Seq<u8>, now: TimeData) -> Option<Action> {
    let d = spec_pair(digits, 8, 0);
    let m = spec_pair(digits, 8, 2);
    let y = spec_entry_year(digits);
    if 1 <= d <= 31 && 1 <= m <= 12 && 2000 <= y <= 2099 {
        Some(
            Action::SetTime {
                year: y as u16,
                month: m as u8,
                day: d as u8,
                hour: now.hour,
                minute: now.minute,
                second: now.second,
            },
        )
    } else {
        None
    }
}

/// Confirm the date editor's entry.
pub fn confirm_date(digits: &[u8], now: &TimeData) -> (a: Option<Action>)
    requires
        spec_date_entry_fits(digits@),
    ensures
        a == spec_confirm_date(digits@, *now),
{
    let p = pad_digits(digits, 8);
    let d = p[0] * 10 + p[1];
    let m = p[2] * 10 + p[3];
    let y = p[4] as u16 * 1000 + p[5] as u16 * 100 + p[6] as u16 * 10 + p[7] as u16;
    if d >= 1 && d <= 31 && m >= 1 && m <= 12 && y >= 2000 && y <= 2099 {
        Some(Action::SetTime { year: y, month: m, day: d, hour: now.hour, minute: now.minute, second: now.second })
    } else {
        None
    }
}

/// Top of the first row below the settings header.
pub const ROWS_TOP: i32 = HDR_TOP + HDR_H + 8;

/// Top of the first slot of a leaf sub-view.
pub const LEAF_TOP_Y: i32 = ROWS_TOP + 18;

/// Rects of the IMU sub-view: per self-test, its result panel and its
/// run button (accelerometer first).
pub fn imu_slots() -> (r: [(Rect, Rect); 2])
    ensures
        r == [
            (Rect { x: 28, y: 80, width: 354, height: 80 }, Rect { x: 28, y: 168, width: 354, height: 36 }),
            (Rect { x: 28, y: 220, width: 354, height: 80 }, Rect { x: 28, y: 308, width: 354, height: 36 }),
        ],
{
    let mut s = VStack::new(LEAF_TOP_Y);
    let p0 = s.slot(80);
    s.gap(8);
    let b0 = s.slot(36);
    s.gap(16);
    let p1 = s.slot(80);
    s.gap(8);
    let b1 = s.slot(36);
    [(p0, b0), (p1, b1)]
}

/// Rects of the SD card sub-view: the status panel and the action button.
pub fn storage_sd_slots() -> (r: (Rect, Rect))
    ensures
        r == (Rect { x: 28, y: 80, width: 354, height: 100 }, Rect { x: 28, y: 198, width: 354, height: 36 }),
{
    let mut s = VStack::new(LEAF_TOP_Y);
    let panel = s.slot(100);
    s.gap(18);
    let button = s.slot(36);
    (panel, button)
}

/// Rects of a confirmation sub-view: the warning panel, then CANCEL and
/// the confirming button side by side.
pub fn confirmation_slots() -> (r: (Rect, Rect, Rect))
    ensures
        r == (
            Rect { x: 28, y: 80, width: 354, height: 100 },
            Rect { x: 28, y: 198, width: 171, height: 36 },
            Rect { x: 211, y: 198, width: 171, height: 36 },
        ),
{
    let mut s = VStack::new(LEAF_TOP_Y);
    let panel = s.slot(100);
    s.gap(18);
    let (cancel, primary) = s.pair(36, 12);
    (panel, cancel, primary)
}

/// Which settings sub-view is shown.
#[derive(Debug, Clone, Copy, PartialEq, Eq, Structural)]
pub enum SettingsView {
    Index,
    Imu,
    Clock,
    TimeEntry,
    DateEntry,
    Battery,
    Storage,
    StorageFlash,
    StorageSd,
    StorageRestoreFlash,
    StorageFactoryReset,
}

/// The settings screen's state as a value.
pub struct SettingsScreenView {
    pub view: SettingsView,
    pub digits: Seq<u8>,
    pub max_digits: int,
}

/// Settings screen state: the sub-view and the entry keypad.
pub struct SettingsScreen {
    view: SettingsView,
    numpad: Numpad,
}

/// Whether a tap lands on the settings header's back chevron.
pub open spec fn spec_back_hit(x: u16, y: u16) -> bool {
    spec_header_icon_hit(x as int, y as int, 0, HDR_TOP as int, HDR_H as int)
}

/// A back tap or a right swipe over the content: leave the sub-view.
pub open spec fn spec_leave(e: SystemEvent) -> bool {
    ||| e matches SystemEvent::Tap { x, y } && spec_back_hit(x, y)
    ||| e == (SystemEvent::Swipe { dir: SwipeDir::Right, region: SwipeRegion::Content })
}

/// A tap inside `r`.
pub open spec fn spec_tap_in(e: SystemEvent, r: Rect) -> bool {
    e matches SystemEvent::Tap { x, y } && r.spec_contains(x as int, y as int)
}

/// A keypad that is empty, up to `max` digits.
pub open spec fn spec_fresh(view: SettingsView, max: int) -> SettingsScreenView {
    SettingsScreenView { view, digits: Seq::empty(), max_digits: max }
}

/// The clock view: the time card opens the time editor seeded with the
/// current time, the date card the date editor seeded with the date.
pub open spec fn spec_clock_event(s: SettingsScreenView, d: SystemData, e: SystemEvent) -> (SettingsScreenView, Action) {
    if e is TimeUpdated {
        (s, Action::Redraw)
    } else if spec_leave(e) {
        (SettingsScreenView { view: SettingsView::Index, ..s }, Action::Redraw)
    } else {
        match e {
            SystemEvent::Tap { x, y } => if content_card_rect_spec(0).spec_contains(x as int, y as int) {
                (
                    SettingsScreenView {
                        view: SettingsView::TimeEntry,
                        digits: spec_prefilled(spec_time_prefill(d.time), 6),
                        max_digits: 6,
                    },
                    Action::Redraw,
                )
            } else if content_card_rect_spec(1).spec_contains(x as int, y as int) {
                (
                    SettingsScreenView {
                        view: SettingsView::DateEntry,
                        digits: spec_prefilled(spec_date_prefill(d.time), 8),
                        max_digits: 8,
                    },
                    Action::Redraw,
                )
            } else {
                (s, Action::Nothing)
            },
            _ => (s, Action::Nothing),
        }
    }
}

/// Content card `i` of the clock view.
pub open spec fn content_card_rect_spec(i: int) -> Rect {
    Rect {
        x: crate::layout::CARD_MARGIN_X,
        y: (crate::layout::FIRST_CARD_Y + i * (crate::layout::CARD_HEIGHT + crate::layout::CARD_GAP)) as i32,
        width: crate::layout::CARD_WIDTH as u32,
        height: crate::layout::CARD_HEIGHT as u32,
    }
}

/// A keypad tap in an editor whose confirmed entry gives `confirmed`:
/// confirming a valid entry leaves for the clock view with the action,
/// an invalid one stays for correction; other keys edit the entry.
pub open spec fn spec_entry_key(s: SettingsScreenView, x: u16, y: u16, confirmed: Option<Action>) -> (SettingsScreenView, Action) {
    match spec_hit(DEFAULT_TOP as int, x as int, y as int) {
        Some(NumpadAction::Confirm) => match confirmed {
            Some(a) => (spec_fresh(SettingsView::Clock, 6), a),
            None => (s, Action::Redraw),
        },
        Some(k) => {
            let (nd, changed) = spec_apply(s.digits, s.max_digits, k);
            (SettingsScreenView { digits: nd, ..s }, if changed { Action::Redraw } else { Action::Nothing })
        },
        None => (s, Action::Nothing),
    }
}

/// The time editor (`HHMMSS`).
pub open spec fn spec_time_entry_event(s: SettingsScreenView, d: SystemData, e: SystemEvent) -> (SettingsScreenView, Action) {
    match e {
        SystemEvent::Tap { x, y } => if spec_back_hit(x, y) {
            (spec_fresh(SettingsView::Clock, 6), Action::Redraw)
        } else {
            spec_entry_key(s, x, y, spec_confirm_time(s.digits, d.time))
        },
        _ => (s, Action::Nothing),
    }
}

/// The date editor (`DDMMYYYY`); leaving it resets the keypad to six
/// digits.
pub open spec fn spec_date_entry_event(s: SettingsScreenView, d: SystemData, e: SystemEvent) -> (SettingsScreenView, Action) {
    match e {
        SystemEvent::Tap { x, y } => if spec_back_hit(x, y) {
            (spec_fresh(SettingsView::Clock, 6), Action::Redraw)
        } else {
            spec_entry_key(s, x, y, spec_confirm_date(s.digits, d.time))
        },
        _ => (s, Action::Nothing),
    }
}

/// The run-button action for self-test `id` with result `r`: nothing
/// while it is already running.
pub open spec fn spec_run_test(r: SelfTestResult, id: SelfTestId) -> Action {
    if r is Running { Action::Nothing } else { Action::RunSelfTest(id) }
}

/// The IMU view: a run button starts its self-test unless it is running.
pub open spec fn spec_imu_event(s: SettingsScreenView, d: SystemData, e: SystemEvent) -> (SettingsScreenView, Action) {
    if spec_leave(e) {
        (SettingsScreenView { view: SettingsView::Index, ..s }, Action::Redraw)
    } else {
        match e {
            SystemEvent::Tap { x, y } => if (Rect { x: 28, y: 168, width: 354, height: 36 }).spec_contains(x as int, y as int) {
                (s, spec_run_test(d.self_tests[0], SelfTestId::ImuAccel))
            } else if (Rect { x: 28, y: 308, width: 354, height: 36 }).spec_contains(x as int, y as int) {
                (s, spec_run_test(d.self_tests[1], SelfTestId::ImuGyro))
            } else {
                (s, Action::Nothing)
            },
            SystemEvent::SelfTestUpdated { .. } => (s, Action::Redraw),
            _ => (s, Action::Nothing),
        }
    }
}

/// A leaf that returns to `parent` on back or a right swipe and redraws
/// on the events in `refresh`.
pub open spec fn spec_leaf_event(s: SettingsScreenView, e: SystemEvent, parent: SettingsView, refresh: bool) -> (SettingsScreenView, Action) {
    if spec_leave(e) {
        (SettingsScreenView { view: parent, ..s }, Action::Redraw)
    } else if refresh {
        (s, Action::Redraw)
    } else {
        (s, Action::Nothing)
    }
}

/// Height of a settings list row.
pub const ROW_H: i32 = 52;

/// Rows of the settings index: SOUNDS, DND, ALWAYS-ON, NIGHT MODE, then
/// CLOCK, BATTERY, IMU, STORAGE.
pub const INDEX_ROWS: usize = 8;

/// Rows of the storage index: FLASH, SD CARD, RESTORE, FACTORY RESET.
pub const STORAGE_ROWS: usize = 4;

/// The list row under `(x, y)` among `n` full-width rows from
/// [`ROWS_TOP`], if any.
pub open spec fn spec_row_at(x: u16, y: u16, n: usize) -> Option<usize> {
    if x < SCREEN_W && ROWS_TOP <= y < ROWS_TOP + ROW_H * n {
        Some(((y - ROWS_TOP) / (ROW_H as int)) as usize)
    } else {
        None
    }
}

/// The list row under a tap.
pub fn row_at(x: u16, y: u16, n: usize) -> (r: Option<usize>)
    requires
        n <= 8,
    ensures
        r matches Some(i) ==> i < n,
        r == spec_row_at(x, y, n),
{
    let yy = y as u32;
    if (x as u32) < 410 && yy >= 62 && yy < 62 + 52 * n as u32 {
        let i = ((yy - 62) / 52) as usize;
        assert(i < n) by (nonlinear_arith)
            requires yy - 62 < 52 * n, i == (yy - 62) / 52, yy >= 62;
        Some(i)
    } else {
        None
    }
}

/// The screen's response to an event: long power press shuts down, else
/// the current sub-view handles it.
///
/// The first three index rows (sounds, do-not-disturb, always-on) toggle
/// settings that the action vocabulary has no request for, and the
/// restore view's confirm needs the SD card's presence, which the system
/// data does not carry: taps there do nothing.
pub open spec fn spec_settings_event(s: SettingsScreenView, d: SystemData, e: SystemEvent) -> (SettingsScreenView, Action) {
    if e is PowerButtonLong {
        (s, Action::Shutdown)
    } else {
        match s.view {
            SettingsView::Index => match e {
                SystemEvent::Tap { x, y } => if spec_back_hit(x, y) {
                    (s, Action::Back)
                } else {
                    match spec_row_at(x, y, INDEX_ROWS) {
                        Some(3) => (s, Action::ToggleNightMode),
                        Some(4) => (SettingsScreenView { view: SettingsView::Clock, ..s }, Action::Redraw),
                        Some(5) => (SettingsScreenView { view: SettingsView::Battery, ..s }, Action::Redraw),
                        Some(6) => (SettingsScreenView { view: SettingsView::Imu, ..s }, Action::Redraw),
                        Some(7) => (SettingsScreenView { view: SettingsView::Storage, ..s }, Action::Redraw),
                        _ => (s, Action::Nothing),
                    }
                },
                _ => (s, Action::Nothing),
            },
            SettingsView::Clock => spec_clock_event(s, d, e),
            SettingsView::TimeEntry => spec_time_entry_event(s, d, e),
            SettingsView::DateEntry => spec_date_entry_event(s, d, e),
            SettingsView::Imu => spec_imu_event(s, d, e),
            SettingsView::Battery => spec_leaf_event(
                s,
                e,
                SettingsView::Index,
                e is PowerUpdated || e is BatteryChanged || e is TimeUpdated,
            ),
            SettingsView::Storage => if !spec_leave(e) && e is Tap {
                match spec_row_at(e->Tap_x, e->Tap_y, STORAGE_ROWS) {
                    Some(0) => (SettingsScreenView { view: SettingsView::StorageFlash, ..s }, Action::Redraw),
                    Some(1) => (SettingsScreenView { view: SettingsView::StorageSd, ..s }, Action::Redraw),
                    Some(2) => (SettingsScreenView { view: SettingsView::StorageRestoreFlash, ..s }, Action::Redraw),
                    Some(3) => (SettingsScreenView { view: SettingsView::StorageFactoryReset, ..s }, Action::Redraw),
                    _ => (s, Action::Nothing),
                }
            } else {
                spec_leaf_event(s, e, SettingsView::Index, e is StorageUsageUpdated)
            },
            SettingsView::StorageFlash => spec_leaf_event(s, e, SettingsView::Storage, e is StorageUsageUpdated),
            SettingsView::StorageSd => if !spec_leave(e) && spec_tap_in(e, Rect { x: 28, y: 198, width: 354, height: 36 }) {
                (s, Action::InitSd)
            } else {
                spec_leaf_event(s, e, SettingsView::Storage, e is StorageUsageUpdated)
            },
            SettingsView::StorageRestoreFlash => if !spec_leave(e) && spec_tap_in(e, Rect { x: 28, y: 198, width: 171, height: 36 }) {
                (SettingsScreenView { view: SettingsView::Storage, ..s }, Action::Redraw)
            } else {
                spec_leaf_event(s, e, SettingsView::Storage, e is StorageUsageUpdated)
            },
            SettingsView::StorageFactoryReset => if !spec_leave(e) && spec_tap_in(e, Rect { x: 28, y: 198, width: 171, height: 36 }) {
                (SettingsScreenView { view: SettingsView::Storage, ..s }, Action::Redraw)
            } else if !spec_leave(e) && spec_tap_in(e, Rect { x: 211, y: 198, width: 171, height: 36 }) {
                (SettingsScreenView { view: SettingsView::Storage, ..s }, Action::FactoryReset)
            } else {
                spec_leaf_event(s, e, SettingsView::Storage, false)
            },
        }
    }
}

/// Confirming an entry works on bytes: the fields must fit them.
pub open spec fn spec_settings_event_ok(s: SettingsScreenView, e: SystemEvent) -> bool {
    e matches SystemEvent::Tap { x, y } && !spec_back_hit(x, y) && spec_hit(DEFAULT_TOP as int, x as int, y as int)
        == Some(NumpadAction::Confirm) ==> {
        &&& s.view is TimeEntry ==> spec_time_entry_fits(s.digits)
        &&& s.view is DateEntry ==> spec_date_entry_fits(s.digits)
    }
}

impl SettingsScreen {
    pub closed spec fn spec_view(&self) -> SettingsScreenView {
        SettingsScreenView {
            view: self.view,
            digits: self.numpad.spec_digits(),
            max_digits: self.numpad.spec_max_digits(),
        }
    }

    /// The keypad is at its default place and holds at most its limit.
    pub closed spec fn wf(&self) -> bool {
        &&& self.numpad.wf()
        &&& self.numpad.spec_top_y() == DEFAULT_TOP
        &&& self.numpad.spec_digits().len() <= self.numpad.spec_max_digits()
    }

    /// The settings index with an empty six-digit keypad.
    pub fn new() -> (s: Self)
        ensures
            s.wf(),
            s.spec_view() == spec_fresh(SettingsView::Index, 6),
    {
        SettingsScreen { view: SettingsView::Index, numpad: Numpad::new(6) }
    }

    /// Whether [`Self::on_event`] is defined for `event`: a confirmed
    /// entry's fields fit the bytes they are computed in.
    pub fn accepts(&self, event: &SystemEvent) -> (r: bool)
        requires
            self.wf(),
        ensures
            r == spec_settings_event_ok(self.spec_view(), *event),
    {
        match event {
            SystemEvent::Tap { x, y } => {
                if header_back_hit(*x, *y) {
                    return true;
                }
                match self.numpad.hit_test(*x, *y) {
                    Some(NumpadAction::Confirm) => {
                        let digits = self.numpad.digit_slice();
                        match self.view {
                            SettingsView::TimeEntry => {
                                let p = pad_digits(digits, 6);
                                p[0] as u16 * 10 + p[1] as u16 <= 255 && p[2] as u16 * 10 + p[3] as u16 <= 255
                                    && p[4] as u16 * 10 + p[5] as u16 <= 255
                            },
                            SettingsView::DateEntry => {
                                let p = pad_digits(digits, 8);
                                p[0] as u16 * 10 + p[1] as u16 <= 255 && p[2] as u16 * 10 + p[3] as u16 <= 255
                                    && p[4] as u32 * 1000 + p[5] as u32 * 100 + p[6] as u32 * 10 + p[7] as u32 <= 65535
                            },
                            _ => true,
                        }
                    },
                    _ => true,
                }
            },
            _ => true,
        }
    }

    /// Fold an event into the screen.
    pub fn on_event(&mut self, event: &SystemEvent, data: &mut SystemData) -> (a: Action)
        requires
            old(self).wf(),
            spec_settings_event_ok(old(self).spec_view(), *event),
        ensures
            final(self).wf(),
            *final(data) == *old(data),
            (final(self).spec_view(), a) == spec_settings_event(old(self).spec_view(), *old(data), *event),
    {
        if let SystemEvent::PowerButtonLong = event {
            return Action::Shutdown;
        }
        match self.view {
            SettingsView::Index => match event {
                SystemEvent::Tap { x, y } => if header_back_hit(*x, *y) {
                    Action::Back
                } else {
                    match row_at(*x, *y, INDEX_ROWS) {
                        Some(3) => Action::ToggleNightMode,
                        Some(4) => {
                            self.view = SettingsView::Clock;
                            Action::Redraw
                        },
                        Some(5) => {
                            self.view = SettingsView::Battery;
                            Action::Redraw
                        },
                        Some(6) => {
                            self.view = SettingsView::Imu;
                            Action::Redraw
                        },
                        Some(7) => {
                            self.view = SettingsView::Storage;
                            Action::Redraw
                        },
                        _ => Action::Nothing,
                    }
                },
                _ => Action::Nothing,
            },
            SettingsView::Clock => self.clock_event(event, data),
            SettingsView::TimeEntry => self.entry_event(event, data, true),
            SettingsView::DateEntry => self.entry_event(event, data, false),
            SettingsView::Imu => self.imu_event(event, data),
            SettingsView::Battery => self.leaf_event(
                event,
                SettingsView::Index,
                matches!(event, SystemEvent::PowerUpdated { .. } | SystemEvent::BatteryChanged { .. } | SystemEvent::TimeUpdated { .. }),
            ),
            SettingsView::Storage => {
                if !is_leave(event) {
                    if let SystemEvent::Tap { x, y } = event {
                        let target = match row_at(*x, *y, STORAGE_ROWS) {
                            Some(0) => SettingsView::StorageFlash,
                            Some(1) => SettingsView::StorageSd,
                            Some(2) => SettingsView::StorageRestoreFlash,
                            Some(3) => SettingsView::StorageFactoryReset,
                            _ => return Action::Nothing,
                        };
                        self.view = target;
                        return Action::Redraw;
                    }
                }
                self.leaf_event(event, SettingsView::Index, matches!(event, SystemEvent::StorageUsageUpdated { .. }))
            },
            SettingsView::StorageFlash => self.leaf_event(
                event,
                SettingsView::Storage,
                matches!(event, SystemEvent::StorageUsageUpdated { .. }),
            ),
            SettingsView::StorageSd => {
                if !is_leave(event) {
                    if let SystemEvent::Tap { x, y } = event {
                        let (_, probe) = storage_sd_slots();
                        if rect_hit(probe, *x, *y) {
                            return Action::InitSd;
                        }
                    }
                }
                self.leaf_event(event, SettingsView::Storage, matches!(event, SystemEvent::StorageUsageUpdated { .. }))
            },
            SettingsView::StorageRestoreFlash => {
                if !is_leave(event) {
                    if let SystemEvent::Tap { x, y } = event {
                        let (_, cancel, _) = confirmation_slots();
                        if rect_hit(cancel, *x, *y) {
                            self.view = SettingsView::Storage;
                            return Action::Redraw;
                        }
                    }
                }
                self.leaf_event(event, SettingsView::Storage, matches!(event, SystemEvent::StorageUsageUpdated { .. }))
            },
            SettingsView::StorageFactoryReset => {
                if !is_leave(event) {
                    if let SystemEvent::Tap { x, y } = event {
                        let (_, cancel, primary) = confirmation_slots();
                        if rect_hit(cancel, *x, *y) {
                            self.view = SettingsView::Storage;
                            return Action::Redraw;
                        }
                        if rect_hit(primary, *x, *y) {
                            self.view = SettingsView::Storage;
                            return Action::FactoryReset;
                        }
                    }
                }
                self.leaf_event(event, SettingsView::Storage, false)
            },
        }
    }

    fn leaf_event(&mut self, event: &SystemEvent, parent: SettingsView, refresh: bool) -> (a: Action)
        requires
            old(self).wf(),
        ensures
            final(self).wf(),
            (final(self).spec_view(), a) == spec_leaf_event(old(self).spec_view(), *event, parent, refresh),
    {
        if is_leave(event) {
            self.view = parent;
            Action::Redraw
        } else if refresh {
            Action::Redraw
        } else {
            Action::Nothing
        }
    }

    fn clock_event(&mut self, event: &SystemEvent, data: &SystemData) -> (a: Action)
        requires
            old(self).wf(),
            old(self).view == SettingsView::Clock,
        ensures
            final(self).wf(),
            (final(self).spec_view(), a) == spec_clock_event(old(self).spec_view(), *data, *event),
    {
        if let SystemEvent::TimeUpdated { .. } = event {
            return Action::Redraw;
        }
        if is_leave(event) {
            self.view = SettingsView::Index;
            return Action::Redraw;
        }
        match event {
            SystemEvent::Tap { x, y } => {
                if rect_hit(content_card_rect(0), *x, *y) {
                    let mut n = Numpad::new(6);
                    n.prefill(&time_prefill(&data.time));
                    self.numpad = n;
                    self.view = SettingsView::TimeEntry;
                    Action::Redraw
                } else if rect_hit(content_card_rect(1), *x, *y) {
                    let mut n = Numpad::new(8);
                    n.prefill(&date_prefill(&data.time));
                    self.numpad = n;
                    self.view = SettingsView::DateEntry;
                    Action::Redraw
                } else {
                    Action::Nothing
                }
            },
            _ => Action::Nothing,
        }
    }

    fn entry_event(&mut self, event: &SystemEvent, data: &SystemData, time: bool) -> (a: Action)
        requires
            old(self).wf(),
            time ==> old(self).view == SettingsView::TimeEntry,
            !time ==> old(self).view == SettingsView::DateEntry,
            spec_settings_event_ok(old(self).spec_view(), *event),
        ensures
            final(self).wf(),
            time ==> (final(self).spec_view(), a) == spec_time_entry_event(old(self).spec_view(), *data, *event),
            !time ==> (final(self).spec_view(), a) == spec_date_entry_event(old(self).spec_view(), *data, *event),
    {
        match event {
            SystemEvent::Tap { x, y } => {
                if header_back_hit(*x, *y) {
                    self.numpad = Numpad::new(6);
                    self.view = SettingsView::Clock;
                    return Action::Redraw;
                }
                match self.numpad.hit_test(*x, *y) {
                    Some(NumpadAction::Confirm) => {
                        let confirmed = if time {
                            confirm_time(self.numpad.digit_slice(), &data.time)
                        } else {
                            confirm_date(self.numpad.digit_slice(), &data.time)
                        };
                        match confirmed {
                            Some(action) => {
                                self.numpad = Numpad::new(6);
                                self.view = SettingsView::Clock;
                                action
                            },
                            None => Action::Redraw,
                        }
                    },
                    Some(other) => {
                        if self.numpad.apply(other) {
                            Action::Redraw
                        } else {
                            Action::Nothing
                        }
                    },
                    None => Action::Nothing,
                }
            },
            _ => Action::Nothing,
        }
    }

    fn imu_event(&mut self, event: &SystemEvent, data: &SystemData) -> (a: Action)
        requires
            old(self).wf(),
        ensures
            final(self).wf(),
            (final(self).spec_view(), a) == spec_imu_event(old(self).spec_view(), *data, *event),
    {
        if is_leave(event) {
            self.view = SettingsView::Index;
            return Action::Redraw;
        }
        match event {
            SystemEvent::Tap { x, y } => {
                let slots = imu_slots();
                if rect_hit(slots[0].1, *x, *y) {
                    if matches!(data.self_tests[0], SelfTestResult::Running) {
                        Action::Nothing
                    } else {
                        Action::RunSelfTest(SelfTestId::ImuAccel)
                    }
                } else if rect_hit(slots[1].1, *x, *y) {
                    if matches!(data.self_tests[1], SelfTestResult::Running) {
                        Action::Nothing
                    } else {
                        Action::RunSelfTest(SelfTestId::ImuGyro)
                    }
                } else {
                    Action::Nothing
                }
            },
            SystemEvent::SelfTestUpdated { .. } => Action::Redraw,
            _ => Action::Nothing,
        }
    }
}

/// A back tap or a right swipe over the content.
fn is_leave(event: &SystemEvent) -> (r: bool)
    ensures
        r == spec_leave(*event),
{
    match event {
        SystemEvent::Tap { x, y } => header_back_hit(*x, *y),
        SystemEvent::Swipe { dir: SwipeDir::Right, region: SwipeRegion::Content } => true,
        _ => false,
    }
}

/// A confirmed six-digit `HHMMSS` entry sets the clock on today's date to
/// exactly the entered hour, minute and second (each the two-digit number
/// its pair of keys spells) when they make a time of day, and does nothing
/// otherwise.
pub proof fn lemma_confirm_time_sets_entered_time(digits: Seq<u8>, today: TimeData)
    requires
        digits.len() == 6,
        forall|i: int| 0 <= i < 6 ==> #[trigger] digits[i] < 10,
    ensures
        ({
            let h = 10 * digits[0] + digits[1];
            let m = 10 * digits[2] + digits[3];
            let sec = 10 * digits[4] + digits[5];
            spec_confirm_time(digits, today) == if h < 24 && m < 60 && sec < 60 {
                Some(Action::SetTime {
                    year: today.year,
                    month: today.month,
                    day: today.day,
                    hour: h as u8,
                    minute: m as u8,
                    second: sec as u8,
                })
            } else {
                None
            }
        }),
{
}

/// Confirming the time editor as it opens, seeded from a valid time of
/// day `t`, sets the clock on today's date to `t`'s hour, minute and
/// second.
pub proof fn lemma_time_prefill_round_trip(t: TimeData, today: TimeData)
    requires
        t.hour < 24,
        t.minute < 60,
        t.second < 60,
    ensures
        spec_confirm_time(spec_time_prefill(t), today) == Some(Action::SetTime {
            year: today.year,
            month: today.month,
            day: today.day,
            hour: t.hour,
            minute: t.minute,
            second: t.second,
        }),
{
    let p = spec_time_prefill(t);
    assert(p[0] * 10 + p[1] == t.hour);
    assert(p[2] * 10 + p[3] == t.minute);
    assert(p[4] * 10 + p[5] == t.second);
}

} // verus!
