//! Watch face: the two bottom tiles open the alarm and timer apps.

use vstd::prelude::*;

use crate::events::SystemEvent;
use crate::screens::{rect_hit, AppChrome};
use crate::ui_types::{Action, ScreenId, SystemData};

verus! {

/// The watch face (stateless).
pub struct ClockScreen;

/// The action of the watch face for an event, given where its bottom
/// tiles are.
pub open spec fn spec_clock_event(event: SystemEvent, chrome: AppChrome) -> Action {
    match event {
        SystemEvent::PowerButtonLong => Action::Shutdown,
        SystemEvent::TimeUpdated { .. } => Action::Redraw,
        SystemEvent::AlarmFired => Action::Redraw,
        SystemEvent::TimerExpired => Action::Redraw,
        SystemEvent::Tap { x, y } => {
            if chrome.spec_bottom_left().spec_contains(x as int, y as int) {
                Action::SwitchScreen(ScreenId::Alarm)
            } else if chrome.spec_bottom_right().spec_contains(x as int, y as int) {
                Action::SwitchScreen(ScreenId::Timer)
            } else {
                Action::Nothing
            }
        },
        _ => Action::Nothing,
    }
}

impl ClockScreen {
    /// The watch face.
    pub fn new() -> (s: Self) {
        ClockScreen
    }

    /// Fold an event into the watch face: time and alert changes
    /// redraw, a tap on the left tile opens Alarm, on the right tile
    /// Timer.
    pub fn on_event(&mut self, event: &SystemEvent, _data: &mut SystemData, chrome: &AppChrome) -> (a: Action)
        requires
            chrome.wf(),
        ensures
            a == spec_clock_event(*event, *chrome),
            *final(_data) == *old(_data),
    {
        match event {
            SystemEvent::PowerButtonLong => Action::Shutdown,
            SystemEvent::TimeUpdated { .. } => Action::Redraw,
            SystemEvent::AlarmFired | SystemEvent::TimerExpired => Action::Redraw,
            SystemEvent::Tap { x, y } => {
                let (left, right) = chrome.bottom_tiles();
                if rect_hit(left, *x, *y) {
                    Action::SwitchScreen(ScreenId::Alarm)
                } else if rect_hit(right, *x, *y) {
                    Action::SwitchScreen(ScreenId::Timer)
                } else {
                    Action::Nothing
                }
            },
            _ => Action::Nothing,
        }
    }
}

/// Three-letter weekday name, 0 = Sunday (taken modulo 7).
pub open spec fn spec_short_weekday(w: u8) -> Seq<char> {
    let d = w % 7;
    if d == 0 {
        "SUN"@
    } else if d == 1 {
        "MON"@
    } else if d == 2 {
        "TUE"@
    } else if d == 3 {
        "WED"@
    } else if d == 4 {
        "THU"@
    } else if d == 5 {
        "FRI"@
    } else {
        "SAT"@
    }
}

/// Three-letter weekday name, 0 = Sunday (taken modulo 7).
pub fn short_weekday(w: u8) -> (s: &'static str)
    ensures
        s@ == spec_short_weekday(w),
{
    match w % 7 {
        0 => "SUN",
        1 => "MON",
        2 => "TUE",
        3 => "WED",
        4 => "THU",
        5 => "FRI",
        _ => "SAT",
    }
}

/// Three-letter month name for 1..=12; anything else reads as December.
pub open spec fn spec_short_month(m: u8) -> Seq<char> {
    if m == 1 {
        "JAN"@
    } else if m == 2 {
        "FEB"@
    } else if m == 3 {
        "MAR"@
    } else if m == 4 {
        "APR"@
    } else if m == 5 {
        "MAY"@
    } else if m == 6 {
        "JUN"@
    } else if m == 7 {
        "JUL"@
    } else if m == 8 {
        "AUG"@
    } else if m == 9 {
        "SEP"@
    } else if m == 10 {
        "OCT"@
    } else if m == 11 {
        "NOV"@
    } else {
        "DEC"@
    }
}

/// Three-letter month name for 1..=12; anything else reads as December.
pub fn short_month(m: u8) -> (s: &'static str)
    ensures
        s@ == spec_short_month(m),
{
    match m {
        1 => "JAN",
        2 => "FEB",
        3 => "MAR",
        4 => "APR",
        5 => "MAY",
        6 => "JUN",
        7 => "JUL",
        8 => "AUG",
        9 => "SEP",
        10 => "OCT",
        11 => "NOV",
        _ => "DEC",
    }
}

} // verus!
