//! The mounted screen: one of the screens, built for a screen id, with
//! events dispatched to it.

use vstd::prelude::*;

use crate::events::SystemEvent;
use crate::screens::alarm::{spec_alarm_event, spec_alarm_event_ok, AlarmScreen};
use crate::screens::clock::{spec_clock_event, ClockScreen};
use crate::screens::quick_access::{spec_quick_access_step, QuickAccessScreen};
use crate::screens::settings::{spec_settings_event, spec_settings_event_ok, SettingsScreen};
use crate::screens::status::{spec_status_event, StatusScreen};
use crate::screens::timer::{spec_timer_event, spec_timer_event_ok, TimerScreen, NOW_LIMIT_MS};
use crate::screens::AppChrome;
use crate::ui_types::{Action, ScreenId, SystemData};

verus! {

/// The screen that receives events.
pub enum ActiveScreen {
    Clock(ClockScreen),
    Status(StatusScreen),
    Timer(TimerScreen),
    Alarm(AlarmScreen),
    Settings(SettingsScreen),
    QuickAccess(QuickAccessScreen),
    /// A screen with no event handling of its own in this crate (the
    /// stopwatch and the app drawer): it answers every event with
    /// nothing.
    Other(ScreenId),
}

impl ActiveScreen {
    /// Each screen's own invariant, and the chrome its layout uses.
    pub open spec fn wf(&self, chrome: AppChrome) -> bool {
        match *self {
            ActiveScreen::Status(s) => s.wf(),
            ActiveScreen::Timer(t) => t.wf() && t.spec_chrome() == chrome,
            ActiveScreen::Alarm(a) => a.wf() && a.spec_chrome() == chrome,
            ActiveScreen::Settings(s) => s.wf(),
            _ => true,
        }
    }

    /// The id of the screen.
    pub open spec fn spec_id(&self) -> ScreenId {
        match *self {
            ActiveScreen::Clock(_) => ScreenId::Clock,
            ActiveScreen::Status(_) => ScreenId::Status,
            ActiveScreen::Timer(_) => ScreenId::Timer,
            ActiveScreen::Alarm(_) => ScreenId::Alarm,
            ActiveScreen::Settings(_) => ScreenId::Settings,
            ActiveScreen::QuickAccess(_) => ScreenId::QuickAccess,
            ActiveScreen::Other(id) => id,
        }
    }

    /// Whether the screen's arithmetic is defined for `event`.
    pub open spec fn spec_accepts(&self, data: SystemData, event: SystemEvent) -> bool {
        match *self {
            ActiveScreen::Timer(t) => spec_timer_event_ok(t.spec_view(), data, event),
            ActiveScreen::Alarm(a) => spec_alarm_event_ok(a.spec_view(), data, event, a.spec_chrome()),
            ActiveScreen::Settings(s) => spec_settings_event_ok(s.spec_view(), event),
            _ => true,
        }
    }

    /// A fresh screen for `id`. The overlays need the screen they open
    /// over, so for them this gives the watch face; use
    /// [`Self::new_quick_access`] or [`Self::new_app_drawer`].
    pub fn new(id: ScreenId, chrome: AppChrome) -> (s: Self)
        requires
            chrome.wf(),
        ensures
            s.wf(chrome),
            s.spec_id() == (match id {
                ScreenId::QuickAccess => ScreenId::Clock,
                ScreenId::AppDrawer => ScreenId::Clock,
                _ => id,
            }),
            s is Status ==> s->Status_0.spec_page() == 0,
            s is Timer ==> s->Timer_0.spec_view().view == crate::screens::timer::TimerView::Main,
            s is Settings ==> s->Settings_0.spec_view() == crate::screens::settings::spec_fresh(
                crate::screens::settings::SettingsView::Index,
                6,
            ),
    {
        match id {
            ScreenId::Clock => ActiveScreen::Clock(ClockScreen::new()),
            ScreenId::Status => ActiveScreen::Status(StatusScreen::new()),
            ScreenId::Stopwatch => ActiveScreen::Other(ScreenId::Stopwatch),
            ScreenId::Timer => ActiveScreen::Timer(TimerScreen::new(chrome)),
            ScreenId::Alarm => ActiveScreen::Alarm(AlarmScreen::new(chrome)),
            ScreenId::Settings => ActiveScreen::Settings(SettingsScreen::new()),
            ScreenId::QuickAccess => ActiveScreen::Clock(ClockScreen::new()),
            ScreenId::AppDrawer => ActiveScreen::Clock(ClockScreen::new()),
        }
    }

    /// The Quick Access overlay, remembering the screen it opened over.
    pub fn new_quick_access(previous: ScreenId) -> (s: Self)
        ensures
            s matches ActiveScreen::QuickAccess(q) && q.spec_previous() == previous,
    {
        ActiveScreen::QuickAccess(QuickAccessScreen::new(previous))
    }

    /// The app drawer overlay (no event handling in this crate).
    pub fn new_app_drawer(previous: ScreenId) -> (s: Self)
        ensures
            s == ActiveScreen::Other(ScreenId::AppDrawer),
    {
        ActiveScreen::Other(ScreenId::AppDrawer)
    }

    /// Which screen is active.
    pub fn id(&self) -> (id: ScreenId)
        ensures
            id == self.spec_id(),
    {
        match self {
            ActiveScreen::Clock(_) => ScreenId::Clock,
            ActiveScreen::Status(_) => ScreenId::Status,
            ActiveScreen::Timer(_) => ScreenId::Timer,
            ActiveScreen::Alarm(_) => ScreenId::Alarm,
            ActiveScreen::Settings(_) => ScreenId::Settings,
            ActiveScreen::QuickAccess(_) => ScreenId::QuickAccess,
            ActiveScreen::Other(id) => *id,
        }
    }

    /// Whether [`Self::on_event`] is defined for `event`.
    pub fn accepts(&self, event: &SystemEvent, data: &SystemData, chrome: AppChrome) -> (r: bool)
        requires
            self.wf(chrome),
        ensures
            r == self.spec_accepts(*data, *event),
    {
        match self {
            ActiveScreen::Timer(t) => t.accepts(event, data),
            ActiveScreen::Alarm(a) => a.accepts(event, data),
            ActiveScreen::Settings(s) => s.accepts(event),
            _ => true,
        }
    }

    /// Dispatch `event` at `now` to the screen and return its action.
    pub fn on_event(&mut self, event: &SystemEvent, data: &mut SystemData, chrome: AppChrome, now: u64) -> (a: Action)
        requires
            old(self).wf(chrome),
            chrome.wf(),
            now <= NOW_LIMIT_MS,
            old(self).spec_accepts(*old(data), *event),
        ensures
            final(self).wf(chrome),
            final(self).spec_id() == old(self).spec_id(),
            match *old(self) {
                ActiveScreen::Clock(_) => *final(self) == *old(self) && *final(data) == *old(data) && a
                    == spec_clock_event(*event, chrome),
                ActiveScreen::Status(s) => *final(data) == *old(data) && (*final(self) matches ActiveScreen::Status(
                    s2,
                ) && (s2.spec_page(), a) == spec_status_event(s.spec_page(), *event)),
                ActiveScreen::Timer(t) => *final(self) matches ActiveScreen::Timer(t2) && (t2.spec_view(), *final(data), a)
                    == spec_timer_event(t.spec_view(), *old(data), *event, now, chrome),
                ActiveScreen::Alarm(al) => *final(self) matches ActiveScreen::Alarm(al2) && (al2.spec_view(), *final(data), a)
                    == spec_alarm_event(al.spec_view(), *old(data), *event, chrome),
                ActiveScreen::Settings(s) => *final(data) == *old(data) && (*final(self) matches ActiveScreen::Settings(
                    s2,
                ) && (s2.spec_view(), a) == spec_settings_event(s.spec_view(), *old(data), *event)),
                ActiveScreen::QuickAccess(q) => *final(data) == *old(data) && (*final(self) matches ActiveScreen::QuickAccess(
                    q2,
                ) && q2.spec_previous() == q.spec_previous() && spec_quick_access_step(q, q2, *event, a)),
                ActiveScreen::Other(_) => *final(self) == *old(self) && *final(data) == *old(data) && a == Action::Nothing,
            },
    {
        match self {
            ActiveScreen::Clock(s) => s.on_event(event, data, &chrome),
            ActiveScreen::Status(s) => s.on_event(event, data),
            ActiveScreen::Timer(t) => t.on_event_at(event, data, now),
            ActiveScreen::Alarm(al) => al.on_event(event, data),
            ActiveScreen::Settings(s) => s.on_event(event, data),
            ActiveScreen::QuickAccess(q) => q.on_event(event, data),
            ActiveScreen::Other(_) => Action::Nothing,
        }
    }
}

} // verus!
