//! Application state machine, independent of hardware.
//!
//! [`Model`] owns what the app logically is: the cached sensor snapshot,
//! the current screen id, the navigation stack, the display power state,
//! the sleep flag, the buzz pattern and the config. Two entry points fold
//! input into state and hand back a list of [`Effect`]s for the caller to
//! carry out on hardware:
//!
//! * [`Model::handle_event`] folds in a [`SystemEvent`] and says whether
//!   the event should go on to the active screen; the caller then passes
//!   the screen's [`Action`] to [`Model::dispatch_action`].
//! * [`Model::tick`] advances time-driven state (buzz phases, dim and
//!   idle-sleep timers).
//!
//! Times are milliseconds since boot.
//!
//! Every transition is stated as a spec function over [`ModelView`]; the
//! laws at the end of the file are proved from those.

use vstd::prelude::*;

use crate::alarm::{lemma_weekday_in_range, spec_plan_reprogram, spec_weekday, AlarmReprogram, AlarmState};
use crate::buzz::{BuzzAction, BuzzPattern};
use crate::commands::{ImuCommand, RtcCommand, SleepState};
use crate::config::Config;
use crate::data::{TimeData, TouchData};
use crate::events::{
    is_user_activity, is_wake_source, spec_is_user_activity, spec_is_wake_source, SelfTestId,
    SelfTestResult, SwipeDir, SwipeRegion, SystemEvent,
};
use crate::nav::{spec_pop, spec_push, spec_top_or_home, NavStack, NAV_STACK_DEPTH};
use crate::ui_types::{Action, DisplayState, ScreenId, SystemData, TimerState};

verus! {

/// Upper bound on the number of [`Effect`]s one event or tick produces.
pub const MAX_EFFECTS_PER_CALL: usize = 8;

/// Fixed-size buffer of effects returned by `Model` methods.
pub type Effects = heapless::Vec<Effect, 8>;

/// What the caller should do to hardware after a `Model` call.
#[derive(Debug, Clone, Copy, PartialEq, Eq, Structural)]
pub enum Effect {
    /// Transition the display between two power states.
    TransitionDisplay { from: DisplayState, to: DisplayState },
    /// Broadcast a sleep-state change to the peripheral tasks.
    BroadcastSleep(SleepState),
    /// Motor on (one-shot edge).
    MotorOn,
    /// Motor off (one-shot edge).
    MotorOff,
    /// Short pulse: motor on for `duration_ms`, then off.
    MotorPulse { duration_ms: u32 },
    /// Forward a command to the RTC task.
    RtcCommand(RtcCommand),
    /// Forward a command to the IMU task.
    ImuCommand(ImuCommand),
    /// Immediate shutdown request.
    Shutdown,
}

/// What an effect buffer holds, oldest first.
pub uninterp spec fn effect_items(v: heapless::Vec<Effect, 8>) -> Seq<Effect>;

/// `heapless::Vec::new`: an empty vector.
#[verifier::external_body]
fn effects_new() -> (v: heapless::Vec<Effect, 8>)
    ensures
        effect_items(v) == Seq::<Effect>::empty(),
{
    heapless::Vec::new()
}

/// `heapless::Vec::push`: appends when fewer than 8 items are held,
/// otherwise hands the item back and leaves the vector as it was.
#[verifier::external_body]
fn effects_push(v: &mut heapless::Vec<Effect, 8>, e: Effect) -> (r: Result<(), Effect>)
    ensures
        r is Ok <==> effect_items(*old(v)).len() < 8,
        r is Err ==> r->Err_0 == e,
        effect_items(*old(v)).len() < 8 ==> effect_items(*final(v)) == effect_items(*old(v)).push(e),
        effect_items(*old(v)).len() >= 8 ==> effect_items(*final(v)) == effect_items(*old(v)),
{
    v.push(e)
}

/// The effect list after pushing `e`: appended unless already full.
pub open spec fn spec_emit(out: Seq<Effect>, e: Effect) -> Seq<Effect> {
    if out.len() < MAX_EFFECTS_PER_CALL { out.push(e) } else { out }
}

fn emit(out: &mut Effects, e: Effect)
    ensures
        effect_items(*final(out)) == spec_emit(effect_items(*old(out)), e),
{
    let _ = effects_push(out, e);
}

/// Application state machine.
///
/// `screen` is the id of the active screen; `remount` is set whenever
/// the model switches screens (to a new id or afresh to the same one),
/// and the caller that owns the screen instances rebuilds and mounts the
/// screen, then clears it.
pub struct Model {
    pub cached_data: SystemData,
    pub screen: ScreenId,
    pub remount: bool,
    pub nav_stack: NavStack,
    pub display_state: DisplayState,
    /// Time of the last user activity (or wake-up).
    pub last_activity: u64,
    pub sleeping: bool,
    pub needs_redraw: bool,
    pub config: Config,
    pub buzz: Option<BuzzPattern>,
}

/// The model as a mathematical value.
pub struct ModelView {
    pub data: SystemData,
    pub screen: ScreenId,
    pub remount: bool,
    pub nav: Seq<ScreenId>,
    pub display_state: DisplayState,
    pub last_activity: u64,
    pub sleeping: bool,
    pub needs_redraw: bool,
    pub config: Config,
    pub buzz: Option<BuzzPattern>,
}

impl View for Model {
    type V = ModelView;

    open spec fn view(&self) -> ModelView {
        ModelView {
            data: self.cached_data,
            screen: self.screen,
            remount: self.remount,
            nav: self.nav_stack@,
            display_state: self.display_state,
            last_activity: self.last_activity,
            sleeping: self.sleeping,
            needs_redraw: self.needs_redraw,
            config: self.config,
            buzz: self.buzz,
        }
    }
}

/// The model's standing invariant: it sleeps exactly when the display is
/// off, and the navigation stack stays within its depth.
pub open spec fn spec_wf(v: ModelView) -> bool {
    &&& v.sleeping <==> v.display_state == DisplayState::Off
    &&& v.nav.len() <= NAV_STACK_DEPTH
}

// ---- Transitions as spec functions ---------------------------------------------

/// Replace the active screen with a fresh instance of `id`.
pub open spec fn spec_switch(v: ModelView, id: ScreenId) -> ModelView {
    ModelView { screen: id, remount: true, ..v }
}

/// Enter sleep (no change when already sleeping).
pub open spec fn spec_sleep(v: ModelView, out: Seq<Effect>) -> (ModelView, Seq<Effect>) {
    if v.sleeping {
        (v, out)
    } else {
        (
            ModelView { sleeping: true, display_state: DisplayState::Off, ..v },
            spec_emit(
                spec_emit(out, Effect::BroadcastSleep(SleepState::Sleeping)),
                Effect::TransitionDisplay { from: v.display_state, to: DisplayState::Off },
            ),
        )
    }
}

/// Leave sleep at `now` (no change when awake).
pub open spec fn spec_wake(v: ModelView, now: u64, out: Seq<Effect>) -> (ModelView, Seq<Effect>) {
    if !v.sleeping {
        (v, out)
    } else {
        (
            ModelView {
                sleeping: false,
                last_activity: now,
                display_state: DisplayState::Active,
                needs_redraw: true,
                ..v
            },
            spec_emit(
                spec_emit(out, Effect::BroadcastSleep(SleepState::Awake)),
                Effect::TransitionDisplay { from: v.display_state, to: DisplayState::Active },
            ),
        )
    }
}

/// The per-test results with slot `id` replaced by `r`.
pub open spec fn spec_set_self_test(tests: [SelfTestResult; 2], id: SelfTestId, r: SelfTestResult) -> [SelfTestResult; 2] {
    match id {
        SelfTestId::ImuAccel => [r, tests[1]],
        SelfTestId::ImuGyro => [tests[0], r],
    }
}

/// Push the current screen and switch to `id`, unless `id` is already
/// showing; either way request a redraw.
pub open spec fn spec_bring_up(v: ModelView, id: ScreenId) -> ModelView {
    let v1 = if v.screen != id {
        spec_switch(ModelView { nav: spec_push(v.nav, v.screen), ..v }, id)
    } else {
        v
    };
    ModelView { needs_redraw: true, ..v1 }
}

/// Fold the snapshot part of an event into the cached data.
pub open spec fn spec_apply_snapshot(v: ModelView, event: SystemEvent, out: Seq<Effect>) -> (ModelView, Seq<Effect>) {
    match event {
        SystemEvent::TimeUpdated { data } => {
            let wd = spec_weekday(data);
            let (alarms, cmd) = spec_plan_reprogram(v.data.alarms, data.hour, data.minute, wd);
            let v1 = ModelView { data: SystemData { time: data, alarms: alarms, ..v.data }, ..v };
            match cmd {
                None => (v1, out),
                Some(AlarmReprogram::SetAlarm { hour, minute }) => (
                    v1,
                    spec_emit(out, Effect::RtcCommand(RtcCommand::SetAlarm { hour, minute, weekday: None })),
                ),
                Some(AlarmReprogram::CancelAlarm) => (v1, spec_emit(out, Effect::RtcCommand(RtcCommand::CancelAlarm))),
            }
        },
        SystemEvent::PowerUpdated { data } => (ModelView { data: SystemData { power: data, ..v.data }, ..v }, out),
        SystemEvent::MotionUpdated { data } => (ModelView { data: SystemData { motion: data, ..v.data }, ..v }, out),
        SystemEvent::TimerExpired => {
            let v1 = ModelView { data: SystemData { timer: TimerState::Idle { duration_ms: 0 }, ..v.data }, ..v };
            (spec_bring_up(v1, ScreenId::Timer), out)
        },
        SystemEvent::AlarmFired => (spec_bring_up(v, ScreenId::Alarm), out),
        SystemEvent::SelfTestUpdated { id, result } => (
            ModelView {
                data: SystemData { self_tests: spec_set_self_test(v.data.self_tests, id, result), ..v.data },
                needs_redraw: true,
                ..v
            },
            out,
        ),
        SystemEvent::TouchPressed { x, y } => (
            ModelView { data: SystemData { touch: TouchData { x: Some(x), y: Some(y) }, ..v.data }, ..v },
            out,
        ),
        SystemEvent::TouchReleased => (
            ModelView { data: SystemData { touch: TouchData { x: None, y: None }, ..v.data }, ..v },
            out,
        ),
        SystemEvent::HalfMinuteChanged => (ModelView { needs_redraw: true, ..v }, out),
        SystemEvent::BatteryChanged { .. } => (ModelView { needs_redraw: true, ..v }, out),
        _ => (v, out),
    }
}

/// Whether an event is the system-level swipe down from the top edge.
pub open spec fn spec_is_pull_down(event: SystemEvent) -> bool {
    event == (SystemEvent::Swipe { dir: SwipeDir::Down, region: SwipeRegion::Top })
}

/// The event-handling steps after the snapshot has been folded in and
/// any non-user wake has happened: user activity, then the pull-down,
/// then forwarding to the screen. The flag says whether the event goes
/// on to the active screen.
pub open spec fn spec_route(v: ModelView, event: SystemEvent, now: u64, out: Seq<Effect>) -> (ModelView, Seq<Effect>, bool) {
    let v3 = if spec_is_user_activity(event) { ModelView { last_activity: now, ..v } } else { v };
    if spec_is_user_activity(event) && v3.sleeping {
        let (w, o) = spec_wake(v3, now, out);
        (w, o, false)
    } else if spec_is_user_activity(event) && event is BootButtonPressed {
        let (s, o) = spec_sleep(v3, spec_emit(out, Effect::MotorPulse { duration_ms: 100 }));
        (s, o, false)
    } else if v3.sleeping {
        (v3, out, false)
    } else if v3.screen != ScreenId::QuickAccess && spec_is_pull_down(event) {
        let v4 = spec_switch(ModelView { nav: spec_push(v3.nav, v3.screen), ..v3 }, ScreenId::QuickAccess);
        (ModelView { needs_redraw: true, ..v4 }, out, false)
    } else {
        (v3, out, true)
    }
}

/// The full effect of one event: the new model, the effects, and whether
/// the event goes on to the active screen.
pub open spec fn spec_handle_event(v: ModelView, event: SystemEvent, now: u64) -> (ModelView, Seq<Effect>, bool) {
    let (v1, o1) = spec_apply_snapshot(v, event, Seq::<Effect>::empty());
    if v1.sleeping && spec_is_wake_source(event) {
        let (v2, o2) = spec_wake(v1, now, o1);
        if event is WakeOnMotion {
            (v2, o2, false)
        } else {
            spec_route(v2, event, now, o2)
        }
    } else {
        spec_route(v1, event, now, o1)
    }
}

/// Pop the navigation stack and switch to what it yields (Clock when
/// empty).
pub open spec fn spec_go_back(v: ModelView) -> ModelView {
    let target = spec_top_or_home(v.nav);
    ModelView { needs_redraw: true, ..spec_switch(ModelView { nav: spec_pop(v.nav), ..v }, target) }
}

/// Minutes a snooze defers an alarm by.
pub const SNOOZE_MINUTES: u8 = 10;

/// The effect of a screen's action on the model.
pub open spec fn spec_dispatch(v: ModelView, action: Action, out: Seq<Effect>) -> (ModelView, Seq<Effect>) {
    let redraw = ModelView { needs_redraw: true, ..v };
    match action {
        Action::Nothing => (v, out),
        Action::Redraw => (redraw, out),
        Action::PersistAlarms => (redraw, out),
        Action::PersistConfig => (redraw, out),
        Action::SwitchScreen(id) => {
            let nav = if v.screen != ScreenId::QuickAccess { spec_push(v.nav, v.screen) } else { v.nav };
            (ModelView { needs_redraw: true, ..spec_switch(ModelView { nav: nav, ..v }, id) }, out)
        },
        Action::Back => (spec_go_back(v), out),
        Action::Shutdown => (v, spec_emit(out, Effect::Shutdown)),
        Action::RunSelfTest(id) => (redraw, spec_emit(out, Effect::ImuCommand(ImuCommand::RunSelfTest(id)))),
        Action::StartTimer { seconds } => (redraw, spec_emit(out, Effect::RtcCommand(RtcCommand::StartTimer { seconds }))),
        Action::CancelTimer => (redraw, spec_emit(out, Effect::RtcCommand(RtcCommand::CancelTimer))),
        Action::SetAlarm { hour, minute, weekday } => (
            redraw,
            spec_emit(out, Effect::RtcCommand(RtcCommand::SetAlarm { hour, minute, weekday })),
        ),
        Action::CancelAlarm => (redraw, spec_emit(out, Effect::RtcCommand(RtcCommand::CancelAlarm))),
        Action::SetTime { year, month, day, hour, minute, second } => (
            redraw,
            spec_emit(out, Effect::RtcCommand(RtcCommand::SetTime { year, month, day, hour, minute, second })),
        ),
        Action::StartBuzz { on_ms, off_ms } => (
            ModelView { buzz: Some(BuzzPattern::spec_started(on_ms as u64, off_ms as u64, v.last_activity)), ..v },
            spec_emit(out, Effect::MotorOn),
        ),
        Action::StopBuzz => (ModelView { buzz: None, needs_redraw: true, ..v }, spec_emit(out, Effect::MotorOff)),
        Action::DismissAlarm => (spec_go_back(ModelView { buzz: None, ..v }), spec_emit(out, Effect::MotorOff)),
        Action::SnoozeAlarm => {
            let t = v.data.time;
            let hour = ((t.hour + (t.minute + SNOOZE_MINUTES) / 60) % 24) as u8;
            let minute = ((t.minute + SNOOZE_MINUTES) % 60) as u8;
            let v1 = ModelView {
                buzz: None,
                data: SystemData { alarms: AlarmState { snoozed: true, ..v.data.alarms }, ..v.data },
                ..v
            };
            (
                spec_go_back(v1),
                spec_emit(
                    spec_emit(out, Effect::MotorOff),
                    Effect::RtcCommand(RtcCommand::SetAlarm { hour, minute, weekday: None }),
                ),
            )
        },
        _ => (v, out),
    }
}

/// Milliseconds of inactivity before the display dims.
pub open spec fn spec_dim_after_ms(c: Config) -> int {
    c.display.dim_timeout_s * 1000
}

/// Milliseconds of inactivity before the system sleeps.
pub open spec fn spec_sleep_after_ms(c: Config) -> int {
    c.display.off_timeout_s * 1000
}

/// The buzz step of a tick.
pub open spec fn spec_tick_buzz(v: ModelView, now: u64) -> (ModelView, Seq<Effect>) {
    match v.buzz {
        None => (v, Seq::<Effect>::empty()),
        Some(p) => {
            let (p1, a) = p.spec_ticked(now);
            let v1 = ModelView { buzz: Some(p1), ..v };
            match a {
                BuzzAction::Nothing => (v1, Seq::<Effect>::empty()),
                BuzzAction::TurnOn => (v1, seq![Effect::MotorOn]),
                BuzzAction::TurnOff => (v1, seq![Effect::MotorOff]),
            }
        },
    }
}

/// The dimming step of a tick: while awake, the display is Dim once the
/// idle time reaches the dim timeout and Active before.
pub open spec fn spec_apply_dim(v: ModelView, now: u64, out: Seq<Effect>) -> (ModelView, Seq<Effect>) {
    if v.sleeping {
        (v, out)
    } else {
        let target = if now - v.last_activity >= spec_dim_after_ms(v.config) {
            DisplayState::Dim
        } else {
            DisplayState::Active
        };
        if target != v.display_state {
            (
                ModelView { display_state: target, ..v },
                spec_emit(out, Effect::TransitionDisplay { from: v.display_state, to: target }),
            )
        } else {
            (v, out)
        }
    }
}

/// The idle-sleep step of a tick.
pub open spec fn spec_idle_sleep(v: ModelView, now: u64, out: Seq<Effect>) -> (ModelView, Seq<Effect>) {
    if !v.sleeping && now - v.last_activity >= spec_sleep_after_ms(v.config) {
        spec_sleep(v, out)
    } else {
        (v, out)
    }
}

/// The full effect of a tick at `now`.
pub open spec fn spec_tick(v: ModelView, now: u64) -> (ModelView, Seq<Effect>) {
    let (v1, o1) = spec_tick_buzz(v, now);
    let (v2, o2) = spec_apply_dim(v1, now, o1);
    spec_idle_sleep(v2, now, o2)
}

/// The model right after construction.
pub open spec fn spec_initial(data: SystemData, config: Config, now: u64) -> ModelView {
    ModelView {
        data: data,
        screen: ScreenId::Clock,
        remount: true,
        nav: Seq::<ScreenId>::empty(),
        display_state: DisplayState::Active,
        last_activity: now,
        sleeping: false,
        needs_redraw: true,
        config: config,
        buzz: None,
    }
}

/// Whether the snooze time can be computed without the hour overflowing
/// a byte.
pub open spec fn spec_snooze_fits(t: TimeData) -> bool {
    t.hour + (t.minute + SNOOZE_MINUTES) / 60 <= 255
}

/// Whether a snooze from the clock time `t` has an hour that fits a byte
/// (always so for a valid time of day).
pub fn snooze_fits(t: &TimeData) -> (r: bool)
    ensures
        r == spec_snooze_fits(*t),
{
    (t.hour as u16) + (t.minute as u16 + SNOOZE_MINUTES as u16) / 60 <= 255
}

impl Model {
    /// A fresh model on the Clock screen, awake, with the display active,
    /// an empty navigation stack and a first frame pending.
    pub fn new(cached_data: SystemData, config: Config, now: u64) -> (m: Self)
        ensures
            m@ == spec_initial(cached_data, config, now),
            spec_wf(m@),
    {
        Model {
            cached_data,
            screen: ScreenId::Clock,
            remount: true,
            nav_stack: NavStack::new(),
            display_state: DisplayState::Active,
            last_activity: now,
            sleeping: false,
            needs_redraw: true,
            config,
            buzz: None,
        }
    }

    /// Whether a render is pending.
    pub fn needs_redraw(&self) -> (r: bool)
        ensures
            r == self.needs_redraw,
    {
        self.needs_redraw
    }

    /// Clear the pending-render flag (after a successful render).
    pub fn clear_redraw(&mut self)
        ensures
            final(self)@ == (ModelView { needs_redraw: false, ..old(self)@ }),
    {
        self.needs_redraw = false;
    }

    /// Whether the system is asleep (display off, peripherals in
    /// low-power mode).
    pub fn sleeping(&self) -> (r: bool)
        ensures
            r == self.sleeping,
    {
        self.sleeping
    }

    /// Read-only view of the cached system snapshot.
    pub fn cached_data(&self) -> (d: &SystemData)
        ensures
            *d == self.cached_data,
    {
        &self.cached_data
    }

    /// Read-only view of the runtime config.
    pub fn config(&self) -> (c: &Config)
        ensures
            *c == self.config,
    {
        &self.config
    }

    /// Record the main loop's iteration counter (diagnostics only).
    pub fn set_tick_count(&mut self, count: u32)
        ensures
            final(self)@ == (ModelView { data: SystemData { tick_count: count, ..old(self)@.data }, ..old(self)@ }),
    {
        self.cached_data.tick_count = count;
    }

    fn switch_to(&mut self, id: ScreenId)
        ensures
            final(self)@ == spec_switch(old(self)@, id),
    {
        self.screen = id;
        self.remount = true;
    }

    fn sleep(&mut self, out: &mut Effects)
        ensures
            (final(self)@, effect_items(*final(out))) == spec_sleep(old(self)@, effect_items(*old(out))),
    {
        if self.sleeping {
            return;
        }
        self.sleeping = true;
        emit(out, Effect::BroadcastSleep(SleepState::Sleeping));
        emit(out, Effect::TransitionDisplay { from: self.display_state, to: DisplayState::Off });
        self.display_state = DisplayState::Off;
    }

    fn wake(&mut self, now: u64, out: &mut Effects)
        ensures
            (final(self)@, effect_items(*final(out))) == spec_wake(old(self)@, now, effect_items(*old(out))),
    {
        if !self.sleeping {
            return;
        }
        self.sleeping = false;
        self.last_activity = now;
        emit(out, Effect::BroadcastSleep(SleepState::Awake));
        emit(out, Effect::TransitionDisplay { from: self.display_state, to: DisplayState::Active });
        self.display_state = DisplayState::Active;
        self.needs_redraw = true;
    }

    fn bring_up(&mut self, id: ScreenId)
        ensures
            final(self)@ == spec_bring_up(old(self)@, id),
    {
        if self.screen != id {
            self.nav_stack.push(self.screen);
            self.switch_to(id);
        }
        self.needs_redraw = true;
    }

    fn go_back(&mut self)
        ensures
            final(self)@ == spec_go_back(old(self)@),
    {
        let target = self.nav_stack.pop_or_home();
        self.switch_to(target);
        self.needs_redraw = true;
    }

    /// Fold the snapshot part of an event into the cached data; a time
    /// update also re-plans the RTC alarm, and timer expiry or an alarm
    /// brings up the matching screen.
    pub fn apply_snapshot(&mut self, event: &SystemEvent, out: &mut Effects)
        ensures
            (final(self)@, effect_items(*final(out))) == spec_apply_snapshot(old(self)@, *event, effect_items(*old(out))),
    {
        match event {
            SystemEvent::TimeUpdated { data } => {
                self.cached_data.time = *data;
                let t = self.cached_data.time;
                proof {
                    lemma_weekday_in_range(t.year, t.month, t.day);
                }
                let weekday = crate::alarm::day_of_week(t.year as i32, t.month as i32, t.day as i32);
                match self.cached_data.alarms.plan_reprogram(t.hour, t.minute, weekday) {
                    None => {},
                    Some(AlarmReprogram::SetAlarm { hour, minute }) => {
                        emit(out, Effect::RtcCommand(RtcCommand::SetAlarm { hour, minute, weekday: None }));
                    },
                    Some(AlarmReprogram::CancelAlarm) => {
                        emit(out, Effect::RtcCommand(RtcCommand::CancelAlarm));
                    },
                }
            },
            SystemEvent::PowerUpdated { data } => {
                self.cached_data.power = *data;
            },
            SystemEvent::MotionUpdated { data } => {
                self.cached_data.motion = *data;
            },
            SystemEvent::TimerExpired => {
                self.cached_data.timer = TimerState::Idle { duration_ms: 0 };
                self.bring_up(ScreenId::Timer);
            },
            SystemEvent::AlarmFired => {
                self.bring_up(ScreenId::Alarm);
            },
            SystemEvent::SelfTestUpdated { id, result } => {
                let idx = id.index();
                self.cached_data.self_tests[idx] = *result;
                proof {
                    assert(self.cached_data.self_tests =~= spec_set_self_test(old(self).cached_data.self_tests, *id, *result));
                }
                self.needs_redraw = true;
            },
            SystemEvent::TouchPressed { x, y } => {
                self.cached_data.touch = TouchData { x: Some(*x), y: Some(*y) };
            },
            SystemEvent::TouchReleased => {
                self.cached_data.touch = TouchData::default();
            },
            SystemEvent::HalfMinuteChanged => {
                self.needs_redraw = true;
            },
            SystemEvent::BatteryChanged { .. } => {
                self.needs_redraw = true;
            },
            _ => {},
        }
    }

    /// Fold one event into state. Returns the effects for the caller to
    /// apply to hardware, and whether the event should now be passed to
    /// the active screen (whose action then goes to
    /// [`Self::dispatch_action`]).
    ///
    /// In order: snapshot data is cached; a wake source wakes a sleeping
    /// system (a wake-on-motion goes no further); user activity resets
    /// the idle timer, and either wakes a sleeping system (consuming the
    /// event) or, for the BOOT button, pulses the motor and goes to
    /// sleep; nothing reaches a screen while asleep; a swipe down from
    /// the top opens Quick Access over the current screen.
    pub fn handle_event(&mut self, event: &SystemEvent, now: u64) -> (r: (Effects, bool))
        ensures
            (final(self)@, effect_items(r.0), r.1) == spec_handle_event(old(self)@, *event, now),
    {
        let mut out = effects_new();
        self.apply_snapshot(event, &mut out);

        let ghost v1 = self@;
        let ghost o1 = effect_items(out);
        if self.sleeping && is_wake_source(event) {
            self.wake(now, &mut out);
            if let SystemEvent::WakeOnMotion = event {
                return (out, false);
            }
        }

        if is_user_activity(event) {
            self.last_activity = now;
            if self.sleeping {
                self.wake(now, &mut out);
                return (out, false);
            }
            if let SystemEvent::BootButtonPressed = event {
                emit(&mut out, Effect::MotorPulse { duration_ms: 100 });
                self.sleep(&mut out);
                return (out, false);
            }
        }

        if self.sleeping {
            return (out, false);
        }

        if self.screen != ScreenId::QuickAccess {
            if let SystemEvent::Swipe { dir: SwipeDir::Down, region: SwipeRegion::Top } = event {
                let previous = self.screen;
                self.nav_stack.push(previous);
                self.switch_to(ScreenId::QuickAccess);
                self.needs_redraw = true;
                return (out, false);
            }
        }
        (out, true)
    }

    /// Carry out a screen's `action` for `event`: navigation, RTC and IMU
    /// commands, buzz control and snooze/dismiss handling. Actions the
    /// model does not handle (factory reset, SD card, brightness, night
    /// mode) leave it unchanged; the persistence requests only ask for a
    /// redraw.
    pub fn dispatch_action(&mut self, event: &SystemEvent, action: Action, out: &mut Effects)
        requires
            action is SnoozeAlarm ==> spec_snooze_fits(old(self).cached_data.time),
        ensures
            (final(self)@, effect_items(*final(out))) == spec_dispatch(old(self)@, action, effect_items(*old(out))),
    {
        match action {
            Action::Nothing => {},
            Action::Redraw => self.needs_redraw = true,
            Action::PersistAlarms => self.needs_redraw = true,
            Action::PersistConfig => self.needs_redraw = true,
            Action::SwitchScreen(id) => {
                if self.screen != ScreenId::QuickAccess {
                    self.nav_stack.push(self.screen);
                }
                self.switch_to(id);
                self.needs_redraw = true;
            },
            Action::Back => self.go_back(),
            Action::Shutdown => emit(out, Effect::Shutdown),
            Action::RunSelfTest(id) => {
                emit(out, Effect::ImuCommand(ImuCommand::RunSelfTest(id)));
                self.needs_redraw = true;
            },
            Action::StartTimer { seconds } => {
                emit(out, Effect::RtcCommand(RtcCommand::StartTimer { seconds }));
                self.needs_redraw = true;
            },
            Action::CancelTimer => {
                emit(out, Effect::RtcCommand(RtcCommand::CancelTimer));
                self.needs_redraw = true;
            },
            Action::SetAlarm { hour, minute, weekday } => {
                emit(out, Effect::RtcCommand(RtcCommand::SetAlarm { hour, minute, weekday }));
                self.needs_redraw = true;
            },
            Action::CancelAlarm => {
                emit(out, Effect::RtcCommand(RtcCommand::CancelAlarm));
                self.needs_redraw = true;
            },
            Action::SetTime { year, month, day, hour, minute, second } => {
                emit(out, Effect::RtcCommand(RtcCommand::SetTime { year, month, day, hour, minute, second }));
                self.needs_redraw = true;
            },
            Action::StartBuzz { on_ms, off_ms } => {
                self.buzz = Some(BuzzPattern::start(on_ms as u64, off_ms as u64, self.last_activity));
                emit(out, Effect::MotorOn);
            },
            Action::StopBuzz => {
                self.buzz = None;
                emit(out, Effect::MotorOff);
                self.needs_redraw = true;
            },
            Action::DismissAlarm => {
                self.buzz = None;
                emit(out, Effect::MotorOff);
                self.go_back();
            },
            Action::SnoozeAlarm => {
                self.buzz = None;
                emit(out, Effect::MotorOff);
                self.cached_data.alarms.snoozed = true;
                let t = self.cached_data.time;
                let (hour, minute) = AlarmState::compute_snooze(t.hour, t.minute, SNOOZE_MINUTES);
                emit(out, Effect::RtcCommand(RtcCommand::SetAlarm { hour, minute, weekday: None }));
                self.go_back();
            },
            _ => {},
        }
    }

    /// Whether the clock reading `now` lies where [`Self::tick`] is
    /// defined: not before the last activity of an awake watch, nor before
    /// the start of the buzz pattern's current phase.
    pub fn can_tick(&self, now: u64) -> (r: bool)
        ensures
            r == ((!self.sleeping ==> now >= self.last_activity) && (self.buzz matches Some(p) ==> now
                >= p.spec_phase_start())),
    {
        let awake_ok = self.sleeping || now >= self.last_activity;
        let buzz_ok = match &self.buzz {
            Some(p) => now >= p.phase_start(),
            None => true,
        };
        awake_ok && buzz_ok
    }

    /// Time-driven advance at `now`: the buzz pattern's phase, then the
    /// dim timer, then the idle-sleep timer.
    pub fn tick(&mut self, now: u64) -> (r: Effects)
        requires
            !old(self).sleeping ==> now >= old(self).last_activity,
            old(self).buzz matches Some(p) ==> now >= p.spec_phase_start(),
        ensures
            (final(self)@, effect_items(r)) == spec_tick(old(self)@, now),
    {
        let mut out = effects_new();
        self.tick_buzz(now, &mut out);
        self.apply_dim_state(now, &mut out);
        self.check_idle_sleep(now, &mut out);
        out
    }

    fn tick_buzz(&mut self, now: u64, out: &mut Effects)
        requires
            effect_items(*old(out)) == Seq::<Effect>::empty(),
            old(self).buzz matches Some(p) ==> now >= p.spec_phase_start(),
        ensures
            (final(self)@, effect_items(*final(out))) == spec_tick_buzz(old(self)@, now),
            final(self).last_activity == old(self).last_activity,
            final(self).sleeping == old(self).sleeping,
    {
        match self.buzz {
            None => {},
            Some(mut pattern) => {
                let a = pattern.tick(now);
                self.buzz = Some(pattern);
                match a {
                    BuzzAction::Nothing => {},
                    BuzzAction::TurnOn => emit(out, Effect::MotorOn),
                    BuzzAction::TurnOff => emit(out, Effect::MotorOff),
                }
                proof {
                    assert(effect_items(*out) =~= spec_tick_buzz(old(self)@, now).1);
                }
            },
        }
    }

    fn apply_dim_state(&mut self, now: u64, out: &mut Effects)
        requires
            !old(self).sleeping ==> now >= old(self).last_activity,
        ensures
            (final(self)@, effect_items(*final(out))) == spec_apply_dim(old(self)@, now, effect_items(*old(out))),
    {
        if self.sleeping {
            return;
        }
        let idle = now - self.last_activity;
        let target = if idle / 1000 >= self.config.display.dim_timeout_s {
            DisplayState::Dim
        } else {
            DisplayState::Active
        };
        proof {
            lemma_seconds_threshold(idle, self.config.display.dim_timeout_s);
        }
        if target != self.display_state {
            emit(out, Effect::TransitionDisplay { from: self.display_state, to: target });
            self.display_state = target;
        }
    }

    fn check_idle_sleep(&mut self, now: u64, out: &mut Effects)
        requires
            !old(self).sleeping ==> now >= old(self).last_activity,
        ensures
            (final(self)@, effect_items(*final(out))) == spec_idle_sleep(old(self)@, now, effect_items(*old(out))),
    {
        if self.sleeping {
            return;
        }
        let idle = now - self.last_activity;
        proof {
            lemma_seconds_threshold(idle, self.config.display.off_timeout_s);
        }
        if idle / 1000 >= self.config.display.off_timeout_s {
            self.sleep(out);
        }
    }
}

/// A millisecond count reaches `secs` whole seconds exactly when its
/// whole-second part does.
proof fn lemma_seconds_threshold(ms: u64, secs: u64)
    ensures
        (ms / 1000 >= secs) <==> (ms >= secs * 1000),
{
    assert((ms / 1000 >= secs) <==> (ms >= secs * 1000)) by (nonlinear_arith);
}

// ---- Laws ----------------------------------------------------------------------------

/// Every event keeps the model's invariant: asleep exactly when the
/// display is off, navigation stack within its depth.
pub proof fn lemma_handle_event_keeps_wf(v: ModelView, event: SystemEvent, now: u64)
    requires
        spec_wf(v),
    ensures
        spec_wf(spec_handle_event(v, event, now).0),
{
    let (v1, o1) = spec_apply_snapshot(v, event, Seq::<Effect>::empty());
    crate::nav::lemma_push_bounded(v.nav, v.screen);
    assert(spec_wf(v1));
    crate::nav::lemma_push_bounded(v1.nav, v1.screen);
    if v1.sleeping && spec_is_wake_source(event) {
        let (v2, o2) = spec_wake(v1, now, o1);
        crate::nav::lemma_push_bounded(v2.nav, v2.screen);
    }
}

/// Every screen action keeps the model's invariant.
pub proof fn lemma_dispatch_keeps_wf(v: ModelView, action: Action, out: Seq<Effect>)
    requires
        spec_wf(v),
    ensures
        spec_wf(spec_dispatch(v, action, out).0),
{
    crate::nav::lemma_push_bounded(v.nav, v.screen);
}

/// Every tick keeps the model's invariant.
pub proof fn lemma_tick_keeps_wf(v: ModelView, now: u64)
    requires
        spec_wf(v),
    ensures
        spec_wf(spec_tick(v, now).0),
{
}

/// A fresh model satisfies the invariant.
pub proof fn lemma_initial_wf(data: SystemData, config: Config, now: u64)
    ensures
        spec_wf(spec_initial(data, config, now)),
{
}

/// A touch, tap, swipe or button press on a sleeping watch wakes it,
/// restarts the idle timer, announces the wake and turns the display
/// back on, and is consumed: it never reaches the screen.
pub proof fn lemma_user_activity_wakes(v: ModelView, event: SystemEvent, now: u64)
    requires
        spec_wf(v),
        v.sleeping,
        spec_is_user_activity(event),
    ensures
        ({
            let (v2, fx, forward) = spec_handle_event(v, event, now);
            &&& !v2.sleeping
            &&& v2.display_state == DisplayState::Active
            &&& v2.last_activity == now
            &&& v2.needs_redraw
            &&& !forward
            &&& fx == seq![
                Effect::BroadcastSleep(SleepState::Awake),
                Effect::TransitionDisplay { from: DisplayState::Off, to: DisplayState::Active },
            ]
        }),
{
    let (v1, o1) = spec_apply_snapshot(v, event, Seq::<Effect>::empty());
    assert(o1 == Seq::<Effect>::empty());
    let (v2, fx, forward) = spec_handle_event(v, event, now);
    assert(fx =~= seq![
        Effect::BroadcastSleep(SleepState::Awake),
        Effect::TransitionDisplay { from: DisplayState::Off, to: DisplayState::Active },
    ]);
}

/// The BOOT button on an awake watch is the "sleep now" shortcut: a
/// 100 ms haptic pulse first, then the sleep broadcast and the display
/// turned off; the press does not reach the screen.
pub proof fn lemma_boot_button_sleeps(v: ModelView, now: u64)
    requires
        spec_wf(v),
        !v.sleeping,
    ensures
        ({
            let (v2, fx, forward) = spec_handle_event(v, SystemEvent::BootButtonPressed, now);
            &&& v2.sleeping
            &&& v2.display_state == DisplayState::Off
            &&& v2.last_activity == now
            &&& !forward
            &&& fx == seq![
                Effect::MotorPulse { duration_ms: 100 },
                Effect::BroadcastSleep(SleepState::Sleeping),
                Effect::TransitionDisplay { from: v.display_state, to: DisplayState::Off },
            ]
        }),
{
    let (v2, fx, forward) = spec_handle_event(v, SystemEvent::BootButtonPressed, now);
    assert(fx =~= seq![
        Effect::MotorPulse { duration_ms: 100 },
        Effect::BroadcastSleep(SleepState::Sleeping),
        Effect::TransitionDisplay { from: v.display_state, to: DisplayState::Off },
    ]);
}

/// On a sleeping watch, the only events that reach the screen are an
/// alarm or a timer expiry, which wake the watch first.
pub proof fn lemma_sleeping_screen_sees_only_alarms(v: ModelView, event: SystemEvent, now: u64)
    requires
        spec_wf(v),
        v.sleeping,
        spec_handle_event(v, event, now).2,
    ensures
        event is AlarmFired || event is TimerExpired,
        !spec_handle_event(v, event, now).0.sleeping,
{
}

/// Going to sleep twice is the same as going to sleep once, and waking
/// twice the same as waking once.
pub proof fn lemma_sleep_wake_idempotent(v: ModelView, now: u64, out: Seq<Effect>, more: Seq<Effect>)
    ensures
        spec_sleep(spec_sleep(v, out).0, more) == (spec_sleep(v, out).0, more),
        spec_wake(spec_wake(v, now, out).0, now, more) == (spec_wake(v, now, out).0, more),
{
}

/// Once the idle time reaches the off timeout, a tick puts an awake
/// watch to sleep.
pub proof fn lemma_idle_timeout_sleeps(v: ModelView, now: u64)
    requires
        spec_wf(v),
        !v.sleeping,
        now >= v.last_activity,
        now - v.last_activity >= spec_sleep_after_ms(v.config),
    ensures
        spec_tick(v, now).0.sleeping,
        spec_tick(v, now).0.display_state == DisplayState::Off,
{
}

/// Between the dim and the off timeouts, a tick leaves an awake watch
/// awake with its display dimmed; before the dim timeout the display is
/// active.
pub proof fn lemma_idle_dims(v: ModelView, now: u64)
    requires
        spec_wf(v),
        !v.sleeping,
        now >= v.last_activity,
        now - v.last_activity < spec_sleep_after_ms(v.config),
    ensures
        !spec_tick(v, now).0.sleeping,
        now - v.last_activity >= spec_dim_after_ms(v.config) ==> spec_tick(v, now).0.display_state == DisplayState::Dim,
        now - v.last_activity < spec_dim_after_ms(v.config) ==> spec_tick(v, now).0.display_state == DisplayState::Active,
{
}

/// Back undoes a screen switch: after switching away from a screen
/// (other than Quick Access) with room on the stack, Back returns to it
/// with the stack as it was.
pub proof fn lemma_switch_then_back(v: ModelView, id: ScreenId, out: Seq<Effect>)
    requires
        v.screen != ScreenId::QuickAccess,
        v.nav.len() < NAV_STACK_DEPTH,
    ensures
        ({
            let (v1, o1) = spec_dispatch(v, Action::SwitchScreen(id), out);
            let (v2, o2) = spec_dispatch(v1, Action::Back, o1);
            &&& v1.screen == id
            &&& v2.screen == v.screen
            &&& v2.nav == v.nav
            &&& o2 == out
        }),
{
    crate::nav::lemma_push_pop_round_trip(v.nav, v.screen);
}

/// Snoozing silences the motor, marks the alarm snoozed, reprograms the
/// RTC ten minutes ahead on the clock (across midnight) and leaves the
/// alarm screen.
pub proof fn lemma_snooze(v: ModelView)
    requires
        v.data.time.hour < 24,
        v.data.time.minute < 60,
    ensures
        ({
            let (v1, fx) = spec_dispatch(v, Action::SnoozeAlarm, Seq::<Effect>::empty());
            &&& v1.buzz is None
            &&& v1.data.alarms.snoozed
            &&& v1.screen == spec_top_or_home(v.nav)
            &&& fx.len() == 2
            &&& fx[0] == Effect::MotorOff
            &&& fx[1] matches Effect::RtcCommand(RtcCommand::SetAlarm { hour, minute, weekday })
                && weekday is None
                && hour * 60 + minute == (v.data.time.hour * 60 + v.data.time.minute + SNOOZE_MINUTES) % 1440
        }),
{
    let t = v.data.time;
    let total = t.minute + SNOOZE_MINUTES;
    let a = total / 60;
    let b = total % 60;
    let h = (t.hour + a) % 24;
    assert(0 <= a <= 1);
    assert(h * 60 + b == (t.hour * 60 + t.minute + SNOOZE_MINUTES) % 1440) by (nonlinear_arith)
        requires
            0 <= t.hour < 24,
            0 <= t.minute < 60,
            total == t.minute + 10,
            a == total / 60,
            b == total % 60,
            h == (t.hour + a) % 24,
    ;
}

/// Every snapshot event stores its payload in the cached data, whatever
/// state the model is in: a power, motion or time reading becomes the
/// cached reading, a self-test result fills its test's slot, and a touch
/// press or release sets or clears the cached touch point.
pub proof fn lemma_snapshot_is_cached(v: ModelView, event: SystemEvent, now: u64)
    ensures
        ({
            let d = spec_handle_event(v, event, now).0.data;
            &&& event matches SystemEvent::PowerUpdated { data } ==> d.power == data
            &&& event matches SystemEvent::MotionUpdated { data } ==> d.motion == data
            &&& event matches SystemEvent::TimeUpdated { data } ==> d.time == data
            &&& event matches SystemEvent::SelfTestUpdated { id, result } ==> d.self_tests[
                if id == SelfTestId::ImuAccel { 0int } else { 1int }
            ] == result
            &&& event matches SystemEvent::TouchPressed { x, y } ==> d.touch.x == Some(x) && d.touch.y == Some(y)
            &&& event is TouchReleased ==> d.touch.x is None && d.touch.y is None
        }),
{
    let (v1, o1) = spec_apply_snapshot(v, event, Seq::<Effect>::empty());
    let d1 = v1.data;
    assert(event matches SystemEvent::PowerUpdated { data } ==> d1.power == data);
    assert(event matches SystemEvent::MotionUpdated { data } ==> d1.motion == data);
    assert(event matches SystemEvent::TimeUpdated { data } ==> d1.time == data);
    assert(event matches SystemEvent::SelfTestUpdated { id, result } ==> d1.self_tests[
        if id == SelfTestId::ImuAccel { 0int } else { 1int }
    ] == result);
    // Waking, sleeping, routing and the pull-down leave the cached data alone.
    let (v2, o2) = spec_wake(v1, now, o1);
    assert(v2.data == d1);
    let v3 = if spec_is_user_activity(event) { ModelView { last_activity: now, ..v1 } } else { v1 };
    assert(spec_route(v1, event, now, o1).0.data == d1) by {
        let (w, o) = spec_wake(v3, now, o1);
        assert(w.data == d1);
        let (z, oz) = spec_sleep(v3, spec_emit(o1, Effect::MotorPulse { duration_ms: 100 }));
        assert(z.data == d1);
    }
    assert(spec_route(v2, event, now, o2).0.data == d1) by {
        let v4 = if spec_is_user_activity(event) { ModelView { last_activity: now, ..v2 } } else { v2 };
        let (w, o) = spec_wake(v4, now, o2);
        assert(w.data == d1);
        let (z, oz) = spec_sleep(v4, spec_emit(o2, Effect::MotorPulse { duration_ms: 100 }));
        assert(z.data == d1);
    }
}

/// No effect in `fx` turns the motor on.
pub open spec fn spec_no_motor_on(fx: Seq<Effect>) -> bool {
    forall|i: int| 0 <= i < fx.len() ==> fx[i] != Effect::MotorOn
}

proof fn lemma_emit_no_motor_on(out: Seq<Effect>, e: Effect)
    requires
        spec_no_motor_on(out),
        e != Effect::MotorOn,
    ensures
        spec_no_motor_on(spec_emit(out, e)),
{
    assert forall|i: int| 0 <= i < spec_emit(out, e).len() implies spec_emit(out, e)[i] != Effect::MotorOn by {
        if i < out.len() {
            assert(spec_emit(out, e)[i] == out[i]);
        }
    }
}

/// Stopping the buzz, dismissing and snoozing an alarm all turn the
/// motor off and drop the buzz pattern, so no tick after them, at any
/// time, turns the motor on again (until a new buzz starts); the pattern
/// stays dropped across the tick. Dismissing also goes back one screen.
pub proof fn lemma_silencing_actions_end_buzz(v: ModelView, action: Action, out: Seq<Effect>, now: u64)
    requires
        action is StopBuzz || action is DismissAlarm || action is SnoozeAlarm,
        out.len() < MAX_EFFECTS_PER_CALL,
    ensures
        ({
            let (v1, fx) = spec_dispatch(v, action, out);
            let (v2, tx) = spec_tick(v1, now);
            &&& v1.buzz is None
            &&& fx.len() > out.len()
            &&& fx[out.len() as int] == Effect::MotorOff
            &&& v2.buzz is None
            &&& spec_no_motor_on(tx)
            &&& action is DismissAlarm ==> v1.screen == spec_top_or_home(v.nav) && v1.nav == spec_pop(v.nav)
        }),
{
    let (v1, fx) = spec_dispatch(v, action, out);
    assert(v1.buzz is None);
    let (b1, bo) = spec_tick_buzz(v1, now);
    assert(b1 == v1);
    assert(spec_no_motor_on(bo));
    let (d1, dox) = spec_apply_dim(b1, now, bo);
    if !b1.sleeping {
        let target = if now - b1.last_activity >= spec_dim_after_ms(b1.config) {
            DisplayState::Dim
        } else {
            DisplayState::Active
        };
        lemma_emit_no_motor_on(bo, Effect::TransitionDisplay { from: b1.display_state, to: target });
    }
    assert(spec_no_motor_on(dox));
    assert(d1.buzz is None);
    if !d1.sleeping {
        let o1 = spec_emit(dox, Effect::BroadcastSleep(SleepState::Sleeping));
        lemma_emit_no_motor_on(dox, Effect::BroadcastSleep(SleepState::Sleeping));
        lemma_emit_no_motor_on(o1, Effect::TransitionDisplay { from: d1.display_state, to: DisplayState::Off });
    }
}

/// Timer expiry resets the cached timer to an idle zero duration and
/// brings up the timer screen; a fired alarm brings up the alarm screen.
/// Either way the screen that was showing is pushed for the way back
/// (unless it already was that screen), whether the model was awake or
/// asleep.
pub proof fn lemma_expiry_brings_up_screen(v: ModelView, event: SystemEvent, now: u64)
    requires
        event is TimerExpired || event is AlarmFired,
    ensures
        ({
            let r = spec_handle_event(v, event, now).0;
            let id = if event is TimerExpired { ScreenId::Timer } else { ScreenId::Alarm };
            &&& r.screen == id
            &&& r.nav == (if v.screen != id { spec_push(v.nav, v.screen) } else { v.nav })
            &&& event is TimerExpired ==> r.data.timer == TimerState::Idle { duration_ms: 0 }
            &&& r.needs_redraw
        }),
{
}

/// The RTC and IMU requests of a screen are forwarded with their payload
/// unchanged, as one effect after those already collected, and touch
/// neither the cached data, the screen, the navigation stack nor the
/// buzz pattern. Starting a buzz turns the motor on and holds a pattern.
pub proof fn lemma_commands_forward_payload(v: ModelView, action: Action, out: Seq<Effect>)
    requires
        out.len() < MAX_EFFECTS_PER_CALL,
    ensures
        ({
            let (v1, fx) = spec_dispatch(v, action, out);
            &&& action matches Action::StartTimer { seconds } ==> fx == out.push(
                Effect::RtcCommand(RtcCommand::StartTimer { seconds }),
            )
            &&& action is CancelTimer ==> fx == out.push(Effect::RtcCommand(RtcCommand::CancelTimer))
            &&& action matches Action::SetAlarm { hour, minute, weekday } ==> fx == out.push(
                Effect::RtcCommand(RtcCommand::SetAlarm { hour, minute, weekday }),
            )
            &&& action is CancelAlarm ==> fx == out.push(Effect::RtcCommand(RtcCommand::CancelAlarm))
            &&& action matches Action::SetTime { year, month, day, hour, minute, second } ==> fx == out.push(
                Effect::RtcCommand(RtcCommand::SetTime { year, month, day, hour, minute, second }),
            )
            &&& action matches Action::RunSelfTest(id) ==> fx == out.push(
                Effect::ImuCommand(ImuCommand::RunSelfTest(id)),
            )
            &&& (action is StartTimer || action is CancelTimer || action is SetAlarm || action is CancelAlarm
                || action is SetTime || action is RunSelfTest) ==> {
                &&& v1.data == v.data
                &&& v1.screen == v.screen
                &&& v1.nav == v.nav
                &&& v1.buzz == v.buzz
            }
            &&& action is StartBuzz ==> v1.buzz is Some && fx == out.push(Effect::MotorOn)
        }),
{
}

/// Switching screens shows the new screen afresh and pushes the one that
/// was showing (Quick Access excepted, as an overlay it is not returned
/// to); going back shows what the stack's top names (the watch face when
/// empty) and pops it.
pub proof fn lemma_switch_and_back(v: ModelView, action: Action, out: Seq<Effect>)
    ensures
        ({
            let (v1, fx) = spec_dispatch(v, action, out);
            &&& action matches Action::SwitchScreen(id) ==> {
                &&& v1.screen == id
                &&& v1.remount
                &&& v1.nav == (if v.screen != ScreenId::QuickAccess { spec_push(v.nav, v.screen) } else { v.nav })
                &&& fx == out
            }
            &&& action is Back ==> {
                &&& v1.screen == spec_top_or_home(v.nav)
                &&& v1.remount
                &&& v1.nav == spec_pop(v.nav)
                &&& fx == out
            }
        }),
{
}

} // verus!
