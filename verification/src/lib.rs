//! Verified core of a smartwatch firmware: the application state machine,
//! alarm scheduling, navigation, UI hit-testing geometry, and the register
//! arithmetic of the peripheral drivers.

pub mod commands;
pub mod config;
pub mod data;
pub mod events;
pub mod pmu;
pub mod rtc;
pub mod alarm;
pub mod ui_types;
pub mod buzz;
pub mod hvec;
pub mod nav;
pub mod layout;
pub mod widgets;
pub mod numpad;
pub mod model;
pub mod screens;
pub mod xl9555;
pub mod touch;
pub mod drv2605;
pub mod sdcard;
pub mod co5300;
pub mod text;
pub mod imu;
pub mod imu_task;

use vstd::prelude::*;

verus! {

/// Top-level application events produced by hardware tasks and consumed
/// by the app state machine.
#[derive(Debug, Clone, Copy, PartialEq, Eq, Structural)]
pub enum AppEvent {
    /// A touch point was registered at (x, y) in display coordinates.
    Touch { x: u16, y: u16 },
    /// The touch surface was released.
    TouchRelease,
    /// A timer tick at a regular interval (ms since boot).
    Tick(u64),
}

/// Top-level application state.
#[derive(Debug, Clone, Copy, PartialEq, Eq, Structural)]
pub struct AppState {
    pub tick_count: u64,
}

impl Default for AppState {
    fn default() -> (s: Self)
        ensures
            s.tick_count == 0,
    {
        AppState { tick_count: 0 }
    }
}

impl AppState {
    /// A state that has seen no ticks.
    pub fn new() -> (s: Self)
        ensures
            s.tick_count == 0,
    {
        AppState { tick_count: 0 }
    }

    /// Apply an event: a tick is counted, anything else leaves the state
    /// unchanged.
    pub fn update(&mut self, event: &AppEvent)
        requires
            event is Tick ==> old(self).tick_count < u64::MAX,
        ensures
            event is Tick ==> final(self).tick_count == old(self).tick_count + 1,
            !(event is Tick) ==> *final(self) == *old(self),
    {
        match event {
            AppEvent::Tick(_) => self.tick_count = self.tick_count + 1,
            _ => {},
        }
    }
}

} // verus!
