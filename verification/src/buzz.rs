//! Buzz-pattern state machine: a repeating on/off cycle with independent
//! durations. Time is given in milliseconds since boot on every tick.

use vstd::prelude::*;

verus! {

/// What the caller should do to the motor hardware right now.
#[derive(Debug, Clone, Copy, PartialEq, Eq, Structural)]
pub enum BuzzAction {
    /// Leave the motor in its current state.
    Nothing,
    /// Drive the motor on (start of an "on" phase).
    TurnOn,
    /// Drive the motor off (start of an "off" phase).
    TurnOff,
}

/// Active buzz pattern state.
#[derive(Debug, Clone, Copy)]
pub struct BuzzPattern {
    on_ms: u64,
    off_ms: u64,
    /// When the current phase (on or off) started.
    phase_start: u64,
    /// True when the motor is currently on.
    motor_on: bool,
}

impl BuzzPattern {
    pub closed spec fn spec_on_ms(&self) -> u64 {
        self.on_ms
    }

    pub closed spec fn spec_off_ms(&self) -> u64 {
        self.off_ms
    }

    /// When the current phase started.
    pub closed spec fn spec_phase_start(&self) -> u64 {
        self.phase_start
    }

    /// Whether the motor is in its "on" phase.
    pub closed spec fn spec_motor_on(&self) -> bool {
        self.motor_on
    }

    /// A pattern that has just started its "on" phase at `now`.
    pub closed spec fn spec_started(on_ms: u64, off_ms: u64, now: u64) -> BuzzPattern {
        BuzzPattern { on_ms, off_ms, phase_start: now, motor_on: true }
    }

    /// The pattern and motor command after a tick at `now`.
    pub closed spec fn spec_ticked(self, now: u64) -> (BuzzPattern, BuzzAction) {
        let duration = if self.motor_on { self.on_ms } else { self.off_ms };
        if now - self.phase_start < duration {
            (self, BuzzAction::Nothing)
        } else {
            let p = BuzzPattern { motor_on: !self.motor_on, phase_start: now, ..self };
            (p, if p.motor_on { BuzzAction::TurnOn } else { BuzzAction::TurnOff })
        }
    }

    /// Length of the current phase.
    pub open spec fn spec_phase_duration(&self) -> u64 {
        if self.spec_motor_on() { self.spec_on_ms() } else { self.spec_off_ms() }
    }

    /// When the current phase started.
    pub fn phase_start(&self) -> (t: u64)
        ensures
            t == self.spec_phase_start(),
    {
        self.phase_start
    }

    /// Start a new pattern in the "on" phase at `now` (the caller drives
    /// the motor on immediately).
    pub fn start(on_ms: u64, off_ms: u64, now: u64) -> (p: Self)
        ensures
            p.spec_on_ms() == on_ms,
            p.spec_off_ms() == off_ms,
            p.spec_phase_start() == now,
            p.spec_motor_on(),
            p == BuzzPattern::spec_started(on_ms, off_ms, now),
    {
        BuzzPattern { on_ms, off_ms, phase_start: now, motor_on: true }
    }

    /// Advance the state machine. If the current phase has elapsed, flip
    /// the phase, restart it at `now` and say which way to drive the
    /// motor; otherwise do nothing.
    pub fn tick(&mut self, now: u64) -> (a: BuzzAction)
        requires
            now >= old(self).spec_phase_start(),
        ensures
            final(self).spec_on_ms() == old(self).spec_on_ms(),
            final(self).spec_off_ms() == old(self).spec_off_ms(),
            now - old(self).spec_phase_start() < old(self).spec_phase_duration() ==> {
                &&& a == BuzzAction::Nothing
                &&& final(self).spec_motor_on() == old(self).spec_motor_on()
                &&& final(self).spec_phase_start() == old(self).spec_phase_start()
            },
            now - old(self).spec_phase_start() >= old(self).spec_phase_duration() ==> {
                &&& final(self).spec_motor_on() == !old(self).spec_motor_on()
                &&& final(self).spec_phase_start() == now
                &&& a == (if final(self).spec_motor_on() { BuzzAction::TurnOn } else { BuzzAction::TurnOff })
            },
            (*final(self), a) == old(self).spec_ticked(now),
    {
        let elapsed_ms = now - self.phase_start;
        let phase_duration = if self.motor_on { self.on_ms } else { self.off_ms };
        if elapsed_ms < phase_duration {
            return BuzzAction::Nothing;
        }
        self.motor_on = !self.motor_on;
        self.phase_start = now;
        if self.motor_on {
            BuzzAction::TurnOn
        } else {
            BuzzAction::TurnOff
        }
    }
}

/// The motor is never toggled twice at one instant: right after a phase
/// flip at `t`, ticking again at `t` does nothing, as long as the new
/// phase has a non-zero length.
pub proof fn lemma_no_double_toggle(p: BuzzPattern, t: u64)
    requires
        t >= p.spec_phase_start(),
    ensures
        ({
            let (p1, a1) = p.spec_ticked(t);
            a1 != BuzzAction::Nothing && p1.spec_phase_duration() > 0 ==> p1.spec_ticked(t).1 == BuzzAction::Nothing
        }),
{
}

/// Phases alternate: a flip turns the motor on exactly when it was off,
/// and keeps both phase lengths.
pub proof fn lemma_phases_alternate(p: BuzzPattern, t: u64)
    requires
        t >= p.spec_phase_start(),
    ensures
        ({
            let (p1, a1) = p.spec_ticked(t);
            &&& p1.spec_on_ms() == p.spec_on_ms()
            &&& p1.spec_off_ms() == p.spec_off_ms()
            &&& a1 == BuzzAction::TurnOn <==> (a1 != BuzzAction::Nothing && !p.spec_motor_on())
            &&& a1 == BuzzAction::TurnOff <==> (a1 != BuzzAction::Nothing && p.spec_motor_on())
        }),
{
}

} // verus!
