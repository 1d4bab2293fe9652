//! Traffic light state management and timing logic.

use vstd::prelude::*;
use crate::geometry::Direction;

verus! {

/// Default phase lengths in milliseconds.
pub const DEFAULT_GREEN_DURATION: u64 = 8000;
pub const DEFAULT_YELLOW_DURATION: u64 = 2000;
pub const DEFAULT_RED_DURATION: u64 = 10000;

/// Traffic light states.
#[derive(Debug, Clone, Copy, PartialEq, Eq, Structural)]
pub enum LightState {
    Red,
    Yellow,
    Green,
}

impl LightState {
    /// Get the color code for terminal display.
    pub fn color_code(&self) -> (r: &'static str)
        ensures
            self is Red ==> r@ == "\x1b[31m\u{25cf}\x1b[0m"@,
            self is Yellow ==> r@ == "\x1b[33m\u{25cf}\x1b[0m"@,
            self is Green ==> r@ == "\x1b[32m\u{25cf}\x1b[0m"@,
    {
        match self {
            LightState::Red => "\x1b[31m\u{25cf}\x1b[0m",
            LightState::Yellow => "\x1b[33m\u{25cf}\x1b[0m",
            LightState::Green => "\x1b[32m\u{25cf}\x1b[0m",
        }
    }

    /// Vehicles may proceed only on green.
    pub open spec fn spec_can_proceed(self) -> bool {
        self is Green
    }

    /// Check if vehicles can proceed through this light.
    pub fn can_proceed(&self) -> (r: bool)
        ensures
            r == self.spec_can_proceed(),
    {
        matches!(self, LightState::Green)
    }

    /// The next state of the cycle Green -> Yellow -> Red -> Green.
    pub open spec fn spec_next(self) -> LightState {
        match self {
            LightState::Green => LightState::Yellow,
            LightState::Yellow => LightState::Red,
            LightState::Red => LightState::Green,
        }
    }
}

/// Traffic light controller for a single direction.
///
/// `time_in_state` accumulates the simulation milliseconds spent in the
/// current state; it is reset whenever the state advances. While
/// `emergency_override` holds, the state is forced red and the timer does not
/// advance.
#[derive(Debug, Clone)]
pub struct TrafficLight {
    pub direction: Direction,
    pub state: LightState,
    pub time_in_state: u64,
    pub green_duration: u64,
    pub yellow_duration: u64,
    pub red_duration: u64,
    pub emergency_override: bool,
}

impl TrafficLight {
    /// An overridden light always shows red.
    pub open spec fn wf(self) -> bool {
        self.emergency_override ==> self.state is Red
    }

    /// The configured length of the current state's phase.
    pub open spec fn spec_duration_for(self) -> u64 {
        match self.state {
            LightState::Green => self.green_duration,
            LightState::Yellow => self.yellow_duration,
            LightState::Red => self.red_duration,
        }
    }

    /// A light should advance once its phase has elapsed, unless overridden.
    pub open spec fn spec_should_change(self) -> bool {
        !self.emergency_override && self.time_in_state >= self.spec_duration_for()
    }

    /// The light after one `update(dt_ms)` call.
    pub open spec fn spec_update(self, dt_ms: u64) -> TrafficLight {
        if self.emergency_override {
            TrafficLight { state: LightState::Red, ..self }
        } else {
            let t = self.time_in_state.saturating_add(dt_ms);
            if t >= self.spec_duration_for() {
                TrafficLight { state: self.state.spec_next(), time_in_state: 0, ..self }
            } else {
                TrafficLight { time_in_state: t, ..self }
            }
        }
    }

    /// Create a new traffic light, red with default durations.
    pub fn new(direction: Direction) -> (r: Self)
        ensures
            r.direction == direction,
            r.state is Red,
            r.time_in_state == 0,
            r.green_duration == DEFAULT_GREEN_DURATION,
            r.yellow_duration == DEFAULT_YELLOW_DURATION,
            r.red_duration == DEFAULT_RED_DURATION,
            !r.emergency_override,
            r.wf(),
    {
        Self {
            direction,
            state: LightState::Red,
            time_in_state: 0,
            green_duration: DEFAULT_GREEN_DURATION,
            yellow_duration: DEFAULT_YELLOW_DURATION,
            red_duration: DEFAULT_RED_DURATION,
            emergency_override: false,
        }
    }

    /// Advance the timer by `dt_ms` of simulation time and change state once
    /// the current phase has elapsed. While overridden, force red and leave
    /// the timer untouched.
    pub fn update(&mut self, dt_ms: u64)
        ensures
            *final(self) == old(self).spec_update(dt_ms),
            old(self).wf() ==> final(self).wf(),
    {
        if self.emergency_override {
            self.state = LightState::Red;
            return;
        }

        self.time_in_state = self.time_in_state.saturating_add(dt_ms);
        let should_change = match self.state {
            LightState::Green => self.time_in_state >= self.green_duration,
            LightState::Yellow => self.time_in_state >= self.yellow_duration,
            LightState::Red => self.time_in_state >= self.red_duration,
        };

        if should_change {
            self.advance_state();
            self.time_in_state = 0;
        }
    }

    /// Check if the light should change state. Reports false while the
    /// emergency override is active, regardless of elapsed time.
    pub fn should_change(&self) -> (r: bool)
        ensures
            r == self.spec_should_change(),
            self.emergency_override ==> !r,
    {
        if self.emergency_override {
            return false;
        }

        match self.state {
            LightState::Green => self.time_in_state >= self.green_duration,
            LightState::Yellow => self.time_in_state >= self.yellow_duration,
            LightState::Red => self.time_in_state >= self.red_duration,
        }
    }

    /// Advance to the next light state.
    fn advance_state(&mut self)
        ensures
            final(self).state == old(self).state.spec_next(),
            *final(self) == (TrafficLight { state: old(self).state.spec_next(), ..*old(self) }),
    {
        self.state = match self.state {
            LightState::Green => LightState::Yellow,
            LightState::Yellow => LightState::Red,
            LightState::Red => LightState::Green,
        };
    }

    /// Set emergency override. Activating snaps the light to red and resets
    /// its timer; releasing resumes normal cycling from this moment.
    pub fn set_emergency_override(&mut self, active: bool)
        ensures
            final(self).emergency_override == active,
            active ==> final(self).state is Red && final(self).time_in_state == 0,
            !active ==> final(self).state == old(self).state && final(self).time_in_state == old(self).time_in_state,
            final(self).direction == old(self).direction,
            final(self).green_duration == old(self).green_duration,
            final(self).yellow_duration == old(self).yellow_duration,
            final(self).red_duration == old(self).red_duration,
            old(self).wf() ==> final(self).wf(),
    {
        self.emergency_override = active;
        if active {
            self.state = LightState::Red;
            self.time_in_state = 0;
        }
    }

    /// Milliseconds remaining in the current state's phase.
    pub fn time_remaining(&self) -> (r: u64)
        ensures
            r == self.spec_duration_for().saturating_sub(self.time_in_state),
    {
        let total_duration = match self.state {
            LightState::Green => self.green_duration,
            LightState::Yellow => self.yellow_duration,
            LightState::Red => self.red_duration,
        };

        total_duration.saturating_sub(self.time_in_state)
    }

    /// Check if this light conflicts with another direction.
    pub fn conflicts_with(&self, other_direction: Direction) -> (r: bool)
        ensures
            r == (other_direction == self.direction.spec_perpendicular().0
                || other_direction == self.direction.spec_perpendicular().1),
    {
        let (perp1, perp2) = self.direction.perpendicular();
        other_direction == perp1 || other_direction == perp2
    }
}

/// While the emergency override is set, a well-formed light is red, never
/// reports that it should change, and stays red through any update, no
/// matter how much time elapses.
pub proof fn lemma_override_forces_red(l: TrafficLight, dt_ms: u64)
    requires
        l.wf(),
        l.emergency_override,
    ensures
        l.state is Red,
        !l.spec_should_change(),
        l.spec_update(dt_ms).state is Red,
        l.spec_update(dt_ms).wf(),
{
}

} // verus!
