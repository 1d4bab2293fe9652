//! A minimal single-lane demonstration: one light, cars that advance one
//! cell per tick while allowed.

use vstd::prelude::*;

verus! {

/// A single traffic light state for the single-lane demonstration.
#[derive(Debug, Clone, Copy, PartialEq, Eq, Structural)]
pub enum TrafficLightState {
    Red,
    Yellow,
    Green,
}

impl TrafficLightState {
    /// The next state of the cycle Red -> Green -> Yellow -> Red.
    pub fn next(self) -> (r: Self)
        ensures
            r == (match self {
                TrafficLightState::Red => TrafficLightState::Green,
                TrafficLightState::Green => TrafficLightState::Yellow,
                TrafficLightState::Yellow => TrafficLightState::Red,
            }),
    {
        match self {
            TrafficLightState::Red => TrafficLightState::Green,
            TrafficLightState::Green => TrafficLightState::Yellow,
            TrafficLightState::Yellow => TrafficLightState::Red,
        }
    }
}

/// A car in the single-lane demonstration: its cell position and whether it
/// is currently stopped.
#[derive(Debug)]
pub struct Car {
    pub id: u32,
    pub position: usize,
    pub stopped: bool,
}

impl Car {
    pub fn new(id: u32) -> (r: Self)
        ensures
            r.id == id,
            r.position == 0,
            !r.stopped,
    {
        Self {
            id,
            position: 0,
            stopped: false,
        }
    }

    /// Advance one cell when allowed to move, otherwise stop in place. The
    /// position saturates at the end of the representable lane.
    pub fn update(&mut self, can_move: bool)
        ensures
            final(self).id == old(self).id,
            final(self).stopped == !can_move,
            can_move ==> final(self).position
                == (if old(self).position == usize::MAX { usize::MAX } else { (old(self).position + 1) as usize }),
            !can_move ==> final(self).position == old(self).position,
    {
        if can_move {
            self.stopped = false;
            if self.position < usize::MAX {
                self.position += 1;
            }
        } else {
            self.stopped = true;
        }
    }

    /// Render the car's state as text: the moving or stopped message with
    /// the position appended.
    pub fn render(&self) -> (r: String)
        ensures
            self.stopped ==> r@ == spec_formatted_with_count("\u{1f697} (stopped) at "@, self.position),
            !self.stopped ==> r@ == spec_formatted_with_count("\u{1f697} moving to "@, self.position),
            r@.len() >= (if self.stopped { "\u{1f697} (stopped) at "@.len() } else { "\u{1f697} moving to "@.len() }),
    {
        let message = if self.stopped {
            "\u{1f697} (stopped) at "
        } else {
            "\u{1f697} moving to "
        };
        format_with_count(message, self.position)
    }

    /// The lane glyph for this car: a parking sign while stopped, a car
    /// while moving.
    pub fn lane_symbol(&self) -> (r: &'static str)
        ensures
            self.stopped ==> r@ == "\u{1f17f}\u{fe0f}"@,
            !self.stopped ==> r@ == "\u{1f697}"@,
    {
        if self.stopped {
            "\u{1f17f}\u{fe0f}"
        } else {
            "\u{1f697}"
        }
    }

    /// Whether the car should stop for a yellow light: true within the last
    /// two cells of the lane.
    pub fn should_stop_for_yellow(&self, lane_length: usize) -> (r: bool)
        requires
            lane_length >= 2,
        ensures
            r == (self.position >= lane_length - 2),
    {
        self.position >= lane_length - 2
    }
}

/// The text `format!` produces for a prefix followed by a number: a
/// function of the two arguments alone.
pub uninterp spec fn spec_formatted_with_count(prefix: Seq<char>, count: usize) -> Seq<char>;

/// Relies on std's `format!`: writes the prefix and then the number's
/// decimal digits, so the result extends the prefix and depends on the
/// arguments alone.
#[verifier::external_body]
fn format_with_count(prefix: &str, count: usize) -> (r: String)
    ensures
        r@ == spec_formatted_with_count(prefix@, count),
        r@.len() >= prefix@.len(),
        r@.subrange(0, prefix@.len() as int) == prefix@,
{
    format!("{prefix}{count}")
}

} // verus!
