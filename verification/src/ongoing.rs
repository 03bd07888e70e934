//! The axis lock of a continuous scroll gesture.
//!
//! A trackpad reports every movement on both axes at once. While a gesture
//! lasts, the filter keeps the scroll on the axis the gesture began on, and
//! lets go of it only when a strong movement across that axis arrives.
//!
//! Times are readings of a monotonic clock in nanoseconds, handed in by the
//! host.

use vstd::prelude::*;
use crate::geometry::{magnitude, size_of_length, Vector2};

verus! {

/// Two scroll events further apart than this many nanoseconds belong to
/// different gestures.
pub const SCROLL_EVENT_SEPARATION: u64 = 28_000_000;

/// A locked gesture is held to its axis while the larger component of the
/// delta stays under this length: six whole units.
pub const UNLOCK_LOWER_BOUND: u64 = 393_216;

/// The movement across the locked axis unlocks the gesture when it reaches
/// this many hundredths of the movement along it.
pub const UNLOCK_PERCENT: u64 = 190;

/// One of the two directions in which a view scrolls.
#[derive(Clone, Copy, Debug, PartialEq, Eq, Structural)]
pub enum Axis {
    Vertical,
    Horizontal,
}

/// The state of the gesture in progress: when its last event arrived and the
/// axis it is held to, if any.
#[derive(Clone, Copy, Debug, PartialEq, Eq)]
pub struct OngoingScroll {
    pub last_event: u64,
    pub axis: Option<Axis>,
}

/// Whether a movement of size `across` overpowers one of size `along`: it is
/// the larger of the two and at least `UNLOCK_PERCENT` hundredths of it.
pub open spec fn overpowers(across: nat, along: nat) -> bool {
    across > along && 100 * across >= UNLOCK_PERCENT * along
}

/// The delta with the component across the locked axis set to zero. Without
/// a lock both components pass.
pub open spec fn restricted(axis: Option<Axis>, delta: Vector2) -> Vector2 {
    match axis {
        Some(Axis::Vertical) => Vector2 { x: 0, y: delta.y },
        Some(Axis::Horizontal) => Vector2 { x: delta.x, y: 0 },
        None => delta,
    }
}

impl OngoingScroll {
    /// The state before any event, at clock reading `now`: no axis is locked,
    /// and the last event is dated one separation back, or to the clock's
    /// origin where the clock has not run that long.
    pub open spec fn spec_new(now: u64) -> OngoingScroll {
        OngoingScroll {
            last_event: if now >= SCROLL_EVENT_SEPARATION {
                (now - SCROLL_EVENT_SEPARATION) as u64
            } else {
                0
            },
            axis: None,
        }
    }

    /// The time from the last event to `now`; none if `now` lies before it.
    pub open spec fn elapsed(self, now: u64) -> nat {
        if now >= self.last_event {
            (now - self.last_event) as nat
        } else {
            0
        }
    }

    /// Whether an event at `now` begins a new gesture.
    pub open spec fn begins_gesture(self, now: u64) -> bool {
        self.elapsed(now) > SCROLL_EVENT_SEPARATION
    }

    /// The axis that an event at `now` with this delta is held to.
    ///
    /// A new gesture locks the axis with the larger movement, the vertical
    /// one when both are equal. Within a gesture the lock stays, unless the
    /// delta is at least `UNLOCK_LOWER_BOUND` long on one axis and its
    /// movement across the locked axis overpowers the movement along it:
    /// then the lock is given up. A gesture without a lock stays without.
    pub open spec fn next_axis(self, now: u64, delta: Vector2) -> Option<Axis> {
        let x = magnitude(delta.x);
        let y = magnitude(delta.y);
        if self.begins_gesture(now) {
            if x <= y {
                Some(Axis::Vertical)
            } else {
                Some(Axis::Horizontal)
            }
        } else if x >= UNLOCK_LOWER_BOUND || y >= UNLOCK_LOWER_BOUND {
            match self.axis {
                Some(Axis::Vertical) => if overpowers(x, y) {
                    None
                } else {
                    self.axis
                },
                Some(Axis::Horizontal) => if overpowers(y, x) {
                    None
                } else {
                    self.axis
                },
                None => None,
            }
        } else {
            self.axis
        }
    }

    #[verifier::when_used_as_spec(spec_new)]
    pub fn new(now: u64) -> (ongoing: OngoingScroll)
        ensures
            ongoing == OngoingScroll::spec_new(now),
    {
        OngoingScroll { last_event: now.saturating_sub(SCROLL_EVENT_SEPARATION), axis: None }
    }

    /// Decides the axis for an event that arrives at `now` and clears the
    /// other component of its delta. The state itself is left as it is: the
    /// caller records the outcome once it has applied the delta.
    pub fn filter(&self, now: u64, delta: &mut Vector2) -> (axis: Option<Axis>)
        ensures
            axis == self.next_axis(now, *old(delta)),
            *final(delta) == restricted(axis, *old(delta)),
    {
        let x: u64 = size_of_length(delta.x);
        let y: u64 = size_of_length(delta.y);
        let elapsed: u64 = now.saturating_sub(self.last_event);
        let mut axis = self.axis;
        if elapsed > SCROLL_EVENT_SEPARATION {
            axis = if x <= y {
                Some(Axis::Vertical)
            } else {
                Some(Axis::Horizontal)
            };
        } else if x >= UNLOCK_LOWER_BOUND || y >= UNLOCK_LOWER_BOUND {
            match axis {
                Some(Axis::Vertical) => {
                    if exceeds(x, y) {
                        axis = None;
                    }
                },
                Some(Axis::Horizontal) => {
                    if exceeds(y, x) {
                        axis = None;
                    }
                },
                None => {},
            }
        }
        match axis {
            Some(Axis::Vertical) => {
                *delta = Vector2 { x: 0, y: delta.y };
            },
            Some(Axis::Horizontal) => {
                *delta = Vector2 { x: delta.x, y: 0 };
            },
            None => {},
        }
        axis
    }
}

/// Tests whether a movement of size `across` overpowers one of size `along`.
fn exceeds(across: u64, along: u64) -> (yes: bool)
    ensures
        yes == overpowers(across as nat, along as nat),
{
    assert(UNLOCK_PERCENT == 190);
    let scaled_across: u128 = (across as u128) * 100;
    let scaled_along: u128 = (along as u128) * 190;
    across > along && scaled_across >= scaled_along
}

/// An event that begins a gesture always locks an axis: the vertical one
/// unless the horizontal movement is the larger, whatever was locked before.
pub proof fn lemma_new_gesture_locks(ongoing: OngoingScroll, now: u64, delta: Vector2)
    requires
        ongoing.begins_gesture(now),
    ensures
        ongoing.next_axis(now, delta) == (if magnitude(delta.x) <= magnitude(delta.y) {
            Some(Axis::Vertical)
        } else {
            Some(Axis::Horizontal)
        }),
{
}

/// Within a gesture a lock is never moved to the other axis, and a gesture
/// without a lock gets none: the axis stays or is given up.
pub proof fn lemma_lock_stays_or_goes(ongoing: OngoingScroll, now: u64, delta: Vector2)
    requires
        !ongoing.begins_gesture(now),
    ensures
        ongoing.next_axis(now, delta) == ongoing.axis || ongoing.next_axis(now, delta) is None,
        magnitude(delta.x) < UNLOCK_LOWER_BOUND && magnitude(delta.y) < UNLOCK_LOWER_BOUND
            ==> ongoing.next_axis(now, delta) == ongoing.axis,
{
}

/// A delta that is held to an axis moves along that axis only, and by as
/// much as before; a delta that is not held passes as it is.
pub proof fn lemma_restricted_delta(axis: Option<Axis>, delta: Vector2)
    ensures
        axis == Some(Axis::Vertical) ==> restricted(axis, delta).x == 0 && restricted(axis, delta).y
            == delta.y,
        axis == Some(Axis::Horizontal) ==> restricted(axis, delta).y == 0 && restricted(
            axis,
            delta,
        ).x == delta.x,
        axis is None ==> restricted(axis, delta) == delta,
{
}

} // verus!
