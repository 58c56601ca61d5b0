//! Decisions that the driving rules take from guidance-field intensities:
//! how an AI car steers and throttles, and when friction grows because a car
//! has left the track.
use vstd::prelude::*;

verus! {

/// How much brighter one whisker of a pair must read than the other before an
/// AI car turns towards it.
pub const STEER_MARGIN: i32 = 10;

/// Intensity that the forward whisker must exceed for an AI car to accelerate.
pub const THROTTLE_THRESHOLD: i32 = 50;

/// Intensity below which a car counts as off the track and gets extra drag.
pub const OFF_TRACK_THRESHOLD: i32 = 140;

/// Guidance-field intensities read by the five whiskers of an AI car.
#[derive(Clone, Copy, Debug, PartialEq, Eq, Structural)]
pub struct Whiskers {
    /// Far whisker turned left of the heading.
    pub left_far: i32,
    /// Far whisker turned right of the heading.
    pub right_far: i32,
    /// Near whisker turned further left of the heading.
    pub left_near: i32,
    /// Near whisker turned further right of the heading.
    pub right_near: i32,
    /// Whisker straight ahead.
    pub front: i32,
}

/// What a controller asks of a car for one tick.
#[derive(Clone, Copy, Debug, PartialEq, Eq, Structural)]
pub struct Controls {
    /// Turn counter-clockwise.
    pub turn_left: bool,
    /// Turn clockwise.
    pub turn_right: bool,
    /// Accelerate along the heading.
    pub accelerate: bool,
}

/// Net direction of turn: 1 to the left, -1 to the right, 0 when both or
/// neither are asked for.
pub open spec fn turn_spec(c: Controls) -> int {
    (if c.turn_left {
        1int
    } else {
        0
    }) - (if c.turn_right {
        1int
    } else {
        0
    })
}

/// `a` reads brighter than `b` by more than the steering margin.
pub open spec fn brighter(a: i32, b: i32) -> bool {
    a - STEER_MARGIN > b
}

/// What the whisker-following controller does with the readings `w`.
pub open spec fn ai_controls_spec(w: Whiskers) -> Controls {
    Controls {
        turn_left: brighter(w.left_far, w.right_far) || brighter(w.left_near, w.right_near),
        turn_right: brighter(w.right_far, w.left_far) || brighter(w.right_near, w.left_near),
        accelerate: w.front > THROTTLE_THRESHOLD,
    }
}

/// The readings `w` with left and right exchanged.
pub open spec fn mirrored(w: Whiskers) -> Whiskers {
    Whiskers {
        left_far: w.right_far,
        right_far: w.left_far,
        left_near: w.right_near,
        right_near: w.left_near,
        front: w.front,
    }
}

impl Controls {
    /// Net direction of turn: 1 to the left, -1 to the right, 0 otherwise.
    pub fn turn(&self) -> (r: i32)
        ensures
            r == turn_spec(*self),
    {
        let left: i32 = if self.turn_left {
            1
        } else {
            0
        };
        let right: i32 = if self.turn_right {
            1
        } else {
            0
        };
        left - right
    }
}

fn is_brighter(a: i32, b: i32) -> (r: bool)
    ensures
        r == brighter(a, b),
{
    (a as i64) - (STEER_MARGIN as i64) > b as i64
}

/// The whisker-following controller: turn towards the side whose whisker
/// reads brighter than its mirror image by more than [`STEER_MARGIN`], in
/// either pair, and accelerate while the forward whisker reads above
/// [`THROTTLE_THRESHOLD`].
pub fn ai_controls(w: &Whiskers) -> (r: Controls)
    ensures
        r == ai_controls_spec(*w),
{
    Controls {
        turn_left: is_brighter(w.left_far, w.right_far) || is_brighter(w.left_near, w.right_near),
        turn_right: is_brighter(w.right_far, w.left_far) || is_brighter(
            w.right_near,
            w.left_near,
        ),
        accelerate: w.front > THROTTLE_THRESHOLD,
    }
}

/// The whisker-following controller is symmetric: exchanging what the left
/// and right whiskers read reverses the direction of turn and leaves the
/// throttle alone.
pub proof fn lemma_ai_controls_mirror(w: Whiskers)
    ensures
        turn_spec(ai_controls_spec(mirrored(w))) == -turn_spec(ai_controls_spec(w)),
        ai_controls_spec(mirrored(w)).accelerate == ai_controls_spec(w).accelerate,
{
}

/// How far `intensity` falls short of the off-track threshold; `None` on
/// the track, where no extra drag applies.
pub open spec fn off_track_shortfall_spec(intensity: i32) -> Option<u32> {
    if intensity < OFF_TRACK_THRESHOLD {
        Some((OFF_TRACK_THRESHOLD - intensity) as u32)
    } else {
        None
    }
}

/// The off-track friction rule: below [`OFF_TRACK_THRESHOLD`] a car gets
/// extra drag that grows linearly as the intensity falls, and this returns
/// by how much the intensity falls short of the threshold (the extra drag
/// factor is `1.2 + 1.2 * shortfall / 140`). `None` on the track.
pub fn off_track_shortfall(intensity: i32) -> (r: Option<u32>)
    ensures
        r == off_track_shortfall_spec(intensity),
        r matches Some(s) ==> 0 < s,
{
    if intensity < OFF_TRACK_THRESHOLD {
        Some(((OFF_TRACK_THRESHOLD as i64) - (intensity as i64)) as u32)
    } else {
        None
    }
}

} // verus!
