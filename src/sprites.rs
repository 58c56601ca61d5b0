//! What a map object becomes, decided from the name of its sprite image:
//! which collision shape it gets, and whether it is a car and the player's.
use vstd::prelude::*;

verus! {

/// `pat` occurs in `s` as a run of consecutive characters.
pub open spec fn has_substring(s: Seq<char>, pat: Seq<char>) -> bool {
    exists|i: int| 0 <= i && i + pat.len() <= s.len() && #[trigger] s.subrange(i, i + pat.len()) == pat
}

/// Relies on `str::contains` with a string pattern: true exactly when the
/// pattern matches a sub-slice of `s`.
#[verifier::external_body]
fn contains(s: &str, pat: &str) -> (r: bool)
    ensures
        r == has_substring(s@, pat@),
{
    s.contains(pat)
}

/// Collision shape of an object, relative to the size of its sprite.
#[derive(Clone, Copy, Debug, PartialEq, Eq, Structural)]
pub enum CollisionShape {
    /// A rectangle the size of the sprite.
    Rectangle,
    /// An octagon whose corners are cut; `percent` of the shorter half side
    /// is kept on each side.
    Rounded { percent: u32 },
}

/// How an object with a given sprite takes part in a race.
#[derive(Clone, Copy, Debug, PartialEq, Eq, Structural)]
pub struct SpriteClass {
    /// Collision shape.
    pub shape: CollisionShape,
    /// The shape covers half the sprite's size rather than all of it.
    pub half_size: bool,
    /// The object is a car, and races.
    pub is_car: bool,
    /// The object is the car that the human player drives.
    pub is_player: bool,
}

/// The class of a sprite whose image source is `src`: trees get a rounded
/// shape of half their size, tyres and cars rounded shapes of their full
/// size, anything else a plain rectangle; cars are named so, and the red
/// car is the player's.
pub open spec fn classify_spec(src: Seq<char>) -> SpriteClass {
    let is_car = has_substring(src, "car"@);
    let (shape, half_size) = if has_substring(src, "tree"@) {
        (CollisionShape::Rounded { percent: 40 }, true)
    } else if has_substring(src, "tires"@) {
        (CollisionShape::Rounded { percent: 40 }, false)
    } else if is_car {
        (CollisionShape::Rounded { percent: 60 }, false)
    } else {
        (CollisionShape::Rectangle, false)
    };
    SpriteClass { shape, half_size, is_car, is_player: is_car && has_substring(src, "red"@) }
}

/// Classifies a sprite by the name of its image source.
pub fn classify_sprite(src: &str) -> (r: SpriteClass)
    ensures
        r == classify_spec(src@),
{
    proof {
        reveal_strlit("car");
        reveal_strlit("tree");
        reveal_strlit("tires");
        reveal_strlit("red");
    }
    let is_car = contains(src, "car");
    let (shape, half_size) = if contains(src, "tree") {
        (CollisionShape::Rounded { percent: 40 }, true)
    } else if contains(src, "tires") {
        (CollisionShape::Rounded { percent: 40 }, false)
    } else if is_car {
        (CollisionShape::Rounded { percent: 60 }, false)
    } else {
        (CollisionShape::Rectangle, false)
    };
    let is_player = is_car && contains(src, "red");
    SpriteClass { shape, half_size, is_car, is_player }
}

} // verus!
