use vstd::prelude::*;
use crate::heading::{Heading, FULL_CIRCLE_CDEG};

verus! {

/// One of the four cardinal directions: the stateless classification output.
#[derive(Clone, Copy, PartialEq, Eq, Structural, Debug)]
pub enum Direction {
    North,
    East,
    South,
    West,
}

/// North bucket in centidegrees: [315, 360) together with [0, 45) degrees.
pub open spec fn north_range(c: int) -> bool {
    (31500 <= c < 36000) || (0 <= c < 4500)
}

/// East bucket in centidegrees: [45, 135) degrees.
pub open spec fn east_range(c: int) -> bool {
    4500 <= c < 13500
}

/// South bucket in centidegrees: [135, 225) degrees.
pub open spec fn south_range(c: int) -> bool {
    13500 <= c < 22500
}

/// West bucket in centidegrees: [225, 315) degrees.
pub open spec fn west_range(c: int) -> bool {
    22500 <= c < 31500
}

/// The cardinal bucket of a heading of `c` centidegrees. Each bucket is
/// closed at its lower bound and open at its upper bound, walking clockwise
/// from North, so 45 degrees exactly is East, not North.
pub open spec fn spec_classify(c: int) -> Direction {
    if east_range(c) {
        Direction::East
    } else if south_range(c) {
        Direction::South
    } else if west_range(c) {
        Direction::West
    } else {
        Direction::North
    }
}

/// The four cardinal buckets partition the full circle: every heading in
/// [0, 360) degrees falls in exactly one bucket, with no gap and no overlap,
/// and the classifier returns precisely the bucket the heading falls in.
pub proof fn lemma_classifier_partition(c: int)
    requires
        0 <= c < FULL_CIRCLE_CDEG,
    ensures
        north_range(c) || east_range(c) || south_range(c) || west_range(c),
        north_range(c) <==> spec_classify(c) == Direction::North,
        east_range(c) <==> spec_classify(c) == Direction::East,
        south_range(c) <==> spec_classify(c) == Direction::South,
        west_range(c) <==> spec_classify(c) == Direction::West,
        north_range(c) ==> !east_range(c) && !south_range(c) && !west_range(c),
        east_range(c) ==> !north_range(c) && !south_range(c) && !west_range(c),
        south_range(c) ==> !north_range(c) && !east_range(c) && !west_range(c),
        west_range(c) ==> !north_range(c) && !east_range(c) && !south_range(c),
{
}

/// Map a heading to the cardinal direction whose bucket contains it.
/// Total over every heading value: a heading is always in [0, 360).
pub fn classify(h: Heading) -> (d: Direction)
    ensures
        d == spec_classify(h@),
{
    let c = h.centidegrees();
    if c >= 31500 || c < 4500 {
        Direction::North
    } else if c < 13500 {
        Direction::East
    } else if c < 22500 {
        Direction::South
    } else {
        Direction::West
    }
}

/// The single-letter log form of a direction.
pub open spec fn spec_letter(d: Direction) -> char {
    match d {
        Direction::North => 'N',
        Direction::East => 'E',
        Direction::South => 'S',
        Direction::West => 'W',
    }
}

impl Direction {
    /// The letter this direction is logged as.
    pub fn letter(&self) -> (c: char)
        ensures
            c == spec_letter(*self),
    {
        match self {
            Direction::North => 'N',
            Direction::East => 'E',
            Direction::South => 'S',
            Direction::West => 'W',
        }
    }
}

} // verus!
