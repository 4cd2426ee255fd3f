use vstd::prelude::*;

verus! {

/// The four ordinal directions.
#[derive(Copy, Clone, PartialEq, Eq, Debug, Structural)]
pub enum Direction {
    Up,
    Down,
    Left,
    Right,
}

/// The direction reached by a quarter turn clockwise.
pub open spec fn right_of(d: Direction) -> Direction {
    match d {
        Direction::Up => Direction::Right,
        Direction::Right => Direction::Down,
        Direction::Down => Direction::Left,
        Direction::Left => Direction::Up,
    }
}

/// The direction reached by a quarter turn anticlockwise.
pub open spec fn left_of(d: Direction) -> Direction {
    right_of(right_of(right_of(d)))
}

/// The direction reached by a half turn.
pub open spec fn opposite_of(d: Direction) -> Direction {
    right_of(right_of(d))
}

impl Direction {
    /// Rotates a direction to the right.
    pub fn turn_right(self) -> (r: Direction)
        ensures
            r == right_of(self),
    {
        match self {
            Direction::Up => Direction::Right,
            Direction::Down => Direction::Left,
            Direction::Left => Direction::Up,
            Direction::Right => Direction::Down,
        }
    }

    /// Rotates a direction to the left.
    pub fn turn_left(self) -> (r: Direction)
        ensures
            r == left_of(self),
    {
        match self {
            Direction::Up => Direction::Left,
            Direction::Down => Direction::Right,
            Direction::Left => Direction::Down,
            Direction::Right => Direction::Up,
        }
    }

    /// Rotates a direction by 180 degrees.
    pub fn turn_around(self) -> (r: Direction)
        ensures
            r == opposite_of(self),
    {
        match self {
            Direction::Up => Direction::Down,
            Direction::Down => Direction::Up,
            Direction::Left => Direction::Right,
            Direction::Right => Direction::Left,
        }
    }
}

/// The turns form a cyclic group of order four: a left turn undoes a right
/// turn, two half turns cancel, and four right turns come back to the start.
pub proof fn lemma_turns_form_a_cycle(d: Direction)
    ensures
        left_of(right_of(d)) == d,
        right_of(left_of(d)) == d,
        opposite_of(opposite_of(d)) == d,
        right_of(right_of(right_of(right_of(d)))) == d,
        opposite_of(d) != d,
        right_of(d) != d,
        left_of(d) != d,
{
}

} // verus!
