use vstd::prelude::*;

use crate::direction::Direction;

verus! {

/// An arrow a player can place, full or half strength, or no arrow.
#[derive(PartialEq, Eq, Clone, Copy, Debug, Structural)]
pub enum ArrowType {
    Empty,
    Up,
    UpHalf,
    Down,
    DownHalf,
    Left,
    LeftHalf,
    Right,
    RightHalf,
}

/// An arrow after an opposing cat has crossed it.
pub open spec fn arrow_diminished(a: ArrowType) -> ArrowType {
    match a {
        ArrowType::Up => ArrowType::UpHalf,
        ArrowType::Down => ArrowType::DownHalf,
        ArrowType::Left => ArrowType::LeftHalf,
        ArrowType::Right => ArrowType::RightHalf,
        _ => ArrowType::Empty,
    }
}

/// The direction an arrow points in; none for `Empty`.
pub open spec fn arrow_type_direction(a: ArrowType) -> Option<Direction> {
    match a {
        ArrowType::Up | ArrowType::UpHalf => Some(Direction::Up),
        ArrowType::Down | ArrowType::DownHalf => Some(Direction::Down),
        ArrowType::Left | ArrowType::LeftHalf => Some(Direction::Left),
        ArrowType::Right | ArrowType::RightHalf => Some(Direction::Right),
        ArrowType::Empty => None,
    }
}

impl ArrowType {
    /// Diminishes an arrow: full to half, half to empty; empty stays empty.
    pub fn diminish(self) -> (r: ArrowType)
        ensures
            r == arrow_diminished(self),
    {
        match self {
            ArrowType::Up => ArrowType::UpHalf,
            ArrowType::Down => ArrowType::DownHalf,
            ArrowType::Left => ArrowType::LeftHalf,
            ArrowType::Right => ArrowType::RightHalf,
            ArrowType::UpHalf | ArrowType::DownHalf | ArrowType::LeftHalf | ArrowType::RightHalf => {
                ArrowType::Empty
            },
            ArrowType::Empty => ArrowType::Empty,
        }
    }

    /// The direction of the arrow, or `None` for `Empty`.
    pub fn direction(self) -> (r: Option<Direction>)
        ensures
            r == arrow_type_direction(self),
    {
        match self {
            ArrowType::Up | ArrowType::UpHalf => Some(Direction::Up),
            ArrowType::Down | ArrowType::DownHalf => Some(Direction::Down),
            ArrowType::Left | ArrowType::LeftHalf => Some(Direction::Left),
            ArrowType::Right | ArrowType::RightHalf => Some(Direction::Right),
            ArrowType::Empty => None,
        }
    }
}

} // verus!
