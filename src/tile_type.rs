use vstd::prelude::*;

use crate::direction::Direction;

verus! {

/// What a grid cell holds besides walls and walkers.
#[derive(PartialEq, Eq, Clone, Copy, Debug, Structural)]
pub enum TileType {
    Empty,
    Rocket,
    Hole,
    Up,
    UpHalf,
    Down,
    DownHalf,
    Left,
    LeftHalf,
    Right,
    RightHalf,
}

/// A tile after an opposing cat has crossed it: a full arrow becomes a half
/// arrow, a half arrow disappears, anything else stays.
pub open spec fn diminished(t: TileType) -> TileType {
    match t {
        TileType::Up => TileType::UpHalf,
        TileType::Down => TileType::DownHalf,
        TileType::Left => TileType::LeftHalf,
        TileType::Right => TileType::RightHalf,
        TileType::UpHalf | TileType::DownHalf | TileType::LeftHalf | TileType::RightHalf => {
            TileType::Empty
        },
        _ => t,
    }
}

/// The direction an arrow tile points in, full or half; none for the others.
pub open spec fn arrow_direction_of(t: TileType) -> Option<Direction> {
    match t {
        TileType::Up | TileType::UpHalf => Some(Direction::Up),
        TileType::Down | TileType::DownHalf => Some(Direction::Down),
        TileType::Left | TileType::LeftHalf => Some(Direction::Left),
        TileType::Right | TileType::RightHalf => Some(Direction::Right),
        TileType::Empty | TileType::Rocket | TileType::Hole => None,
    }
}

impl TileType {
    /// Diminishes an arrow: full to half, half to empty. Other tiles are
    /// unaffected.
    pub fn diminish(self) -> (r: TileType)
        ensures
            r == diminished(self),
    {
        match self {
            TileType::Up => TileType::UpHalf,
            TileType::Down => TileType::DownHalf,
            TileType::Left => TileType::LeftHalf,
            TileType::Right => TileType::RightHalf,
            TileType::UpHalf | TileType::DownHalf | TileType::LeftHalf | TileType::RightHalf => {
                TileType::Empty
            },
            _ => self,
        }
    }

    /// The direction of an arrow tile, or `None` for an empty cell, a rocket
    /// or a hole.
    pub fn arrow_direction(self) -> (r: Option<Direction>)
        ensures
            r == arrow_direction_of(self),
    {
        match self {
            TileType::Up | TileType::UpHalf => Some(Direction::Up),
            TileType::Down | TileType::DownHalf => Some(Direction::Down),
            TileType::Left | TileType::LeftHalf => Some(Direction::Left),
            TileType::Right | TileType::RightHalf => Some(Direction::Right),
            TileType::Empty | TileType::Rocket | TileType::Hole => None,
        }
    }
}

/// Diminishing takes a full arrow to its half arrow and a half arrow to an
/// empty cell, keeps the direction of what remains an arrow, and leaves
/// empty cells, rockets and holes as they are. Two diminishings clear any
/// arrow.
pub proof fn lemma_diminish_steps(t: TileType)
    ensures
        t == TileType::Up ==> diminished(t) == TileType::UpHalf,
        t == TileType::Down ==> diminished(t) == TileType::DownHalf,
        t == TileType::Left ==> diminished(t) == TileType::LeftHalf,
        t == TileType::Right ==> diminished(t) == TileType::RightHalf,
        (t == TileType::Empty || t == TileType::Rocket || t == TileType::Hole) ==> diminished(t)
            == t,
        arrow_direction_of(t) is Some ==> diminished(diminished(t)) == TileType::Empty,
        arrow_direction_of(diminished(t)) is Some ==> arrow_direction_of(diminished(t))
            == arrow_direction_of(t),
{
}

} // verus!
