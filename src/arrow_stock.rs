use vstd::prelude::*;

use crate::direction::Direction;

verus! {

/// The arrows a player still has to place, per direction.
#[derive(Copy, Clone, PartialEq, Eq, Debug, Structural)]
pub struct ArrowStock {
    pub up: u8,
    pub down: u8,
    pub left: u8,
    pub right: u8,
}

impl ArrowStock {
    /// The number of arrows left in direction `d`.
    pub open spec fn count(self, d: Direction) -> u8 {
        match d {
            Direction::Up => self.up,
            Direction::Down => self.down,
            Direction::Left => self.left,
            Direction::Right => self.right,
        }
    }

    /// An empty stock.
    pub fn new() -> (r: ArrowStock)
        ensures
            forall|d: Direction| #[trigger] r.count(d) == 0,
    {
        ArrowStock { up: 0, down: 0, left: 0, right: 0 }
    }

    /// The number of arrows left in `direction`.
    pub fn get(&self, direction: Direction) -> (r: u8)
        ensures
            r == self.count(direction),
    {
        match direction {
            Direction::Up => self.up,
            Direction::Down => self.down,
            Direction::Left => self.left,
            Direction::Right => self.right,
        }
    }

    /// Sets the number of arrows left in `direction`; the others stay.
    pub fn set(&mut self, direction: Direction, count: u8)
        ensures
            final(self).count(direction) == count,
            forall|d: Direction| d != direction ==> #[trigger] final(self).count(d) == old(self).count(d),
    {
        match direction {
            Direction::Up => self.up = count,
            Direction::Down => self.down = count,
            Direction::Left => self.left = count,
            Direction::Right => self.right = count,
        }
    }
}

} // verus!
