use vstd::prelude::*;

verus! {

/// The state of a world as the game presents it.
#[derive(Copy, Clone, PartialEq, Eq, Debug, Structural)]
pub enum WorldState {
    Stopped,
    Running,
    RunningFast,
    Success,
    Defeat,
}

/// The outcome of one tick of the world.
#[derive(Copy, Clone, PartialEq, Eq, Debug, Structural)]
pub enum WorldStateChange {
    Win,
    Lose,
    NoChange,
}

} // verus!
