//! Deterministic simulation engine for a grid puzzle game in which mice are
//! guided by arrows into rockets while avoiding cats and holes.
mod arrow_stock;
mod arrow_tile;
mod direction;
mod fixed_point;
mod input;
mod map_format;
mod puzzle;
mod resolution;
mod state_machine;
mod tile_type;
mod walker;
mod walker_list;
mod world;
mod world_state;

pub use arrow_stock::ArrowStock;
pub use arrow_tile::ArrowType;
pub use direction::Direction;
pub use fixed_point::FixedPoint;
pub use input::{input_from_readings, ButtonEvent, ButtonState, InputState};
pub use map_format::{
    ARROW_DIRECTION_MASK, ARROW_PRESENT_MASK, ENTITY_BLOCK_OFFSET, ENTITY_DIRECTION_DOWN,
    ENTITY_DIRECTION_LEFT, ENTITY_DIRECTION_MASK, ENTITY_DIRECTION_RIGHT, ENTITY_DIRECTION_UP,
    ENTITY_TYPE_CAT, ENTITY_TYPE_EMPTY, ENTITY_TYPE_HOLE, ENTITY_TYPE_MASK, ENTITY_TYPE_MOUSE,
    ENTITY_TYPE_ROCKET, HEADER_SIZE, MAP_SIZE, WALL_BLOCK_SIZE, WORLD_HEIGHT, WORLD_WIDTH,
};
pub use puzzle::{puzzle, PuzzleError};
pub use state_machine::{AppState, GameState, IntroState, MenuState, StateMachine};
pub use tile_type::TileType;
pub use walker::{WalkResult, Walker, WalkerState, WalkerType};
pub use walker_list::MAX_WALKERS;
pub use world::World;
pub use world_state::{WorldState, WorldStateChange};
