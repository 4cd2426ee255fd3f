//! The packed map: the grid's geometry, the wall block, and the entity
//! block that gives each cell its walker, rocket, hole or arrow.
use vstd::prelude::*;

use crate::direction::{opposite_of, Direction};
use crate::tile_type::TileType;
use crate::walker::{Walker, WalkerType};

verus! {

/// The width of the world, in cells.
pub const WORLD_WIDTH: usize = 12;

/// The height of the world, in cells.
pub const WORLD_HEIGHT: usize = 9;

/// The number of cells.
pub const MAX_TILES: usize = 108;

/// The size of the header: the map's name, then its author.
pub const HEADER_SIZE: usize = 64;

/// The size of the wall block: four cells per byte.
pub const WALL_BLOCK_SIZE: usize = 27;

/// The size of a packed map.
pub const MAP_SIZE: usize = 199;

/// Offset of the entity block: one byte per cell.
pub const ENTITY_BLOCK_OFFSET: usize = 91;

pub const ENTITY_TYPE_MASK: u8 = 0b11100000u8;
pub const ENTITY_DIRECTION_MASK: u8 = 0b00011000u8;
pub const ARROW_PRESENT_MASK: u8 = 0b00000100u8;
pub const ARROW_DIRECTION_MASK: u8 = 0b00000011u8;

pub const ENTITY_TYPE_EMPTY: u8 = 0b00000000;
pub const ENTITY_TYPE_MOUSE: u8 = 0b00100000;
pub const ENTITY_TYPE_CAT: u8 = 0b01000000;
pub const ENTITY_TYPE_ROCKET: u8 = 0b01100000;
pub const ENTITY_TYPE_HOLE: u8 = 0b10000000;

pub const ENTITY_DIRECTION_UP: u8 = 0b00000000;
pub const ENTITY_DIRECTION_DOWN: u8 = 0b00001000;
pub const ENTITY_DIRECTION_LEFT: u8 = 0b00010000;
pub const ENTITY_DIRECTION_RIGHT: u8 = 0b00011000;

pub const ARROW_DIRECTION_UP: u8 = 0b00000000;
pub const ARROW_DIRECTION_DOWN: u8 = 0b00000001;
pub const ARROW_DIRECTION_LEFT: u8 = 0b00000010;
pub const ARROW_DIRECTION_RIGHT: u8 = 0b00000011;

/// Whether `(x, y)` is a cell of the grid.
pub open spec fn in_grid(x: int, y: int) -> bool {
    0 <= x < WORLD_WIDTH && 0 <= y < WORLD_HEIGHT
}

/// The cell across the edge of `(x, y)` in direction `d`, wrapping around
/// the grid's borders.
pub open spec fn neighbour(x: int, y: int, d: Direction) -> (int, int) {
    match d {
        Direction::Up => (x, (y + WORLD_HEIGHT - 1) % (WORLD_HEIGHT as int)),
        Direction::Down => (x, (y + 1) % (WORLD_HEIGHT as int)),
        Direction::Left => ((x + WORLD_WIDTH - 1) % (WORLD_WIDTH as int), y),
        Direction::Right => ((x + 1) % (WORLD_WIDTH as int), y),
    }
}

/// The stored edge that the wall of `(x, y)` in direction `d` is: the top
/// (`true`) or left (`false`) edge of a cell. A down wall is the top wall of
/// the cell below; a right wall is the left wall of the cell to the right.
pub open spec fn wall_owner(x: int, y: int, d: Direction) -> (int, int, bool) {
    match d {
        Direction::Up => (x, y, true),
        Direction::Down => (x, (y + 1) % (WORLD_HEIGHT as int), true),
        Direction::Left => (x, y, false),
        Direction::Right => ((x + 1) % (WORLD_WIDTH as int), y, false),
    }
}

/// The byte of the wall block that holds the edges of cell `(cx, cy)`.
pub open spec fn wall_byte_index(cx: int, cy: int) -> int {
    (cy * WORLD_WIDTH + cx) / 4
}

/// The bit of that byte that holds the top (`top`) or left edge of a cell
/// in column `cx`.
pub open spec fn wall_bit(cx: int, top: bool) -> int {
    2 * (cx % 4) + if top {
        0int
    } else {
        1int
    }
}

/// A byte with bit `k` alone set.
pub open spec fn bit_mask(k: int) -> u8 {
    1u8 << (k as u8)
}

/// Whether the packed map `data` has a wall on the stored edge of `(cx, cy)`.
pub open spec fn stored_wall(data: Seq<u8>, cx: int, cy: int, top: bool) -> bool {
    let m = bit_mask(wall_bit(cx, top));
    data[HEADER_SIZE + wall_byte_index(cx, cy)] & m == m
}

/// Whether the packed map `data` has a wall on side `d` of cell `(x, y)`.
pub open spec fn wall_in(data: Seq<u8>, x: int, y: int, d: Direction) -> bool {
    let o = wall_owner(x, y, d);
    stored_wall(data, o.0, o.1, o.2)
}

/// Whether side `d` of `(x, y)` lies on the outer border of the grid.
pub open spec fn on_border(x: int, y: int, d: Direction) -> bool {
    match d {
        Direction::Up => y == 0,
        Direction::Down => y == WORLD_HEIGHT - 1,
        Direction::Left => x == 0,
        Direction::Right => x == WORLD_WIDTH - 1,
    }
}

/// `new` is `old` with the wall on side `d` of `(x, y)` set to `present`:
/// every other edge, and every byte outside that edge's byte, is unchanged.
pub open spec fn wall_updated(
    old: Seq<u8>,
    new: Seq<u8>,
    x: int,
    y: int,
    d: Direction,
    present: bool,
) -> bool {
    let o = wall_owner(x, y, d);
    &&& new.len() == old.len()
    &&& forall|i: int|
        0 <= i < old.len() && i != HEADER_SIZE + wall_byte_index(o.0, o.1) ==> new[i] == old[i]
    &&& forall|cx: int, cy: int, top: bool|
        in_grid(cx, cy) ==> #[trigger] stored_wall(new, cx, cy, top) == if (cx, cy, top) == o {
            present
        } else {
            stored_wall(old, cx, cy, top)
        }
}

/// Index of cell `(x, y)` in the tile grid and the entity block.
pub open spec fn cell_index(x: int, y: int) -> int {
    y * WORLD_WIDTH + x
}

/// The entity-direction bits that record a walker's direction.
pub open spec fn entity_direction_bits_of(d: Direction) -> u8 {
    match d {
        Direction::Up => ENTITY_DIRECTION_UP,
        Direction::Down => ENTITY_DIRECTION_DOWN,
        Direction::Left => ENTITY_DIRECTION_LEFT,
        Direction::Right => ENTITY_DIRECTION_RIGHT,
    }
}

/// The entity-type bits that record a walker's kind.
pub open spec fn entity_type_bits_of(t: WalkerType) -> u8 {
    match t {
        WalkerType::Mouse => ENTITY_TYPE_MOUSE,
        WalkerType::Cat => ENTITY_TYPE_CAT,
    }
}

pub(crate) fn entity_direction_bits(d: Direction) -> (r: u8)
    ensures
        r == entity_direction_bits_of(d),
{
    match d {
        Direction::Up => ENTITY_DIRECTION_UP,
        Direction::Down => ENTITY_DIRECTION_DOWN,
        Direction::Left => ENTITY_DIRECTION_LEFT,
        Direction::Right => ENTITY_DIRECTION_RIGHT,
    }
}

pub(crate) fn decode_entity_direction(b: u8) -> (r: Direction)
    ensures
        r == entity_direction_of(b),
{
    let d = b & ENTITY_DIRECTION_MASK;
    if d == ENTITY_DIRECTION_UP {
        Direction::Up
    } else if d == ENTITY_DIRECTION_DOWN {
        Direction::Down
    } else if d == ENTITY_DIRECTION_LEFT {
        Direction::Left
    } else {
        Direction::Right
    }
}

pub(crate) fn decode_tile(b: u8) -> (r: TileType)
    ensures
        r == tile_of_entity(b),
{
    let e = b & ENTITY_TYPE_MASK;
    if e == ENTITY_TYPE_ROCKET {
        TileType::Rocket
    } else if e == ENTITY_TYPE_HOLE {
        TileType::Hole
    } else if b & ARROW_PRESENT_MASK != 0 {
        let d = b & ARROW_DIRECTION_MASK;
        if d == ARROW_DIRECTION_UP {
            TileType::Up
        } else if d == ARROW_DIRECTION_DOWN {
            TileType::Down
        } else if d == ARROW_DIRECTION_LEFT {
            TileType::Left
        } else {
            TileType::Right
        }
    } else {
        TileType::Empty
    }
}

pub(crate) fn entity_type_bits(t: WalkerType) -> (r: u8)
    ensures
        r == entity_type_bits_of(t),
{
    match t {
        WalkerType::Mouse => ENTITY_TYPE_MOUSE,
        WalkerType::Cat => ENTITY_TYPE_CAT,
    }
}

/// A live walker of kind `t` at the start of cell `(x, y)`, heading `d`.
pub open spec fn fresh_walker(x: int, y: int, d: Direction, t: WalkerType) -> Walker {
    Walker::new_spec(x as i8, y as i8, d, t)
}

/// The direction recorded in an entity byte's direction bits.
pub open spec fn entity_direction_of(b: u8) -> Direction {
    let d = b & ENTITY_DIRECTION_MASK;
    if d == ENTITY_DIRECTION_UP {
        Direction::Up
    } else if d == ENTITY_DIRECTION_DOWN {
        Direction::Down
    } else if d == ENTITY_DIRECTION_LEFT {
        Direction::Left
    } else {
        Direction::Right
    }
}

/// The full arrow recorded in an entity byte's arrow-direction bits.
pub open spec fn arrow_tile_of(b: u8) -> TileType {
    let d = b & ARROW_DIRECTION_MASK;
    if d == ARROW_DIRECTION_UP {
        TileType::Up
    } else if d == ARROW_DIRECTION_DOWN {
        TileType::Down
    } else if d == ARROW_DIRECTION_LEFT {
        TileType::Left
    } else {
        TileType::Right
    }
}

/// The tile a cell starts with, given its entity byte: a rocket or a hole
/// if the byte names one, else its arrow if the arrow bit is set, else empty.
pub open spec fn tile_of_entity(b: u8) -> TileType {
    let e = b & ENTITY_TYPE_MASK;
    if e == ENTITY_TYPE_ROCKET {
        TileType::Rocket
    } else if e == ENTITY_TYPE_HOLE {
        TileType::Hole
    } else if b & ARROW_PRESENT_MASK != 0 {
        arrow_tile_of(b)
    } else {
        TileType::Empty
    }
}

/// The walker kind an entity byte names, if it names one.
pub open spec fn walker_kind_of(b: u8) -> Option<WalkerType> {
    let e = b & ENTITY_TYPE_MASK;
    if e == ENTITY_TYPE_MOUSE {
        Some(WalkerType::Mouse)
    } else if e == ENTITY_TYPE_CAT {
        Some(WalkerType::Cat)
    } else {
        None
    }
}

/// The tiles of the world a packed map describes.
pub open spec fn loaded_tiles(map: Seq<u8>) -> Seq<TileType> {
    Seq::new(MAX_TILES as nat, |i: int| tile_of_entity(map[ENTITY_BLOCK_OFFSET + i]))
}

/// The walkers of kind `t` that the first `n` cells of a packed map place,
/// in cell order, each at the start of its cell.
pub open spec fn loaded_walkers(map: Seq<u8>, t: WalkerType, n: int) -> Seq<Walker>
    decreases n,
{
    if n <= 0 {
        Seq::empty()
    } else {
        let before = loaded_walkers(map, t, n - 1);
        let b = map[ENTITY_BLOCK_OFFSET + n - 1];
        if walker_kind_of(b) == Some(t) {
            before.push(
                fresh_walker((n - 1) % (WORLD_WIDTH as int), (n - 1) / (WORLD_WIDTH as int), entity_direction_of(b), t),
            )
        } else {
            before
        }
    }
}

pub(crate) proof fn lemma_single_bits(b: u8, i: u8, j: u8) by (bit_vector)
    requires
        i < 8,
        j < 8,
    ensures
        ((b | (1u8 << i)) & (1u8 << j) == (1u8 << j)) == (i == j || b & (1u8 << j) == (1u8 << j)),
        ((b & !(1u8 << i)) & (1u8 << j) == (1u8 << j)) == (i != j && b & (1u8 << j) == (1u8
            << j)),
        (0u8 & (1u8 << j)) != (1u8 << j),
{
}

pub(crate) proof fn lemma_wall_slots_distinct(cx1: int, cy1: int, t1: bool, cx2: int, cy2: int, t2: bool)
    requires
        in_grid(cx1, cy1),
        in_grid(cx2, cy2),
    ensures
        (cx1, cy1, t1) != (cx2, cy2, t2) ==> wall_byte_index(cx1, cy1) != wall_byte_index(cx2, cy2)
            || wall_bit(cx1, t1) != wall_bit(cx2, t2),
        0 <= wall_byte_index(cx1, cy1) < WALL_BLOCK_SIZE,
        0 <= wall_bit(cx1, t1) < 8,
{
    assert(wall_byte_index(cx1, cy1) == cy1 * 3 + cx1 / 4);
    assert(wall_byte_index(cx2, cy2) == cy2 * 3 + cx2 / 4);
}

/// A wall is one edge shared by two cells: once `set_wall(x, y, d, present)`
/// has run, the wall on side `d` of `(x, y)` and the wall on the opposite side
/// of the neighbouring cell both read `present`, for every cell and
/// direction.
pub proof fn lemma_wall_seen_from_both_sides(
    old: Seq<u8>,
    new: Seq<u8>,
    x: int,
    y: int,
    d: Direction,
    present: bool,
)
    requires
        in_grid(x, y),
        wall_updated(old, new, x, y, d, present),
    ensures
        wall_in(new, x, y, d) == present,
        wall_in(new, neighbour(x, y, d).0, neighbour(x, y, d).1, opposite_of(d)) == present,
{
    let o = wall_owner(x, y, d);
    let n = neighbour(x, y, d);
    assert(in_grid(o.0, o.1));
    assert(wall_owner(n.0, n.1, opposite_of(d)) == o);
}

} // verus!
