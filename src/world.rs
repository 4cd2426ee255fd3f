use vstd::prelude::*;

use arrayvec::ArrayVec;

use crate::direction::{left_of, opposite_of, right_of, Direction};
use crate::map_format::{
    bit_mask, cell_index, decode_entity_direction, decode_tile, entity_direction_bits,
    entity_direction_bits_of, entity_type_bits, entity_type_bits_of, fresh_walker, in_grid,
    lemma_single_bits, lemma_wall_slots_distinct, loaded_tiles, loaded_walkers, on_border,
    stored_wall, wall_bit, wall_byte_index, wall_in, wall_owner, wall_updated,
    ARROW_DIRECTION_MASK, ARROW_PRESENT_MASK, ENTITY_BLOCK_OFFSET, ENTITY_TYPE_CAT,
    ENTITY_TYPE_EMPTY, ENTITY_TYPE_MASK, ENTITY_TYPE_MOUSE, HEADER_SIZE, MAP_SIZE, MAX_TILES,
    WALL_BLOCK_SIZE, WORLD_HEIGHT, WORLD_WIDTH,
};
use crate::resolution::{
    advanced, advanced_all, after_arrow, after_hole_or_rocket, after_walls, all_in, any_in,
    lemma_alive_only_ok, lemma_walk_stays_near, outcome, placed_ok, walker_ok, wrapped,
};
use crate::tile_type::TileType;
use crate::walker::{WalkResult, Walker, WalkerState, WalkerType};
use crate::walker_list::{
    alive_only, registry_get, registry_keep_alive, registry_len, registry_new, registry_push,
    registry_set, walkers_of, MAX_WALKERS,
};
use crate::world_state::WorldStateChange;

verus! {

/// The whole game world: the packed map, which holds the walls and the
/// entity of each cell, a tile per cell, and the live mice and cats.
pub struct World {
    /// The packed map: header, wall block and entity block.
    pub data: [u8; 199],
    /// The live mice, in the order they tick.
    pub mice: ArrayVec<Walker, MAX_WALKERS>,
    /// The live cats, in the order they tick, after the mice.
    pub cats: ArrayVec<Walker, MAX_WALKERS>,
    /// The tile of each cell, row by row.
    pub tiles: [TileType; 108],
}

/// `new` is `old` with a walker created at `(x, y)`: appended to the registry
/// of its kind, and recorded in the cell's entity byte, whose arrow bits stay.
pub open spec fn created(old: World, new: World, x: int, y: int, d: Direction, t: WalkerType) -> bool {
    let i = ENTITY_BLOCK_OFFSET + cell_index(x, y);
    &&& new.data@ == old.data@.update(
        i,
        (old.data@[i] & (ARROW_PRESENT_MASK | ARROW_DIRECTION_MASK)) | entity_direction_bits_of(d)
            | entity_type_bits_of(t),
    )
    &&& new.tiles == old.tiles
    &&& t == WalkerType::Mouse ==> walkers_of(new.mice) == walkers_of(old.mice).push(
        fresh_walker(x, y, d, t),
    ) && new.cats == old.cats
    &&& t == WalkerType::Cat ==> walkers_of(new.cats) == walkers_of(old.cats).push(
        fresh_walker(x, y, d, t),
    ) && new.mice == old.mice
}

/// `new` and `r` are the world and the outcome after one tick of `old`: the
/// mice and then the cats advance in registry order, the outcome is read from
/// their states, and the registries keep only the walkers still alive.
pub open spec fn ticked(old: World, new: World, r: WorldStateChange) -> bool {
    let m = advanced_all(old.tiles@, old.data@, walkers_of(old.mice));
    let c = advanced_all(m.0, old.data@, walkers_of(old.cats));
    &&& new.data == old.data
    &&& new.tiles@ == c.0
    &&& walkers_of(new.mice) == alive_only(m.1)
    &&& walkers_of(new.cats) == alive_only(c.1)
    &&& r == outcome(m.1, c.1)
}

impl World {
    /// Every walker in the mouse registry is a live mouse in the grid, and
    /// likewise for the cats.
    pub open spec fn wf(&self) -> bool {
        &&& forall|i: int|
            0 <= i < walkers_of(self.mice).len() ==> walker_ok(
                #[trigger] walkers_of(self.mice)[i],
                WalkerType::Mouse,
            )
        &&& forall|i: int|
            0 <= i < walkers_of(self.cats).len() ==> walker_ok(
                #[trigger] walkers_of(self.cats)[i],
                WalkerType::Cat,
            )
    }

    /// Whether there is a wall on side `d` of cell `(x, y)`.
    pub open spec fn wall_at(&self, x: int, y: int, d: Direction) -> bool {
        wall_in(self.data@, x, y, d)
    }

    /// The tile of cell `(x, y)`.
    pub open spec fn tile_at(&self, x: int, y: int) -> TileType {
        self.tiles@[cell_index(x, y)]
    }

    /// Creates an empty world whose only walls close its outer border.
    pub fn new() -> (r: World)
        ensures
            r.wf(),
            walkers_of(r.mice).len() == 0,
            walkers_of(r.cats).len() == 0,
            forall|i: int| 0 <= i < MAX_TILES ==> r.tiles@[i] == TileType::Empty,
            forall|i: int| 0 <= i < HEADER_SIZE ==> r.data@[i] == 0,
            forall|i: int| ENTITY_BLOCK_OFFSET <= i < MAP_SIZE ==> r.data@[i] == 0,
            forall|i: int|
                ENTITY_BLOCK_OFFSET <= i < MAP_SIZE ==> #[trigger] r.data@[i] & ENTITY_TYPE_MASK
                    == ENTITY_TYPE_EMPTY,
            forall|x: int, y: int, d: Direction|
                in_grid(x, y) ==> (#[trigger] r.wall_at(x, y, d) <==> on_border(x, y, d)),
    {
        let mut world = World {
            data: [0u8; 199],
            mice: registry_new(),
            cats: registry_new(),
            tiles: [TileType::Empty; 108],
        };
        assert forall|cx: int, cy: int, top: bool|
            in_grid(cx, cy) implies !stored_wall(world.data@, cx, cy, top) by {
            lemma_wall_slots_distinct(cx, cy, top, cx, cy, top);
            lemma_single_bits(0, 0, wall_bit(cx, top) as u8);
        }
        let mut x: usize = 0;
        while x < WORLD_WIDTH
            invariant
                x <= WORLD_WIDTH,
                world.wf(),
                walkers_of(world.mice).len() == 0,
                walkers_of(world.cats).len() == 0,
                forall|i: int| 0 <= i < MAX_TILES ==> world.tiles@[i] == TileType::Empty,
                forall|i: int| 0 <= i < HEADER_SIZE ==> world.data@[i] == 0,
                forall|i: int| ENTITY_BLOCK_OFFSET <= i < MAP_SIZE ==> world.data@[i] == 0,
                forall|cx: int, cy: int, top: bool|
                    in_grid(cx, cy) ==> (#[trigger] stored_wall(world.data@, cx, cy, top) <==> (
                    top && cy == 0 && cx < x)),
            decreases WORLD_WIDTH - x,
        {
            world.set_wall(x, 0, Direction::Up, true);
            x += 1;
        }
        let mut y: usize = 0;
        while y < WORLD_HEIGHT
            invariant
                y <= WORLD_HEIGHT,
                world.wf(),
                walkers_of(world.mice).len() == 0,
                walkers_of(world.cats).len() == 0,
                forall|i: int| 0 <= i < MAX_TILES ==> world.tiles@[i] == TileType::Empty,
                forall|i: int| 0 <= i < HEADER_SIZE ==> world.data@[i] == 0,
                forall|i: int| ENTITY_BLOCK_OFFSET <= i < MAP_SIZE ==> world.data@[i] == 0,
                forall|cx: int, cy: int, top: bool|
                    in_grid(cx, cy) ==> (#[trigger] stored_wall(world.data@, cx, cy, top) <==> ((
                    top && cy == 0) || (!top && cx == 0 && cy < y))),
            decreases WORLD_HEIGHT - y,
        {
            world.set_wall(0, y, Direction::Left, true);
            y += 1;
        }
        assert(0u8 & ENTITY_TYPE_MASK == ENTITY_TYPE_EMPTY) by (bit_vector);
        assert forall|x: int, y: int, d: Direction| in_grid(x, y) implies (#[trigger] world.wall_at(
            x,
            y,
            d,
        ) <==> on_border(x, y, d)) by {
            let o = wall_owner(x, y, d);
            assert(in_grid(o.0, o.1));
        }
        world
    }

    /// The byte of the wall block, and the bit mask within it, that store the
    /// wall on side `direction` of cell `(x, y)`.
    pub fn get_wrapped_wall_index_and_mask(x: usize, y: usize, direction: Direction) -> (r: (
        usize,
        u8,
    ))
        requires
            x < WORLD_WIDTH,
            y < WORLD_HEIGHT,
        ensures
            r.0 == wall_byte_index(wall_owner(x as int, y as int, direction).0, wall_owner(x as int, y as int, direction).1),
            r.1 == bit_mask(wall_bit(wall_owner(x as int, y as int, direction).0, wall_owner(x as int, y as int, direction).2)),
            r.0 < WALL_BLOCK_SIZE,
    {
        let (e_x, e_y, top) = match direction {
            Direction::Up => (x, y, true),
            Direction::Down => (x, (y + 1) % WORLD_HEIGHT, true),
            Direction::Left => (x, y, false),
            Direction::Right => ((x + 1) % WORLD_WIDTH, y, false),
        };
        proof {
            lemma_wall_slots_distinct(e_x as int, e_y as int, top, e_x as int, e_y as int, top);
        }
        let shift: u8 = if top {
            (2 * (e_x % 4)) as u8
        } else {
            (2 * (e_x % 4) + 1) as u8
        };
        ((e_y * WORLD_WIDTH + e_x) / 4, 1u8 << shift)
    }

    /// Sets or clears the wall on side `direction` of cell `(x, y)`. The same
    /// edge seen from the neighbouring cell changes with it.
    pub fn set_wall(&mut self, x: usize, y: usize, direction: Direction, present: bool)
        requires
            x < WORLD_WIDTH,
            y < WORLD_HEIGHT,
        ensures
            wall_updated(old(self).data@, final(self).data@, x as int, y as int, direction, present),
            final(self).tiles == old(self).tiles,
            final(self).mice == old(self).mice,
            final(self).cats == old(self).cats,
    {
        World::write_wall(&mut self.data, x, y, direction, present);
    }

    /// Sets or clears, in the packed map `data`, the wall on side `direction`
    /// of cell `(x, y)`.
    pub(crate) fn write_wall(data: &mut [u8; 199], x: usize, y: usize, direction: Direction, present: bool)
        requires
            x < WORLD_WIDTH,
            y < WORLD_HEIGHT,
        ensures
            wall_updated(old(data)@, final(data)@, x as int, y as int, direction, present),
    {
        let (wall_index, mask) = World::get_wrapped_wall_index_and_mask(x, y, direction);
        let byte = data[HEADER_SIZE + wall_index];
        let ghost before = data@;
        let new_byte = if present {
            byte | mask
        } else {
            byte & !mask
        };
        data[HEADER_SIZE + wall_index] = new_byte;
        proof {
            let o = wall_owner(x as int, y as int, direction);
            assert forall|cx: int, cy: int, top: bool| in_grid(cx, cy) implies #[trigger] stored_wall(
                data@,
                cx,
                cy,
                top,
            ) == if (cx, cy, top) == o {
                present
            } else {
                stored_wall(before, cx, cy, top)
            } by {
                lemma_wall_slots_distinct(cx, cy, top, o.0, o.1, o.2);
                lemma_wall_slots_distinct(o.0, o.1, o.2, cx, cy, top);
                lemma_single_bits(byte, wall_bit(o.0, o.2) as u8, wall_bit(cx, top) as u8);
            }
        }
    }

    /// Whether there is a wall on side `direction` of cell `(x, y)`.
    pub fn get_wall(&self, x: usize, y: usize, direction: Direction) -> (r: bool)
        requires
            x < WORLD_WIDTH,
            y < WORLD_HEIGHT,
        ensures
            r == self.wall_at(x as int, y as int, direction),
    {
        World::get_wall_static(&self.data, x, y, direction)
    }

    /// Creates a walker at cell `(x, y)` unless the cell's entity byte
    /// already names an entity. Returns whether the walker was created; if so
    /// the entity byte now records it.
    pub fn create_walker(
        &mut self,
        x: usize,
        y: usize,
        direction: Direction,
        walker_type: WalkerType,
    ) -> (r: bool)
        requires
            old(self).wf(),
            x < WORLD_WIDTH,
            y < WORLD_HEIGHT,
            walker_type == WalkerType::Mouse ==> walkers_of(old(self).mice).len() < MAX_WALKERS,
            walker_type == WalkerType::Cat ==> walkers_of(old(self).cats).len() < MAX_WALKERS,
        ensures
            final(self).wf(),
            r == (old(self).data@[ENTITY_BLOCK_OFFSET + cell_index(x as int, y as int)]
                & ENTITY_TYPE_MASK == ENTITY_TYPE_EMPTY),
            !r ==> *final(self) == *old(self),
            r ==> created(*old(self), *final(self), x as int, y as int, direction, walker_type),
            r ==> final(self).data@[ENTITY_BLOCK_OFFSET + cell_index(x as int, y as int)]
                & ENTITY_TYPE_MASK == entity_type_bits_of(walker_type),
    {
        let index = ENTITY_BLOCK_OFFSET + y * WORLD_WIDTH + x;
        let byte = self.data[index];
        if byte & ENTITY_TYPE_MASK != ENTITY_TYPE_EMPTY {
            return false;
        }
        let walker = Walker::new(x as i8, y as i8, direction, walker_type);
        match walker_type {
            WalkerType::Mouse => registry_push(&mut self.mice, walker),
            WalkerType::Cat => registry_push(&mut self.cats, walker),
        }
        let new_byte = (byte & (ARROW_PRESENT_MASK | ARROW_DIRECTION_MASK)) | entity_direction_bits(
            direction,
        ) | entity_type_bits(walker_type);
        self.data[index] = new_byte;
        proof {
            let d = entity_direction_bits_of(direction);
            let t = entity_type_bits_of(walker_type);
            assert(ARROW_PRESENT_MASK | ARROW_DIRECTION_MASK == 0x07u8) by (bit_vector);
            assert(new_byte & 0xe0u8 == t) by (bit_vector)
                requires
                    new_byte == (byte & 0x07u8) | d | t,
                    d == 0 || d == 0x08 || d == 0x10 || d == 0x18,
                    t == 0x20 || t == 0x40,
            ;
        }
        true
    }

    /// Sets the tile of cell `(x, y)` to an arrow placed by the player.
    pub fn set_arrow(&mut self, x: usize, y: usize, tile_type: TileType)
        requires
            x < WORLD_WIDTH,
            y < WORLD_HEIGHT,
        ensures
            final(self).tiles@ == old(self).tiles@.update(cell_index(x as int, y as int), tile_type),
            final(self).data == old(self).data,
            final(self).mice == old(self).mice,
            final(self).cats == old(self).cats,
    {
        World::set_tile_static(&mut self.tiles, x, y, tile_type)
    }

    /// Sets the tile of cell `(x, y)`.
    pub fn set_tile(&mut self, x: usize, y: usize, tile_type: TileType)
        requires
            x < WORLD_WIDTH,
            y < WORLD_HEIGHT,
        ensures
            final(self).tiles@ == old(self).tiles@.update(cell_index(x as int, y as int), tile_type),
            final(self).data == old(self).data,
            final(self).mice == old(self).mice,
            final(self).cats == old(self).cats,
    {
        World::set_tile_static(&mut self.tiles, x, y, tile_type)
    }

    fn set_tile_static(tiles: &mut [TileType; 108], x: usize, y: usize, tile_type: TileType)
        requires
            x < WORLD_WIDTH,
            y < WORLD_HEIGHT,
        ensures
            final(tiles)@ == old(tiles)@.update(cell_index(x as int, y as int), tile_type),
    {
        tiles[y * WORLD_WIDTH + x] = tile_type;
    }

    /// The tile of cell `(x, y)`.
    pub fn get_arrow(&self, x: usize, y: usize) -> (r: TileType)
        requires
            x < WORLD_WIDTH,
            y < WORLD_HEIGHT,
        ensures
            r == self.tile_at(x as int, y as int),
    {
        World::get_arrow_static(&self.tiles, x, y)
    }

    fn get_arrow_static(tiles: &[TileType; 108], x: usize, y: usize) -> (r: TileType)
        requires
            x < WORLD_WIDTH,
            y < WORLD_HEIGHT,
        ensures
            r == tiles@[cell_index(x as int, y as int)],
    {
        tiles[y * WORLD_WIDTH + x]
    }

    /// Puts the world back in the state its packed map describes: the tiles
    /// and the walkers are rebuilt from the map as `load` builds them.
    pub fn reset(&mut self)
        ensures
            final(self).wf(),
            final(self).data == old(self).data,
            final(self).tiles@ == loaded_tiles(old(self).data@),
            walkers_of(final(self).mice) == loaded_walkers(old(self).data@, WalkerType::Mouse, MAX_TILES as int),
            walkers_of(final(self).cats) == loaded_walkers(old(self).data@, WalkerType::Cat, MAX_TILES as int),
    {
        let data = self.data;
        *self = World::load(&data);
    }

    /// The number of live mice.
    pub fn mouse_count(&self) -> (r: usize)
        ensures
            r == walkers_of(self.mice).len(),
    {
        registry_len(&self.mice)
    }

    /// The number of live cats.
    pub fn cat_count(&self) -> (r: usize)
        ensures
            r == walkers_of(self.cats).len(),
    {
        registry_len(&self.cats)
    }

    /// Moves a walker whose whole coordinate has just left the grid by one
    /// cell back across the wrap-around edge.
    fn wrap_position(walker: &mut Walker)
        requires
            -1 <= old(walker).x.value <= WORLD_WIDTH,
            -1 <= old(walker).y.value <= WORLD_HEIGHT,
        ensures
            *final(walker) == wrapped(*old(walker)),
    {
        if walker.x.value < 0 {
            walker.x.value = walker.x.value + 12;
        } else if walker.x.value >= 12 {
            walker.x.value = walker.x.value - 12;
        }
        if walker.y.value < 0 {
            walker.y.value = walker.y.value + 9;
        } else if walker.y.value >= 9 {
            walker.y.value = walker.y.value - 9;
        }
    }

    /// Kills a walker standing on a hole and rescues one standing on a rocket.
    fn check_rockets_and_holes(tiles: &[TileType; 108], walker: &mut Walker)
        requires
            placed_ok(*old(walker)),
            old(walker).state == WalkerState::Alive,
        ensures
            *final(walker) == after_hole_or_rocket(tiles@, *old(walker)),
    {
        let x = walker.x.value as usize;
        let y = walker.y.value as usize;
        let tile = tiles[y * WORLD_WIDTH + x];
        match tile {
            TileType::Hole => walker.kill(),
            TileType::Rocket => walker.rescue(),
            _ => {},
        }
    }

    /// Turns a walker standing on an arrow to face it, and diminishes the
    /// arrow if the walker is a cat that was heading against it.
    fn check_arrows_static(tiles: &mut [TileType; 108], walker: &mut Walker)
        requires
            placed_ok(*old(walker)),
        ensures
            (final(tiles)@, *final(walker)) == after_arrow(old(tiles)@, *old(walker)),
    {
        let x = walker.x.value as usize;
        let y = walker.y.value as usize;
        let arrow = World::get_arrow_static(tiles, x, y);
        match arrow.arrow_direction() {
            Some(direction) => {
                if walker.get_type() == WalkerType::Cat && walker.get_direction().turn_around()
                    == direction {
                    World::set_tile_static(tiles, x, y, arrow.diminish());
                }
                walker.set_direction(direction);
            },
            None => {},
        }
    }

    /// Turns a walker standing on an arrow to face it. A cat that was heading
    /// against the arrow diminishes it; a mouse never does. A cell without
    /// an arrow leaves the walker and the tiles as they were.
    pub fn check_arrows(&mut self, walker: &mut Walker)
        requires
            placed_ok(*old(walker)),
        ensures
            (final(self).tiles@, *final(walker)) == after_arrow(old(self).tiles@, *old(walker)),
            final(self).data == old(self).data,
            final(self).mice == old(self).mice,
            final(self).cats == old(self).cats,
    {
        World::check_arrows_static(&mut self.tiles, walker)
    }

    /// Turns a walker away from the walls of its cell: it keeps its direction
    /// if that side is open, else turns right, else left, else around.
    pub fn check_walls(&self, walker: &mut Walker)
        requires
            placed_ok(*old(walker)),
        ensures
            *final(walker) == after_walls(self.data@, *old(walker)),
    {
        World::check_walls_static(&self.data, walker)
    }

    fn check_walls_static(wall_data: &[u8; 199], walker: &mut Walker)
        requires
            placed_ok(*old(walker)),
        ensures
            *final(walker) == after_walls(wall_data@, *old(walker)),
    {
        let x = walker.x.value as usize;
        let y = walker.y.value as usize;
        let direction = walker.get_direction();
        let candidates = [
            direction,
            direction.turn_right(),
            direction.turn_left(),
            direction.turn_around(),
        ];
        let mut i: usize = 0;
        while i < 4
            invariant
                i <= 4,
                x < WORLD_WIDTH,
                y < WORLD_HEIGHT,
                x == old(walker).x.value,
                y == old(walker).y.value,
                direction == old(walker).direction,
                candidates@ == seq![direction, right_of(direction), left_of(direction), opposite_of(direction)],
                *walker == *old(walker),
                forall|j: int| 0 <= j < i ==> wall_in(wall_data@, x as int, y as int, #[trigger] candidates@[j]),
            decreases 4 - i,
        {
            let candidate = candidates[i];
            if !World::get_wall_static(wall_data, x, y, candidate) {
                walker.set_direction(candidate);
                return;
            }
            i += 1;
        }
    }

    /// One tick of one walker: it steps and, on reaching a new cell, wraps
    /// onto the grid and has the cell's hole or rocket, arrow and walls
    /// resolved in that order.
    fn advance_walker(tiles: &mut [TileType; 108], data: &[u8; 199], walker: &mut Walker)
        requires
            placed_ok(*old(walker)),
            old(walker).state == WalkerState::Alive,
        ensures
            (final(tiles)@, *final(walker)) == advanced(old(tiles)@, data@, *old(walker)),
            placed_ok(*final(walker)),
            final(walker).walker_type == old(walker).walker_type,
    {
        proof {
            lemma_walk_stays_near(*walker);
        }
        if walker.walk() == WalkResult::NewSquare {
            World::wrap_position(walker);
            World::check_rockets_and_holes(tiles, walker);
            World::check_arrows_static(tiles, walker);
            World::check_walls_static(data, walker);
        }
    }

    /// Gives every walker of a registry its tick, in order.
    fn advance_registry(
        tiles: &mut [TileType; 108],
        data: &[u8; 199],
        registry: &mut ArrayVec<Walker, MAX_WALKERS>,
        Ghost(kind): Ghost<WalkerType>,
    )
        requires
            forall|j: int|
                0 <= j < walkers_of(*old(registry)).len() ==> walker_ok(
                    #[trigger] walkers_of(*old(registry))[j],
                    kind,
                ),
        ensures
            final(tiles)@ == advanced_all(old(tiles)@, data@, walkers_of(*old(registry))).0,
            walkers_of(*final(registry)) == advanced_all(old(tiles)@, data@, walkers_of(*old(registry))).1,
            forall|j: int|
                0 <= j < walkers_of(*final(registry)).len() ==> placed_ok(
                    #[trigger] walkers_of(*final(registry))[j],
                ) && walkers_of(*final(registry))[j].walker_type == kind,
    {
        let ghost ws = walkers_of(*registry);
        let ghost t0 = tiles@;
        let n = registry_len(registry);
        let mut i: usize = 0;
        while i < n
            invariant
                i <= n,
                n == ws.len(),
                forall|j: int| 0 <= j < ws.len() ==> walker_ok(#[trigger] ws[j], kind),
                advanced_all(t0, data@, ws.take(i as int)).1.len() == i,
                tiles@ == advanced_all(t0, data@, ws.take(i as int)).0,
                walkers_of(*registry).len() == n,
                forall|j: int|
                    0 <= j < i ==> #[trigger] walkers_of(*registry)[j] == advanced_all(
                        t0,
                        data@,
                        ws.take(i as int),
                    ).1[j],
                forall|j: int| i <= j < n ==> #[trigger] walkers_of(*registry)[j] == ws[j],
                forall|j: int|
                    0 <= j < i ==> placed_ok(#[trigger] walkers_of(*registry)[j])
                        && walkers_of(*registry)[j].walker_type == kind,
            decreases n - i,
        {
            let mut walker = registry_get(registry, i);
            World::advance_walker(tiles, data, &mut walker);
            registry_set(registry, i, walker);
            proof {
                assert(ws.take(i + 1).drop_last() =~= ws.take(i as int));
                assert(ws.take(i + 1).last() == ws[i as int]);
            }
            i += 1;
        }
        proof {
            assert(ws.take(n as int) =~= ws);
            assert(walkers_of(*registry) =~= advanced_all(t0, data@, ws).1);
        }
    }

    /// Whether some walker of the registry is in state `s`.
    fn any_in_state(registry: &ArrayVec<Walker, MAX_WALKERS>, s: WalkerState) -> (r: bool)
        ensures
            r == any_in(walkers_of(*registry), s),
    {
        let n = registry_len(registry);
        let mut i: usize = 0;
        while i < n
            invariant
                i <= n,
                n == walkers_of(*registry).len(),
                forall|j: int| 0 <= j < i ==> #[trigger] walkers_of(*registry)[j].state != s,
            decreases n - i,
        {
            if registry_get(registry, i).state == s {
                return true;
            }
            i += 1;
        }
        false
    }

    /// Whether every walker of the registry is in state `s`.
    fn all_in_state(registry: &ArrayVec<Walker, MAX_WALKERS>, s: WalkerState) -> (r: bool)
        ensures
            r == all_in(walkers_of(*registry), s),
    {
        let n = registry_len(registry);
        let mut i: usize = 0;
        while i < n
            invariant
                i <= n,
                n == walkers_of(*registry).len(),
                forall|j: int| 0 <= j < i ==> #[trigger] walkers_of(*registry)[j].state == s,
            decreases n - i,
        {
            if registry_get(registry, i).state != s {
                return false;
            }
            i += 1;
        }
        true
    }

    /// Advances the world by one frame. Every mouse and then every cat
    /// steps; a walker reaching a new cell is killed by a hole or rescued by
    /// a rocket, turned by an arrow (a cat heading against it diminishes it)
    /// and turned away from walls. A dead mouse or a rescued cat loses; else
    /// all mice rescued wins. Walkers no longer alive then leave the world.
    pub fn tick(&mut self) -> (r: WorldStateChange)
        requires
            old(self).wf(),
        ensures
            final(self).wf(),
            ticked(*old(self), *final(self), r),
    {
        World::advance_registry(&mut self.tiles, &self.data, &mut self.mice, Ghost(WalkerType::Mouse));
        World::advance_registry(&mut self.tiles, &self.data, &mut self.cats, Ghost(WalkerType::Cat));
        let lose = World::any_in_state(&self.mice, WalkerState::Dead) || World::any_in_state(
            &self.cats,
            WalkerState::Rescued,
        );
        let change = if lose {
            WorldStateChange::Lose
        } else if registry_len(&self.mice) > 0 && World::all_in_state(&self.mice, WalkerState::Rescued) {
            WorldStateChange::Win
        } else {
            WorldStateChange::NoChange
        };
        proof {
            lemma_alive_only_ok(walkers_of(self.mice), WalkerType::Mouse);
            lemma_alive_only_ok(walkers_of(self.cats), WalkerType::Cat);
        }
        registry_keep_alive(&mut self.mice);
        registry_keep_alive(&mut self.cats);
        change
    }

    /// Builds the world a packed map describes: the map's bytes become the
    /// world's data, so its walls are the map's; each cell's tile and walker
    /// come from its entity byte.
    pub fn load(map: &[u8; 199]) -> (r: World)
        ensures
            r.wf(),
            r.data@ == map@,
            r.tiles@ == loaded_tiles(map@),
            walkers_of(r.mice) == loaded_walkers(map@, WalkerType::Mouse, MAX_TILES as int),
            walkers_of(r.cats) == loaded_walkers(map@, WalkerType::Cat, MAX_TILES as int),
    {
        let mut world = World {
            data: *map,
            mice: registry_new(),
            cats: registry_new(),
            tiles: [TileType::Empty; 108],
        };
        let mut i: usize = 0;
        while i < MAX_TILES
            invariant
                i <= MAX_TILES,
                world.wf(),
                world.data@ == map@,
                forall|j: int| 0 <= j < i ==> world.tiles@[j] == #[trigger] loaded_tiles(map@)[j],
                walkers_of(world.mice) == loaded_walkers(map@, WalkerType::Mouse, i as int),
                walkers_of(world.cats) == loaded_walkers(map@, WalkerType::Cat, i as int),
                walkers_of(world.mice).len() <= i,
                walkers_of(world.cats).len() <= i,
            decreases MAX_TILES - i,
        {
            let b = map[ENTITY_BLOCK_OFFSET + i];
            let x = i % WORLD_WIDTH;
            let y = i / WORLD_WIDTH;
            World::set_tile_static(&mut world.tiles, x, y, decode_tile(b));
            let kind = b & ENTITY_TYPE_MASK;
            if kind == ENTITY_TYPE_MOUSE {
                registry_push(
                    &mut world.mice,
                    Walker::new(x as i8, y as i8, decode_entity_direction(b), WalkerType::Mouse),
                );
            } else if kind == ENTITY_TYPE_CAT {
                registry_push(
                    &mut world.cats,
                    Walker::new(x as i8, y as i8, decode_entity_direction(b), WalkerType::Cat),
                );
            }
            i += 1;
        }
        assert(world.tiles@ =~= loaded_tiles(map@));
        world
    }

    fn get_wall_static(wall_data: &[u8; 199], x: usize, y: usize, direction: Direction) -> (r: bool)
        requires
            x < WORLD_WIDTH,
            y < WORLD_HEIGHT,
        ensures
            r == wall_in(wall_data@, x as int, y as int, direction),
    {
        let (wall_index, mask) = World::get_wrapped_wall_index_and_mask(x, y, direction);
        wall_data[HEADER_SIZE + wall_index] & mask == mask
    }
}

} // verus!
