//! What one tick does to one walker, and to a registry of walkers, stated
//! as spec functions: the step, the wrap onto the grid, and the resolution
//! of the entered cell.
use vstd::prelude::*;

use crate::direction::{left_of, opposite_of, right_of, Direction};
use crate::fixed_point::FixedPoint;
use crate::map_format::{cell_index, in_grid, wall_in, WORLD_HEIGHT, WORLD_WIDTH};
use crate::tile_type::{arrow_direction_of, diminished, TileType};
use crate::walker::{reaches_new_square, walked, Walker, WalkerState, WalkerType};
use crate::walker_list::alive_only;
use crate::world_state::WorldStateChange;

verus! {

/// A coordinate whose whole part left the range `[0, n)` by one cell, brought
/// back across the wrap-around edge.
pub open spec fn wrap_coord(f: FixedPoint, n: int) -> FixedPoint {
    if f.value < 0 {
        FixedPoint { value: (f.value + n) as i8, ..f }
    } else if f.value >= n {
        FixedPoint { value: (f.value - n) as i8, ..f }
    } else {
        f
    }
}

/// The walker with both coordinates wrapped onto the grid.
pub open spec fn wrapped(w: Walker) -> Walker {
    Walker { x: wrap_coord(w.x, WORLD_WIDTH as int), y: wrap_coord(w.y, WORLD_HEIGHT as int), ..w }
}

/// Index of the cell the walker is in.
pub open spec fn cell_of(w: Walker) -> int {
    cell_index(w.x.value as int, w.y.value as int)
}

/// Resolution on entering a cell, first step: a hole kills, a rocket rescues.
pub open spec fn after_hole_or_rocket(tiles: Seq<TileType>, w: Walker) -> Walker {
    match tiles[cell_of(w)] {
        TileType::Hole => Walker { state: WalkerState::Dead, ..w },
        TileType::Rocket => Walker { state: WalkerState::Rescued, ..w },
        _ => w,
    }
}

/// Second step: an arrow sets the walker's direction; a cat that was heading
/// straight against the arrow diminishes it.
pub open spec fn after_arrow(tiles: Seq<TileType>, w: Walker) -> (Seq<TileType>, Walker) {
    let t = tiles[cell_of(w)];
    match arrow_direction_of(t) {
        Some(d) => (
            if w.walker_type == WalkerType::Cat && opposite_of(w.direction) == d {
                tiles.update(cell_of(w), diminished(t))
            } else {
                tiles
            },
            Walker { direction: d, ..w },
        ),
        None => (tiles, w),
    }
}

/// The first of `d`, its right, its left and its opposite with no wall on
/// that side of `(x, y)`; `d` itself when all four are walled.
pub open spec fn bounce_direction(data: Seq<u8>, x: int, y: int, d: Direction) -> Direction {
    if !wall_in(data, x, y, d) {
        d
    } else if !wall_in(data, x, y, right_of(d)) {
        right_of(d)
    } else if !wall_in(data, x, y, left_of(d)) {
        left_of(d)
    } else if !wall_in(data, x, y, opposite_of(d)) {
        opposite_of(d)
    } else {
        d
    }
}

/// Third step: the walker turns away from walls.
pub open spec fn after_walls(data: Seq<u8>, w: Walker) -> Walker {
    Walker { direction: bounce_direction(data, w.x.value as int, w.y.value as int, w.direction), ..w }
}

/// The tiles and the walker after the walker has entered its current cell.
pub open spec fn settled(tiles: Seq<TileType>, data: Seq<u8>, w: Walker) -> (Seq<TileType>, Walker) {
    let arrowed = after_arrow(tiles, after_hole_or_rocket(tiles, w));
    (arrowed.0, after_walls(data, arrowed.1))
}

/// The tiles and the walker after one tick of that walker: it steps, and if
/// it reached a new cell it wraps onto the grid and the cell is resolved.
pub open spec fn advanced(tiles: Seq<TileType>, data: Seq<u8>, w: Walker) -> (Seq<TileType>, Walker) {
    if reaches_new_square(w) {
        settled(tiles, data, wrapped(walked(w)))
    } else {
        (tiles, walked(w))
    }
}

/// The tiles and the walkers after each walker of `ws` has had its tick, in
/// order, each seeing the tiles its predecessors left.
pub open spec fn advanced_all(tiles: Seq<TileType>, data: Seq<u8>, ws: Seq<Walker>) -> (Seq<TileType>, Seq<Walker>)
    decreases ws.len(),
{
    if ws.len() == 0 {
        (tiles, Seq::empty())
    } else {
        let before = advanced_all(tiles, data, ws.drop_last());
        let last = advanced(before.0, data, ws.last());
        (last.0, before.1.push(last.1))
    }
}

/// Whether some walker of `ws` is in state `s`.
pub open spec fn any_in(ws: Seq<Walker>, s: WalkerState) -> bool {
    exists|i: int| 0 <= i < ws.len() && #[trigger] ws[i].state == s
}

/// Whether every walker of `ws` is in state `s`.
pub open spec fn all_in(ws: Seq<Walker>, s: WalkerState) -> bool {
    forall|i: int| 0 <= i < ws.len() ==> #[trigger] ws[i].state == s
}

/// The outcome of a tick whose walkers ended as `mice` and `cats`: a dead
/// mouse or a rescued cat loses; otherwise, with at least one mouse, all of
/// them rescued wins.
pub open spec fn outcome(mice: Seq<Walker>, cats: Seq<Walker>) -> WorldStateChange {
    if any_in(mice, WalkerState::Dead) || any_in(cats, WalkerState::Rescued) {
        WorldStateChange::Lose
    } else if mice.len() > 0 && all_in(mice, WalkerState::Rescued) {
        WorldStateChange::Win
    } else {
        WorldStateChange::NoChange
    }
}

/// A dead mouse or a rescued cat loses, whatever else happened in the tick;
/// while every mouse is still alive and no cat is rescued, dead cats change
/// nothing; and with no cat rescued, a lone mouse rescued wins.
pub proof fn lemma_outcome_rules(mice: Seq<Walker>, cats: Seq<Walker>)
    ensures
        any_in(mice, WalkerState::Dead) ==> outcome(mice, cats) == WorldStateChange::Lose,
        any_in(cats, WalkerState::Rescued) ==> outcome(mice, cats) == WorldStateChange::Lose,
        all_in(mice, WalkerState::Alive) && !any_in(cats, WalkerState::Rescued) ==> outcome(
            mice,
            cats,
        ) == WorldStateChange::NoChange,
        mice.len() == 1 && mice[0].state == WalkerState::Rescued && !any_in(
            cats,
            WalkerState::Rescued,
        ) ==> outcome(mice, cats) == WorldStateChange::Win,
{
    if all_in(mice, WalkerState::Alive) && mice.len() > 0 {
        assert(mice[0].state == WalkerState::Alive);
    }
}

pub(crate) proof fn lemma_walk_stays_near(w: Walker)
    requires
        placed_ok(w),
    ensures
        w.wf(),
        placed_ok(walked(w)) <== !reaches_new_square(w),
        reaches_new_square(w) ==> -1 <= walked(w).x.value <= WORLD_WIDTH && -1 <= walked(w).y.value
            <= WORLD_HEIGHT && placed_ok(wrapped(walked(w))),
        walked(w).walker_type == w.walker_type,
        walked(w).state == w.state,
{
}

pub(crate) proof fn lemma_alive_only_ok(s: Seq<Walker>, t: WalkerType)
    requires
        forall|i: int| 0 <= i < s.len() ==> placed_ok(#[trigger] s[i]) && s[i].walker_type == t,
    ensures
        forall|i: int| 0 <= i < alive_only(s).len() ==> walker_ok(#[trigger] alive_only(s)[i], t),
    decreases s.len(),
{
    reveal(Seq::filter);
    if s.len() > 0 {
        lemma_alive_only_ok(s.drop_last(), t);
        assert(alive_only(s) == if s.last().state == WalkerState::Alive {
            alive_only(s.drop_last()).push(s.last())
        } else {
            alive_only(s.drop_last())
        });
    }
}

/// Wall bounce tries the current direction, then right, then left, then
/// back: with walls ahead and to the right but not to the left the walker
/// turns left, and with walls ahead, right and left (a U shape) it turns
/// around.
pub proof fn lemma_bounce_priority(data: Seq<u8>, x: int, y: int, d: Direction)
    ensures
        !wall_in(data, x, y, d) ==> bounce_direction(data, x, y, d) == d,
        wall_in(data, x, y, d) && !wall_in(data, x, y, right_of(d)) ==> bounce_direction(data, x, y, d)
            == right_of(d),
        wall_in(data, x, y, d) && wall_in(data, x, y, right_of(d)) && !wall_in(data, x, y, left_of(d))
            ==> bounce_direction(data, x, y, d) == left_of(d),
        wall_in(data, x, y, d) && wall_in(data, x, y, right_of(d)) && wall_in(data, x, y, left_of(d))
            && !wall_in(data, x, y, opposite_of(d)) ==> bounce_direction(data, x, y, d)
            == opposite_of(d),
{
}

/// A walker entering a cell whose arrow points against its direction is
/// turned around. A mouse leaves the arrow as it is; a cat diminishes it. A
/// cell with no arrow leaves both the walker and the tiles unchanged.
pub proof fn lemma_opposing_arrow(tiles: Seq<TileType>, w: Walker)
    ensures
        arrow_direction_of(tiles[cell_of(w)]) == Some(opposite_of(w.direction)) ==> {
            &&& after_arrow(tiles, w).1 == (Walker { direction: opposite_of(w.direction), ..w })
            &&& w.walker_type == WalkerType::Mouse ==> after_arrow(tiles, w).0 == tiles
            &&& w.walker_type == WalkerType::Cat ==> after_arrow(tiles, w).0 == tiles.update(
                cell_of(w),
                diminished(tiles[cell_of(w)]),
            )
        },
        arrow_direction_of(tiles[cell_of(w)]) is None ==> after_arrow(tiles, w) == (tiles, w),
{
}

/// A walker that a registry of kind `t` may hold between ticks.
pub open spec fn walker_ok(w: Walker, t: WalkerType) -> bool {
    &&& w.walker_type == t
    &&& w.state == WalkerState::Alive
    &&& placed_ok(w)
}

/// The walker's whole coordinates name a cell and its fractional parts are
/// well formed.
pub open spec fn placed_ok(w: Walker) -> bool {
    &&& in_grid(w.x.value as int, w.y.value as int)
    &&& w.x.wf()
    &&& w.y.wf()
}

} // verus!
