use vstd::prelude::*;

use crate::direction::Direction;
use crate::fixed_point::{minus, plus, FixedPoint};

verus! {

/// The kind of a walker, which sets its speed.
#[derive(Copy, Clone, PartialEq, Eq, Debug, Structural)]
pub enum WalkerType {
    Mouse,
    Cat,
}

/// Whether a walker is still in play.
#[derive(Copy, Clone, PartialEq, Eq, Debug, Structural)]
pub enum WalkerState {
    Alive,
    Dead,
    Rescued,
}

/// What a step of a walker reached.
#[derive(PartialEq, Eq, Clone, Copy, Debug, Structural)]
pub enum WalkResult {
    SameSquare,
    NewSquare,
}

/// A mouse or a cat.
#[derive(Copy, Clone, PartialEq, Eq, Debug, Structural)]
pub struct Walker {
    /// Horizontal position; the whole part is the column.
    pub x: FixedPoint,
    /// Vertical position; the whole part is the row.
    pub y: FixedPoint,
    /// Direction of travel.
    pub direction: Direction,
    /// Mouse or cat.
    pub walker_type: WalkerType,
    /// Alive, dead or rescued.
    pub state: WalkerState,
}

/// Distance covered per tick, in 360ths of a cell: a cat crosses a cell in
/// 90 ticks, a mouse in 60.
pub open spec fn speed_of(t: WalkerType) -> i16 {
    match t {
        WalkerType::Cat => 4,
        WalkerType::Mouse => 6,
    }
}

/// The walker after one step in its direction: up and left decrease a
/// coordinate, down and right increase it.
pub open spec fn walked(w: Walker) -> Walker {
    let step = FixedPoint { value: 0, fractional: speed_of(w.walker_type) };
    match w.direction {
        Direction::Up => Walker { y: minus(w.y, step), ..w },
        Direction::Down => Walker { y: plus(w.y, step), ..w },
        Direction::Left => Walker { x: minus(w.x, step), ..w },
        Direction::Right => Walker { x: plus(w.x, step), ..w },
    }
}

/// Whether a step leaves the walker in another cell.
pub open spec fn reaches_new_square(w: Walker) -> bool {
    walked(w).x.value != w.x.value || walked(w).y.value != w.y.value
}

/// Steps a walker of kind `t` takes to cross one cell.
pub open spec fn cell_period(t: WalkerType) -> int {
    match t {
        WalkerType::Cat => 90,
        WalkerType::Mouse => 60,
    }
}

/// The walker after `n` steps.
pub open spec fn walked_n(w: Walker, n: nat) -> Walker
    decreases n,
{
    if n == 0 {
        w
    } else {
        walked(walked_n(w, (n - 1) as nat))
    }
}

/// The coordinate along which the walker moves.
pub open spec fn moving_coordinate(w: Walker) -> FixedPoint {
    match w.direction {
        Direction::Up | Direction::Down => w.y,
        Direction::Left | Direction::Right => w.x,
    }
}

/// The coordinate the walker keeps.
pub open spec fn fixed_coordinate(w: Walker) -> FixedPoint {
    match w.direction {
        Direction::Up | Direction::Down => w.x,
        Direction::Left | Direction::Right => w.y,
    }
}

/// `1` when the walker's coordinate grows, `-1` when it shrinks.
pub open spec fn heading_sign(d: Direction) -> int {
    match d {
        Direction::Down | Direction::Right => 1,
        Direction::Up | Direction::Left => -1,
    }
}

/// `x` with the sign of the direction of travel along its coordinate.
pub open spec fn signed(d: Direction, x: int) -> int {
    if heading_sign(d) == 1 {
        x
    } else {
        -x
    }
}

/// The distance, in 360ths, that a walker of kind `t` covers in `m` steps.
pub open spec fn travelled(t: WalkerType, m: int) -> int {
    match t {
        WalkerType::Cat => 4 * m,
        WalkerType::Mouse => 6 * m,
    }
}

/// The walker starts at the start of a cell, and `n` steps keep its whole
/// coordinate within a byte.
pub open spec fn straight_walk_fits(w: Walker, n: nat) -> bool {
    let v = moving_coordinate(w).value as int;
    let cells = n as int / cell_period(w.walker_type) + 1;
    &&& w.x.fractional == 0
    &&& w.y.fractional == 0
    &&& i8::MIN < v - cells
    &&& v + cells < i8::MAX
    &&& i8::MIN < fixed_coordinate(w).value < i8::MAX
}

proof fn lemma_walk_constants(w: Walker)
    ensures
        cell_period(w.walker_type) == 60 || cell_period(w.walker_type) == 90,
        speed_of(w.walker_type) * cell_period(w.walker_type) == 360,
        heading_sign(w.direction) == 1 || heading_sign(w.direction) == -1,
{
}

/// Where a straight walk from the start of a cell is after `k` steps: the
/// moving coordinate has advanced `k / cell_period` whole cells and
/// `k % cell_period` steps into the next, the other coordinate, the
/// direction, the kind and the state are unchanged.
pub proof fn lemma_walked_n_closed_form(w: Walker, k: nat)
    requires
        straight_walk_fits(w, k),
    ensures
        walked_n(w, k).direction == w.direction,
        walked_n(w, k).walker_type == w.walker_type,
        walked_n(w, k).state == w.state,
        fixed_coordinate(walked_n(w, k)) == fixed_coordinate(w),
        moving_coordinate(walked_n(w, k)).value == moving_coordinate(w).value + signed(
            w.direction,
            k as int / cell_period(w.walker_type),
        ),
        moving_coordinate(walked_n(w, k)).fractional == signed(
            w.direction,
            travelled(w.walker_type, k as int % cell_period(w.walker_type)),
        ),
    decreases k,
{
    let p = cell_period(w.walker_type);
    if k > 0 {
        let ki = k as int;
        let ji = ki - 1;
        assert(ji / p <= ki / p);
        lemma_walked_n_closed_form(w, ji as nat);
        assert(ki % p == if ji % p == p - 1 { 0 } else { ji % p + 1 });
        assert(ki / p == if ji % p == p - 1 { ji / p + 1 } else { ji / p });
        assert(walked_n(w, k) == walked(walked_n(w, ji as nat)));
        lemma_walk_constants(w);
    }
}

/// A walker that starts at the start of a cell and walks straight on
/// reaches a new cell exactly on every `cell_period`-th step: the 60th,
/// 120th, 180th, ... for a mouse and the 90th, 180th, ... for a cat.
pub proof fn lemma_new_square_cadence(w: Walker, n: nat)
    requires
        straight_walk_fits(w, n + 1),
    ensures
        reaches_new_square(walked_n(w, n)) <==> (n as int + 1) % cell_period(w.walker_type) == 0,
{
    let p = cell_period(w.walker_type);
    let ni = n as int;
    assert(ni / p <= (ni + 1) / p);
    lemma_walked_n_closed_form(w, n);
    lemma_walked_n_closed_form(w, n + 1);
    assert(walked_n(w, n + 1) == walked(walked_n(w, n)));
    assert((ni + 1) / p == if (ni + 1) % p == 0 { ni / p + 1 } else { ni / p });
    lemma_walk_constants(w);
}

/// Along a straight walk that fits, each step starts from a walker that
/// `walk` accepts, and takes it to the next position: `n` calls of `walk`
/// take `w` to `walked_n(w, n)`, the `(n + 1)`-th returning whether
/// `walked_n(w, n)` reaches a new square.
pub proof fn lemma_straight_walk_steps(w: Walker, n: nat)
    requires
        straight_walk_fits(w, n + 1),
    ensures
        walked_n(w, n).wf(),
        walked_n(w, n + 1) == walked(walked_n(w, n)),
{
    let p = cell_period(w.walker_type);
    assert((n as int) / p <= (n as int + 1) / p);
    lemma_walked_n_closed_form(w, n);
    lemma_walk_constants(w);
}

impl Walker {
    /// A live walker at the start of cell `(x, y)`.
    pub open spec fn new_spec(x: i8, y: i8, direction: Direction, walker_type: WalkerType) -> Walker {
        Walker {
            x: FixedPoint { value: x, fractional: 0 },
            y: FixedPoint { value: y, fractional: 0 },
            direction,
            walker_type,
            state: WalkerState::Alive,
        }
    }

    /// Both coordinates are well formed and their whole parts are far
    /// enough from the ends of a byte that a step cannot overflow.
    pub open spec fn wf(self) -> bool {
        self.x.wf() && self.y.wf() && i8::MIN < self.x.value < i8::MAX && i8::MIN < self.y.value
            < i8::MAX
    }

    /// Creates a live walker at the start of the cell `(x, y)`.
    pub fn new(x: i8, y: i8, direction: Direction, walker_type: WalkerType) -> (r: Walker)
        ensures
            r == Walker::new_spec(x, y, direction, walker_type),
    {
        Walker {
            x: FixedPoint::new(x, 0),
            y: FixedPoint::new(y, 0),
            direction,
            walker_type,
            state: WalkerState::Alive,
        }
    }

    /// Advances the walker by its speed and reports whether it reached a
    /// new cell.
    pub fn walk(&mut self) -> (r: WalkResult)
        requires
            old(self).wf(),
        ensures
            *final(self) == walked(*old(self)),
            r == (if reaches_new_square(*old(self)) {
                WalkResult::NewSquare
            } else {
                WalkResult::SameSquare
            }),
    {
        let speed = match self.walker_type {
            WalkerType::Cat => FixedPoint::new(0, 4),
            WalkerType::Mouse => FixedPoint::new(0, 6),
        };
        let reached_new_square = match self.direction {
            Direction::Up => {
                let start = self.y;
                self.y = self.y - speed;
                self.y.did_overflow(start)
            },
            Direction::Down => {
                let start = self.y;
                self.y = self.y + speed;
                self.y.did_overflow(start)
            },
            Direction::Left => {
                let start = self.x;
                self.x = self.x - speed;
                self.x.did_overflow(start)
            },
            Direction::Right => {
                let start = self.x;
                self.x = self.x + speed;
                self.x.did_overflow(start)
            },
        };
        if reached_new_square {
            WalkResult::NewSquare
        } else {
            WalkResult::SameSquare
        }
    }

    /// The horizontal position.
    pub fn get_x(&self) -> (r: FixedPoint)
        ensures
            r == self.x,
    {
        self.x
    }

    /// The vertical position.
    pub fn get_y(&self) -> (r: FixedPoint)
        ensures
            r == self.y,
    {
        self.y
    }

    /// The direction of travel.
    pub fn get_direction(&self) -> (r: Direction)
        ensures
            r == self.direction,
    {
        self.direction
    }

    /// Changes the direction of travel.
    pub fn set_direction(&mut self, direction: Direction)
        ensures
            *final(self) == (Walker { direction, ..*old(self) }),
    {
        self.direction = direction;
    }

    /// Whether this is a mouse or a cat.
    pub fn get_type(&self) -> (r: WalkerType)
        ensures
            r == self.walker_type,
    {
        self.walker_type
    }

    /// Whether the walker is alive, dead or rescued.
    pub fn get_state(&self) -> (r: WalkerState)
        ensures
            r == self.state,
    {
        self.state
    }

    /// Whether the walker is still alive.
    pub fn is_alive(&self) -> (r: bool)
        ensures
            r == (self.state == WalkerState::Alive),
    {
        self.state == WalkerState::Alive
    }

    /// Kills a live walker.
    pub fn kill(&mut self)
        requires
            old(self).state == WalkerState::Alive,
        ensures
            *final(self) == (Walker { state: WalkerState::Dead, ..*old(self) }),
    {
        self.state = WalkerState::Dead;
    }

    /// Rescues a live walker.
    pub fn rescue(&mut self)
        requires
            old(self).state == WalkerState::Alive,
        ensures
            *final(self) == (Walker { state: WalkerState::Rescued, ..*old(self) }),
    {
        self.state = WalkerState::Rescued;
    }
}

} // verus!
