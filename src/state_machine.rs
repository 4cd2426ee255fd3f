use vstd::prelude::*;

use crate::input::InputState;
use crate::walker_list::walkers_of;
use crate::direction::Direction;
use crate::map_format::{in_grid, on_border, MAX_TILES};
use crate::tile_type::TileType;
use crate::world::{ticked, World};
use crate::world_state::WorldStateChange;

verus! {

/// Frames after which the intro moves on to the menu by itself.
pub const INTRO_FRAMES: u32 = 120;

/// Frames between a transition request and the switch of state.
pub const TRANSITION_FRAMES: u16 = 45;

/// The number of maps the menu offers.
pub const MAP_COUNT: u16 = 10;

/// The intro screen.
#[derive(PartialEq, Eq, Clone, Copy, Debug, Structural)]
pub struct IntroState {
    /// Frames shown so far.
    pub frame: u32,
    /// Whether the move to the menu has been requested.
    pub transition_started: bool,
}

/// The map selection menu.
#[derive(PartialEq, Eq, Clone, Copy, Debug, Structural)]
pub struct MenuState {
    /// The selected map.
    pub map_index: u16,
    /// The number of maps; the selection runs over `0..map_count` and wraps
    /// between zero and `map_count - 1`.
    pub map_count: u16,
}

/// A game in progress on the state machine's world.
#[derive(PartialEq, Eq, Clone, Copy, Debug, Structural)]
pub struct GameState {}

/// The top-level states of the application.
#[derive(PartialEq, Eq, Clone, Copy, Debug, Structural)]
pub enum AppState {
    Intro(IntroState),
    Menu(MenuState),
    Game(GameState),
}

/// The menu the intro leads to.
pub open spec fn first_menu() -> MenuState {
    MenuState { map_index: 0, map_count: MAP_COUNT }
}

/// The intro after one frame, and the state it asks to move to: the menu,
/// once, when start, A or B is pressed or the intro has run its frames.
pub open spec fn intro_ticked(s: IntroState, input: InputState) -> (IntroState, Option<AppState>) {
    let next = IntroState { frame: (s.frame + 1) as u32, ..s };
    if !s.transition_started && (input.btn_start.pressed || input.btn_a.pressed
        || input.btn_b.pressed || next.frame == INTRO_FRAMES) {
        (IntroState { transition_started: true, ..next }, Some(AppState::Menu(first_menu())))
    } else {
        (next, None)
    }
}

/// The map before `i` in a menu of `n` maps, wrapping from the first to the
/// last.
pub open spec fn previous_map(i: u16, n: u16) -> u16 {
    if i == 0 {
        if n > 0 {
            (n - 1) as u16
        } else {
            0
        }
    } else {
        (i - 1) as u16
    }
}

/// The map after `i` in a menu of `n` maps, wrapping from the last to the
/// first.
pub open spec fn next_map(i: u16, n: u16) -> u16 {
    if i + 1 >= n {
        0
    } else {
        (i + 1) as u16
    }
}

/// The menu after one frame: an up flick selects the previous map and a
/// down flick the next, wrapping at both ends.
pub open spec fn menu_ticked(s: MenuState, input: InputState) -> MenuState {
    let after_up = if input.js_up.pressed {
        previous_map(s.map_index, s.map_count)
    } else {
        s.map_index
    };
    let after_down = if input.js_down.pressed {
        next_map(after_up, s.map_count)
    } else {
        after_up
    };
    MenuState { map_index: after_down, ..s }
}

/// Whether a menu state's selection is one of its maps; true of the other
/// states.
pub open spec fn menu_in_range(s: AppState) -> bool {
    match s {
        AppState::Menu(m) => m.map_index < m.map_count,
        _ => true,
    }
}

/// Whether two states are of the same kind.
pub open spec fn same_kind(a: AppState, b: AppState) -> bool {
    match (a, b) {
        (AppState::Intro(_), AppState::Intro(_)) => true,
        (AppState::Menu(_), AppState::Menu(_)) => true,
        (AppState::Game(_), AppState::Game(_)) => true,
        _ => false,
    }
}

impl IntroState {
    /// Advances the intro by one frame; returns the state to move to, if any.
    pub fn tick(&mut self, input: &InputState) -> (r: Option<AppState>)
        requires
            old(self).frame < u32::MAX,
        ensures
            (*final(self), r) == intro_ticked(*old(self), *input),
    {
        self.frame = self.frame + 1;
        if !self.transition_started && (input.btn_start.pressed || input.btn_a.pressed
            || input.btn_b.pressed || self.frame == INTRO_FRAMES) {
            self.transition_started = true;
            Some(AppState::Menu(MenuState { map_count: MAP_COUNT, map_index: 0 }))
        } else {
            None
        }
    }
}

impl MenuState {
    /// Moves the selection on joystick flicks; never asks to move on. A
    /// selection within the menu's maps stays within them.
    pub fn tick(&mut self, input: &InputState) -> (r: Option<AppState>)
        ensures
            *final(self) == menu_ticked(*old(self), *input),
            final(self).map_count == old(self).map_count,
            old(self).map_index < old(self).map_count ==> final(self).map_index
                < old(self).map_count,
            r is None,
    {
        if input.js_up.pressed {
            self.map_index = if self.map_index == 0 {
                if self.map_count > 0 {
                    self.map_count - 1
                } else {
                    0
                }
            } else {
                self.map_index - 1
            };
        }
        if input.js_down.pressed {
            self.map_index = if self.map_count == 0 || self.map_index >= self.map_count - 1 {
                0
            } else {
                self.map_index + 1
            };
        }
        None
    }
}

impl GameState {
    /// The game asks for no other state by itself.
    pub fn tick(&mut self, _input: &InputState) -> (r: Option<AppState>)
        ensures
            *final(self) == *old(self),
            r is None,
    {
        None
    }
}

/// The state after one frame, and the state it asks to move to.
pub open spec fn app_ticked(s: AppState, input: InputState) -> (AppState, Option<AppState>) {
    match s {
        AppState::Intro(i) => (AppState::Intro(intro_ticked(i, input).0), intro_ticked(i, input).1),
        AppState::Menu(m) => (AppState::Menu(menu_ticked(m, input)), None),
        AppState::Game(g) => (AppState::Game(g), None),
    }
}

impl AppState {
    /// Runs one frame of whichever state this is; returns the state it asks
    /// to move to, if any.
    pub fn tick(&mut self, input: &InputState) -> (r: Option<AppState>)
        requires
            match *old(self) {
                AppState::Intro(i) => i.frame < u32::MAX,
                _ => true,
            },
        ensures
            (*final(self), r) == app_ticked(*old(self), *input),
    {
        match *self {
            AppState::Intro(s) => {
                let mut next = s;
                let request = next.tick(input);
                *self = AppState::Intro(next);
                request
            },
            AppState::Menu(s) => {
                let mut next = s;
                let request = next.tick(input);
                *self = AppState::Menu(next);
                request
            },
            AppState::Game(s) => {
                let mut next = s;
                let request = next.tick(input);
                *self = AppState::Game(next);
                request
            },
        }
    }
}

fn same_kind_exec(a: &AppState, b: &AppState) -> (r: bool)
    ensures
        r == same_kind(*a, *b),
{
    match (a, b) {
        (AppState::Intro(_), AppState::Intro(_)) => true,
        (AppState::Menu(_), AppState::Menu(_)) => true,
        (AppState::Game(_), AppState::Game(_)) => true,
        _ => false,
    }
}

/// The top-level state machine: the current state, the world a game plays
/// on, and a pending transition with its countdown.
pub struct StateMachine {
    /// The state that runs each frame.
    pub state: AppState,
    /// The loaded world.
    pub world: World,
    /// The state a pending transition leads to.
    pub target_state: AppState,
    /// Frames left before a pending transition takes effect.
    pub transition_timer: u16,
}

/// The current state and countdown after the transition step of a frame: a
/// pending transition, to a state of another kind, counts down and switches
/// once the countdown is at zero.
pub open spec fn after_transition(m: StateMachine) -> (AppState, u16) {
    if !same_kind(m.state, m.target_state) {
        if m.transition_timer > 0 {
            (m.state, (m.transition_timer - 1) as u16)
        } else {
            (m.target_state, m.transition_timer)
        }
    } else {
        (m.state, m.transition_timer)
    }
}

/// `new` and `r` are the machine and the world's outcome after one frame of
/// `old` with `input`: the transition step, then a frame of the current
/// state; a request for another state starts a new countdown to it.
pub open spec fn machine_ticked(old: StateMachine, new: StateMachine, input: InputState, r: WorldStateChange) -> bool {
    let (state, timer) = after_transition(old);
    match state {
        AppState::Intro(s) => {
            let (next, request) = intro_ticked(s, input);
            &&& new.state == AppState::Intro(next)
            &&& new.world == old.world
            &&& r == WorldStateChange::NoChange
            &&& match request {
                Some(target) => new.target_state == target && new.transition_timer == TRANSITION_FRAMES,
                None => new.target_state == old.target_state && new.transition_timer == timer,
            }
        },
        AppState::Menu(s) => {
            &&& new.state == AppState::Menu(menu_ticked(s, input))
            &&& new.world == old.world
            &&& r == WorldStateChange::NoChange
            &&& new.target_state == old.target_state
            &&& new.transition_timer == timer
        },
        AppState::Game(s) => {
            &&& new.state == AppState::Game(s)
            &&& ticked(old.world, new.world, r)
            &&& new.target_state == old.target_state
            &&& new.transition_timer == timer
        },
    }
}

/// A machine in its normal flow can always run another frame.
pub proof fn lemma_flow_can_tick(m: StateMachine)
    requires
        m.wf(),
    ensures
        m.can_tick(),
{
}

impl StateMachine {
    /// What a frame needs: a well-formed world, and an intro, if one runs
    /// this frame, whose frame count can still grow.
    pub open spec fn can_tick(&self) -> bool {
        &&& self.world.wf()
        &&& match after_transition(*self).0 {
            AppState::Intro(s) => s.frame < u32::MAX,
            _ => true,
        }
    }

    /// The invariant of the machine's normal flow, which every frame keeps:
    /// the world is well formed, a menu's selection is one of its maps, and
    /// the intro's frame count stays bounded (before its transition it is
    /// under the timeout, after it the frames left on the countdown bound it).
    pub open spec fn wf(&self) -> bool {
        &&& self.world.wf()
        &&& menu_in_range(self.state)
        &&& menu_in_range(self.target_state)
        &&& match self.target_state {
            AppState::Intro(_) => match self.state {
                AppState::Intro(s) => !s.transition_started && s.frame < INTRO_FRAMES,
                _ => false,
            },
            _ => match self.state {
                AppState::Intro(s) => s.transition_started && s.frame + self.transition_timer
                    <= INTRO_FRAMES + TRANSITION_FRAMES,
                _ => true,
            },
        }
    }

    /// A machine at the start of the intro, with an empty world: walls on
    /// exactly its outer border, every tile empty, no walker.
    pub fn new() -> (r: StateMachine)
        ensures
            r.wf(),
            r.state == AppState::Intro(IntroState { frame: 0, transition_started: false }),
            r.target_state == r.state,
            r.transition_timer == 0,
            walkers_of(r.world.mice).len() == 0,
            walkers_of(r.world.cats).len() == 0,
            forall|i: int| 0 <= i < MAX_TILES ==> r.world.tiles@[i] == TileType::Empty,
            forall|x: int, y: int, d: Direction|
                in_grid(x, y) ==> (#[trigger] r.world.wall_at(x, y, d) <==> on_border(x, y, d)),
    {
        StateMachine::with_world(World::new())
    }

    /// A machine at the start of the intro, holding `world`.
    pub fn with_world(world: World) -> (r: StateMachine)
        requires
            world.wf(),
        ensures
            r.wf(),
            r.state == AppState::Intro(IntroState { frame: 0, transition_started: false }),
            r.target_state == r.state,
            r.transition_timer == 0,
            r.world == world,
    {
        let initial_state = AppState::Intro(IntroState { frame: 0, transition_started: false });
        StateMachine { state: initial_state, world, target_state: initial_state, transition_timer: 0 }
    }

    /// Runs one frame: a pending transition counts down or takes effect,
    /// then the current state runs with `input`. In a game the world ticks
    /// and its outcome is returned; otherwise the outcome is `NoChange`.
    pub fn tick(&mut self, input: &InputState) -> (r: WorldStateChange)
        requires
            old(self).can_tick(),
        ensures
            final(self).world.wf(),
            old(self).wf() ==> final(self).wf(),
            machine_ticked(*old(self), *final(self), *input, r),
    {
        if !same_kind_exec(&self.state, &self.target_state) {
            if self.transition_timer > 0 {
                self.transition_timer = self.transition_timer - 1;
            } else {
                self.state = self.target_state;
            }
        }
        let request = self.state.tick(input);
        let change = match self.state {
            AppState::Game(_) => self.world.tick(),
            _ => WorldStateChange::NoChange,
        };
        match request {
            Some(target) => {
                self.target_state = target;
                self.transition_timer = TRANSITION_FRAMES;
            },
            None => {},
        }
        change
    }
}

} // verus!
