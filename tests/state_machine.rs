use shoko_rocket::{
    AppState, ButtonState, Direction, GameState, InputState, IntroState, MenuState, StateMachine,
    TileType, WalkerType, World, WorldStateChange,
};

fn is_menu(state: &AppState) -> bool {
    matches!(state, AppState::Menu(_))
}

#[test]
fn intro_moves_to_menu_after_timeout_and_grace() {
    let mut machine = StateMachine::new();
    let input = InputState::new();
    for _ in 0..120 {
        assert_eq!(WorldStateChange::NoChange, machine.tick(&input));
    }
    assert!(matches!(machine.state, AppState::Intro(IntroState { frame: 120, transition_started: true })));
    assert_eq!(45, machine.transition_timer);
    for _ in 0..45 {
        machine.tick(&input);
        assert!(!is_menu(&machine.state));
    }
    machine.tick(&input);
    assert_eq!(AppState::Menu(MenuState { map_index: 0, map_count: 10 }), machine.state);
}

#[test]
fn button_press_leaves_intro_once() {
    let mut machine = StateMachine::new();
    let mut input = InputState::new();
    input.btn_a = ButtonState::down();
    machine.tick(&input);
    assert_eq!(45, machine.transition_timer);
    // Pressing again during the grace period does not restart the countdown.
    machine.tick(&input);
    assert_eq!(44, machine.transition_timer);
    let idle = InputState::new();
    for _ in 0..44 {
        machine.tick(&idle);
    }
    assert!(!is_menu(&machine.state));
    machine.tick(&idle);
    assert!(is_menu(&machine.state));
}

#[test]
fn menu_selection_wraps_at_both_ends() {
    let mut menu = MenuState { map_index: 0, map_count: 10 };
    let mut up = InputState::new();
    up.js_up = ButtonState::down();
    let mut down = InputState::new();
    down.js_down = ButtonState::down();
    assert_eq!(None, menu.tick(&up));
    assert_eq!(9, menu.map_index);
    menu.tick(&down);
    assert_eq!(0, menu.map_index);
    menu.tick(&down);
    assert_eq!(1, menu.map_index);
    menu.tick(&up);
    assert_eq!(0, menu.map_index);
}

#[test]
fn menu_selection_stays_among_the_maps() {
    let mut menu = MenuState { map_index: 0, map_count: 10 };
    let mut down = InputState::new();
    down.js_down = ButtonState::down();
    for step in 1..=25u16 {
        menu.tick(&down);
        assert_eq!(step % 10, menu.map_index);
        assert!(menu.map_index < menu.map_count);
    }
    let mut single = MenuState { map_index: 0, map_count: 1 };
    single.tick(&down);
    assert_eq!(0, single.map_index);
    let mut up = InputState::new();
    up.js_up = ButtonState::down();
    single.tick(&up);
    assert_eq!(0, single.map_index);
}

#[test]
fn new_machine_holds_a_bordered_empty_world() {
    let machine = StateMachine::new();
    assert_eq!(0, machine.world.mouse_count());
    assert_eq!(0, machine.world.cat_count());
    for y in 0..9 {
        for x in 0..12 {
            assert_eq!(TileType::Empty, machine.world.get_arrow(x, y));
            assert_eq!(y == 0, machine.world.get_wall(x, y, Direction::Up));
            assert_eq!(x == 11, machine.world.get_wall(x, y, Direction::Right));
        }
    }
}

#[test]
fn intro_counts_frames() {
    let mut intro = IntroState { frame: 0, transition_started: false };
    let input = InputState::new();
    for _ in 0..119 {
        assert_eq!(None, intro.tick(&input));
    }
    assert_eq!(Some(AppState::Menu(MenuState { map_index: 0, map_count: 10 })), intro.tick(&input));
    assert_eq!(None, intro.tick(&input));
}

#[test]
fn game_state_ticks_the_world() {
    let mut world = World::new();
    world.set_tile(1, 0, TileType::Rocket);
    world.create_walker(0, 0, Direction::Right, WalkerType::Mouse);
    let mut machine = StateMachine::with_world(world);
    machine.state = AppState::Game(GameState {});
    machine.target_state = AppState::Game(GameState {});
    let input = InputState::new();
    for _ in 0..59 {
        assert_eq!(WorldStateChange::NoChange, machine.tick(&input));
    }
    assert_eq!(WorldStateChange::Win, machine.tick(&input));
    assert_eq!(0, machine.world.mouse_count());
}
