use shoko_rocket::{input_from_readings, ArrowStock, ButtonEvent, ButtonState, Direction, InputState};

#[test]
fn centred_joystick_reads_zero() {
    let input = input_from_readings(&vec![], 0, 2048, 2048, &InputState::new());
    assert_eq!(0, input.js_x);
    assert_eq!(0, input.js_y);
    assert_eq!(InputState::new(), input);
}

#[test]
fn flick_starts_beyond_threshold_and_ends_in_dead_zone() {
    let idle = InputState::new();
    let flicked = input_from_readings(&vec![], 0, 2048, 4095, &idle);
    assert_eq!(2047, flicked.js_y);
    assert_eq!(ButtonState::down(), flicked.js_up);
    assert_eq!(ButtonState::new(), flicked.js_down);

    let held = input_from_readings(&vec![], 0, 2048, 3000, &flicked);
    assert_eq!(ButtonState { down: true, pressed: false, released: false }, held.js_up);

    let back = input_from_readings(&vec![], 0, 2048, 2048, &held);
    assert_eq!(ButtonState::up(), back.js_up);

    let left = input_from_readings(&vec![], 0, 0, 2048, &idle);
    assert_eq!(-2048, left.js_x);
    assert_eq!(ButtonState::down(), left.js_left);
    let left_back = input_from_readings(&vec![], 0, 2048, 2048, &left);
    assert_eq!(ButtonState::up(), left_back.js_left);
}

#[test]
fn button_events_and_held_mask() {
    let last = InputState::new();
    let input = input_from_readings(&vec![ButtonEvent::ADown, ButtonEvent::StartUp], 0b0100, 2048, 2048, &last);
    assert_eq!(ButtonState::down(), input.btn_a);
    assert_eq!(ButtonState::up(), input.btn_start);
    assert_eq!(ButtonState::new(), input.btn_b);
    let held = input_from_readings(&vec![], 0b1000, 2048, 2048, &input);
    assert_eq!(ButtonState { down: true, pressed: false, released: false }, held.btn_b);
    assert_eq!(ButtonState::new(), held.btn_a);
}

#[test]
fn arrow_stock_counts_per_direction() {
    let mut stock = ArrowStock::new();
    stock.set(Direction::Left, 10);
    assert_eq!(0, stock.get(Direction::Up));
    assert_eq!(0, stock.get(Direction::Down));
    assert_eq!(10, stock.get(Direction::Left));
    assert_eq!(0, stock.get(Direction::Right));
}
