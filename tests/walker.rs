use shoko_rocket::{Direction, WalkResult, Walker, WalkerState, WalkerType};

/// GIVEN a mouse at 0,0
/// WHEN it walks right 180 times
/// THEN it reaches a new square on the 60th, 120th and 180th walk cycle
#[test]
fn mouse_walker_indicates_new_square() {
    let mut walker = Walker::new(0, 0, Direction::Right, WalkerType::Mouse);

    for step in 1..=180 {
        if step % 60 == 0 {
            assert_eq!(WalkResult::NewSquare, walker.walk());
        } else {
            assert_eq!(WalkResult::SameSquare, walker.walk());
        }
    }
}

/// GIVEN a cat at 0,0
/// WHEN it walks right 180 times
/// THEN it reaches a new square on the 90th and 180th walk cycle
#[test]
fn cat_walker_indicates_new_square() {
    let mut walker = Walker::new(0, 0, Direction::Right, WalkerType::Cat);

    for step in 1..=180 {
        if step % 90 == 0 {
            assert_eq!(WalkResult::NewSquare, walker.walk());
        } else {
            assert_eq!(WalkResult::SameSquare, walker.walk());
        }
    }
}

#[test]
fn walking_up_and_left_decrease_coordinates() {
    let mut up = Walker::new(5, 5, Direction::Up, WalkerType::Mouse);
    let mut left = Walker::new(5, 5, Direction::Left, WalkerType::Cat);
    for _ in 0..60 {
        up.walk();
    }
    for _ in 0..90 {
        left.walk();
    }
    assert_eq!(4, up.get_y().integer_part());
    assert_eq!(5, up.get_x().integer_part());
    assert_eq!(4, left.get_x().integer_part());
    assert_eq!(0, left.get_x().fractional_part());
}

#[test]
fn kill_and_rescue_change_state() {
    let mut a = Walker::new(0, 0, Direction::Up, WalkerType::Mouse);
    let mut b = Walker::new(0, 0, Direction::Up, WalkerType::Cat);
    assert_eq!(WalkerState::Alive, a.get_state());
    a.kill();
    b.rescue();
    assert_eq!(WalkerState::Dead, a.get_state());
    assert_eq!(WalkerState::Rescued, b.get_state());
    assert!(!a.is_alive());
}
