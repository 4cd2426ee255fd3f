use shoko_rocket::Direction;

/// GIVEN the four ordinal directions
/// WHEN the are turned left
/// THEN we get the correct result
#[test]
fn turn_left() {
    assert_eq!(Direction::Up.turn_left(), Direction::Left);
    assert_eq!(Direction::Down.turn_left(), Direction::Right);
    assert_eq!(Direction::Left.turn_left(), Direction::Down);
    assert_eq!(Direction::Right.turn_left(), Direction::Up);
}

/// GIVEN the four ordinal directions
/// WHEN the are turned right
/// THEN we get the correct result
#[test]
fn turn_right() {
    assert_eq!(Direction::Up.turn_right(), Direction::Right);
    assert_eq!(Direction::Down.turn_right(), Direction::Left);
    assert_eq!(Direction::Left.turn_right(), Direction::Up);
    assert_eq!(Direction::Right.turn_right(), Direction::Down);
}

/// GIVEN the four ordinal directions
/// WHEN the are turned around
/// THEN we get the correct result
#[test]
fn turn_around() {
    assert_eq!(Direction::Up.turn_around(), Direction::Down);
    assert_eq!(Direction::Down.turn_around(), Direction::Up);
    assert_eq!(Direction::Left.turn_around(), Direction::Right);
    assert_eq!(Direction::Right.turn_around(), Direction::Left);
}

#[test]
fn four_right_turns_come_back() {
    for d in [Direction::Up, Direction::Down, Direction::Left, Direction::Right] {
        assert_eq!(d, d.turn_right().turn_right().turn_right().turn_right());
        assert_eq!(d, d.turn_right().turn_left());
        assert_eq!(d.turn_around(), d.turn_right().turn_right());
    }
}
