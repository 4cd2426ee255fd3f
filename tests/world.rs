use shoko_rocket::{
    Direction, TileType, Walker, WalkerType, World, WorldStateChange, ENTITY_DIRECTION_DOWN,
    ENTITY_DIRECTION_MASK, ENTITY_DIRECTION_UP, ENTITY_TYPE_CAT, ENTITY_TYPE_MASK,
    ENTITY_TYPE_MOUSE, HEADER_SIZE, WALL_BLOCK_SIZE, WORLD_HEIGHT, WORLD_WIDTH,
};

/// GIVEN A row of cells and a direction
/// WHEN we calculate the wall index and bitmask
/// THEN the correct values are returned
#[test]
fn index_and_mask() {
    assert_eq!((0, 0b00000001), World::get_wrapped_wall_index_and_mask(0, 0, Direction::Up));
    assert_eq!((0, 0b00000100), World::get_wrapped_wall_index_and_mask(1, 0, Direction::Up));
    assert_eq!((0, 0b00010000), World::get_wrapped_wall_index_and_mask(2, 0, Direction::Up));
    assert_eq!((0, 0b01000000), World::get_wrapped_wall_index_and_mask(3, 0, Direction::Up));
    assert_eq!((1, 0b00000001), World::get_wrapped_wall_index_and_mask(4, 0, Direction::Up));

    assert_eq!((0, 0b00000010), World::get_wrapped_wall_index_and_mask(0, 0, Direction::Left));
    assert_eq!((0, 0b00001000), World::get_wrapped_wall_index_and_mask(1, 0, Direction::Left));
    assert_eq!((0, 0b00100000), World::get_wrapped_wall_index_and_mask(2, 0, Direction::Left));
    assert_eq!((0, 0b10000000), World::get_wrapped_wall_index_and_mask(3, 0, Direction::Left));
    assert_eq!((1, 0b00000010), World::get_wrapped_wall_index_and_mask(4, 0, Direction::Left));

    // Down walls are the top wall of the cell below, increasing the index by 3
    assert_eq!((3, 0b00000001), World::get_wrapped_wall_index_and_mask(0, 0, Direction::Down));
    assert_eq!((3, 0b00000100), World::get_wrapped_wall_index_and_mask(1, 0, Direction::Down));
    assert_eq!((3, 0b00010000), World::get_wrapped_wall_index_and_mask(2, 0, Direction::Down));
    assert_eq!((3, 0b01000000), World::get_wrapped_wall_index_and_mask(3, 0, Direction::Down));
    assert_eq!((4, 0b00000001), World::get_wrapped_wall_index_and_mask(4, 0, Direction::Down));

    // Right walls are the left wall of the cell to the right, shifting the mask and increasing
    // the index by 1 for every 4th element
    assert_eq!((0, 0b00001000), World::get_wrapped_wall_index_and_mask(0, 0, Direction::Right));
    assert_eq!((0, 0b00100000), World::get_wrapped_wall_index_and_mask(1, 0, Direction::Right));
    assert_eq!((0, 0b10000000), World::get_wrapped_wall_index_and_mask(2, 0, Direction::Right));
    assert_eq!((1, 0b00000010), World::get_wrapped_wall_index_and_mask(3, 0, Direction::Right));
    assert_eq!((1, 0b00001000), World::get_wrapped_wall_index_and_mask(4, 0, Direction::Right));
}

/// GIVEN A row of cells and a direction
/// WHEN we calculate the wall index and bitmask
/// THEN the correct values are returned
#[test]
fn index_and_masm() {
    assert_eq!((0, 0b00000001), World::get_wrapped_wall_index_and_mask(0, 0, Direction::Up));
    assert_eq!((0, 0b00000100), World::get_wrapped_wall_index_and_mask(1, 0, Direction::Up));
    assert_eq!((0, 0b00010000), World::get_wrapped_wall_index_and_mask(2, 0, Direction::Up));
    assert_eq!((0, 0b01000000), World::get_wrapped_wall_index_and_mask(3, 0, Direction::Up));
    assert_eq!((1, 0b00000001), World::get_wrapped_wall_index_and_mask(4, 0, Direction::Up));

    assert_eq!((0, 0b00000010), World::get_wrapped_wall_index_and_mask(0, 0, Direction::Left));
    assert_eq!((0, 0b00001000), World::get_wrapped_wall_index_and_mask(1, 0, Direction::Left));
    assert_eq!((0, 0b00100000), World::get_wrapped_wall_index_and_mask(2, 0, Direction::Left));
    assert_eq!((0, 0b10000000), World::get_wrapped_wall_index_and_mask(3, 0, Direction::Left));
    assert_eq!((1, 0b00000010), World::get_wrapped_wall_index_and_mask(4, 0, Direction::Left));

    assert_eq!((3, 0b00000001), World::get_wrapped_wall_index_and_mask(0, 0, Direction::Down));
    assert_eq!((3, 0b00000100), World::get_wrapped_wall_index_and_mask(1, 0, Direction::Down));
    assert_eq!((3, 0b00010000), World::get_wrapped_wall_index_and_mask(2, 0, Direction::Down));
    assert_eq!((3, 0b01000000), World::get_wrapped_wall_index_and_mask(3, 0, Direction::Down));
    assert_eq!((4, 0b00000001), World::get_wrapped_wall_index_and_mask(4, 0, Direction::Down));

    assert_eq!((0, 0b00001000), World::get_wrapped_wall_index_and_mask(0, 0, Direction::Right));
    assert_eq!((0, 0b00100000), World::get_wrapped_wall_index_and_mask(1, 0, Direction::Right));
    assert_eq!((0, 0b10000000), World::get_wrapped_wall_index_and_mask(2, 0, Direction::Right));
    assert_eq!((1, 0b00000010), World::get_wrapped_wall_index_and_mask(3, 0, Direction::Right));
    assert_eq!((1, 0b00001000), World::get_wrapped_wall_index_and_mask(4, 0, Direction::Right));
}

/// GIVEN a newly created world
/// WHEN we check the walls
/// THEN the walls are around the edge only
#[test]
fn world_new_creates_outline() {
    let world = World::new();

    // Top and bottom set
    for x in 0..WORLD_WIDTH {
        assert_eq!(true, world.get_wall(x, 0, Direction::Up));
        assert_eq!(true, world.get_wall(x, WORLD_HEIGHT - 1, Direction::Down));
    }

    // Left and right set
    for y in 0..WORLD_HEIGHT {
        assert_eq!(true, world.get_wall(0, y, Direction::Left));
        assert_eq!(true, world.get_wall(WORLD_WIDTH - 1, y, Direction::Right));
    }

    // Everything else not set
    for y in 1..WORLD_HEIGHT - 1 {
        for x in 1..WORLD_WIDTH - 1 {
            assert_eq!(false, world.get_wall(x, y, Direction::Up));
            assert_eq!(false, world.get_wall(x, y, Direction::Down));
            assert_eq!(false, world.get_wall(x, y, Direction::Left));
            assert_eq!(false, world.get_wall(x, y, Direction::Right));
        }
    }
}

/// GIVEN an empty world
/// WHEN a walker is created
/// THEN the walker is added to the correct walker array
/// AND the walker is added to the backing data
#[test]
fn walker_creation() {
    let mut world = World::new();
    world.create_walker(1, 1, Direction::Down, WalkerType::Mouse);
    world.create_walker(4, 4, Direction::Up, WalkerType::Cat);

    // The walkers exist
    assert_eq!(1, world.mice.len());
    assert_eq!(1, world.cats.len());

    // The source data has been updated to include the walker
    let walker_data = &world.data[HEADER_SIZE + WALL_BLOCK_SIZE..];
    // Walkers are packed into one byte, so let's find them
    assert_eq!(ENTITY_TYPE_MOUSE, walker_data[WORLD_WIDTH * 1 + 1] & ENTITY_TYPE_MASK);
    assert_eq!(ENTITY_DIRECTION_DOWN, walker_data[WORLD_WIDTH * 1 + 1] & ENTITY_DIRECTION_MASK);
    assert_eq!(ENTITY_TYPE_CAT, walker_data[WORLD_WIDTH * 4 + 4] & ENTITY_TYPE_MASK);
    assert_eq!(ENTITY_DIRECTION_UP, walker_data[WORLD_WIDTH * 4 + 4] & ENTITY_DIRECTION_MASK);
}

/// GIVEN an existing walker
/// WHEN a new walker is created at the same spot
/// THEN the operation is rejected
#[test]
fn walkers_cannot_be_created_in_same_square() {
    let mut world = World::new();
    let created_1 = world.create_walker(0, 0, Direction::Down, WalkerType::Cat);
    let created_2 = world.create_walker(0, 0, Direction::Down, WalkerType::Cat);

    assert_eq!(true, created_1);
    assert_eq!(false, created_2);
}

/// GIVEN a wall directly ahead
/// WHEN a walker walks towards/along/away from the wall
/// THEN the correct turns (right/none/none) are made
#[test]
fn world_walker_wall_straight() {
    let world = World::new();
    let mut walker_up = Walker::new(4, 0, Direction::Up, WalkerType::Mouse);
    let mut walker_down = Walker::new(4, 0, Direction::Down, WalkerType::Mouse);
    let mut walker_left = Walker::new(4, 0, Direction::Left, WalkerType::Mouse);
    let mut walker_right = Walker::new(4, 0, Direction::Right, WalkerType::Mouse);

    world.check_walls(&mut walker_up);
    world.check_walls(&mut walker_down);
    world.check_walls(&mut walker_left);
    world.check_walls(&mut walker_right);

    assert_eq!(Direction::Right, walker_up.get_direction());
    assert_eq!(Direction::Down, walker_down.get_direction());
    assert_eq!(Direction::Left, walker_left.get_direction());
    assert_eq!(Direction::Right, walker_right.get_direction());
}

/// GIVEN a wall directly ahead and to the right
/// WHEN the walker walks towards/left/right/away from the wall
/// THEN the correct turns (left/none/down/none) are made
#[test]
fn world_walker_wall_forced_left() {
    let world = World::new();
    let mut walker_up = Walker::new(11, 0, Direction::Up, WalkerType::Mouse);
    let mut walker_down = Walker::new(11, 0, Direction::Down, WalkerType::Mouse);
    let mut walker_left = Walker::new(11, 0, Direction::Left, WalkerType::Mouse);
    let mut walker_right = Walker::new(11, 0, Direction::Right, WalkerType::Mouse);

    world.check_walls(&mut walker_up);
    world.check_walls(&mut walker_down);
    world.check_walls(&mut walker_left);
    world.check_walls(&mut walker_right);

    assert_eq!(Direction::Left, walker_up.get_direction());
    assert_eq!(Direction::Down, walker_down.get_direction());
    assert_eq!(Direction::Left, walker_left.get_direction());
    assert_eq!(Direction::Down, walker_right.get_direction());
}

/// GIVEN a wall in a U shape (directly ahead and to the left and right)
/// WHEN the walker walks towards/left/right/away from the wall
/// THEN the correct turns (around/left/right/none) are made
#[test]
fn world_walker_wall_u_shape() {
    let mut world = World::new();
    world.set_wall(0, 0, Direction::Right, true);
    let mut walker_up = Walker::new(0, 0, Direction::Up, WalkerType::Mouse);
    let mut walker_down = Walker::new(0, 0, Direction::Down, WalkerType::Mouse);
    let mut walker_left = Walker::new(0, 0, Direction::Left, WalkerType::Mouse);
    let mut walker_right = Walker::new(0, 0, Direction::Right, WalkerType::Mouse);

    world.check_walls(&mut walker_up);
    world.check_walls(&mut walker_down);
    world.check_walls(&mut walker_left);
    world.check_walls(&mut walker_right);

    assert_eq!(Direction::Down, walker_up.get_direction());
    assert_eq!(Direction::Down, walker_down.get_direction());
    assert_eq!(Direction::Down, walker_left.get_direction());
    assert_eq!(Direction::Down, walker_right.get_direction());
}

/// GIVEN an arrow with no nearby walls
/// WHEN a walker encounters that arrow at right angles
/// THEN the walker turns in that direction
#[test]
fn walker_arrow_right_angle_turns() {
    let mut world = World::new();
    world.set_arrow(2, 2, TileType::Up);
    world.set_arrow(4, 3, TileType::Down);
    world.set_arrow(6, 4, TileType::Left);
    world.set_arrow(8, 5, TileType::Right);

    // Walkers approaching up arrow from left/right
    world.create_walker(1, 2, Direction::Right, WalkerType::Mouse);
    world.create_walker(3, 2, Direction::Left, WalkerType::Mouse);

    // Walkers approaching down arrow from left/right
    world.create_walker(3, 3, Direction::Right, WalkerType::Mouse);
    world.create_walker(5, 3, Direction::Left, WalkerType::Mouse);

    // Walkers approaching left arrow from top/bottom
    world.create_walker(6, 3, Direction::Down, WalkerType::Mouse);
    world.create_walker(6, 5, Direction::Up, WalkerType::Mouse);

    // Walkers approaching right arrow from top/bottom
    world.create_walker(8, 4, Direction::Down, WalkerType::Mouse);
    world.create_walker(8, 6, Direction::Up, WalkerType::Mouse);

    // Run for the time is takes for a mouse to move just before one square
    for _ in 0..59 {
        world.tick();
    }

    // Walkers should not have changed their directions yet
    assert_eq!(Direction::Right, world.mice[0].get_direction());
    assert_eq!(Direction::Left, world.mice[1].get_direction());
    assert_eq!(Direction::Right, world.mice[2].get_direction());
    assert_eq!(Direction::Left, world.mice[3].get_direction());
    assert_eq!(Direction::Down, world.mice[4].get_direction());
    assert_eq!(Direction::Up, world.mice[5].get_direction());
    assert_eq!(Direction::Down, world.mice[6].get_direction());
    assert_eq!(Direction::Up, world.mice[7].get_direction());

    // Tick the final time required for mice to walk one square
    world.tick();

    // Walkers should now have been directed by the arrows
    assert_eq!(Direction::Up, world.mice[0].get_direction());
    assert_eq!(Direction::Up, world.mice[1].get_direction());
    assert_eq!(Direction::Down, world.mice[2].get_direction());
    assert_eq!(Direction::Down, world.mice[3].get_direction());
    assert_eq!(Direction::Left, world.mice[4].get_direction());
    assert_eq!(Direction::Left, world.mice[5].get_direction());
    assert_eq!(Direction::Right, world.mice[6].get_direction());
    assert_eq!(Direction::Right, world.mice[7].get_direction());
}

/// GIVEN an arrow with no nearby walls
/// WHEN a mouse encounters an arrow in opposite direction
/// THEN the mouse is turned around
/// AND the arrow is unchanged
#[test]
fn mice_do_not_diminish_arrows_if_opposed() {
    let mut world = World::new();
    world.set_arrow(4, 3, TileType::Up);
    world.set_arrow(4, 5, TileType::Down);
    world.set_arrow(3, 4, TileType::Left);
    world.set_arrow(5, 4, TileType::Right);

    world.create_walker(4, 2, Direction::Down, WalkerType::Mouse);
    world.create_walker(4, 6, Direction::Up, WalkerType::Mouse);
    world.create_walker(2, 4, Direction::Right, WalkerType::Mouse);
    world.create_walker(6, 4, Direction::Left, WalkerType::Mouse);

    // Run for the time is takes for a mouse to move just before one square
    for _ in 0..59 {
        world.tick();
    }

    // The walkers have not yet encountered the arrows and have their original direction
    assert_eq!(Direction::Down, world.mice[0].get_direction());
    assert_eq!(Direction::Up, world.mice[1].get_direction());
    assert_eq!(Direction::Right, world.mice[2].get_direction());
    assert_eq!(Direction::Left, world.mice[3].get_direction());

    // Tick the final time required for mice to walk one square
    world.tick();

    // Walkers should now have been directed by the arrows
    assert_eq!(Direction::Up, world.mice[0].get_direction());
    assert_eq!(Direction::Down, world.mice[1].get_direction());
    assert_eq!(Direction::Left, world.mice[2].get_direction());
    assert_eq!(Direction::Right, world.mice[3].get_direction());

    // The arrows are unchanged.
    assert_eq!(TileType::Up, world.get_arrow(4, 3));
    assert_eq!(TileType::Down, world.get_arrow(4, 5));
    assert_eq!(TileType::Left, world.get_arrow(3, 4));
    assert_eq!(TileType::Right, world.get_arrow(5, 4));
}

/// GIVEN an arrow with no nearby walls
/// WHEN a cat encounters an arrow in opposite direction
/// THEN the cat is turned around
/// AND the arrow is diminished
#[test]
fn cats_diminish_arrows_if_opposed() {
    let mut world = World::new();
    world.set_arrow(4, 4, TileType::Down);
    world.create_walker(4, 5, Direction::Up, WalkerType::Cat);

    // Walk cat to edge of arrow. Cats move at 2/3 speed of a mouse, so 90 ticks required
    for _ in 0..89 {
        world.tick();
    }

    // The arrow and cat are unchanged
    assert_eq!(TileType::Down, world.get_arrow(4, 4));
    assert_eq!(Direction::Up, world.cats[0].get_direction());

    // Tick the final time required for cats to walk one square
    world.tick();

    // The arrow is diminished and the cat turned around
    assert_eq!(TileType::DownHalf, world.get_arrow(4, 4));
    assert_eq!(Direction::Down, world.cats[0].get_direction());
}

/// GIVEN an arrow with no nearby walls
/// WHEN three cats encounter an arrow in opposite direction
/// THEN the first two cats are turned around
/// AND the last cat continues
/// AND the arrow is removed
#[test]
fn double_diminish_removes_arrow() {
    let mut world = World::new();
    world.set_arrow(4, 4, TileType::Down);
    world.create_walker(4, 5, Direction::Up, WalkerType::Cat);
    world.create_walker(4, 6, Direction::Up, WalkerType::Cat);
    world.create_walker(4, 7, Direction::Up, WalkerType::Cat);

    // Walk first cat into the arrow
    for _ in 0..90 {
        world.tick();
    }

    // The arrow is dimished and first cat turned around
    assert_eq!(TileType::DownHalf, world.get_arrow(4, 4));
    assert_eq!(Direction::Down, world.cats[0].get_direction());
    assert_eq!(Direction::Up, world.cats[1].get_direction());
    assert_eq!(Direction::Up, world.cats[2].get_direction());

    // Walk second cat into the arrow
    for _ in 0..90 {
        world.tick();
    }

    // The arrow is removed and the second cat turned around
    assert_eq!(TileType::Empty, world.get_arrow(4, 4));
    assert_eq!(Direction::Down, world.cats[0].get_direction());
    assert_eq!(Direction::Down, world.cats[1].get_direction());
    assert_eq!(Direction::Up, world.cats[2].get_direction());

    // Walk third cat into the 'arrow'
    for _ in 0..90 {
        world.tick();
    }

    // The arrow is still gone and the cat continues on his way
    assert_eq!(TileType::Empty, world.get_arrow(4, 4));
    assert_eq!(Direction::Down, world.cats[0].get_direction());
    assert_eq!(Direction::Down, world.cats[1].get_direction());
    assert_eq!(Direction::Up, world.cats[2].get_direction());
}

/// GIVEN an arrow against a wall
/// WHEN a walker is turned into the wall by the arrow
/// THEN the normal wall rule are applied, causing the walker to turn
#[test]
fn walker_turn_into_wall() {
    let mut world = World::new();
    world.set_arrow(4, 0, TileType::Up);
    world.create_walker(5, 0, Direction::Left, WalkerType::Mouse);

    // Walk the walker into the arrow
    for _ in 0..60 {
        world.tick();
    }

    // The walker is turned up by the arrow, then right by the wall
    assert_eq!(Direction::Right, world.mice[0].get_direction());
}

/// GIVEN a newly created world
/// WHEN an arrow is set
/// THEN reading that arrow back returns the correct value
#[test]
fn arrow_get_set() {
    let mut world = World::new();

    assert_eq!(TileType::Empty, world.get_arrow(0, 0));
    world.set_arrow(0, 0, TileType::Right);
    assert_eq!(TileType::Right, world.get_arrow(0, 0));

    assert_eq!(TileType::Empty, world.get_arrow(7, 3));
    world.set_arrow(7, 3, TileType::Right);
    assert_eq!(TileType::Right, world.get_arrow(7, 3));
}

/// GIVEN a world with a hole one unit to the right of a cat
/// WHEN the cat walks into the hole
/// THEN the cat is killed
/// AND the world state does not change
#[test]
fn holes_kill_cats() {
    let mut world = World::new();

    world.set_tile(1, 0, TileType::Hole);
    world.create_walker(0, 0, Direction::Right, WalkerType::Cat);

    for _ in 0..89 {
        world.tick();
    }

    // After 89 ticks the cat is still alive
    assert_eq!(1, world.cats.len());

    // The 90th tick kills the cat as it falls into the hole
    let world_state_change = world.tick();

    assert_eq!(WorldStateChange::NoChange, world_state_change);
    assert_eq!(0, world.cats.len());
}

/// GIVEN a world with a hole one unit to the right of a mouse
/// WHEN the mouse walks into the hole
/// THEN the mouse is killed
/// AND the world state changes to lose
#[test]
fn holes_kill_mice_and_cause_loss() {
    let mut world = World::new();

    world.set_tile(1, 0, TileType::Hole);
    world.create_walker(0, 0, Direction::Right, WalkerType::Mouse);

    for _ in 0..59 {
        world.tick();
    }

    // After 59 ticks the mouse is still alive
    assert_eq!(1, world.mice.len());

    // The 60th tick kills the mouse as it falls into the hole
    let world_state_change = world.tick();

    assert_eq!(WorldStateChange::Lose, world_state_change);
    assert_eq!(0, world.mice.len());
}

/// GIVEN a world with a rocket one unit to the right of a cat
/// WHEN the cat walks into the rocket
/// THEN the cat is rescued
/// AND the world state changes to lose
#[test]
fn rockets_rescue_cats_and_cause_loss() {
    let mut world = World::new();

    world.set_tile(1, 0, TileType::Rocket);
    world.create_walker(0, 0, Direction::Right, WalkerType::Cat);

    for _ in 0..89 {
        world.tick();
    }

    // After 89 ticks the cat is still alive
    assert_eq!(1, world.cats.len());

    // The 90th tick rescues the cat as it hits the rocket
    let world_state_change = world.tick();

    assert_eq!(0, world.cats.len());
    assert_eq!(WorldStateChange::Lose, world_state_change);
}

/// GIVEN a world with a rocket one unit to the right of a mouse
/// WHEN the mouse walks into the rocket
/// THEN the mouse is rescued
/// AND the world state changes to win
#[test]
fn rockets_rescue_mice_and_cause_win() {
    let mut world = World::new();

    world.set_tile(1, 0, TileType::Rocket);
    world.create_walker(0, 0, Direction::Right, WalkerType::Mouse);

    for _ in 0..59 {
        world.tick();
    }

    // After 59 ticks the mouse is still alive
    assert_eq!(1, world.mice.len());

    // The 60th tick rescues the mouse as it reaches the rocket
    let world_state_change = world.tick();

    assert_eq!(WorldStateChange::Win, world_state_change);
    assert_eq!(0, world.mice.len());
}

#[test]
fn walls_are_shared_by_neighbouring_cells() {
    let mut world = World::new();
    world.set_wall(5, 4, Direction::Right, true);
    assert!(world.get_wall(5, 4, Direction::Right));
    assert!(world.get_wall(6, 4, Direction::Left));
    world.set_wall(5, 4, Direction::Down, true);
    assert!(world.get_wall(5, 5, Direction::Up));
    world.set_wall(6, 4, Direction::Left, false);
    assert!(!world.get_wall(5, 4, Direction::Right));
    assert!(world.get_wall(5, 4, Direction::Down));
    // The border edges wrap around the grid.
    world.set_wall(11, 8, Direction::Down, false);
    assert!(!world.get_wall(11, 0, Direction::Up));
    assert!(world.get_wall(10, 0, Direction::Up));
}

#[test]
fn walker_leaving_the_grid_wraps_around() {
    let mut world = World::new();
    world.set_wall(3, 0, Direction::Up, false);
    world.create_walker(3, 0, Direction::Up, WalkerType::Mouse);
    for _ in 0..60 {
        world.tick();
    }
    assert_eq!(8, world.mice[0].get_y().integer_part());
    assert_eq!(3, world.mice[0].get_x().integer_part());
    assert_eq!(Direction::Up, world.mice[0].get_direction());
}

#[test]
fn mouse_and_cat_rescued_together_lose() {
    let mut world = World::new();
    world.set_tile(3, 0, TileType::Rocket);
    world.set_tile(2, 2, TileType::Rocket);
    world.create_walker(0, 0, Direction::Right, WalkerType::Mouse);
    world.create_walker(0, 2, Direction::Right, WalkerType::Cat);
    for _ in 0..179 {
        assert_eq!(WorldStateChange::NoChange, world.tick());
    }
    assert_eq!(WorldStateChange::Lose, world.tick());
    assert_eq!(0, world.mice.len());
    assert_eq!(0, world.cats.len());
}

#[test]
fn a_second_walker_is_rejected_even_of_another_kind() {
    let mut world = World::new();
    assert!(world.create_walker(2, 2, Direction::Up, WalkerType::Mouse));
    assert!(!world.create_walker(2, 2, Direction::Down, WalkerType::Cat));
    assert_eq!(1, world.mouse_count());
    assert_eq!(0, world.cat_count());
}

#[test]
fn check_arrows_turns_and_diminishes_for_cats_only() {
    let mut world = World::new();
    world.set_arrow(3, 3, TileType::Up);
    let mut cat = Walker::new(3, 3, Direction::Down, WalkerType::Cat);
    world.check_arrows(&mut cat);
    assert_eq!(Direction::Up, cat.get_direction());
    assert_eq!(TileType::UpHalf, world.get_arrow(3, 3));

    let mut mouse = Walker::new(3, 3, Direction::Down, WalkerType::Mouse);
    world.check_arrows(&mut mouse);
    assert_eq!(Direction::Up, mouse.get_direction());
    assert_eq!(TileType::UpHalf, world.get_arrow(3, 3));

    let mut crossing = Walker::new(3, 3, Direction::Left, WalkerType::Cat);
    world.check_arrows(&mut crossing);
    assert_eq!(Direction::Up, crossing.get_direction());
    assert_eq!(TileType::UpHalf, world.get_arrow(3, 3));

    let mut plain = Walker::new(4, 4, Direction::Left, WalkerType::Cat);
    world.check_arrows(&mut plain);
    assert_eq!(Direction::Left, plain.get_direction());
}
