use snake::arena::{Position, HEIGHT, WIDTH};
use snake::clock::MovementClock;
use snake::direction::{requested_direction, Direction, Key};
use snake::snake::{SnakeGame, SnakeHead, SnakePlugin, TickOutcome, MOVEMENT_PERIOD_NANOS};

const PERIOD: u64 = MOVEMENT_PERIOD_NANOS;

fn pos(x: i32, y: i32) -> Position {
    Position { x, y }
}

fn game_with(direction: Direction, chain: Vec<Position>) -> SnakeGame {
    SnakeGame::from_chain(direction, chain, PERIOD).unwrap()
}

fn start_chain() -> Vec<Position> {
    vec![pos(3, 3), pos(3, 2)]
}

#[test]
fn test_basic_movement_keys() {
    let test_cases = [
        (Key::ArrowLeft, pos(2, 3)),
        (Key::ArrowRight, pos(4, 3)),
        (Key::ArrowDown, pos(3, 4)), // still heading up: down is straight back
        (Key::ArrowUp, pos(3, 4)),
        (Key::KeyA, pos(2, 3)),
        (Key::KeyD, pos(4, 3)),
        (Key::KeyW, pos(3, 4)),
        (Key::KeyW, pos(3, 4)),
    ];
    for (key, expected_position) in test_cases {
        let mut game = game_with(SnakeHead::default().direction, vec![pos(3, 3)]);
        game.handle_input(&vec![key]);
        game.movement(PERIOD);
        assert_eq!(
            game.head(),
            expected_position,
            "the position of the snake was not in the right place after pressing the {:?} button",
            key
        );
    }
}

#[test]
fn test_snake_movement_sequence() {
    let mut game = SnakeGame::from_chain(Direction::Up, vec![pos(3, 3)], 1_000_000_000).unwrap();
    let movement_sequence = [
        (Direction::Up, pos(3, 4)),
        (Direction::Right, pos(4, 4)),
        (Direction::Down, pos(4, 3)),
        (Direction::Right, pos(5, 3)),
        (Direction::Up, pos(5, 4)),
        (Direction::Up, pos(5, 5)),
        (Direction::Left, pos(4, 5)),
        (Direction::Left, pos(3, 5)),
        (Direction::Down, pos(3, 4)),
        (Direction::Right, pos(4, 4)),
    ];
    for (direction, expected_position) in movement_sequence {
        game.set_direction(direction);
        game.movement(1_000_000_000);
        let position = game.head();
        assert_eq!(
            position, expected_position,
            "Snake position incorrect after moving {:?}. Expected {:?}, got {:?}",
            direction, expected_position, position
        );
    }
}

#[test]
fn opposite_pairs() {
    assert_eq!(Direction::Left.opposite(), Direction::Right);
    assert_eq!(Direction::Right.opposite(), Direction::Left);
    assert_eq!(Direction::Up.opposite(), Direction::Down);
    assert_eq!(Direction::Down.opposite(), Direction::Up);
}

#[test]
fn head_defaults_to_up() {
    assert_eq!(SnakeHead::default().direction, Direction::Up);
}

#[test]
fn keys_map_to_directions() {
    assert_eq!(Key::ArrowLeft.direction(), Direction::Left);
    assert_eq!(Key::KeyA.direction(), Direction::Left);
    assert_eq!(Key::ArrowRight.direction(), Direction::Right);
    assert_eq!(Key::KeyD.direction(), Direction::Right);
    assert_eq!(Key::ArrowDown.direction(), Direction::Down);
    assert_eq!(Key::KeyS.direction(), Direction::Down);
    assert_eq!(Key::ArrowUp.direction(), Direction::Up);
    assert_eq!(Key::KeyW.direction(), Direction::Up);
}

#[test]
fn first_key_in_priority_order_wins() {
    assert_eq!(requested_direction(&vec![Key::KeyW, Key::ArrowLeft]), Some(Direction::Left));
    assert_eq!(requested_direction(&vec![Key::ArrowUp, Key::ArrowDown]), Some(Direction::Down));
    assert_eq!(requested_direction(&vec![Key::KeyS, Key::KeyD]), Some(Direction::Right));
    assert_eq!(requested_direction(&vec![]), None);
}

#[test]
fn highest_priority_key_is_suppressed_not_skipped() {
    // Down outranks Up in priority; it is straight back, so the heading stays.
    let mut game = SnakePlugin.build();
    game.handle_input(&vec![Key::ArrowUp, Key::ArrowDown]);
    assert_eq!(game.direction(), Direction::Up);
}

#[test]
fn no_key_keeps_direction() {
    let mut game = game_with(Direction::Left, start_chain());
    game.handle_input(&vec![]);
    assert_eq!(game.direction(), Direction::Left);
}

#[test]
fn reverse_input_is_suppressed() {
    let mut game = SnakePlugin.build();
    game.handle_input(&vec![Key::ArrowDown]);
    assert_eq!(game.direction(), Direction::Up);
    game.handle_input(&vec![Key::KeyS]);
    assert_eq!(game.direction(), Direction::Up);
    assert_eq!(game.update(&vec![Key::ArrowDown], PERIOD), TickOutcome::Moved);
    assert_eq!(game.chain(), &vec![pos(3, 4), pos(3, 3)]);
}

#[test]
fn start_scenario_moves_up() {
    let mut game = SnakePlugin.build();
    assert_eq!(game.chain(), &start_chain());
    assert_eq!(game.direction(), Direction::Up);
    assert_eq!(game.update(&vec![], PERIOD), TickOutcome::Moved);
    assert_eq!(game.chain(), &vec![pos(3, 4), pos(3, 3)]);
    assert_eq!(game.pending_tail(), Some(pos(3, 2)));
}

#[test]
fn head_position_is_sum_of_steps() {
    let mut game = SnakePlugin.build();
    let inputs = [
        vec![],
        vec![Key::KeyD],
        vec![],
        vec![Key::ArrowDown],
        vec![Key::ArrowUp], // straight back: ignored, keeps going down
        vec![Key::KeyA],
    ];
    for held in inputs.iter() {
        assert_eq!(game.update(held, PERIOD), TickOutcome::Moved);
    }
    // Headings taken: Up, Right, Right, Down, Down, Left; net (+1, -1).
    assert_eq!(game.head(), pos(4, 2));
}

#[test]
fn body_follows_head() {
    let chain = vec![pos(5, 5), pos(5, 4), pos(4, 4), pos(4, 3)];
    let mut game = game_with(Direction::Right, chain.clone());
    assert_eq!(game.movement(PERIOD), TickOutcome::Moved);
    assert_eq!(game.chain(), &vec![pos(6, 5), pos(5, 5), pos(5, 4), pos(4, 4)]);
    assert_eq!(game.pending_tail(), Some(pos(4, 3)));
}

#[test]
fn clock_does_not_fire_early() {
    let mut game = SnakePlugin.build();
    assert_eq!(game.update(&vec![], PERIOD - 1), TickOutcome::Idle);
    assert_eq!(game.chain(), &start_chain());
    assert_eq!(game.clock().elapsed(), PERIOD - 1);
    assert_eq!(game.update(&vec![], 1), TickOutcome::Moved);
    assert_eq!(game.head(), pos(3, 4));
}

#[test]
fn clock_fires_once_for_a_long_update() {
    let mut clock = MovementClock::from_nanos(100);
    assert!(clock.tick(1_000));
    assert_eq!(clock.elapsed(), 0);
    assert!(!clock.tick(70));
    assert!(clock.tick(50));
    assert_eq!(clock.elapsed(), 20);
    assert!(clock.tick(u64::MAX));
    assert_eq!(clock.period(), 100);

    let mut game = SnakePlugin.build();
    assert_eq!(game.update(&vec![], 10 * PERIOD), TickOutcome::Moved);
    assert_eq!(game.head(), pos(3, 4));
}

#[test]
fn zero_period_clock_fires_every_update() {
    let mut clock = MovementClock::from_nanos(0);
    assert!(clock.tick(0));
    assert!(clock.tick(5));
    assert_eq!(clock.elapsed(), 0);
}

#[test]
fn self_collision_resets() {
    // The body curls round; heading up from (3,3) runs into (3,4).
    let chain = vec![pos(3, 3), pos(4, 3), pos(4, 4), pos(3, 4), pos(2, 4)];
    let mut game = game_with(Direction::Up, chain);
    game.add_food(pos(7, 7));
    assert_eq!(game.movement(PERIOD), TickOutcome::GameOver);
    assert_eq!(game.chain(), &start_chain());
    assert_eq!(game.direction(), Direction::Up);
    assert_eq!(game.pending_tail(), None);
    assert!(game.food().is_empty());
}

#[test]
fn running_into_the_tail_cell_resets() {
    let chain = vec![pos(3, 3), pos(4, 3), pos(4, 4), pos(3, 4)];
    let mut game = game_with(Direction::Up, chain);
    assert_eq!(game.movement(PERIOD), TickOutcome::GameOver);
    assert_eq!(game.chain(), &start_chain());
}

#[test]
fn walls_reset() {
    let cases = [
        (Direction::Left, pos(0, 5)),
        (Direction::Down, pos(5, 0)),
        (Direction::Right, pos(WIDTH - 1, 5)),
        (Direction::Up, pos(5, HEIGHT - 1)),
    ];
    for (direction, head) in cases {
        let mut game = game_with(direction, vec![head]);
        assert_eq!(game.movement(PERIOD), TickOutcome::GameOver);
        assert_eq!(game.chain(), &start_chain());
        assert_eq!(game.direction(), Direction::Up);
    }
}

#[test]
fn moving_along_the_wall_is_fine() {
    let mut game = game_with(Direction::Up, vec![pos(0, 0), pos(1, 0)]);
    assert_eq!(game.movement(PERIOD), TickOutcome::Moved);
    assert_eq!(game.chain(), &vec![pos(0, 1), pos(0, 0)]);
}

#[test]
fn eating_grows_at_old_tail() {
    let mut game = SnakePlugin.build();
    game.add_food(pos(3, 4));
    game.add_food(pos(8, 8));
    assert_eq!(game.update(&vec![], PERIOD), TickOutcome::Moved);
    assert_eq!(game.chain(), &vec![pos(3, 4), pos(3, 3), pos(3, 2)]);
    assert_eq!(game.food(), &vec![pos(8, 8)]);
}

#[test]
fn eater_counts_food_under_head() {
    let mut game = SnakePlugin.build();
    game.add_food(pos(3, 3));
    game.add_food(pos(1, 1));
    game.add_food(pos(3, 3));
    assert_eq!(game.eater(), 2);
    assert_eq!(game.food(), &vec![pos(1, 1)]);
    assert_eq!(game.eater(), 0);
}

#[test]
fn two_food_items_grow_two_segments() {
    let mut game = SnakePlugin.build();
    game.add_food(pos(3, 4));
    game.add_food(pos(3, 4));
    game.update(&vec![], PERIOD);
    assert_eq!(game.chain(), &vec![pos(3, 4), pos(3, 3), pos(3, 2), pos(3, 2)]);
    assert!(game.food().is_empty());
}

#[test]
fn idle_frame_leaves_food_under_head() {
    let mut game = SnakePlugin.build();
    game.add_food(pos(3, 3));
    assert_eq!(game.update(&vec![], 0), TickOutcome::Idle);
    assert_eq!(game.food(), &vec![pos(3, 3)]);
    assert_eq!(game.chain(), &start_chain());
}

#[test]
fn idle_frame_after_a_move_does_not_grow() {
    let mut game = SnakePlugin.build();
    assert_eq!(game.update(&vec![], PERIOD), TickOutcome::Moved);
    // Food dropped on the head between ticks stays until a fired frame.
    game.add_food(pos(3, 4));
    assert_eq!(game.update(&vec![], PERIOD / 2), TickOutcome::Idle);
    assert_eq!(game.chain(), &vec![pos(3, 4), pos(3, 3)]);
    assert_eq!(game.food(), &vec![pos(3, 4)]);
    // The next fired frame moves the head off it, so it is not eaten.
    assert_eq!(game.update(&vec![], PERIOD), TickOutcome::Moved);
    assert_eq!(game.chain(), &vec![pos(3, 5), pos(3, 4)]);
    assert_eq!(game.food(), &vec![pos(3, 4)]);
}

#[test]
fn grow_without_events_adds_nothing() {
    let mut game = SnakePlugin.build();
    game.movement(PERIOD);
    game.grow(0);
    assert_eq!(game.chain().len(), 2);
    game.grow(1);
    assert_eq!(game.chain(), &vec![pos(3, 4), pos(3, 3), pos(3, 2)]);
}

#[test]
fn collision_discards_food_of_that_tick() {
    // Food lies on the body cell that the head runs into.
    let chain = vec![pos(3, 3), pos(4, 3), pos(4, 4), pos(3, 4)];
    let mut game = game_with(Direction::Up, chain);
    game.add_food(pos(3, 4));
    assert_eq!(game.update(&vec![], PERIOD), TickOutcome::GameOver);
    assert_eq!(game.chain(), &start_chain());
    assert!(game.food().is_empty());
}

#[test]
fn reset_is_idempotent() {
    let mut game = SnakePlugin.build();
    game.reset();
    assert_eq!(game.chain(), &start_chain());
    game.reset();
    assert_eq!(game.chain(), &start_chain());
    assert_eq!(game.direction(), Direction::Up);
    assert_eq!(game.pending_tail(), None);
}

#[test]
fn reset_keeps_clock_running() {
    let mut game = SnakePlugin.build();
    game.update(&vec![], 40);
    game.reset();
    assert_eq!(game.clock().elapsed(), 40);
}

#[test]
fn from_chain_checks_cells() {
    assert!(SnakeGame::from_chain(Direction::Up, vec![], PERIOD).is_none());
    assert!(SnakeGame::from_chain(Direction::Up, vec![pos(3, 3), pos(-1, 3)], PERIOD).is_none());
    assert!(SnakeGame::from_chain(Direction::Up, vec![pos(WIDTH, 0)], PERIOD).is_none());
    assert!(SnakeGame::from_chain(Direction::Up, vec![pos(0, HEIGHT - 1)], PERIOD).is_some());
}

#[test]
fn arena_bounds() {
    assert!(pos(0, 0).in_arena());
    assert!(pos(WIDTH - 1, HEIGHT - 1).in_arena());
    assert!(!pos(-1, 0).in_arena());
    assert!(!pos(0, -1).in_arena());
    assert!(!pos(WIDTH, 0).in_arena());
    assert!(!pos(0, HEIGHT).in_arena());
}
