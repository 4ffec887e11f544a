use snake::grid::{create_apple, Direction, GameObject, Movement, TerminalSize};
use snake::state::GameState;

fn at(x: u16, y: u16) -> GameObject {
    GameObject { x, y }
}

fn game(
    snake: Vec<GameObject>,
    movement: (i16, i16),
    apple: GameObject,
    size: (u16, u16),
) -> GameState {
    GameState {
        snake,
        movement: Movement { x: movement.0, y: movement.1 },
        apple,
        size: TerminalSize { w: size.0, h: size.1 },
    }
}

#[test]
fn new_game_starts_at_the_origin_heading_down_right() {
    let state = GameState::new(TerminalSize { w: 80, h: 24 });
    assert_eq!(state.snake, vec![at(0, 0)]);
    assert_eq!(state.movement, Movement { x: 1, y: 1 });
    assert_eq!(state.apple, at(0, 8));
    assert_eq!(state.size, TerminalSize { w: 80, h: 24 });
    assert!(state.is_valid());
    assert_eq!(state.len(), 1);
    assert_eq!(state.head(), at(0, 0));
}

#[test]
fn new_game_moves_diagonally_until_steered() {
    let mut state = GameState::new(TerminalSize { w: 10, h: 10 });
    state.advance(0);
    assert_eq!(state.snake, vec![at(1, 1)]);
    state.advance(80);
    assert_eq!(state.snake, vec![at(2, 2)]);
}

#[test]
fn steering_clears_the_other_axis() {
    let mut state = GameState::new(TerminalSize { w: 10, h: 10 });
    state.set_direction(Direction::Up);
    assert_eq!(state.movement, Movement { x: 0, y: -1 });
    assert!(state.movement.is_unit_step());
    state.set_direction(Direction::Left);
    assert_eq!(state.movement, Movement { x: -1, y: 0 });
    state.set_direction(Direction::Down);
    assert_eq!(state.movement, Movement { x: 0, y: 1 });
    state.set_direction(Direction::Right);
    assert_eq!(state.movement, Movement { x: 1, y: 0 });
    assert_eq!(state.snake, vec![at(0, 0)]);
    assert_eq!(state.apple, at(0, 0));
}

#[test]
fn snake_is_never_empty() {
    let mut state = GameState::new(TerminalSize { w: 3, h: 3 });
    let mut tick: u64 = 0;
    let mut longest: usize = 1;
    while tick < 16 * 400 {
        if tick % 160 == 0 {
            state.set_direction(Direction::Left);
        } else if tick % 80 == 0 {
            state.set_direction(Direction::Down);
        }
        state.advance(tick);
        assert!(state.len() >= longest);
        longest = state.len();
        assert!(state.is_valid());
        tick += 16;
    }
    assert!(longest >= 1);
}

#[test]
fn ticks_between_moves_leave_the_state_alone() {
    let before = game(vec![at(4, 4), at(3, 4), at(2, 4)], (1, 0), at(7, 7), (10, 10));
    for tick in [1u64, 2, 3, 4, 6, 16, 32, 48, 64, 81, 96, u64::MAX - 1] {
        let mut state = before.clone();
        state.advance(tick);
        assert_eq!(state, before);
    }
}

#[test]
fn ticks_between_moves_do_not_eat() {
    let before = game(vec![at(4, 4), at(3, 4)], (1, 0), at(4, 4), (10, 10));
    let mut state = before.clone();
    state.advance(16);
    assert_eq!(state, before);
    state.advance(64);
    assert_eq!(state, before);
}

#[test]
fn every_fifth_tick_moves() {
    for tick in [0u64, 5, 10, 80, 160, 1600, u64::MAX] {
        let mut state = game(vec![at(4, 4)], (1, 0), at(7, 7), (10, 10));
        state.advance(tick);
        assert_eq!(state.snake, vec![at(5, 4)]);
    }
}

#[test]
fn segments_follow_the_leader() {
    let mut state = game(vec![at(4, 4), at(3, 4), at(3, 5), at(3, 6)], (1, 0), at(9, 9), (10, 10));
    state.advance(80);
    assert_eq!(state.snake, vec![at(5, 4), at(4, 4), at(3, 4), at(3, 5)]);
    state.set_direction(Direction::Up);
    state.advance(160);
    assert_eq!(state.snake, vec![at(5, 3), at(5, 4), at(4, 4), at(3, 4)]);
    assert_eq!(state.apple, at(9, 9));
}

#[test]
fn two_segments_follow_the_leader() {
    let mut state = game(vec![at(0, 2), at(1, 2)], (-1, 0), at(9, 9), (10, 10));
    state.advance(0);
    assert_eq!(state.snake, vec![at(10, 2), at(0, 2)]);
}

#[test]
fn head_wraps_from_zero_to_the_width() {
    let mut state = game(vec![at(0, 3)], (-1, 0), at(5, 5), (10, 8));
    state.advance(0);
    assert_eq!(state.snake, vec![at(10, 3)]);
}

#[test]
fn head_wraps_from_the_width_to_zero() {
    let mut state = game(vec![at(10, 3)], (1, 0), at(5, 5), (10, 8));
    state.advance(0);
    assert_eq!(state.snake, vec![at(0, 3)]);
}

#[test]
fn head_wraps_from_zero_to_the_height() {
    let mut state = game(vec![at(4, 0)], (0, -1), at(5, 5), (10, 8));
    state.advance(0);
    assert_eq!(state.snake, vec![at(4, 8)]);
}

#[test]
fn head_wraps_from_the_height_to_zero() {
    let mut state = game(vec![at(4, 8)], (0, 1), at(5, 5), (10, 8));
    state.advance(0);
    assert_eq!(state.snake, vec![at(4, 0)]);
}

#[test]
fn head_reaches_the_width_then_wraps() {
    let mut state = game(vec![at(9, 5)], (1, 0), at(3, 3), (10, 10));
    state.advance(0);
    assert_eq!(state.snake, vec![at(10, 5)]);
    state.advance(80);
    assert_eq!(state.snake, vec![at(0, 5)]);
    assert_eq!(state.len(), 1);
    assert_eq!(state.apple, at(3, 3));
}

#[test]
fn first_move_leaves_the_apple_under_the_start() {
    let size = TerminalSize { w: 10, h: 10 };
    let mut state = GameState::new(size);
    assert_eq!(state.apple, create_apple(320, &size));
    assert_eq!(state.apple, at(0, 0));
    assert_eq!(state.head(), state.apple);
    state.set_direction(Direction::Right);
    state.advance(0);
    assert_eq!(state.snake, vec![at(1, 0)]);
    assert_eq!(state.len(), 1);
    assert_eq!(state.apple, at(0, 0));
}

#[test]
fn landing_on_the_apple_grows_by_one_and_moves_the_apple() {
    let mut state = game(vec![at(2, 3), at(1, 3)], (1, 0), at(3, 3), (7, 13));
    state.advance(80);
    assert_eq!(state.snake, vec![at(3, 3), at(2, 3), at(1, 3)]);
    assert_eq!(state.apple, at(3, 2));
    assert_eq!(state.movement, Movement { x: 1, y: 0 });
}

#[test]
fn single_segment_grows_behind_its_head() {
    let mut state = game(vec![at(4, 4)], (0, 1), at(4, 5), (10, 10));
    state.advance(165);
    assert_eq!(state.snake, vec![at(4, 5), at(4, 4)]);
    assert_eq!(state.apple, at(5, 5));
}

#[test]
fn growth_pays_no_regard_to_the_terminal_edge() {
    let mut state = game(vec![at(10, 0)], (1, 0), at(0, 0), (10, 10));
    state.advance(85);
    assert_eq!(state.snake, vec![at(0, 0), at(65535, 0)]);
    assert_eq!(state.apple, at(5, 5));
}

#[test]
fn diagonal_growth_shifts_the_column_only() {
    let mut state = game(vec![at(2, 2)], (1, 1), at(3, 3), (10, 10));
    state.advance(15);
    assert_eq!(state.snake, vec![at(3, 3), at(2, 3)]);
    assert_eq!(state.apple, at(5, 5));
}

#[test]
fn apple_may_land_on_the_snake() {
    let mut state = game(vec![at(1, 0)], (-1, 0), at(0, 0), (80, 80));
    state.advance(80);
    assert_eq!(state.snake, vec![at(0, 0), at(1, 0)]);
    assert_eq!(state.apple, at(0, 0));
    // The apple now lies under the head; it is eaten only by a head that
    // moves onto it.
    state.advance(96);
    assert_eq!(state.snake, vec![at(0, 0), at(1, 0)]);
    assert_eq!(state.apple, at(0, 0));
    state.advance(160);
    assert_eq!(state.snake, vec![at(80, 0), at(0, 0)]);
    assert_eq!(state.apple, at(0, 0));
}

#[test]
fn move_snake_ignores_the_clock_and_the_apple() {
    let mut state = game(vec![at(2, 3), at(1, 3)], (1, 0), at(3, 3), (10, 10));
    state.move_snake();
    assert_eq!(state.snake, vec![at(3, 3), at(2, 3)]);
    assert_eq!(state.apple, at(3, 3));
}

#[test]
fn consume_apple_eats_only_under_the_head() {
    let mut state = game(vec![at(3, 3), at(2, 3)], (1, 0), at(3, 3), (10, 10));
    assert!(state.consume_apple(47));
    assert_eq!(state.snake, vec![at(3, 3), at(2, 3), at(1, 3)]);
    assert_eq!(state.apple, at(7, 7));

    let before = game(vec![at(3, 3), at(2, 3)], (1, 0), at(2, 3), (10, 10));
    let mut state = before.clone();
    assert!(!state.consume_apple(47));
    assert_eq!(state, before);
}

#[test]
fn clone_copies_every_field() {
    let state = game(vec![at(4, 4), at(3, 4)], (0, -1), at(7, 1), (10, 12));
    let copy = state.clone();
    assert_eq!(copy.snake, vec![at(4, 4), at(3, 4)]);
    assert_eq!(copy.movement, Movement { x: 0, y: -1 });
    assert_eq!(copy.apple, at(7, 1));
    assert_eq!(copy.size, TerminalSize { w: 10, h: 12 });
}

#[test]
fn validity_needs_a_head_and_a_positive_extent() {
    assert!(game(vec![at(0, 0)], (1, 1), at(0, 0), (1, 1)).is_valid());
    assert!(!game(vec![], (1, 1), at(0, 0), (10, 10)).is_valid());
    assert!(!game(vec![at(0, 0)], (1, 1), at(0, 0), (0, 10)).is_valid());
    assert!(!game(vec![at(0, 0)], (1, 1), at(0, 0), (10, 0)).is_valid());
}
