use snake_game::game::{Game, FOOD_REWARD, INITIAL_TICK_MS, MIN_TICK_MS, TICK_STEP_MS};
use snake_game::geometry::{Direction, Position};
use snake_game::input::Key;
use std::collections::VecDeque;

fn pos(x: i32, y: i32) -> Position {
    Position { x, y }
}

fn game_with(
    width: i32,
    height: i32,
    snake: Vec<Position>,
    direction: Direction,
    food: Position,
) -> Game {
    Game {
        snake: VecDeque::from(snake),
        direction,
        next_direction: direction,
        food,
        score: 0,
        game_over: false,
        width,
        height,
        speed_ms: INITIAL_TICK_MS,
    }
}

fn body(game: &Game) -> Vec<Position> {
    game.snake.iter().copied().collect()
}

#[test]
fn constants_have_the_documented_values() {
    assert_eq!(INITIAL_TICK_MS, 150);
    assert_eq!(MIN_TICK_MS, 80);
    assert_eq!(TICK_STEP_MS, 2);
    assert_eq!(FOOD_REWARD, 10);
}

#[test]
fn new_game_starts_centered_facing_right() {
    let game = Game::new(30, 20);
    assert_eq!(body(&game), vec![pos(15, 10), pos(14, 10), pos(13, 10)]);
    assert_eq!(game.direction, Direction::Right);
    assert_eq!(game.next_direction, Direction::Right);
    assert_eq!(game.score, 0);
    assert!(!game.game_over);
    assert_eq!(game.width, 30);
    assert_eq!(game.height, 20);
    assert_eq!(game.speed_ms, 150);
    assert!(game.on_board(game.food));
    assert!(!game.occupies(game.food));
    assert!(game.is_well_formed());
}

#[test]
fn new_game_food_is_always_free() {
    for _ in 0..200 {
        let game = Game::new(4, 1);
        assert_eq!(body(&game), vec![pos(2, 0), pos(1, 0), pos(0, 0)]);
        assert_eq!(game.food, pos(3, 0));
        assert!(!game.game_over);
    }
    for _ in 0..200 {
        let game = Game::new(5, 2);
        assert!(game.on_board(game.food));
        assert!(!game.occupies(game.food));
    }
}

#[test]
fn new_game_on_a_board_without_free_cell_is_over() {
    let game = Game::new(1, 1);
    assert!(game.game_over);
    assert_eq!(game.food, pos(0, 0));
    assert_eq!(body(&game), vec![pos(0, 0), pos(-1, 0), pos(-2, 0)]);
    assert!(game.is_well_formed());
    let game = Game::new(3, 1);
    assert!(!game.game_over);
    assert_eq!(game.food, pos(2, 0));
}

#[test]
fn straight_run_to_the_right_wall() {
    let mut game = Game::new(5, 5);
    game.food = pos(0, 0);
    assert_eq!(body(&game), vec![pos(2, 2), pos(1, 2), pos(0, 2)]);
    game.update();
    assert_eq!(body(&game), vec![pos(3, 2), pos(2, 2), pos(1, 2)]);
    assert!(!game.game_over);
    game.update();
    assert_eq!(body(&game), vec![pos(4, 2), pos(3, 2), pos(2, 2)]);
    assert!(!game.game_over);
    assert_eq!(game.snake.len(), 3);
    assert_eq!(game.snake[0].x, game.width - 1);
    assert_eq!(game.score, 0);
    assert_eq!(game.speed_ms, 150);
    assert_eq!(game.food, pos(0, 0));
    game.update();
    assert!(game.game_over);
    assert_eq!(body(&game), vec![pos(4, 2), pos(3, 2), pos(2, 2)]);
}

#[test]
fn eating_food_one_cell_ahead() {
    let mut game = Game::new(5, 5);
    game.food = pos(3, 2);
    game.update();
    assert_eq!(game.score, 10);
    assert_eq!(game.snake.len(), 4);
    assert_eq!(body(&game), vec![pos(3, 2), pos(2, 2), pos(1, 2), pos(0, 2)]);
    assert_eq!(game.speed_ms, 148);
    assert!(!game.game_over);
    assert!(game.on_board(game.food));
    assert!(!game.occupies(game.food));
    assert!(game.is_well_formed());
}

#[test]
fn running_into_the_left_wall() {
    let mut game = game_with(
        5,
        5,
        vec![pos(0, 2), pos(1, 2), pos(2, 2)],
        Direction::Left,
        pos(4, 4),
    );
    let before = body(&game);
    game.update();
    assert!(game.game_over);
    assert_eq!(body(&game), before);
    assert_eq!(game.food, pos(4, 4));
    assert_eq!(game.score, 0);
    assert_eq!(game.speed_ms, 150);
}

#[test]
fn running_into_its_own_body() {
    let mut game = game_with(
        6,
        6,
        vec![pos(1, 1), pos(1, 2), pos(2, 2), pos(2, 1), pos(3, 1)],
        Direction::Up,
        pos(5, 5),
    );
    game.next_direction = Direction::Right;
    let before = body(&game);
    game.update();
    assert!(game.game_over);
    assert_eq!(game.direction, Direction::Right);
    assert_eq!(body(&game), before);
}

#[test]
fn the_tail_about_to_leave_still_counts_as_occupied() {
    let mut game = game_with(
        6,
        6,
        vec![pos(1, 1), pos(1, 2), pos(2, 2), pos(2, 1)],
        Direction::Up,
        pos(5, 5),
    );
    game.next_direction = Direction::Right;
    game.update();
    assert!(game.game_over);
    assert_eq!(body(&game), vec![pos(1, 1), pos(1, 2), pos(2, 2), pos(2, 1)]);
}

#[test]
fn reversal_rejected_and_turn_accepted() {
    let mut game = game_with(
        5,
        5,
        vec![pos(2, 2), pos(2, 3), pos(2, 4)],
        Direction::Up,
        pos(0, 0),
    );
    game.handle_input(Key::Down);
    assert_eq!(game.next_direction, Direction::Up);
    game.handle_input(Key::Left);
    assert_eq!(game.next_direction, Direction::Left);
    assert_eq!(game.direction, Direction::Up);
}

#[test]
fn reversal_is_judged_against_the_committed_direction() {
    let mut game = game_with(
        5,
        5,
        vec![pos(2, 2), pos(1, 2), pos(0, 2)],
        Direction::Right,
        pos(0, 0),
    );
    game.handle_input(Key::Up);
    assert_eq!(game.next_direction, Direction::Up);
    // Down reverses the pending direction, not the committed one: accepted.
    game.handle_input(Key::Down);
    assert_eq!(game.next_direction, Direction::Down);
    // Left reverses the committed direction: rejected, pending stays.
    game.handle_input(Key::Left);
    assert_eq!(game.next_direction, Direction::Down);
    game.handle_input(Key::Right);
    assert_eq!(game.next_direction, Direction::Right);
}

#[test]
fn each_reversal_is_rejected() {
    let pairs = [
        (Direction::Up, Key::Down),
        (Direction::Down, Key::Up),
        (Direction::Left, Key::Right),
        (Direction::Right, Key::Left),
    ];
    for (dir, key) in pairs {
        let mut game = game_with(5, 5, vec![pos(2, 2)], dir, pos(0, 0));
        let before = game.clone();
        game.handle_input(key);
        assert_eq!(game, before);
    }
}

#[test]
fn other_keys_change_nothing() {
    let mut game = Game::new(5, 5);
    let before = game.clone();
    game.handle_input(Key::Char('x'));
    game.handle_input(Key::Char('q'));
    game.handle_input(Key::Other);
    assert_eq!(game, before);
}

#[test]
fn last_accepted_input_before_a_tick_wins() {
    let mut game = Game::new(7, 7);
    game.food = pos(0, 0);
    game.handle_input(Key::Up);
    game.handle_input(Key::Down);
    game.update();
    assert_eq!(game.direction, Direction::Down);
    assert_eq!(body(&game), vec![pos(3, 4), pos(3, 3), pos(2, 3)]);
}

#[test]
fn update_moves_one_cell_in_each_direction() {
    let cases = [
        (Direction::Up, pos(2, 1)),
        (Direction::Down, pos(2, 3)),
        (Direction::Left, pos(1, 2)),
        (Direction::Right, pos(3, 2)),
    ];
    for (dir, head) in cases {
        let mut game = game_with(5, 5, vec![pos(2, 2)], dir, pos(0, 0));
        game.update();
        assert!(!game.game_over);
        assert_eq!(body(&game), vec![head]);
    }
}

#[test]
fn update_on_a_finished_game_changes_nothing() {
    let mut game = game_with(
        5,
        5,
        vec![pos(0, 2), pos(1, 2), pos(2, 2)],
        Direction::Left,
        pos(4, 4),
    );
    game.update();
    assert!(game.game_over);
    let over = game.clone();
    game.next_direction = Direction::Up;
    let pending = game.clone();
    game.update();
    assert_eq!(game, pending);
    game.update();
    assert_eq!(game, pending);
    assert_eq!(game.direction, over.direction);
}

#[test]
fn every_wall_ends_the_game() {
    let cases = [
        (pos(0, 0), Direction::Up),
        (pos(0, 0), Direction::Left),
        (pos(4, 3), Direction::Right),
        (pos(4, 3), Direction::Down),
    ];
    for (head, dir) in cases {
        let mut game = game_with(5, 4, vec![head], dir, pos(2, 2));
        game.update();
        assert!(game.game_over);
        assert_eq!(body(&game), vec![head]);
    }
}

#[test]
fn tick_interval_shortens_by_two_down_to_the_floor() {
    let speeds = [(150, 148), (100, 98), (83, 81), (82, 80), (81, 80), (80, 80)];
    for (before, after) in speeds {
        let mut game = game_with(
            5,
            5,
            vec![pos(2, 2), pos(1, 2), pos(0, 2)],
            Direction::Right,
            pos(3, 2),
        );
        game.speed_ms = before;
        game.score = 40;
        game.update();
        assert_eq!(game.speed_ms, after);
        assert_eq!(game.score, 50);
        assert_eq!(game.snake.len(), 4);
    }
}

#[test]
fn score_and_length_stay_without_food() {
    let mut game = game_with(
        5,
        5,
        vec![pos(2, 2), pos(1, 2), pos(0, 2)],
        Direction::Right,
        pos(0, 0),
    );
    game.score = 30;
    game.speed_ms = 120;
    game.update();
    assert_eq!(game.score, 30);
    assert_eq!(game.speed_ms, 120);
    assert_eq!(game.snake.len(), 3);
    assert_eq!(game.food, pos(0, 0));
}

#[test]
fn eating_the_last_free_cell_ends_the_game() {
    let mut game = game_with(2, 1, vec![pos(0, 0)], Direction::Right, pos(1, 0));
    assert!(game.is_well_formed());
    game.update();
    assert!(game.game_over);
    assert_eq!(game.score, 10);
    assert_eq!(game.speed_ms, 148);
    assert_eq!(body(&game), vec![pos(1, 0), pos(0, 0)]);
    assert_eq!(game.food, pos(1, 0));
    assert!(game.free_cells().is_empty());
    assert!(game.is_well_formed());
}

#[test]
fn long_play_keeps_the_game_well_formed() {
    let keys = [Key::Up, Key::Left, Key::Down, Key::Right, Key::Other];
    let mut game = Game::new(8, 6);
    let mut step: usize = 0;
    while !game.game_over && step < 500 {
        game.handle_input(keys[(step * 7 + step / 3) % keys.len()]);
        let length = game.snake.len();
        let score = game.score;
        let speed = game.speed_ms;
        game.update();
        assert!(game.is_well_formed());
        assert!(game.snake.len() == length || game.snake.len() == length + 1);
        assert_eq!(game.score - score, 10 * (game.snake.len() - length) as u32);
        assert!(game.speed_ms <= speed && game.speed_ms >= 80);
        if !game.game_over {
            assert!(!game.occupies(game.food));
            assert!(game.segments_distinct());
        }
        step += 1;
    }
}

#[test]
fn free_cells_come_row_by_row() {
    let game = game_with(
        3,
        2,
        vec![pos(1, 0), pos(1, 1)],
        Direction::Up,
        pos(0, 0),
    );
    assert_eq!(
        game.free_cells(),
        vec![pos(0, 0), pos(2, 0), pos(0, 1), pos(2, 1)]
    );
}

#[test]
fn place_food_takes_the_picked_cell() {
    let mut game = game_with(
        3,
        2,
        vec![pos(1, 0), pos(1, 1)],
        Direction::Up,
        pos(0, 0),
    );
    let cells = game.free_cells();
    let before = game.clone();
    game.place_food(&cells, 2);
    assert_eq!(game.food, pos(0, 1));
    assert!(!game.game_over);
    assert_eq!(game.snake, before.snake);
    game.place_food(&cells, 3);
    assert_eq!(game.food, pos(2, 1));
}

#[test]
fn place_food_without_cells_ends_the_game() {
    let mut game = game_with(2, 1, vec![pos(1, 0), pos(0, 0)], Direction::Right, pos(1, 0));
    let cells = game.free_cells();
    assert!(cells.is_empty());
    game.place_food(&cells, 0);
    assert!(game.game_over);
    assert_eq!(game.food, pos(1, 0));
}

#[test]
fn spawn_food_picks_a_free_cell_and_reaches_each() {
    let mut game = game_with(
        3,
        2,
        vec![pos(1, 0), pos(1, 1)],
        Direction::Up,
        pos(1, 0),
    );
    let mut seen: Vec<Position> = Vec::new();
    for _ in 0..400 {
        game.spawn_food();
        assert!(game.on_board(game.food));
        assert!(!game.occupies(game.food));
        assert!(!game.game_over);
        if !seen.contains(&game.food) {
            seen.push(game.food);
        }
    }
    assert_eq!(seen.len(), 4);
}

#[test]
fn spawn_food_on_a_full_board_ends_the_game() {
    let mut game = game_with(2, 1, vec![pos(1, 0), pos(0, 0)], Direction::Right, pos(1, 0));
    game.spawn_food();
    assert!(game.game_over);
    assert_eq!(game.food, pos(1, 0));
}

#[test]
fn occupancy_and_bounds() {
    let game = game_with(
        4,
        3,
        vec![pos(2, 1), pos(1, 1)],
        Direction::Right,
        pos(0, 0),
    );
    assert!(game.occupies(pos(2, 1)));
    assert!(game.occupies(pos(1, 1)));
    assert!(!game.occupies(pos(0, 1)));
    assert!(game.on_board(pos(0, 0)));
    assert!(game.on_board(pos(3, 2)));
    assert!(!game.on_board(pos(4, 2)));
    assert!(!game.on_board(pos(3, 3)));
    assert!(!game.on_board(pos(-1, 0)));
    assert!(!game.on_board(pos(0, -1)));
}

#[test]
fn well_formedness_is_decided() {
    let good = game_with(
        4,
        3,
        vec![pos(2, 1), pos(1, 1)],
        Direction::Right,
        pos(0, 0),
    );
    assert!(good.is_well_formed());
    assert!(good.segments_distinct());

    let mut twice = good.clone();
    twice.snake.push_back(pos(2, 1));
    assert!(!twice.segments_distinct());
    assert!(!twice.is_well_formed());

    let mut covered = good.clone();
    covered.food = pos(1, 1);
    assert!(!covered.is_well_formed());
    covered.game_over = true;
    assert!(!covered.is_well_formed());

    let mut outside = good.clone();
    outside.food = pos(4, 0);
    assert!(!outside.is_well_formed());

    let mut slow = good.clone();
    slow.speed_ms = 151;
    assert!(!slow.is_well_formed());
    slow.speed_ms = 79;
    assert!(!slow.is_well_formed());

    let mut headless = good.clone();
    headless.snake.clear();
    assert!(!headless.is_well_formed());

    let mut flat = good.clone();
    flat.height = 0;
    assert!(!flat.is_well_formed());
}

#[test]
fn tick_is_due_once_the_interval_has_passed() {
    let mut game = Game::new(5, 5);
    assert!(!game.tick_due(149));
    assert!(game.tick_due(150));
    assert!(game.tick_due(151));
    game.speed_ms = 80;
    assert!(!game.tick_due(79));
    assert!(game.tick_due(80));
}

#[test]
fn directions_and_steps() {
    assert_eq!(Direction::Up.opposite(), Direction::Down);
    assert_eq!(Direction::Down.opposite(), Direction::Up);
    assert_eq!(Direction::Left.opposite(), Direction::Right);
    assert_eq!(Direction::Right.opposite(), Direction::Left);
    assert_eq!(pos(3, 3).step(Direction::Up), pos(3, 2));
    assert_eq!(pos(3, 3).step(Direction::Down), pos(3, 4));
    assert_eq!(pos(3, 3).step(Direction::Left), pos(2, 3));
    assert_eq!(pos(3, 3).step(Direction::Right), pos(4, 3));
}

#[test]
fn try_food_takes_free_cells_only() {
    let mut game = game_with(
        3,
        2,
        vec![pos(1, 0), pos(1, 1)],
        Direction::Up,
        pos(0, 0),
    );
    let before = game.clone();
    assert!(!game.try_food(pos(1, 1)));
    assert_eq!(game, before);
    assert!(!game.try_food(pos(3, 0)));
    assert!(!game.try_food(pos(0, 2)));
    assert!(!game.try_food(pos(-1, 0)));
    assert_eq!(game, before);
    assert!(game.try_food(pos(2, 1)));
    assert_eq!(game.food, pos(2, 1));
    assert_eq!(game.snake, before.snake);
    assert!(!game.game_over);
}

#[test]
fn food_lands_on_a_large_board_at_once() {
    let game = Game::new(40000, 40000);
    assert!(!game.game_over);
    assert!(game.on_board(game.food));
    assert!(!game.occupies(game.food));
}

#[test]
fn steps_at_the_edge_of_the_coordinates() {
    assert_eq!(pos(i32::MAX, i32::MIN).step(Direction::Left), pos(i32::MAX - 1, i32::MIN));
    assert_eq!(pos(i32::MAX, i32::MIN).step(Direction::Down), pos(i32::MAX, i32::MIN + 1));
    assert_eq!(pos(i32::MIN, i32::MAX).step(Direction::Right), pos(i32::MIN + 1, i32::MAX));
    assert_eq!(pos(i32::MIN, i32::MAX).step(Direction::Up), pos(i32::MIN, i32::MAX - 1));
}

#[test]
fn update_is_allowed_unless_the_score_would_not_fit() {
    let mut game = game_with(
        5,
        5,
        vec![pos(2, 2), pos(1, 2), pos(0, 2)],
        Direction::Right,
        pos(3, 2),
    );
    assert!(game.can_update());
    game.score = u32::MAX - 10;
    assert!(game.can_update());
    game.update();
    assert_eq!(game.score, u32::MAX);
    assert_eq!(game.snake.len(), 4);

    // A full score stops only the tick that eats.
    game.food = pos(4, 2);
    assert!(!game.can_update());
    game.food = pos(0, 0);
    assert!(game.can_update());
    game.update();
    assert_eq!(game.score, u32::MAX);
    assert_eq!(body(&game), vec![pos(4, 2), pos(3, 2), pos(2, 2), pos(1, 2)]);

    // A crash and a finished game need no room in the score.
    game.food = pos(0, 0);
    assert!(game.can_update());
    game.update();
    assert!(game.game_over);
    assert!(game.can_update());

    let mut broken = game.clone();
    broken.snake.push_back(pos(4, 2));
    assert!(!broken.can_update());
}
