use wasm_snake::{
    render, resolve_direction, step_snake, str_eq, handle_input, Color, Direction, DrawRect, Game,
    Input, Position, Size, SNAKE_LEN, TICK_MS,
};

fn pos(x: i32, y: i32) -> Position {
    Position { x, y }
}

fn initial() -> Vec<Position> {
    vec![pos(4, 0), pos(3, 0), pos(2, 0), pos(1, 0), pos(0, 0)]
}

const GRID: Size = Size { w: 20, h: 20 };

#[test]
fn one_tick_right_from_start() {
    let mut snake = initial();
    assert!(step_snake(&mut snake, Direction::Right, GRID));
    assert_eq!(snake, vec![pos(5, 0), pos(4, 0), pos(3, 0), pos(2, 0), pos(1, 0)]);
}

#[test]
fn one_frame_right_from_start() {
    let mut game = Game::new(0);
    let input = Input::new();
    game.frame(&input, TICK_MS + 1);
    assert_eq!(game.snake(), &vec![pos(5, 0), pos(4, 0), pos(3, 0), pos(2, 0), pos(1, 0)]);
    assert_eq!(game.last_tick(), TICK_MS + 1);
}

#[test]
fn up_while_right_is_accepted() {
    let mut input = Input::new();
    input.set_pressed("ArrowUp", true);
    assert_eq!(resolve_direction(&input, Direction::Right, Direction::Right), Direction::Up);

    let mut snake = vec![pos(4, 5), pos(3, 5), pos(2, 5), pos(1, 5), pos(0, 5)];
    assert!(step_snake(&mut snake, Direction::Up, GRID));
    assert_eq!(snake[0], pos(4, 4));
}

#[test]
fn up_at_top_row_is_refused() {
    let mut game = Game::new(0);
    let mut input = Input::new();
    input.set_pressed("ArrowUp", true);
    game.frame(&input, 200);
    assert_eq!(game.last_direction(), Direction::Up);
    assert_eq!(game.snake(), &initial());
}

#[test]
fn left_while_right_is_refused() {
    let mut game = Game::new(0);
    let mut input = Input::new();
    input.set_pressed("ArrowLeft", true);
    assert_eq!(resolve_direction(&input, Direction::Right, Direction::Right), Direction::Right);
    game.frame(&input, 151);
    assert_eq!(game.direction(), Direction::Right);
    assert_eq!(game.last_direction(), Direction::Right);
    assert_eq!(game.snake()[0], pos(5, 0));
}

#[test]
fn right_at_east_wall_is_refused() {
    let mut snake = vec![pos(19, 0), pos(18, 0), pos(17, 0), pos(16, 0), pos(15, 0)];
    let before = snake.clone();
    assert!(!step_snake(&mut snake, Direction::Right, GRID));
    assert_eq!(snake, before);
}

#[test]
fn no_key_keeps_advancing() {
    let mut game = Game::new(1000);
    let input = Input::new();
    let mut now: u64 = 1000;
    for k in 1..=4 {
        now += TICK_MS + 1;
        game.frame(&input, now);
        assert_eq!(game.snake()[0], pos(4 + k, 0));
        assert_eq!(game.snake().len(), SNAKE_LEN);
    }
}

#[test]
fn frame_within_interval_does_not_move() {
    let mut game = Game::new(1000);
    let mut input = Input::new();
    input.set_pressed("ArrowDown", true);
    game.frame(&input, 1000 + TICK_MS);
    assert_eq!(game.snake(), &initial());
    assert_eq!(game.direction(), Direction::Down);
    assert_eq!(game.last_direction(), Direction::Right);
    assert_eq!(game.last_tick(), 1000);

    input.set_pressed("ArrowDown", false);
    game.frame(&input, 1000 + TICK_MS + 1);
    assert_eq!(game.snake()[0], pos(4, 1));
    assert_eq!(game.last_direction(), Direction::Down);
}

#[test]
fn clock_going_back_does_not_tick() {
    let mut game = Game::new(1000);
    let input = Input::new();
    game.frame(&input, 10);
    assert_eq!(game.snake(), &initial());
    assert_eq!(game.last_tick(), 1000);
}

#[test]
fn direction_never_reverses_over_frames() {
    let mut game = Game::new(0);
    let mut input = Input::new();
    let keys = ["ArrowLeft", "ArrowDown", "ArrowUp", "ArrowRight", "ArrowLeft", "ArrowUp"];
    let mut now: u64 = 0;
    for key in keys.iter() {
        let before = game.last_direction();
        input.set_pressed(key, true);
        now += 200;
        game.frame(&input, now);
        input.set_pressed(key, false);
        let after = game.last_direction();
        assert!(!after.is_reverse_of(before));
        assert_eq!(game.snake().len(), SNAKE_LEN);
    }
}

#[test]
fn running_into_body_is_refused() {
    // A hook shape whose head would step onto the fourth segment.
    let mut snake = vec![pos(2, 2), pos(2, 3), pos(3, 3), pos(3, 2), pos(4, 2)];
    let before = snake.clone();
    assert!(!step_snake(&mut snake, Direction::Right, GRID));
    assert_eq!(snake, before);
}

#[test]
fn stepping_onto_tail_is_refused() {
    let mut snake = vec![pos(2, 2), pos(2, 3), pos(3, 3), pos(3, 2)];
    let before = snake.clone();
    assert!(!step_snake(&mut snake, Direction::Right, GRID));
    assert_eq!(snake, before);
}

#[test]
fn body_follows_head() {
    let mut snake = vec![pos(5, 5), pos(5, 6), pos(6, 6), pos(7, 6), pos(7, 7)];
    let before = snake.clone();
    assert!(step_snake(&mut snake, Direction::Left, GRID));
    assert_eq!(snake[0], pos(4, 5));
    for i in 1..snake.len() {
        assert_eq!(snake[i], before[i - 1]);
    }
}

#[test]
fn negative_head_is_refused() {
    let mut snake = vec![pos(0, 0), pos(1, 0)];
    assert!(!step_snake(&mut snake, Direction::Left, GRID));
    assert_eq!(snake, vec![pos(0, 0), pos(1, 0)]);
    assert!(!step_snake(&mut snake, Direction::Up, GRID));
}

#[test]
fn extreme_coordinates_are_refused() {
    let mut snake = vec![pos(i32::MAX, 0)];
    assert!(!step_snake(&mut snake, Direction::Right, Size { w: i32::MAX, h: 20 }));
    assert_eq!(snake, vec![pos(i32::MAX, 0)]);
}

#[test]
fn render_clears_then_draws_cells() {
    let snake = vec![pos(1, 2), pos(0, 2)];
    let cell = Size { w: 25, h: 25 };
    let canvas = Size { w: 500, h: 500 };
    let rects = render(&snake, cell, canvas);
    assert_eq!(
        rects,
        vec![
            DrawRect { pos: pos(0, 0), size: canvas, color: Color::White },
            DrawRect { pos: pos(25, 50), size: cell, color: Color::Black },
            DrawRect { pos: pos(0, 50), size: cell, color: Color::Black },
        ]
    );
}

#[test]
fn frame_returns_picture_of_snake() {
    let mut game = Game::new(0);
    let input = Input::new();
    let rects = game.frame(&input, 0);
    assert_eq!(rects.len(), 6);
    assert_eq!(rects[0], DrawRect { pos: pos(0, 0), size: Size { w: 500, h: 500 }, color: Color::White });
    assert_eq!(rects[1], DrawRect { pos: pos(100, 0), size: Size { w: 25, h: 25 }, color: Color::Black });
    assert_eq!(rects[5], DrawRect { pos: pos(0, 0), size: Size { w: 25, h: 25 }, color: Color::Black });
    assert_eq!(game.cell_size(), Size { w: 25, h: 25 });
    assert_eq!(game.canvas_size(), Size { w: 500, h: 500 });
}

#[test]
fn color_names() {
    assert_eq!(Color::White.css_name(), "white");
    assert_eq!(Color::Black.css_name(), "black");
}

#[test]
fn latch_tracks_arrow_keys() {
    let mut input = Input::new();
    for key in ["ArrowUp", "ArrowDown", "ArrowLeft", "ArrowRight"] {
        assert!(!input.is_pressed(key));
        input.set_pressed(key, true);
        assert!(input.is_pressed(key));
        input.set_pressed(key, false);
        assert!(!input.is_pressed(key));
    }
}

#[test]
fn latch_ignores_other_keys() {
    let mut input = Input::new();
    input.set_pressed("a", true);
    input.set_pressed("Arrow", true);
    assert_eq!(input, Input::new());
}

#[test]
fn key_priority_is_up_down_left_right() {
    let mut input = Input::new();
    let mut d = Direction::Left;
    handle_input(&input, &mut d);
    assert_eq!(d, Direction::Left);
    input.set_pressed("ArrowRight", true);
    handle_input(&input, &mut d);
    assert_eq!(d, Direction::Right);
    input.set_pressed("ArrowLeft", true);
    handle_input(&input, &mut d);
    assert_eq!(d, Direction::Left);
    input.set_pressed("ArrowDown", true);
    handle_input(&input, &mut d);
    assert_eq!(d, Direction::Down);
    input.set_pressed("ArrowUp", true);
    handle_input(&input, &mut d);
    assert_eq!(d, Direction::Up);
}

#[test]
fn pressed_reversal_falls_back_to_last() {
    let mut input = Input::new();
    input.set_pressed("ArrowDown", true);
    input.set_pressed("ArrowLeft", true);
    // Down wins the priority and reverses Up, so Up stays.
    assert_eq!(resolve_direction(&input, Direction::Up, Direction::Up), Direction::Up);
}

#[test]
fn string_equality() {
    assert!(str_eq("ArrowUp", "ArrowUp"));
    assert!(!str_eq("ArrowUp", "ArrowUq"));
    assert!(!str_eq("ArrowUp", "ArrowUpX"));
    assert!(str_eq("", ""));
    assert!(str_eq("é", "é"));
}

#[test]
fn position_addition_and_shifts() {
    assert_eq!(pos(3, 4) + pos(-1, 2), pos(2, 6));
    assert_eq!(Direction::Up.shift(), pos(0, -1));
    assert_eq!(Direction::Down.shift(), pos(0, 1));
    assert_eq!(Direction::Left.shift(), pos(-1, 0));
    assert_eq!(Direction::Right.shift(), pos(1, 0));
    assert!(Direction::Up.is_reverse_of(Direction::Down));
    assert!(Direction::Left.is_reverse_of(Direction::Right));
    assert!(!Direction::Up.is_reverse_of(Direction::Left));
    assert!(!Direction::Right.is_reverse_of(Direction::Right));
}
