use vstd::prelude::*;
use crate::geometry::{Direction, Position, Size, opposite, unit_shift, lemma_opposite_cancels};
use crate::input::{Input, up_key, down_key, left_key, right_key};
use crate::render::{DrawRect, picture, pixel_fits, render};
use crate::snake::{
    all_distinct, all_in_grid, in_grid, stepped, step_snake, lemma_step_keeps_distinct,
    lemma_step_stays_in_grid,
};

verus! {

/// Width of the board, in cells.
pub const GRID_WIDTH: i32 = 20;

/// Height of the board, in cells.
pub const GRID_HEIGHT: i32 = 20;

/// Width of the canvas, in pixels.
pub const CANVAS_WIDTH: i32 = 500;

/// Height of the canvas, in pixels.
pub const CANVAS_HEIGHT: i32 = 500;

/// Milliseconds that must pass, strictly, between two ticks.
pub const TICK_MS: u64 = 150;

/// Number of segments of the snake.
pub const SNAKE_LEN: usize = 5;

/// The board, in cells.
pub open spec fn grid() -> Size {
    Size { w: GRID_WIDTH, h: GRID_HEIGHT }
}

/// The canvas, in pixels.
pub open spec fn canvas() -> Size {
    Size { w: CANVAS_WIDTH, h: CANVAS_HEIGHT }
}

/// One cell, in pixels: the canvas divided evenly by the grid.
pub open spec fn cell() -> Size {
    Size { w: (CANVAS_WIDTH / GRID_WIDTH) as i32, h: (CANVAS_HEIGHT / GRID_HEIGHT) as i32 }
}

/// The snake at start: five segments along the top row, head at `(4, 0)`.
pub open spec fn initial_snake() -> Seq<Position> {
    seq![
        Position { x: 4, y: 0 },
        Position { x: 3, y: 0 },
        Position { x: 2, y: 0 },
        Position { x: 1, y: 0 },
        Position { x: 0, y: 0 },
    ]
}

/// The direction that the held keys ask for, in the order up, down, left,
/// right; `current` when none is held.
pub open spec fn pressed_direction(keys: Map<Seq<char>, bool>, current: Direction) -> Direction {
    if keys[up_key()] {
        Direction::Up
    } else if keys[down_key()] {
        Direction::Down
    } else if keys[left_key()] {
        Direction::Left
    } else if keys[right_key()] {
        Direction::Right
    } else {
        current
    }
}

/// The direction for the next tick: the one the keys ask for (or the
/// pending one), unless it reverses `last`, in which case `last`.
pub open spec fn resolve(keys: Map<Seq<char>, bool>, pending: Direction, last: Direction) -> Direction {
    let c = pressed_direction(keys, pending);
    if c == opposite(last) {
        last
    } else {
        c
    }
}

/// Whether a tick is due at `now`, the last one having been at `last`.
pub open spec fn tick_due(last: u64, now: u64) -> bool {
    now > last + TICK_MS
}

/// Sets `direction` to the first held arrow key, in the order up, down,
/// left, right; leaves it when none is held.
pub fn handle_input(input: &Input, direction: &mut Direction)
    ensures
        *final(direction) == pressed_direction(input@, *old(direction)),
{
    if input.is_pressed("ArrowUp") {
        *direction = Direction::Up;
    } else if input.is_pressed("ArrowDown") {
        *direction = Direction::Down;
    } else if input.is_pressed("ArrowLeft") {
        *direction = Direction::Left;
    } else if input.is_pressed("ArrowRight") {
        *direction = Direction::Right;
    }
}

/// The direction for the next tick, from the held keys, the pending
/// direction and the direction of the last tick. A reversal is refused.
pub fn resolve_direction(input: &Input, pending: Direction, last: Direction) -> (r: Direction)
    ensures
        r == resolve(input@, pending, last),
        r != opposite(last),
{
    let mut d = pending;
    handle_input(input, &mut d);
    if d.is_reverse_of(last) {
        last
    } else {
        d
    }
}

/// What the game holds: the snake, head first; the direction pending for
/// the next tick; the direction of the last tick; the time of the last tick.
pub struct GameView {
    pub snake: Seq<Position>,
    pub direction: Direction,
    pub last_direction: Direction,
    pub last_tick: u64,
}

/// The state after one animation frame at time `now` with `keys` held.
pub open spec fn next_state(s: GameView, keys: Map<Seq<char>, bool>, now: u64) -> GameView {
    let d = resolve(keys, s.direction, s.last_direction);
    if tick_due(s.last_tick, now) {
        GameView {
            snake: stepped(s.snake, d, grid()),
            direction: d,
            last_direction: d,
            last_tick: now,
        }
    } else {
        GameView { direction: d, ..s }
    }
}

/// The state after the frames `frames`, each the held keys and the time at
/// which it runs, in order.
pub open spec fn run(s: GameView, frames: Seq<(Map<Seq<char>, bool>, u64)>) -> GameView
    decreases frames.len(),
{
    if frames.len() == 0 {
        s
    } else {
        let f = frames.last();
        next_state(run(s, frames.drop_last()), f.0, f.1)
    }
}

/// Whatever keys are held, the direction applied at a tick is never the
/// reverse of the direction applied at the tick before: its unit step is
/// never the negation of the previous one.
pub proof fn lemma_no_reversal(s: GameView, keys: Map<Seq<char>, bool>, now: u64)
    ensures
        next_state(s, keys, now).last_direction != opposite(s.last_direction),
        ({
            let a = unit_shift(next_state(s, keys, now).last_direction);
            let b = unit_shift(s.last_direction);
            !(a.0 == -b.0 && a.1 == -b.1)
        }),
{
    lemma_opposite_cancels(next_state(s, keys, now).last_direction, s.last_direction);
}

/// Over any run of frames the snake keeps its length.
pub proof fn lemma_run_keeps_length(s: GameView, frames: Seq<(Map<Seq<char>, bool>, u64)>)
    requires
        s.snake.len() >= 1,
    ensures
        run(s, frames).snake.len() == s.snake.len(),
    decreases frames.len(),
{
    if frames.len() > 0 {
        lemma_run_keeps_length(s, frames.drop_last());
    }
}

/// The snake game: the snake on its board, its direction, and the clock
/// that paces its ticks.
pub struct Game {
    snake: Vec<Position>,
    direction: Direction,
    last_direction: Direction,
    last_tick: u64,
}

impl View for Game {
    type V = GameView;

    closed spec fn view(&self) -> GameView {
        GameView {
            snake: self.snake@,
            direction: self.direction,
            last_direction: self.last_direction,
            last_tick: self.last_tick,
        }
    }
}

/// Every segment on the board lies on the canvas, in pixels.
proof fn lemma_pixels_fit(snake: Seq<Position>)
    requires
        all_in_grid(snake, grid()),
    ensures
        forall|i: int| 0 <= i < snake.len() ==> pixel_fits(#[trigger] snake[i], cell()),
{
    assert forall|i: int| 0 <= i < snake.len() implies pixel_fits(#[trigger] snake[i], cell()) by {
        let p = snake[i];
        assert(in_grid((p.x as int, p.y as int), grid()));
        assert(0 <= p.x * 25 <= 475) by (nonlinear_arith)
            requires
                0 <= p.x < 20,
        ;
        assert(0 <= p.y * 25 <= 475) by (nonlinear_arith)
            requires
                0 <= p.y < 20,
        ;
    }
}

impl Game {
    /// The snake has its length and lies on the board.
    pub closed spec fn wf(&self) -> bool {
        &&& self.snake@.len() == SNAKE_LEN
        &&& all_in_grid(self.snake@, grid())
        &&& all_distinct(self.snake@)
    }

    /// A game at its start, with the clock at `now`: the snake along the
    /// top row heading right.
    pub fn new(now: u64) -> (r: Game)
        ensures
            r.wf(),
            all_distinct(r@.snake),
            r@.snake == initial_snake(),
            r@.direction == Direction::Right,
            r@.last_direction == Direction::Right,
            r@.last_tick == now,
    {
        let snake = vec![
            Position { x: 4, y: 0 },
            Position { x: 3, y: 0 },
            Position { x: 2, y: 0 },
            Position { x: 1, y: 0 },
            Position { x: 0, y: 0 },
        ];
        let r = Game {
            snake,
            direction: Direction::Right,
            last_direction: Direction::Right,
            last_tick: now,
        };
        assert(r.snake@ =~= initial_snake());
        r
    }

    /// One animation frame at time `now`: resolves the direction from the
    /// held keys, advances the snake when a tick is due, and returns the
    /// draw calls for the resulting state.
    pub fn frame(&mut self, input: &Input, now: u64) -> (r: Vec<DrawRect>)
        requires
            old(self).wf(),
        ensures
            final(self).wf(),
            all_distinct(final(self)@.snake),
            final(self)@ == next_state(old(self)@, input@, now),
            r@ == picture(final(self)@.snake, cell(), canvas()),
            final(self)@.last_direction != opposite(old(self)@.last_direction),
            final(self)@.snake.len() == SNAKE_LEN,
    {
        let d = resolve_direction(input, self.direction, self.last_direction);
        self.direction = d;
        if now > self.last_tick && now - self.last_tick > TICK_MS {
            proof {
                lemma_step_stays_in_grid(self.snake@, d, grid());
                lemma_step_keeps_distinct(self.snake@, d, grid());
            }
            self.last_tick = now;
            self.last_direction = d;
            step_snake(&mut self.snake, d, Size { w: GRID_WIDTH, h: GRID_HEIGHT });
        }
        proof {
            lemma_pixels_fit(self.snake@);
        }
        render(
            &self.snake,
            Size { w: CANVAS_WIDTH / GRID_WIDTH, h: CANVAS_HEIGHT / GRID_HEIGHT },
            Size { w: CANVAS_WIDTH, h: CANVAS_HEIGHT },
        )
    }

    /// The snake, head first.
    pub fn snake(&self) -> (r: &Vec<Position>)
        ensures
            r@ == self@.snake,
    {
        &self.snake
    }

    /// The direction pending for the next tick.
    pub fn direction(&self) -> (r: Direction)
        ensures
            r == self@.direction,
    {
        self.direction
    }

    /// The direction of the last tick.
    pub fn last_direction(&self) -> (r: Direction)
        ensures
            r == self@.last_direction,
    {
        self.last_direction
    }

    /// The time of the last tick, in milliseconds.
    pub fn last_tick(&self) -> (r: u64)
        ensures
            r == self@.last_tick,
    {
        self.last_tick
    }

    /// One cell of the board, in pixels.
    pub fn cell_size(&self) -> (r: Size)
        ensures
            r == cell(),
    {
        Size { w: CANVAS_WIDTH / GRID_WIDTH, h: CANVAS_HEIGHT / GRID_HEIGHT }
    }

    /// The canvas, in pixels.
    pub fn canvas_size(&self) -> (r: Size)
        ensures
            r == canvas(),
    {
        Size { w: CANVAS_WIDTH, h: CANVAS_HEIGHT }
    }
}

} // verus!
