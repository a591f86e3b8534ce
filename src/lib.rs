//! A snake on a fixed grid: geometry, a key latch, and the tick engine that
//! steers, moves and draws the snake.
mod game;
mod geometry;
mod input;
mod render;
mod snake;

pub use game::{
    handle_input, resolve_direction, Game, CANVAS_HEIGHT, CANVAS_WIDTH, GRID_HEIGHT, GRID_WIDTH,
    SNAKE_LEN, TICK_MS,
};
pub use geometry::{Direction, Position, Size};
pub use input::{str_eq, Input};
pub use render::{render, Color, DrawRect};
pub use snake::step_snake;
