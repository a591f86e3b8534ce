use vstd::prelude::*;
use crate::geometry::{Direction, Position, Size, unit_shift, sum_fits};

verus! {

/// The cell that the head would move to when stepping in `d`.
pub open spec fn next_head(snake: Seq<Position>, d: Direction) -> (int, int) {
    (snake[0].x + unit_shift(d).0, snake[0].y + unit_shift(d).1)
}

/// Whether the cell `p` lies in the grid `[0, grid.w) x [0, grid.h)`.
pub open spec fn in_grid(p: (int, int), grid: Size) -> bool {
    0 <= p.0 < grid.w && 0 <= p.1 < grid.h
}

/// Whether the cell `p` is taken by a segment other than the head.
pub open spec fn hits_body(snake: Seq<Position>, p: (int, int)) -> bool {
    exists|i: int| 1 <= i < snake.len() && snake[i].x == p.0 && snake[i].y == p.1
}

/// Whether a step in `d` is allowed: it stays in the grid and does not run
/// into the body.
pub open spec fn move_accepted(snake: Seq<Position>, d: Direction, grid: Size) -> bool {
    in_grid(next_head(snake, d), grid) && !hits_body(snake, next_head(snake, d))
}

/// The cell `p` as a position.
pub open spec fn to_position(p: (int, int)) -> Position {
    Position { x: p.0 as i32, y: p.1 as i32 }
}

/// The snake after its head moved to `head`: each segment takes the place
/// of the one before it, and the tail cell is left.
pub open spec fn moved(snake: Seq<Position>, head: Position) -> Seq<Position> {
    seq![head] + snake.drop_last()
}

/// The snake after one tick in `d`: moved when the step is allowed,
/// unchanged otherwise.
pub open spec fn stepped(snake: Seq<Position>, d: Direction, grid: Size) -> Seq<Position> {
    if move_accepted(snake, d, grid) {
        moved(snake, to_position(next_head(snake, d)))
    } else {
        snake
    }
}

/// Whether every segment lies in the grid.
pub open spec fn all_in_grid(snake: Seq<Position>, grid: Size) -> bool {
    forall|i: int| 0 <= i < snake.len() ==> in_grid((snake[i].x as int, snake[i].y as int), grid)
}

/// Whether the cell `p` is taken by a segment other than the head.
fn hits_body_exec(snake: &Vec<Position>, p: Position) -> (r: bool)
    requires
        snake@.len() >= 1,
    ensures
        r == hits_body(snake@, (p.x as int, p.y as int)),
{
    let mut i: usize = 1;
    while i < snake.len()
        invariant
            1 <= i <= snake.len(),
            forall|j: int| 1 <= j < i ==> !(snake@[j] == p),
        decreases snake.len() - i,
    {
        if snake[i] == p {
            return true;
        }
        i = i + 1;
    }
    false
}

/// Advances the snake one cell in `direction` inside a `grid` sized board.
///
/// The step is refused, and the snake left exactly as it was, when the new
/// head would leave the grid or land on a segment other than the current
/// head. Otherwise every segment takes the place of the one before it and the
/// head moves to the new cell. Returns whether the step was taken.
pub fn step_snake(snake: &mut Vec<Position>, direction: Direction, grid: Size) -> (accepted: bool)
    requires
        old(snake).len() >= 1,
    ensures
        accepted == move_accepted(old(snake)@, direction, grid),
        final(snake)@ == stepped(old(snake)@, direction, grid),
        final(snake)@.len() == old(snake)@.len(),
        !accepted ==> final(snake)@ == old(snake)@,
        accepted ==> final(snake)@[0] == to_position(next_head(old(snake)@, direction)),
        accepted ==> forall|i: int|
            1 <= i < old(snake)@.len() ==> final(snake)@[i] == old(snake)@[i - 1],
{
    let head = snake[0];
    let shift = direction.shift();
    let nx: i64 = head.x as i64 + shift.x as i64;
    let ny: i64 = head.y as i64 + shift.y as i64;
    if nx < 0 || nx >= grid.w as i64 || ny < 0 || ny >= grid.h as i64 {
        return false;
    }
    assert(sum_fits(head, shift));
    let shifted = head + shift;
    if hits_body_exec(snake, shifted) {
        return false;
    }
    let ghost before = snake@;
    let n = snake.len();
    let mut i: usize = n - 1;
    while i > 0
        invariant
            n == before.len(),
            snake@.len() == n,
            i < n,
            forall|j: int| 0 <= j <= i ==> snake@[j] == before[j],
            forall|j: int| i < j < n ==> snake@[j] == before[j - 1],
        decreases i,
    {
        let prev = snake[i - 1];
        snake.set(i, prev);
        i = i - 1;
    }
    snake.set(0, shifted);
    assert(snake@ =~= moved(before, to_position(next_head(before, direction))));
    true
}

/// Whether no two segments share a cell.
pub open spec fn all_distinct(snake: Seq<Position>) -> bool {
    forall|i: int, j: int| 0 <= i < j < snake.len() ==> snake[i] != snake[j]
}

/// A step never puts two segments on one cell.
pub proof fn lemma_step_keeps_distinct(snake: Seq<Position>, d: Direction, grid: Size)
    requires
        snake.len() >= 1,
        all_distinct(snake),
    ensures
        all_distinct(stepped(snake, d, grid)),
{
    let s = stepped(snake, d, grid);
    if move_accepted(snake, d, grid) {
        let h = next_head(snake, d);
        assert forall|i: int, j: int| 0 <= i < j < s.len() implies s[i] != s[j] by {
            if i == 0 {
                assert(s[j] == snake[j - 1]);
                if j == 1 {
                    assert(unit_shift(d) != (0int, 0int));
                } else {
                    assert(!(snake[j - 1].x == h.0 && snake[j - 1].y == h.1));
                }
            } else {
                assert(s[i] == snake[i - 1] && s[j] == snake[j - 1]);
            }
        }
    }
}

/// A step keeps every segment in the grid.
pub proof fn lemma_step_stays_in_grid(snake: Seq<Position>, d: Direction, grid: Size)
    requires
        snake.len() >= 1,
        all_in_grid(snake, grid),
    ensures
        all_in_grid(stepped(snake, d, grid), grid),
        stepped(snake, d, grid).len() == snake.len(),
{
    let s = stepped(snake, d, grid);
    if move_accepted(snake, d, grid) {
        assert forall|i: int| 0 <= i < s.len() implies in_grid(
            (s[i].x as int, s[i].y as int),
            grid,
        ) by {
            if i > 0 {
                assert(s[i] == snake[i - 1]);
            }
        }
    }
}

} // verus!
