use vstd::prelude::*;
use crate::geometry::{Position, Size};

verus! {

/// The two fills a frame uses.
#[derive(Clone, Copy, Debug, PartialEq, Eq, Structural)]
pub enum Color {
    /// The background that clears the canvas.
    White,
    /// The fill of a snake segment.
    Black,
}

impl Color {
    /// The CSS name of the color.
    pub fn css_name(self) -> (r: &'static str)
        ensures
            self == Color::White ==> r@ == "white"@,
            self == Color::Black ==> r@ == "black"@,
    {
        match self {
            Color::White => "white",
            Color::Black => "black",
        }
    }
}

/// One filled, axis-aligned rectangle in pixel coordinates.
#[derive(Clone, Copy, Debug, PartialEq, Eq, Structural)]
pub struct DrawRect {
    pub pos: Position,
    pub size: Size,
    pub color: Color,
}

/// The rectangle that clears a canvas of the given extent.
pub open spec fn clear_rect(canvas: Size) -> DrawRect {
    DrawRect { pos: Position { x: 0, y: 0 }, size: canvas, color: Color::White }
}

/// Whether the pixel corner of grid cell `p` fits in `i32`.
pub open spec fn pixel_fits(p: Position, cell: Size) -> bool {
    i32::MIN <= p.x * cell.w <= i32::MAX && i32::MIN <= p.y * cell.h <= i32::MAX
}

/// The rectangle that draws the segment in grid cell `p`.
pub open spec fn cell_rect(p: Position, cell: Size) -> DrawRect {
    DrawRect {
        pos: Position { x: (p.x * cell.w) as i32, y: (p.y * cell.h) as i32 },
        size: cell,
        color: Color::Black,
    }
}

/// The picture of a snake: the clearing rectangle, then one rectangle per
/// segment, head first.
pub open spec fn picture(snake: Seq<Position>, cell: Size, canvas: Size) -> Seq<DrawRect> {
    seq![clear_rect(canvas)] + snake.map_values(|p: Position| cell_rect(p, cell))
}

/// The draw calls for one frame: clear the whole canvas, then fill one
/// cell-sized rectangle at each segment's pixel position.
pub fn render(snake: &Vec<Position>, cell: Size, canvas: Size) -> (r: Vec<DrawRect>)
    requires
        forall|i: int| 0 <= i < snake@.len() ==> pixel_fits(#[trigger] snake@[i], cell),
    ensures
        r@ == picture(snake@, cell, canvas),
        r@.len() == snake@.len() + 1,
        r@[0] == clear_rect(canvas),
        forall|i: int| 0 <= i < snake@.len() ==> r@[i + 1] == cell_rect(#[trigger] snake@[i], cell),
{
    let mut r: Vec<DrawRect> = Vec::new();
    r.push(DrawRect { pos: Position { x: 0, y: 0 }, size: canvas, color: Color::White });
    let mut i: usize = 0;
    while i < snake.len()
        invariant
            forall|j: int| 0 <= j < snake@.len() ==> pixel_fits(#[trigger] snake@[j], cell),
            i <= snake@.len(),
            r@ == picture(snake@.subrange(0, i as int), cell, canvas),
        decreases snake.len() - i,
    {
        let p = snake[i];
        assert(pixel_fits(snake@[i as int], cell));
        r.push(DrawRect { pos: Position { x: p.x * cell.w, y: p.y * cell.h }, size: cell, color: Color::Black });
        assert(snake@.subrange(0, i + 1) == snake@.subrange(0, i as int).push(p));
        assert(r@ =~= picture(snake@.subrange(0, i + 1), cell, canvas));
        i = i + 1;
    }
    assert(snake@.subrange(0, snake@.len() as int) == snake@);
    r
}

} // verus!
