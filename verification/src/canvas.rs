//! The canvas compositor: renders a value pair as two four-digit rows
//! on a fixed 24 x 24 raster.
//!
//! Geometry: each digit row starts at a left margin of 1 cell and
//! advances with a pitch of 6 cells per digit (5 glyph columns and a
//! 1-cell gap). The first value's row of glyphs starts at y = 3, the
//! second at y = 14; glyphs are 7 rows tall, so the bands are rows 3-9
//! and 14-20. With 4 digits the last glyph column is x = 23, so
//! rendering never leaves the canvas.

use vstd::prelude::*;

use crate::color::Color;
use crate::digits::digit_at;
use crate::digits::digit_of;
use crate::glyphs::glyph_on;
use crate::glyphs::glyph_pixel;

verus! {

/// A 24 x 24 raster of packed RGB cells, stored row-major.
#[derive(Clone, Debug, PartialEq, Eq)]
pub struct Canvas {
    pub cells: Vec<u32>,
}

impl Canvas {
    /// A canvas holds exactly 24 * 24 cells.
    pub open spec fn wf(self) -> bool {
        self.cells@.len() == 576
    }

    /// The cell at column `x`, row `y`.
    pub open spec fn cell_at(self, x: int, y: int) -> u32 {
        self.cells@[y * 24 + x]
    }

    /// Reads the cell at column `x`, row `y`.
    pub fn cell(&self, x: usize, y: usize) -> (c: u32)
        requires
            self.wf(),
            x < 24,
            y < 24,
        ensures
            c == self.cell_at(x as int, y as int),
    {
        self.cells[y * 24 + x]
    }
}

/// Whether a digit row displaying `v` shows the foreground at column
/// `x` of its glyph row `gr`: under the margin-1, pitch-6 layout,
/// column `x` falls in digit cell `(x - 1) / 6` at glyph column
/// `(x - 1) % 6`, and the gap column (glyph column 5) is never drawn.
pub open spec fn row_shows(v: int, x: int, gr: int) -> bool {
    &&& 1 <= x
    &&& {
        let di = (x - 1) / 6;
        let gc = (x - 1) % 6;
        &&& di < 4
        &&& gc < 5
        &&& glyph_on(digit_at(v, di), gr, gc)
    }
}

/// Whether the foreground shows at canvas cell (`x`, `y`) when the
/// value pair (`xv`, `yv`) is displayed: `xv`'s digits occupy rows
/// 3-9, `yv`'s rows 14-20.
pub open spec fn shows_foreground(xv: int, yv: int, x: int, y: int) -> bool {
    if 3 <= y < 10 {
        row_shows(xv, x, y - 3)
    } else if 14 <= y < 21 {
        row_shows(yv, x, y - 14)
    } else {
        false
    }
}

/// The cell value where no foreground is drawn: the chosen background
/// color, or the neutral black fill when none is set.
pub open spec fn background_cell(bg: Option<Color>) -> u32 {
    match bg {
        Option::Some(c) => c.rgb,
        Option::None => 0,
    }
}

/// The cell value the compositor produces at (`x`, `y`).
pub open spec fn composed_cell(xv: int, yv: int, fg: Color, bg: Option<Color>, x: int, y: int) -> u32 {
    if shows_foreground(xv, yv, x, y) {
        fg.rgb
    } else {
        background_cell(bg)
    }
}

/// The canvas is exactly what the compositor produces for the value
/// pair (`xv`, `yv`) under the given colors: every cell is pinned.
pub open spec fn renders(c: Canvas, xv: int, yv: int, fg: Color, bg: Option<Color>) -> bool {
    &&& c.wf()
    &&& forall|x: int, y: int|
        0 <= x < 24 && 0 <= y < 24 ==> c.cell_at(x, y) == composed_cell(xv, yv, fg, bg, x, y)
}

/// Whether the row displaying `v` shows the foreground at column `x`
/// of its glyph row `gr`.
fn row_cell_shows(v: u32, x: usize, gr: usize) -> (on: bool)
    requires
        x < 24,
        gr < 7,
    ensures
        on == row_shows(v as int, x as int, gr as int),
{
    if x < 1 {
        return false;
    }
    let di: usize = (x - 1) / 6;
    let gc: usize = (x - 1) % 6;
    if gc >= 5 {
        return false;
    }
    let d: u8 = digit_of(v, di);
    glyph_pixel(d, gr as u8, gc as u8)
}

/// The compositor's output at the single cell (`x`, `y`).
fn composed_cell_value(xv: u32, yv: u32, fg: Color, bg: Option<Color>, x: usize, y: usize) -> (cell:
    u32)
    requires
        x < 24,
        y < 24,
    ensures
        cell == composed_cell(xv as int, yv as int, fg, bg, x as int, y as int),
{
    let on: bool = if y >= 3 && y < 10 {
        row_cell_shows(xv, x, y - 3)
    } else if y >= 14 && y < 21 {
        row_cell_shows(yv, x, y - 14)
    } else {
        false
    };
    if on {
        fg.rgb
    } else {
        match bg {
            Some(c) => c.rgb,
            None => 0,
        }
    }
}

/// Renders the value pair as two four-digit rows in the foreground
/// color over the background treatment. Pure: the result is a function
/// of the arguments alone, with every cell pinned by `renders`; values
/// of 10000 or more are truncated to their last four digits by the
/// digit model itself.
pub fn render(value_pair: (u32, u32), fg: Color, bg: Option<Color>) -> (canvas: Canvas)
    ensures
        renders(canvas, value_pair.0 as int, value_pair.1 as int, fg, bg),
{
    let xv: u32 = value_pair.0;
    let yv: u32 = value_pair.1;
    let mut cells: Vec<u32> = Vec::new();
    let mut y: usize = 0;
    while y < 24
        invariant
            y <= 24,
            cells@.len() == y * 24,
            forall|xi: int, yi: int|
                0 <= xi < 24 && 0 <= yi < y ==> cells@[yi * 24 + xi] == composed_cell(
                    xv as int,
                    yv as int,
                    fg,
                    bg,
                    xi,
                    yi,
                ),
        decreases 24 - y,
    {
        let mut x: usize = 0;
        while x < 24
            invariant
                y < 24,
                x <= 24,
                cells@.len() == y * 24 + x,
                forall|xi: int, yi: int|
                    0 <= xi < 24 && 0 <= yi < y ==> cells@[yi * 24 + xi] == composed_cell(
                        xv as int,
                        yv as int,
                        fg,
                        bg,
                        xi,
                        yi,
                    ),
                forall|xi: int|
                    0 <= xi < x ==> cells@[y * 24 + xi] == composed_cell(
                        xv as int,
                        yv as int,
                        fg,
                        bg,
                        xi,
                        y as int,
                    ),
            decreases 24 - x,
        {
            let cell: u32 = composed_cell_value(xv, yv, fg, bg, x, y);
            cells.push(cell);
            x = x + 1;
        }
        y = y + 1;
    }
    Canvas { cells }
}

/// Purity of the compositor: any two canvases rendered from identical
/// inputs are cell-for-cell identical.
pub proof fn lemma_compositor_pure(
    c1: Canvas,
    c2: Canvas,
    xv: int,
    yv: int,
    fg: Color,
    bg: Option<Color>,
)
    requires
        renders(c1, xv, yv, fg, bg),
        renders(c2, xv, yv, fg, bg),
    ensures
        c1.cells@ == c2.cells@,
{
    assert forall|k: int| 0 <= k < 576 implies c1.cells@[k] == c2.cells@[k] by {
        let xi: int = k % 24;
        let yi: int = k / 24;
        vstd::arithmetic::div_mod::lemma_fundamental_div_mod(k, 24);
        assert(c1.cell_at(xi, yi) == composed_cell(xv, yv, fg, bg, xi, yi));
        assert(c2.cell_at(xi, yi) == composed_cell(xv, yv, fg, bg, xi, yi));
    };
    assert(c1.cells@ =~= c2.cells@);
}

} // verus!
