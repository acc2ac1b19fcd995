use vstd::prelude::*;

verus! {

use crate::cells::GridCellKind;
use crate::state::GridState;

/// Pixel size of one grid cell in the demo window.
pub const SCALE_IN_PX: usize = 50;

/// Margin kept clear around a cell's fill box.
pub const CELL_FILL_MARGIN_IN_PX: usize = 10;

/// Thickness of a drawn cell edge.
pub const EDGE_THICKNESS_IN_PX: usize = 5;

/// An 8-bit RGB color.
#[derive(Clone, Copy, PartialEq, Eq, Structural, Debug)]
pub struct Color {
    pub r: u8,
    pub g: u8,
    pub b: u8,
}

/// An axis-aligned filled rectangle in pixel coordinates, covering the
/// pixels with `x1 <= x < x2` and `y1 <= y < y2`.
#[derive(Clone, Copy, PartialEq, Eq, Structural, Debug)]
pub struct DrawBox {
    pub x1: usize,
    pub y1: usize,
    pub x2: usize,
    pub y2: usize,
    pub color: Color,
}

/// The fill color of a cell of the given kind.
pub open spec fn cell_color_spec(kind: GridCellKind) -> Color {
    match kind {
        GridCellKind::Start => Color { r: 50, g: 255, b: 50 },
        GridCellKind::End => Color { r: 255, g: 50, b: 50 },
        GridCellKind::Path => Color { r: 50, g: 50, b: 255 },
        GridCellKind::Empty => Color { r: 255, g: 255, b: 255 },
    }
}

/// Computes the fill color of a cell of the given kind.
pub fn cell_color(kind: GridCellKind) -> (c: Color)
    ensures
        c == cell_color_spec(kind),
{
    match kind {
        GridCellKind::Start => Color { r: 50, g: 255, b: 50 },
        GridCellKind::End => Color { r: 255, g: 50, b: 50 },
        GridCellKind::Path => Color { r: 50, g: 50, b: 255 },
        GridCellKind::Empty => Color { r: 255, g: 255, b: 255 },
    }
}

/// A product grows with its left factor.
proof fn lemma_mul_le(a: int, b: int, c: int)
    requires
        0 <= a <= b,
        0 <= c,
    ensures
        a * c <= b * c,
{
    assert(a * c <= b * c) by (nonlinear_arith)
        requires
            0 <= a <= b,
            0 <= c,
    ;
}

/// Multiplying out one more factor: `(a + 1) * c == a * c + c`.
proof fn lemma_mul_step(a: int, c: int)
    ensures
        (a + 1) * c == a * c + c,
{
    assert((a + 1) * c == a * c + c) by (nonlinear_arith);
}

impl GridState {
    /// The pixel box of the vertical (blue) edge on the left side of
    /// column `x`, spanning grid rows `y1 .. y2`.
    pub open spec fn vertical_edge_box_spec(&self, x: int, y1: int, y2: int) -> DrawBox {
        DrawBox {
            x1: (x * self.scale) as usize,
            y1: (y1 * self.scale) as usize,
            x2: (x * self.scale + EDGE_THICKNESS_IN_PX) as usize,
            y2: (y2 * self.scale) as usize,
            color: Color { r: 0, g: 0, b: 255 },
        }
    }

    /// Computes the box of a vertical edge, as the demo draws it.
    pub fn vertical_edge_box(&self, x: usize, y1: usize, y2: usize) -> (b: DrawBox)
        requires
            self.wf(),
            x < self.grid.spec_width(),
            y1 <= self.grid.spec_height(),
            y2 <= self.grid.spec_height(),
        ensures
            b == self.vertical_edge_box_spec(x as int, y1 as int, y2 as int),
    {
        proof {
            let w = self.grid.spec_width() as int;
            let h = self.grid.spec_height() as int;
            let s = self.scale as int;
            lemma_mul_le(x as int, w - 1, s);
            lemma_mul_le(y1 as int, h, s);
            lemma_mul_le(y2 as int, h, s);
            lemma_mul_step(w - 1, s);
        }
        DrawBox {
            x1: x * self.scale,
            y1: y1 * self.scale,
            x2: x * self.scale + EDGE_THICKNESS_IN_PX,
            y2: y2 * self.scale,
            color: Color { r: 0, g: 0, b: 255 },
        }
    }

    /// The pixel box of the horizontal (red) edge on the bottom side of
    /// row `y`, spanning grid columns `x1 .. x2`.
    pub open spec fn horizontal_edge_box_spec(&self, x1: int, x2: int, y: int) -> DrawBox {
        DrawBox {
            x1: (x1 * self.scale) as usize,
            y1: (y * self.scale) as usize,
            x2: (x2 * self.scale) as usize,
            y2: (y * self.scale + EDGE_THICKNESS_IN_PX) as usize,
            color: Color { r: 255, g: 0, b: 0 },
        }
    }

    /// Computes the box of a horizontal edge, as the demo draws it.
    pub fn horizontal_edge_box(&self, x1: usize, x2: usize, y: usize) -> (b: DrawBox)
        requires
            self.wf(),
            x1 <= self.grid.spec_width(),
            x2 <= self.grid.spec_width(),
            y < self.grid.spec_height(),
        ensures
            b == self.horizontal_edge_box_spec(x1 as int, x2 as int, y as int),
    {
        proof {
            let w = self.grid.spec_width() as int;
            let h = self.grid.spec_height() as int;
            let s = self.scale as int;
            lemma_mul_le(x1 as int, w, s);
            lemma_mul_le(x2 as int, w, s);
            lemma_mul_le(y as int, h - 1, s);
            lemma_mul_step(h - 1, s);
        }
        DrawBox {
            x1: x1 * self.scale,
            y1: y * self.scale,
            x2: x2 * self.scale,
            y2: y * self.scale + EDGE_THICKNESS_IN_PX,
            color: Color { r: 255, g: 0, b: 0 },
        }
    }

    /// The pixel box of the fill of the cell at `(x, y)`: the cell's
    /// square, inset by the fill margin, in the color of the cell's kind.
    pub open spec fn cell_box_spec(&self, x: int, y: int) -> DrawBox {
        DrawBox {
            x1: (x * self.scale + CELL_FILL_MARGIN_IN_PX) as usize,
            y1: (y * self.scale + CELL_FILL_MARGIN_IN_PX) as usize,
            x2: ((x + 1) * self.scale - CELL_FILL_MARGIN_IN_PX) as usize,
            y2: ((y + 1) * self.scale - CELL_FILL_MARGIN_IN_PX) as usize,
            color: cell_color_spec(self.grid.cell(x, y).kind),
        }
    }

    /// Computes the fill box of the cell at `(x, y)`, as the demo draws it.
    pub fn cell_box(&self, x: usize, y: usize) -> (b: DrawBox)
        requires
            self.wf(),
            x < self.grid.spec_width(),
            y < self.grid.spec_height(),
        ensures
            b == self.cell_box_spec(x as int, y as int),
    {
        proof {
            let w = self.grid.spec_width() as int;
            let h = self.grid.spec_height() as int;
            let s = self.scale as int;
            lemma_mul_le(x as int + 1, w, s);
            lemma_mul_le(y as int + 1, h, s);
            lemma_mul_le(1, x as int + 1, s);
            lemma_mul_le(1, y as int + 1, s);
            lemma_mul_step(x as int, s);
            lemma_mul_step(y as int, s);
        }
        let kind = match self.grid.get(x, y) {
            Ok(c) => c.kind,
            Err(_) => unreached(),
        };
        DrawBox {
            x1: x * self.scale + CELL_FILL_MARGIN_IN_PX,
            y1: y * self.scale + CELL_FILL_MARGIN_IN_PX,
            x2: (x + 1) * self.scale - CELL_FILL_MARGIN_IN_PX,
            y2: (y + 1) * self.scale - CELL_FILL_MARGIN_IN_PX,
            color: cell_color(kind),
        }
    }

    /// The white box covering the whole canvas, painted first.
    pub open spec fn background_box_spec(&self) -> DrawBox {
        DrawBox {
            x1: 0,
            y1: 0,
            x2: (self.grid.spec_width() * self.scale) as usize,
            y2: (self.grid.spec_height() * self.scale) as usize,
            color: Color { r: 255, g: 255, b: 255 },
        }
    }

    /// The boxes drawn for the cell at `(x, y)`: its vertical edge when it
    /// and the cell above both carry a left edge, then its horizontal edge
    /// when it and the cell to the right both carry a bottom edge, then
    /// its fill box.
    pub open spec fn cell_cmds_spec(&self, x: int, y: int) -> Seq<DrawBox> {
        let w = self.grid.spec_width() as int;
        let h = self.grid.spec_height() as int;
        let c = self.grid.cell(x, y);
        let vpart: Seq<DrawBox> = if y < h - 1 && c.has_left_edge && self.grid.cell(
            x,
            y + 1,
        ).has_left_edge {
            seq![self.vertical_edge_box_spec(x, y, y + 1)]
        } else {
            Seq::empty()
        };
        let hpart: Seq<DrawBox> = if x < w - 1 && c.has_bottom_edge && self.grid.cell(
            x + 1,
            y,
        ).has_bottom_edge {
            seq![self.horizontal_edge_box_spec(x, x + 1, y)]
        } else {
            Seq::empty()
        };
        vpart + hpart + seq![self.cell_box_spec(x, y)]
    }

    /// The boxes of the first `n` cells of row `y`, in increasing `x` order.
    pub open spec fn row_cmds_spec(&self, y: int, n: int) -> Seq<DrawBox>
        decreases n,
    {
        if n <= 0 {
            Seq::empty()
        } else {
            self.row_cmds_spec(y, n - 1) + self.cell_cmds_spec(n - 1, y)
        }
    }

    /// The boxes of the first `n` rows, in increasing `y` order.
    pub open spec fn rows_cmds_spec(&self, n: int) -> Seq<DrawBox>
        decreases n,
    {
        if n <= 0 {
            Seq::empty()
        } else {
            self.rows_cmds_spec(n - 1) + self.row_cmds_spec(
                n - 1,
                self.grid.spec_width() as int,
            )
        }
    }

    /// The full repaint: the white background box, then every cell's boxes
    /// in row-major order.
    pub open spec fn render_spec(&self) -> Seq<DrawBox> {
        seq![self.background_box_spec()] + self.rows_cmds_spec(self.grid.spec_height() as int)
    }

    /// Computes the demo's full repaint as a list of boxes: background
    /// first, then for each cell in row-major order its shared edges and
    /// its fill. A painter that fills each box in this order repaints the
    /// canvas as the demo shows it.
    pub fn render_boxes(&self) -> (r: Vec<DrawBox>)
        requires
            self.wf(),
        ensures
            r@ == self.render_spec(),
    {
        let w = self.grid.width();
        let h = self.grid.height();
        let mut r: Vec<DrawBox> = Vec::new();
        r.push(DrawBox {
            x1: 0,
            y1: 0,
            x2: w * self.scale,
            y2: h * self.scale,
            color: Color { r: 255, g: 255, b: 255 },
        });
        proof {
            assert(r@ =~= seq![self.background_box_spec()] + self.rows_cmds_spec(0));
        }
        let mut y: usize = 0;
        while y < h
            invariant
                self.wf(),
                w == self.grid.spec_width(),
                h == self.grid.spec_height(),
                y <= h,
                r@ == seq![self.background_box_spec()] + self.rows_cmds_spec(y as int),
            decreases h - y,
        {
            let mut x: usize = 0;
            while x < w
                invariant
                    self.wf(),
                    w == self.grid.spec_width(),
                    h == self.grid.spec_height(),
                    y < h,
                    x <= w,
                    r@ == seq![self.background_box_spec()] + self.rows_cmds_spec(y as int)
                        + self.row_cmds_spec(y as int, x as int),
                decreases w - x,
            {
                let ghost r0 = r@;
                let c = match self.grid.get(x, y) {
                    Ok(c) => *c,
                    Err(_) => unreached(),
                };
                if y + 1 < h {
                    let above = match self.grid.get(x, y + 1) {
                        Ok(c) => *c,
                        Err(_) => unreached(),
                    };
                    if c.has_left_edge && above.has_left_edge {
                        let b = self.vertical_edge_box(x, y, y + 1);
                        r.push(b);
                    }
                }
                if x + 1 < w {
                    let right = match self.grid.get(x + 1, y) {
                        Ok(c) => *c,
                        Err(_) => unreached(),
                    };
                    if c.has_bottom_edge && right.has_bottom_edge {
                        let b = self.horizontal_edge_box(x, x + 1, y);
                        r.push(b);
                    }
                }
                let b = self.cell_box(x, y);
                r.push(b);
                proof {
                    assert(r@ =~= r0 + self.cell_cmds_spec(x as int, y as int));
                    assert(r@ =~= seq![self.background_box_spec()]
                        + self.rows_cmds_spec(y as int)
                        + self.row_cmds_spec(y as int, x as int + 1));
                }
                x = x + 1;
            }
            proof {
                assert(r@ =~= seq![self.background_box_spec()]
                    + self.rows_cmds_spec(y as int + 1));
            }
            y = y + 1;
        }
        proof {
            assert(r@ =~= self.render_spec());
        }
        r
    }

    /// The pixel size of the canvas that shows this state.
    pub fn canvas_size(&self) -> (r: (usize, usize))
        requires
            self.wf(),
        ensures
            r.0 == self.grid.spec_width() * self.scale,
            r.1 == self.grid.spec_height() * self.scale,
    {
        (self.grid.width() * self.scale, self.grid.height() * self.scale)
    }
}

} // verus!
