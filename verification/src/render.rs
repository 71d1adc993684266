use vstd::prelude::*;

use crate::cell::CellState;
use crate::grid::GameOfLife;

verus! {

/// Packed 24-bit color of a live cell (white).
pub const ALIVE_COLOR: u32 = 0x00FFFFFF;

/// Packed 24-bit color of a dead cell (dark blue).
pub const DEAD_COLOR: u32 = 0x00001122;

/// Color returned for a query outside the grid (black).
pub const OUT_OF_RANGE_COLOR: u32 = 0x00000000;

/// Palette index of a live cell in an exported frame.
pub const ALIVE_INDEX: u8 = 1;

/// Palette index of a dead cell in an exported frame.
pub const DEAD_INDEX: u8 = 0;

/// In a row-major layout with rows of length w, a position in an earlier row,
/// or earlier in the same row, has the smaller flat index.
proof fn lemma_row_major_order(w: int, x1: int, y1: int, x2: int, y2: int)
    requires
        0 <= x1 < w,
        0 <= x2 < w,
        0 <= y1,
        0 <= y2,
        y1 < y2 || (y1 == y2 && x1 < x2),
    ensures
        0 <= y1 * w + x1 < y2 * w + x2,
{
    assert(0 <= y1 * w + x1 < y2 * w + x2) by (nonlinear_arith)
        requires
            0 <= x1 < w,
            0 <= x2 < w,
            0 <= y1,
            0 <= y2,
            y1 < y2 || (y1 == y2 && x1 < x2),
    {
    }
}

impl GameOfLife {
    /// The packed color shown for position (x, y): one fixed color per cell
    /// state, and black for a query outside the grid.
    pub open spec fn spec_color(self, x: int, y: int) -> u32 {
        if 0 <= x < self.width && 0 <= y < self.height {
            if self.cell(x, y) == CellState::Alive {
                ALIVE_COLOR
            } else {
                DEAD_COLOR
            }
        } else {
            OUT_OF_RANGE_COLOR
        }
    }

    /// The palette index of the cell at (x, y) in an exported frame: 1 for a
    /// live cell, 0 for a dead one.
    pub open spec fn spec_index(self, x: int, y: int) -> u8 {
        if self.cell(x, y) == CellState::Alive {
            ALIVE_INDEX
        } else {
            DEAD_INDEX
        }
    }

    /// Returns the display color of position (x, y): white for a live cell,
    /// dark blue for a dead one, black outside the grid.
    pub fn get_color(&self, x: usize, y: usize) -> (color: u32)
        requires
            self.wf(),
        ensures
            color == self.spec_color(x as int, y as int),
    {
        if x < self.width && y < self.height {
            match self.grid[y][x] {
                CellState::Alive => ALIVE_COLOR,
                CellState::Dead => DEAD_COLOR,
            }
        } else {
            OUT_OF_RANGE_COLOR
        }
    }

    /// Fills a row-major pixel buffer of (width*scale) x (height*scale)
    /// packed colors, magnifying each cell into a scale x scale block of its
    /// solid color.
    pub fn render(&self, buffer: &mut Vec<u32>, scale: usize)
        requires
            self.wf(),
            0 < scale,
            self.width * scale * (self.height * scale) <= usize::MAX,
            old(buffer)@.len() == self.width * scale * (self.height * scale),
        ensures
            final(buffer)@.len() == old(buffer)@.len(),
            forall|px: int, py: int|
                0 <= px < self.width * scale && 0 <= py < self.height * scale
                    ==> #[trigger] final(buffer)@[py * (self.width * scale) + px]
                    == self.spec_color(px / scale as int, py / scale as int),
    {
        proof {
            assert(self.width * scale <= usize::MAX && self.height * scale
                <= usize::MAX) by (nonlinear_arith)
                requires
                    0 < self.width,
                    0 < self.height,
                    0 < scale,
                    self.width * scale * (self.height * scale) <= usize::MAX,
            {
            }
        }
        let window_w = self.width * scale;
        let window_h = self.height * scale;
        for py in 0..window_h
            invariant
                self.wf(),
                0 < scale,
                window_w == self.width * scale,
                window_h == self.height * scale,
                window_w * window_h <= usize::MAX,
                buffer@.len() == window_w * window_h,
                forall|qx: int, qy: int|
                    0 <= qx < window_w && 0 <= qy < py ==> #[trigger] buffer@[qy * window_w + qx]
                        == self.spec_color(qx / scale as int, qy / scale as int),
        {
            for px in 0..window_w
                invariant
                    self.wf(),
                    0 < scale,
                    py < window_h,
                    window_w == self.width * scale,
                    window_h == self.height * scale,
                    window_w * window_h <= usize::MAX,
                    buffer@.len() == window_w * window_h,
                    forall|qx: int, qy: int|
                        0 <= qx < window_w && 0 <= qy < py ==> #[trigger] buffer@[qy * window_w
                            + qx] == self.spec_color(qx / scale as int, qy / scale as int),
                    forall|qx: int|
                        0 <= qx < px ==> #[trigger] buffer@[py * window_w + qx] == self.spec_color(
                            qx / scale as int,
                            py as int / scale as int,
                        ),
            {
                let grid_x = px / scale;
                let grid_y = py / scale;
                let color = self.get_color(grid_x, grid_y);
                proof {
                    assert(py * window_w + px < window_w * window_h) by (nonlinear_arith)
                        requires
                            0 <= px < window_w,
                            0 <= py < window_h,
                    {
                    }
                }
                let idx = py * window_w + px;
                buffer[idx] = color;
                proof {
                    assert forall|qx: int, qy: int|
                        0 <= qx < window_w && 0 <= qy < py implies #[trigger] buffer@[qy * window_w
                        + qx] == self.spec_color(qx / scale as int, qy / scale as int) by {
                        lemma_row_major_order(window_w as int, qx, qy, px as int, py as int);
                    }
                    assert forall|qx: int|
                        0 <= qx < px implies #[trigger] buffer@[py * window_w + qx]
                        == self.spec_color(qx / scale as int, py as int / scale as int) by {
                        lemma_row_major_order(window_w as int, qx, py as int, px as int, py as int);
                    }
                }
            }
        }
    }

    /// Produces the flat palette-index frame for the current generation: one
    /// byte per cell in row-major order, length width*height, 1 for a live
    /// cell and 0 for a dead one.
    pub fn to_gif_frame_data(&self) -> (frame: Vec<u8>)
        requires
            self.wf(),
            self.width * self.height <= usize::MAX,
        ensures
            frame@.len() == self.width * self.height,
            forall|x: int, y: int|
                0 <= x < self.width && 0 <= y < self.height ==> #[trigger] frame@[y * self.width
                    + x] == self.spec_index(x, y),
            forall|i: int| 0 <= i < frame@.len() ==> #[trigger] frame@[i] == 0 || frame@[i] == 1,
    {
        let mut frame: Vec<u8> = Vec::new();
        for y in 0..self.height
            invariant
                self.wf(),
                self.width * self.height <= usize::MAX,
                frame@.len() == y * self.width,
                forall|qx: int, qy: int|
                    0 <= qx < self.width && 0 <= qy < y ==> #[trigger] frame@[qy * self.width + qx]
                        == self.spec_index(qx, qy),
                forall|i: int| 0 <= i < frame@.len() ==> #[trigger] frame@[i] == 0 || frame@[i] == 1,
        {
            for x in 0..self.width
                invariant
                    self.wf(),
                    self.width * self.height <= usize::MAX,
                    y < self.height,
                    frame@.len() == y * self.width + x,
                    forall|qx: int, qy: int|
                        0 <= qx < self.width && 0 <= qy < y ==> #[trigger] frame@[qy * self.width
                            + qx] == self.spec_index(qx, qy),
                    forall|qx: int|
                        0 <= qx < x ==> #[trigger] frame@[y * self.width + qx] == self.spec_index(
                            qx,
                            y as int,
                        ),
                    forall|i: int|
                        0 <= i < frame@.len() ==> #[trigger] frame@[i] == 0 || frame@[i] == 1,
            {
                let index = if self.is_alive(x, y) {
                    ALIVE_INDEX
                } else {
                    DEAD_INDEX
                };
                frame.push(index);
                proof {
                    assert forall|qx: int, qy: int|
                        0 <= qx < self.width && 0 <= qy < y implies #[trigger] frame@[qy
                        * self.width + qx] == self.spec_index(qx, qy) by {
                        lemma_row_major_order(self.width as int, qx, qy, x as int, y as int);
                    }
                }
            }
            proof {
                assert(y * self.width + self.width == (y + 1) * self.width) by (nonlinear_arith);
            }
        }
        proof {
            assert(self.height * self.width == self.width * self.height) by (nonlinear_arith);
        }
        frame
    }
}

/// The per-frame delay of the exported animation, in centiseconds, for a
/// configured frames-per-second cap: 100/fps, truncated.
pub fn frame_delay_centis(fps: u64) -> (delay: u16)
    requires
        0 < fps,
    ensures
        delay == 100u64 / fps,
{
    (100 / fps) as u16
}

} // verus!
