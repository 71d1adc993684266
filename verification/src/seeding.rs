use vstd::prelude::*;

use crate::cell::CellState;
use crate::grid::GameOfLife;
use crate::patterns::known_placements_cover;
use rand::Rng;

verus! {

/// Draws one random boolean that is true with probability num/den.
/// Relies on rand::Rng::gen_ratio called on rand::thread_rng(): a Bernoulli
/// draw from the ratio. Its source always returns false when num is 0 and
/// always returns true when num equals den, and it panics when den is 0 or
/// num exceeds den, so those arguments are excluded here.
#[verifier::external_body]
fn random_with_ratio(num: u32, den: u32) -> (r: bool)
    requires
        0 < den,
        num <= den,
    ensures
        num == 0 ==> !r,
        num == den ==> r,
{
    rand::thread_rng().gen_ratio(num, den)
}

impl GameOfLife {
    /// Visits every cell once and sets it alive with probability num/den,
    /// drawn from the thread's random source. Cells the draw passes over keep
    /// their state: a zero ratio changes nothing, and a ratio of one fills
    /// the whole grid.
    pub fn add_random_cells(&mut self, num: u32, den: u32)
        requires
            old(self).wf(),
            0 < den,
            num <= den,
        ensures
            final(self).wf(),
            final(self).width == old(self).width,
            final(self).height == old(self).height,
            forall|x: int, y: int|
                0 <= x < old(self).width && 0 <= y < old(self).height ==> (#[trigger] final(self).cell(x, y) == old(self).cell(x, y)
                    || final(self).cell(x, y) == CellState::Alive),
            num == 0 ==> forall|x: int, y: int|
                0 <= x < old(self).width && 0 <= y < old(self).height
                    ==> #[trigger] final(self).cell(x, y) == old(self).cell(x, y),
            num == den ==> forall|x: int, y: int|
                0 <= x < old(self).width && 0 <= y < old(self).height
                    ==> #[trigger] final(self).cell(x, y) == CellState::Alive,
    {
        let ghost pre = *self;
        let w = self.width;
        let h = self.height;
        for y in 0..h
            invariant
                0 < den,
                num <= den,
                w == pre.width,
                h == pre.height,
                self.wf(),
                self.width == w,
                self.height == h,
                forall|qx: int, qy: int|
                    0 <= qx < w && 0 <= qy < h ==> (#[trigger] self.cell(qx, qy) == pre.cell(
                        qx,
                        qy,
                    ) || self.cell(qx, qy) == CellState::Alive),
                num == 0 ==> forall|qx: int, qy: int|
                    0 <= qx < w && 0 <= qy < h ==> #[trigger] self.cell(qx, qy) == pre.cell(
                        qx,
                        qy,
                    ),
                num == den ==> forall|qx: int, qy: int|
                    0 <= qx < w && 0 <= qy < y ==> #[trigger] self.cell(qx, qy)
                        == CellState::Alive,
        {
            for x in 0..w
                invariant
                    0 < den,
                    num <= den,
                    w == pre.width,
                    h == pre.height,
                    y < h,
                    self.wf(),
                    self.width == w,
                    self.height == h,
                    forall|qx: int, qy: int|
                        0 <= qx < w && 0 <= qy < h ==> (#[trigger] self.cell(qx, qy) == pre.cell(
                            qx,
                            qy,
                        ) || self.cell(qx, qy) == CellState::Alive),
                    num == 0 ==> forall|qx: int, qy: int|
                        0 <= qx < w && 0 <= qy < h ==> #[trigger] self.cell(qx, qy) == pre.cell(
                            qx,
                            qy,
                        ),
                    num == den ==> forall|qx: int, qy: int|
                        0 <= qx < w && 0 <= qy < y ==> #[trigger] self.cell(qx, qy)
                            == CellState::Alive,
                    num == den ==> forall|qx: int|
                        0 <= qx < x ==> #[trigger] self.cell(qx, y as int) == CellState::Alive,
            {
                if random_with_ratio(num, den) {
                    self.set_alive(x, y);
                }
            }
        }
    }

    /// Seeds the grid: clears it, scatters random live cells at a 15%
    /// density, then stamps the fixed catalog of known patterns on top, so
    /// the patterns always take visual precedence over the noise at their
    /// footprint.
    pub fn initialize(&mut self)
        requires
            old(self).wf(),
        ensures
            final(self).wf(),
            final(self).width == old(self).width,
            final(self).height == old(self).height,
            forall|x: int, y: int|
                0 <= x < old(self).width && 0 <= y < old(self).height && known_placements_cover(
                    x,
                    y,
                ) ==> #[trigger] final(self).cell(x, y) == CellState::Alive,
    {
        self.clear_grid();
        self.add_random_cells(15, 100);
        self.add_known_patterns();
    }
}

} // verus!
