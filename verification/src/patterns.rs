use vstd::prelude::*;

use crate::cell::CellState;
use crate::grid::GameOfLife;

verus! {

/// Whether some offset of `offs`, placed at base (bx, by), lands on (x, y).
pub open spec fn covers(offs: Seq<(usize, usize)>, bx: int, by: int, x: int, y: int) -> bool {
    exists|i: int|
        0 <= i < offs.len() && bx + (#[trigger] offs[i]).0 == x && by + offs[i].1 == y
}

/// `post` is `pre` with the offsets `offs` stamped alive at base (bx, by):
/// every in-bounds position an offset lands on is alive, every other cell is
/// unchanged. Offsets that land outside the grid are clipped: they change
/// nothing and never wrap to the opposite edge.
pub open spec fn stamped(
    pre: GameOfLife,
    post: GameOfLife,
    bx: int,
    by: int,
    offs: Seq<(usize, usize)>,
) -> bool {
    &&& post.width == pre.width
    &&& post.height == pre.height
    &&& forall|x: int, y: int|
        0 <= x < pre.width && 0 <= y < pre.height ==> #[trigger] post.cell(x, y) == (
        if covers(offs, bx, by, x, y) {
            CellState::Alive
        } else {
            pre.cell(x, y)
        })
}

/// Extending the stamped prefix by one offset covers exactly the positions the
/// shorter prefix covers plus the landing spot of that offset.
proof fn lemma_covers_extend(offs: Seq<(usize, usize)>, i: int, bx: int, by: int, x: int, y: int)
    requires
        0 <= i < offs.len(),
    ensures
        covers(offs.take(i + 1), bx, by, x, y) <==> (covers(offs.take(i), bx, by, x, y) || (bx
            + offs[i].0 == x && by + offs[i].1 == y)),
{
    let t0 = offs.take(i);
    let t1 = offs.take(i + 1);
    if covers(t1, bx, by, x, y) {
        let j = choose|j: int|
            0 <= j < t1.len() && bx + (#[trigger] t1[j]).0 == x && by + t1[j].1 == y;
        if j < i {
            assert(t0[j] == t1[j]);
            assert(covers(t0, bx, by, x, y));
        } else {
            assert(t1[j] == offs[i]);
        }
    }
    if covers(t0, bx, by, x, y) {
        let j = choose|j: int|
            0 <= j < t0.len() && bx + (#[trigger] t0[j]).0 == x && by + t0[j].1 == y;
        assert(t1[j] == t0[j]);
        assert(covers(t1, bx, by, x, y));
    }
    if bx + offs[i].0 == x && by + offs[i].1 == y {
        assert(t1[i] == offs[i]);
        assert(covers(t1, bx, by, x, y));
    }
}

impl GameOfLife {
    /// Stamps a pattern of relative offsets at base (base_x, base_y): each
    /// offset cell is set alive if the absolute coordinate lies within the
    /// grid; out-of-bounds offsets are silently dropped.
    pub fn add_pattern(&mut self, base_x: usize, base_y: usize, pattern: &[(usize, usize)])
        requires
            old(self).wf(),
        ensures
            final(self).wf(),
            stamped(*old(self), *final(self), base_x as int, base_y as int, pattern@),
    {
        let ghost pre = *self;
        let ghost bx = base_x as int;
        let ghost by = base_y as int;
        for i in 0..pattern.len()
            invariant
                self.wf(),
                self.width == pre.width,
                self.height == pre.height,
                bx == base_x as int,
                by == base_y as int,
                forall|x: int, y: int|
                    0 <= x < pre.width && 0 <= y < pre.height ==> #[trigger] self.cell(x, y) == (
                    if covers(pattern@.take(i as int), bx, by, x, y) {
                        CellState::Alive
                    } else {
                        pre.cell(x, y)
                    }),
        {
            let (dx, dy) = pattern[i];
            if base_x < self.width && base_y < self.height && dx < self.width - base_x && dy
                < self.height - base_y {
                self.set_alive(base_x + dx, base_y + dy);
            }
            assert forall|x: int, y: int|
                0 <= x < pre.width && 0 <= y < pre.height implies #[trigger] self.cell(x, y) == (
            if covers(pattern@.take(i as int + 1), bx, by, x, y) {
                CellState::Alive
            } else {
                pre.cell(x, y)
            }) by {
                lemma_covers_extend(pattern@, i as int, bx, by, x, y);
            }
        }
        proof {
            assert(pattern@.take(pattern@.len() as int) =~= pattern@);
        }
    }

    /// Stamps a Glider at (x, y): a 5-cell spaceship that reproduces itself
    /// translated by (+1, +1) every 4 generations.
    pub fn add_glider(&mut self, x: usize, y: usize)
        requires
            old(self).wf(),
        ensures
            final(self).wf(),
            stamped(*old(self), *final(self), x as int, y as int, glider_offsets()),
    {
        let mut pattern: Vec<(usize, usize)> = Vec::new();
        pattern.push((1, 0));
        pattern.push((2, 1));
        pattern.push((0, 2));
        pattern.push((1, 2));
        pattern.push((2, 2));
        proof {
            assert(pattern@ =~= glider_offsets());
        }
        self.add_pattern(x, y, pattern.as_slice());
    }

    /// Stamps a Block at (x, y): a static 2x2 square, a fixed point of the rule.
    pub fn add_block(&mut self, x: usize, y: usize)
        requires
            old(self).wf(),
        ensures
            final(self).wf(),
            stamped(*old(self), *final(self), x as int, y as int, block_offsets()),
    {
        let mut pattern: Vec<(usize, usize)> = Vec::new();
        pattern.push((0, 0));
        pattern.push((0, 1));
        pattern.push((1, 0));
        pattern.push((1, 1));
        proof {
            assert(pattern@ =~= block_offsets());
        }
        self.add_pattern(x, y, pattern.as_slice());
    }

    /// Stamps a Blinker at (x, y): a horizontal 3-cell line, a period-2
    /// oscillator.
    pub fn add_blinker(&mut self, x: usize, y: usize)
        requires
            old(self).wf(),
        ensures
            final(self).wf(),
            stamped(*old(self), *final(self), x as int, y as int, blinker_offsets()),
    {
        let mut pattern: Vec<(usize, usize)> = Vec::new();
        pattern.push((0, 0));
        pattern.push((1, 0));
        pattern.push((2, 0));
        proof {
            assert(pattern@ =~= blinker_offsets());
        }
        self.add_pattern(x, y, pattern.as_slice());
    }

    /// Stamps a Toad at (x, y): a 6-cell period-2 oscillator.
    pub fn add_toad(&mut self, x: usize, y: usize)
        requires
            old(self).wf(),
        ensures
            final(self).wf(),
            stamped(*old(self), *final(self), x as int, y as int, toad_offsets()),
    {
        let mut pattern: Vec<(usize, usize)> = Vec::new();
        pattern.push((1, 0));
        pattern.push((2, 0));
        pattern.push((3, 0));
        pattern.push((0, 1));
        pattern.push((1, 1));
        pattern.push((2, 1));
        proof {
            assert(pattern@ =~= toad_offsets());
        }
        self.add_pattern(x, y, pattern.as_slice());
    }

    /// Stamps a Beacon at (x, y): two diagonal blocks forming a 6-cell
    /// period-2 oscillator.
    pub fn add_beacon(&mut self, x: usize, y: usize)
        requires
            old(self).wf(),
        ensures
            final(self).wf(),
            stamped(*old(self), *final(self), x as int, y as int, beacon_offsets()),
    {
        let mut pattern: Vec<(usize, usize)> = Vec::new();
        pattern.push((0, 0));
        pattern.push((0, 1));
        pattern.push((1, 0));
        pattern.push((2, 3));
        pattern.push((3, 2));
        pattern.push((3, 3));
        proof {
            assert(pattern@ =~= beacon_offsets());
        }
        self.add_pattern(x, y, pattern.as_slice());
    }

    /// Stamps a Beehive at (x, y): a static 6-cell hexagon.
    pub fn add_beehive(&mut self, x: usize, y: usize)
        requires
            old(self).wf(),
        ensures
            final(self).wf(),
            stamped(*old(self), *final(self), x as int, y as int, beehive_offsets()),
    {
        let mut pattern: Vec<(usize, usize)> = Vec::new();
        pattern.push((1, 0));
        pattern.push((2, 0));
        pattern.push((0, 1));
        pattern.push((3, 1));
        pattern.push((1, 2));
        pattern.push((2, 2));
        proof {
            assert(pattern@ =~= beehive_offsets());
        }
        self.add_pattern(x, y, pattern.as_slice());
    }

    /// Stamps a Lightweight Spaceship at (x, y): a 9-cell horizontally
    /// translating spaceship.
    pub fn add_lightweight_spaceship(&mut self, x: usize, y: usize)
        requires
            old(self).wf(),
        ensures
            final(self).wf(),
            stamped(*old(self), *final(self), x as int, y as int, lightweight_spaceship_offsets()),
    {
        let mut pattern: Vec<(usize, usize)> = Vec::new();
        pattern.push((0, 0));
        pattern.push((3, 0));
        pattern.push((4, 1));
        pattern.push((0, 2));
        pattern.push((4, 2));
        pattern.push((1, 3));
        pattern.push((2, 3));
        pattern.push((3, 3));
        pattern.push((4, 3));
        proof {
            assert(pattern@ =~= lightweight_spaceship_offsets());
        }
        self.add_pattern(x, y, pattern.as_slice());
    }

    /// Stamps a Pulsar at (x, y): a 48-cell period-3 oscillator, a
    /// point-symmetric cross motif repeated top and bottom.
    pub fn add_pulsar(&mut self, x: usize, y: usize)
        requires
            old(self).wf(),
        ensures
            final(self).wf(),
            stamped(*old(self), *final(self), x as int, y as int, pulsar_offsets()),
    {
        let mut pattern: Vec<(usize, usize)> = Vec::new();
        pattern.push((2, 0));
        pattern.push((3, 0));
        pattern.push((4, 0));
        pattern.push((8, 0));
        pattern.push((9, 0));
        pattern.push((10, 0));
        pattern.push((0, 2));
        pattern.push((5, 2));
        pattern.push((7, 2));
        pattern.push((12, 2));
        pattern.push((0, 3));
        pattern.push((5, 3));
        pattern.push((7, 3));
        pattern.push((12, 3));
        pattern.push((0, 4));
        pattern.push((5, 4));
        pattern.push((7, 4));
        pattern.push((12, 4));
        pattern.push((2, 5));
        pattern.push((3, 5));
        pattern.push((4, 5));
        pattern.push((8, 5));
        pattern.push((9, 5));
        pattern.push((10, 5));
        pattern.push((2, 7));
        pattern.push((3, 7));
        pattern.push((4, 7));
        pattern.push((8, 7));
        pattern.push((9, 7));
        pattern.push((10, 7));
        pattern.push((0, 8));
        pattern.push((5, 8));
        pattern.push((7, 8));
        pattern.push((12, 8));
        pattern.push((0, 9));
        pattern.push((5, 9));
        pattern.push((7, 9));
        pattern.push((12, 9));
        pattern.push((0, 10));
        pattern.push((5, 10));
        pattern.push((7, 10));
        pattern.push((12, 10));
        pattern.push((2, 12));
        pattern.push((3, 12));
        pattern.push((4, 12));
        pattern.push((8, 12));
        pattern.push((9, 12));
        pattern.push((10, 12));
        proof {
            assert(pattern@ =~= pulsar_offsets());
        }
        self.add_pattern(x, y, pattern.as_slice());
    }

    /// Stamps the fixed catalog of ten placements: two Gliders, two Blocks,
    /// one Blinker, one Toad, one Beacon, one Beehive, one Lightweight
    /// Spaceship and one Pulsar, at their fixed base coordinates. Cells no
    /// placement lands on keep their previous state.
    pub fn add_known_patterns(&mut self)
        requires
            old(self).wf(),
        ensures
            final(self).wf(),
            final(self).width == old(self).width,
            final(self).height == old(self).height,
            forall|x: int, y: int|
                0 <= x < old(self).width && 0 <= y < old(self).height
                    ==> #[trigger] final(self).cell(x, y) == (if known_placements_cover(x, y) {
                    CellState::Alive
                } else {
                    old(self).cell(x, y)
                }),
    {
        let ghost g0 = *self;
        self.add_glider(15, 15);
        let ghost g1 = *self;
        self.add_glider(70, 10);
        let ghost g2 = *self;
        self.add_block(5, 5);
        let ghost g3 = *self;
        self.add_block(90, 90);
        let ghost g4 = *self;
        self.add_blinker(25, 25);
        let ghost g5 = *self;
        self.add_toad(35, 35);
        let ghost g6 = *self;
        self.add_beacon(45, 45);
        let ghost g7 = *self;
        self.add_beehive(60, 60);
        let ghost g8 = *self;
        self.add_lightweight_spaceship(10, 50);
        let ghost g9 = *self;
        self.add_pulsar(50, 20);
        assert forall|x: int, y: int|
            0 <= x < g0.width && 0 <= y < g0.height implies #[trigger] self.cell(x, y) == (
        if known_placements_cover(x, y) {
            CellState::Alive
        } else {
            g0.cell(x, y)
        }) by {
            assert(g1.cell(x, y) == (if covers(glider_offsets(), 15, 15, x, y) {
                CellState::Alive
            } else {
                g0.cell(x, y)
            }));
            assert(g2.cell(x, y) == (if covers(glider_offsets(), 70, 10, x, y) {
                CellState::Alive
            } else {
                g1.cell(x, y)
            }));
            assert(g3.cell(x, y) == (if covers(block_offsets(), 5, 5, x, y) {
                CellState::Alive
            } else {
                g2.cell(x, y)
            }));
            assert(g4.cell(x, y) == (if covers(block_offsets(), 90, 90, x, y) {
                CellState::Alive
            } else {
                g3.cell(x, y)
            }));
            assert(g5.cell(x, y) == (if covers(blinker_offsets(), 25, 25, x, y) {
                CellState::Alive
            } else {
                g4.cell(x, y)
            }));
            assert(g6.cell(x, y) == (if covers(toad_offsets(), 35, 35, x, y) {
                CellState::Alive
            } else {
                g5.cell(x, y)
            }));
            assert(g7.cell(x, y) == (if covers(beacon_offsets(), 45, 45, x, y) {
                CellState::Alive
            } else {
                g6.cell(x, y)
            }));
            assert(g8.cell(x, y) == (if covers(beehive_offsets(), 60, 60, x, y) {
                CellState::Alive
            } else {
                g7.cell(x, y)
            }));
            assert(g9.cell(x, y) == (if covers(lightweight_spaceship_offsets(), 10, 50, x, y) {
                CellState::Alive
            } else {
                g8.cell(x, y)
            }));
            assert(self.cell(x, y) == (if covers(pulsar_offsets(), 50, 20, x, y) {
                CellState::Alive
            } else {
                g9.cell(x, y)
            }));
        }
    }
}

/// The relative offsets of a Glider.
pub open spec fn glider_offsets() -> Seq<(usize, usize)> {
    seq![(1usize, 0usize), (2usize, 1usize), (0usize, 2usize), (1usize, 2usize), (2usize, 2usize)]
}

/// The relative offsets of a Block.
pub open spec fn block_offsets() -> Seq<(usize, usize)> {
    seq![(0usize, 0usize), (0usize, 1usize), (1usize, 0usize), (1usize, 1usize)]
}

/// The relative offsets of a Blinker.
pub open spec fn blinker_offsets() -> Seq<(usize, usize)> {
    seq![(0usize, 0usize), (1usize, 0usize), (2usize, 0usize)]
}

/// The relative offsets of a Toad.
pub open spec fn toad_offsets() -> Seq<(usize, usize)> {
    seq![
        (1usize, 0usize),
        (2usize, 0usize),
        (3usize, 0usize),
        (0usize, 1usize),
        (1usize, 1usize),
        (2usize, 1usize),
    ]
}

/// The relative offsets of a Beacon.
pub open spec fn beacon_offsets() -> Seq<(usize, usize)> {
    seq![
        (0usize, 0usize),
        (0usize, 1usize),
        (1usize, 0usize),
        (2usize, 3usize),
        (3usize, 2usize),
        (3usize, 3usize),
    ]
}

/// The relative offsets of a Beehive.
pub open spec fn beehive_offsets() -> Seq<(usize, usize)> {
    seq![
        (1usize, 0usize),
        (2usize, 0usize),
        (0usize, 1usize),
        (3usize, 1usize),
        (1usize, 2usize),
        (2usize, 2usize),
    ]
}

/// The relative offsets of a Lightweight Spaceship.
pub open spec fn lightweight_spaceship_offsets() -> Seq<(usize, usize)> {
    seq![
        (0usize, 0usize),
        (3usize, 0usize),
        (4usize, 1usize),
        (0usize, 2usize),
        (4usize, 2usize),
        (1usize, 3usize),
        (2usize, 3usize),
        (3usize, 3usize),
        (4usize, 3usize),
    ]
}

/// The relative offsets of a Pulsar.
pub open spec fn pulsar_offsets() -> Seq<(usize, usize)> {
    seq![
        (2usize, 0usize),
        (3usize, 0usize),
        (4usize, 0usize),
        (8usize, 0usize),
        (9usize, 0usize),
        (10usize, 0usize),
        (0usize, 2usize),
        (5usize, 2usize),
        (7usize, 2usize),
        (12usize, 2usize),
        (0usize, 3usize),
        (5usize, 3usize),
        (7usize, 3usize),
        (12usize, 3usize),
        (0usize, 4usize),
        (5usize, 4usize),
        (7usize, 4usize),
        (12usize, 4usize),
        (2usize, 5usize),
        (3usize, 5usize),
        (4usize, 5usize),
        (8usize, 5usize),
        (9usize, 5usize),
        (10usize, 5usize),
        (2usize, 7usize),
        (3usize, 7usize),
        (4usize, 7usize),
        (8usize, 7usize),
        (9usize, 7usize),
        (10usize, 7usize),
        (0usize, 8usize),
        (5usize, 8usize),
        (7usize, 8usize),
        (12usize, 8usize),
        (0usize, 9usize),
        (5usize, 9usize),
        (7usize, 9usize),
        (12usize, 9usize),
        (0usize, 10usize),
        (5usize, 10usize),
        (7usize, 10usize),
        (12usize, 10usize),
        (2usize, 12usize),
        (3usize, 12usize),
        (4usize, 12usize),
        (8usize, 12usize),
        (9usize, 12usize),
        (10usize, 12usize),
    ]
}

/// Whether any of the ten fixed catalog placements lands on (x, y).
pub open spec fn known_placements_cover(x: int, y: int) -> bool {
    ||| covers(glider_offsets(), 15, 15, x, y)
    ||| covers(glider_offsets(), 70, 10, x, y)
    ||| covers(block_offsets(), 5, 5, x, y)
    ||| covers(block_offsets(), 90, 90, x, y)
    ||| covers(blinker_offsets(), 25, 25, x, y)
    ||| covers(toad_offsets(), 35, 35, x, y)
    ||| covers(beacon_offsets(), 45, 45, x, y)
    ||| covers(beehive_offsets(), 60, 60, x, y)
    ||| covers(lightweight_spaceship_offsets(), 10, 50, x, y)
    ||| covers(pulsar_offsets(), 50, 20, x, y)
}

} // verus!
