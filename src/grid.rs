//! The host-owned brightness grid.
//!
//! A cell holds the bit pattern of a brightness value exactly as the guest
//! produced it; the host never computes with cells, it only stores, resizes
//! and hands the grid back and forth, so cells are kept bit for bit.

use vstd::prelude::*;

verus! {

#[derive(Debug, Clone, PartialEq, Eq)]
pub struct Grid {
    pub rows: Vec<Vec<u64>>,
}

impl View for Grid {
    type V = Seq<Seq<u64>>;

    open spec fn view(&self) -> Seq<Seq<u64>> {
        self.rows@.map_values(|r: Vec<u64>| r@)
    }
}

/// Number of rows of a grid model.
pub open spec fn height_of(g: Seq<Seq<u64>>) -> nat {
    g.len()
}

/// Length of the first row of a grid model (zero when it has no rows).
pub open spec fn width_of(g: Seq<Seq<u64>>) -> nat {
    if g.len() == 0 {
        0
    } else {
        g[0].len()
    }
}

/// Two grid models have the same number of rows and first-row length.
pub open spec fn same_size(g: Seq<Seq<u64>>, h: Seq<Seq<u64>>) -> bool {
    width_of(g) == width_of(h) && height_of(g) == height_of(h)
}

/// All rows have the same length.
pub open spec fn is_rectangular(g: Seq<Seq<u64>>) -> bool {
    forall|i: int| 0 <= i < g.len() ==> #[trigger] g[i].len() == width_of(g)
}

/// The grid of `height` rows of `width` zero cells.
pub open spec fn zero_grid(width: nat, height: nat) -> Seq<Seq<u64>> {
    Seq::new(height, |i: int| Seq::new(width, |j: int| 0u64))
}

impl Grid {
    /// A grid of `height` rows, each of `width` cells of brightness zero.
    pub fn new(width: usize, height: usize) -> (g: Grid)
        ensures
            g@ == zero_grid(width as nat, height as nat),
    {
        let mut rows: Vec<Vec<u64>> = Vec::new();
        let mut i: usize = 0;
        while i < height
            invariant
                i <= height,
                rows@.len() == i,
                forall|k: int| 0 <= k < i ==> #[trigger] rows@[k]@ == Seq::new(width as nat, |j: int| 0u64),
            decreases height - i,
        {
            let mut row: Vec<u64> = Vec::new();
            let mut j: usize = 0;
            while j < width
                invariant
                    j <= width,
                    row@ == Seq::new(j as nat, |c: int| 0u64),
                decreases width - j,
            {
                row.push(0);
                j = j + 1;
                assert(row@ =~= Seq::new(j as nat, |c: int| 0u64));
            }
            rows.push(row);
            i = i + 1;
        }
        let g = Grid { rows };
        assert(g@ =~= zero_grid(width as nat, height as nat));
        g
    }

    /// A copy of the grid, cell for cell.
    pub fn duplicate(&self) -> (g: Grid)
        ensures
            g@ == self@,
    {
        let mut rows: Vec<Vec<u64>> = Vec::new();
        let mut i: usize = 0;
        while i < self.rows.len()
            invariant
                i <= self.rows@.len(),
                rows@.len() == i,
                forall|k: int| 0 <= k < i ==> #[trigger] rows@[k]@ == self.rows@[k]@,
            decreases self.rows@.len() - i,
        {
            let src = &self.rows[i];
            let mut row: Vec<u64> = Vec::new();
            let mut j: usize = 0;
            while j < src.len()
                invariant
                    j <= src@.len(),
                    row@ == src@.subrange(0, j as int),
                decreases src@.len() - j,
            {
                row.push(src[j]);
                j = j + 1;
                assert(row@ =~= src@.subrange(0, j as int));
            }
            assert(row@ =~= src@);
            rows.push(row);
            i = i + 1;
        }
        let g = Grid { rows };
        assert(g@ =~= self@);
        g
    }

    /// Rows, and the length of the first row.
    pub fn dimensions(&self) -> (r: (usize, usize))
        ensures
            r.0 as nat == width_of(self@),
            r.1 as nat == height_of(self@),
    {
        if self.rows.len() == 0 {
            (0, 0)
        } else {
            (self.rows[0].len(), self.rows.len())
        }
    }
}

} // verus!
