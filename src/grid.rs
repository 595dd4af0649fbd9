use vstd::prelude::*;

use crate::escape::{escape_count, EscapeCounter};

verus! {

/// Whether `rows` is a grid of `height` rows of `width` counts, each at most `max_iter`.
pub open spec fn grid_shaped(rows: Seq<Seq<u32>>, width: nat, height: nat, max_iter: nat) -> bool {
    &&& rows.len() == height
    &&& forall|y: int| 0 <= y < rows.len() ==> (#[trigger] rows[y]).len() == width
    &&& forall|y: int, x: int|
        0 <= y < rows.len() && 0 <= x < rows[y].len() ==> #[trigger] rows[y][x] <= max_iter
}

/// The iteration counts of a whole viewport: row `y` holds the pixels of the `y`-th line
/// of the viewport, column `x` the `x`-th pixel of that line.
pub struct PixelGrid {
    rows: Vec<Vec<u32>>,
    width: usize,
    height: usize,
    max_iter: u32,
}

impl PixelGrid {
    /// The counts, row by row.
    pub closed spec fn cells(&self) -> Seq<Seq<u32>> {
        self.rows@.map_values(|r: Vec<u32>| r@)
    }

    pub closed spec fn spec_width(&self) -> usize {
        self.width
    }

    pub closed spec fn spec_height(&self) -> usize {
        self.height
    }

    pub closed spec fn spec_max_iter(&self) -> u32 {
        self.max_iter
    }

    pub closed spec fn wf(&self) -> bool {
        grid_shaped(self.cells(), self.width as nat, self.height as nat, self.max_iter as nat)
    }

    /// Puts together the rows that the workers computed. Returns `None` when they do not
    /// form a grid of `height` rows of `width` counts, each at most `max_iter`.
    pub fn from_rows(width: usize, height: usize, max_iter: u32, rows: Vec<Vec<u32>>) -> (r:
        Option<PixelGrid>)
        ensures
            r is Some <==> grid_shaped(
                rows@.map_values(|v: Vec<u32>| v@),
                width as nat,
                height as nat,
                max_iter as nat,
            ),
            r matches Some(g) ==> {
                &&& g.wf()
                &&& g.cells() == rows@.map_values(|v: Vec<u32>| v@)
                &&& g.spec_width() == width
                &&& g.spec_height() == height
                &&& g.spec_max_iter() == max_iter
            },
    {
        let ghost cells = rows@.map_values(|v: Vec<u32>| v@);
        if rows.len() != height {
            return None;
        }
        let mut y: usize = 0;
        while y < rows.len()
            invariant
                y <= rows.len(),
                cells == rows@.map_values(|v: Vec<u32>| v@),
                forall|k: int| 0 <= k < y ==> (#[trigger] cells[k]).len() == width,
                forall|k: int, x: int|
                    0 <= k < y && 0 <= x < cells[k].len() ==> #[trigger] cells[k][x] <= max_iter,
            decreases rows.len() - y,
        {
            let row = &rows[y];
            if row.len() != width {
                assert(cells[y as int].len() != width);
                return None;
            }
            let mut x: usize = 0;
            while x < row.len()
                invariant
                    x <= row.len(),
                    y < rows.len(),
                    cells == rows@.map_values(|v: Vec<u32>| v@),
                    row@ == cells[y as int],
                    forall|i: int| 0 <= i < x ==> #[trigger] row@[i] <= max_iter,
                decreases row.len() - x,
            {
                if row[x] > max_iter {
                    assert(cells[y as int][x as int] > max_iter);
                    return None;
                }
                x = x + 1;
            }
            y = y + 1;
        }
        Some(PixelGrid { rows, width, height, max_iter })
    }

    /// The counts, `height` rows of `width` columns.
    pub fn into_rows(self) -> (r: Vec<Vec<u32>>)
        requires
            self.wf(),
        ensures
            r@.map_values(|v: Vec<u32>| v@) == self.cells(),
            grid_shaped(
                r@.map_values(|v: Vec<u32>| v@),
                self.spec_width() as nat,
                self.spec_height() as nat,
                self.spec_max_iter() as nat,
            ),
    {
        self.rows
    }
}

/// The counts of one row, filled column by column by the worker that owns the row.
pub struct RowBuilder {
    counts: Vec<u32>,
    width: usize,
    max_iter: u32,
    orbits: Ghost<Seq<Seq<bool>>>,
}

impl RowBuilder {
    /// The counts so far, one per finished column.
    pub closed spec fn spec_counts(&self) -> Seq<u32> {
        self.counts@
    }

    /// For each finished column, the answers its escape counter was given.
    pub closed spec fn orbits(&self) -> Seq<Seq<bool>> {
        self.orbits@
    }

    pub closed spec fn spec_width(&self) -> usize {
        self.width
    }

    pub closed spec fn spec_max_iter(&self) -> u32 {
        self.max_iter
    }

    pub closed spec fn wf(&self) -> bool {
        &&& self.counts@.len() <= self.width
        &&& self.orbits@.len() == self.counts@.len()
        &&& forall|x: int|
            0 <= x < self.counts@.len() ==> #[trigger] self.counts@[x] == escape_count(
                self.orbits@[x],
                self.max_iter as nat,
            )
        &&& forall|x: int| 0 <= x < self.counts@.len() ==> #[trigger] self.counts@[x] <= self.max_iter
    }

    /// An empty row of `width` columns whose counts are capped at `max_iter`.
    pub fn new(width: usize, max_iter: u32) -> (r: Self)
        ensures
            r.wf(),
            r.spec_counts() == Seq::<u32>::empty(),
            r.spec_width() == width,
            r.spec_max_iter() == max_iter,
    {
        RowBuilder { counts: Vec::new(), width, max_iter, orbits: Ghost(Seq::empty()) }
    }

    /// The column to compute next; equal to the width once the row is complete.
    pub fn next_column(&self) -> (r: usize)
        ensures
            r == self.spec_counts().len(),
    {
        self.counts.len()
    }

    /// Whether every column has its count.
    pub fn is_complete(&self) -> (r: bool)
        ensures
            r == (self.spec_counts().len() == self.spec_width()),
    {
        self.counts.len() == self.width
    }

    /// The cap on the counts of this row.
    pub fn max_iter(&self) -> (r: u32)
        ensures
            r == self.spec_max_iter(),
    {
        self.max_iter
    }

    /// Stores the count of the next column, taken from the stopped counter of its orbit.
    pub fn push(&mut self, counter: &EscapeCounter)
        requires
            old(self).wf(),
            old(self).spec_counts().len() < old(self).spec_width(),
            counter.wf(),
            counter.spec_stopped(),
            counter.spec_max_iter() == old(self).spec_max_iter(),
        ensures
            final(self).wf(),
            final(self).spec_width() == old(self).spec_width(),
            final(self).spec_max_iter() == old(self).spec_max_iter(),
            final(self).spec_counts() == old(self).spec_counts().push(
                escape_count(counter.observed(), counter.spec_max_iter() as nat) as u32,
            ),
            final(self).orbits() == old(self).orbits().push(counter.observed()),
    {
        let c = counter.count();
        self.counts.push(c);
        self.orbits = Ghost(self.orbits@.push(counter.observed()));
    }

    /// The finished row: one count per column, each the escape-time count of its orbit.
    pub fn finish(self) -> (r: Vec<u32>)
        requires
            self.wf(),
            self.spec_counts().len() == self.spec_width(),
        ensures
            r@ == self.spec_counts(),
            r@.len() == self.spec_width(),
            forall|x: int| 0 <= x < r@.len() ==> #[trigger] r@[x] <= self.spec_max_iter(),
            forall|x: int|
                0 <= x < r@.len() ==> #[trigger] r@[x] == escape_count(
                    self.orbits()[x],
                    self.spec_max_iter() as nat,
                ),
    {
        self.counts
    }
}

/// The counts of a row depend on nothing but the orbits of its pixels and the cap: rows
/// built from the same orbits hold the same counts, whichever worker built them.
pub proof fn lemma_row_determined_by_orbits(a: RowBuilder, b: RowBuilder)
    requires
        a.wf(),
        b.wf(),
        a.orbits() == b.orbits(),
        a.spec_max_iter() == b.spec_max_iter(),
    ensures
        a.spec_counts() == b.spec_counts(),
{
    assert(a.spec_counts() =~= b.spec_counts());
}

} // verus!
