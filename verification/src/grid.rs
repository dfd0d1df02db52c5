use vstd::prelude::*;

verus! {

use vstd::arithmetic::div_mod::{
    lemma_add_mod_noop,
    lemma_mod_multiples_vanish,
    lemma_mul_mod_noop,
    lemma_mul_mod_noop_left,
    lemma_small_mod,
};

/// A rectangular field of cells addressed by `(column, row)` coordinates.
/// A cell is live (`Some(true)`), dead (`Some(false)`), or not yet seeded
/// (`None`).
pub struct Grid {
    pub cells: Vec<Vec<Option<bool>>>,
}

/// The width of a grid view: the length of its first row, or 0 if the grid
/// has no rows.
pub open spec fn width_of(g: Seq<Seq<Option<bool>>>) -> nat {
    if g.len() == 0 {
        0
    } else {
        g[0].len()
    }
}

/// A well-formed grid is rectangular: every row has the same length.
pub open spec fn grid_wf(g: Seq<Seq<Option<bool>>>) -> bool {
    forall|j: int| 0 <= j < g.len() ==> (#[trigger] g[j]).len() == width_of(g)
}

impl View for Grid {
    type V = Seq<Seq<Option<bool>>>;

    open spec fn view(&self) -> Seq<Seq<Option<bool>>> {
        Seq::new(self.cells@.len(), |j: int| self.cells@[j]@)
    }
}

impl Grid {
    /// A grid with `height` rows of `width` cells, all of them unseeded.
    pub fn new(height: usize, width: usize) -> (r: Grid)
        ensures
            r@.len() == height,
            forall|j: int| 0 <= j < height ==> (#[trigger] r@[j]).len() == width,
            forall|j: int, i: int| 0 <= j < height && 0 <= i < width ==> r@[j][i] is None,
            grid_wf(r@),
    {
        let mut cells: Vec<Vec<Option<bool>>> = Vec::new();
        let mut j: usize = 0;
        while j < height
            invariant
                j <= height,
                cells@.len() == j,
                forall|jj: int| 0 <= jj < j ==> (#[trigger] cells@[jj])@.len() == width,
                forall|jj: int, i: int| 0 <= jj < j && 0 <= i < width ==> cells@[jj]@[i] is None,
            decreases height - j,
        {
            let mut row: Vec<Option<bool>> = Vec::new();
            let mut i: usize = 0;
            while i < width
                invariant
                    i <= width,
                    row@.len() == i,
                    forall|ii: int| 0 <= ii < i ==> row@[ii] is None,
                decreases width - i,
            {
                row.push(None);
                i = i + 1;
            }
            cells.push(row);
            j = j + 1;
        }
        Grid { cells }
    }

    /// The number of rows.
    pub fn height(&self) -> (r: usize)
        ensures
            r == self@.len(),
    {
        self.cells.len()
    }

    /// The length of the first row, or 0 for a grid with no rows.
    pub fn width(&self) -> (r: usize)
        ensures
            r == width_of(self@),
    {
        match self.cells.first() {
            Some(row) => row.len(),
            None => 0,
        }
    }

    /// Bounds-checked read of the cell at column `x`, row `y`.
    pub fn get(&self, x: usize, y: usize) -> (r: Option<bool>)
        requires
            grid_wf(self@),
            x < width_of(self@),
            y < self@.len(),
        ensures
            r == self@[y as int][x as int],
    {
        proof {
            assert(self@[y as int] == self.cells@[y as int]@);
        }
        self.cells[y][x]
    }

    /// Bounds-checked write of the cell at column `x`, row `y`.
    pub fn set(&mut self, x: usize, y: usize, value: Option<bool>)
        requires
            grid_wf(old(self)@),
            x < width_of(old(self)@),
            y < old(self)@.len(),
        ensures
            final(self)@ == old(self)@.update(
                y as int,
                old(self)@[y as int].update(x as int, value),
            ),
            grid_wf(final(self)@),
    {
        proof {
            assert(old(self)@[y as int] == self.cells@[y as int]@);
        }
        self.cells[y][x] = value;
        proof {
            assert(self@ =~~= old(self)@.update(
                y as int,
                old(self)@[y as int].update(x as int, value),
            ));
        }
    }
}

/// The per-channel shading offset for an iteration count: a rising ramp over
/// the first half of each 256-tick cycle, then a falling tail computed from
/// the count's remainder modulo 129.
pub open spec fn iter_offset_spec(iteration: nat) -> nat {
    if iteration % 256 <= 128 {
        iteration % 256
    } else {
        (128 - iteration % 129) as nat
    }
}

/// One RGB channel: the coordinate-derived base scaled by 3, shifted by the
/// iteration offset, wrapped at 255.
pub open spec fn channel_spec(base: nat, iteration: nat) -> nat {
    (base * 3 + iter_offset_spec(iteration)) % 255
}

/// The color of a live cell at column `i`, row `j`: channel bases are
/// `i + j`, `i * j`, and the constant 1.
pub open spec fn shade_spec(i: nat, j: nat, iteration: nat) -> (nat, nat, nat) {
    (
        channel_spec(i + j, iteration),
        channel_spec(i * j, iteration),
        channel_spec(1, iteration),
    )
}

/// Within the first half of each cycle, the shading offset repeats with
/// period 256.  (For counts whose remainder modulo 256 exceeds 128 the
/// offset is drawn from the remainder modulo 129, and adding 256 shifts
/// that remainder, so the period does not hold there: compare the offsets
/// at 129 and at 385.)
pub proof fn lemma_offset_periodic(iteration: nat)
    requires
        iteration % 256 <= 128,
    ensures
        iter_offset_spec(iteration + 256) == iter_offset_spec(iteration),
{
    lemma_mod_multiples_vanish(1, iteration as int, 256);
}

/// Within one cycle, the offset is symmetric about the midpoint of the ramp:
/// the value at count `128 + d` equals the value at count `129 - d`.
pub proof fn lemma_offset_symmetric(d: nat)
    requires
        1 <= d <= 127,
    ensures
        iter_offset_spec((128 + d) as nat) == iter_offset_spec((129 - d) as nat),
{
    lemma_small_mod((128 + d) as nat, 256);
    lemma_mod_multiples_vanish(1, d - 1, 129);
    lemma_small_mod((d - 1) as nat, 129);
    lemma_small_mod((129 - d) as nat, 256);
}

/// The whole cell color inherits the restricted period of the offset.
pub proof fn lemma_shade_periodic(i: nat, j: nat, iteration: nat)
    requires
        iteration % 256 <= 128,
    ensures
        shade_spec(i, j, iteration + 256) == shade_spec(i, j, iteration),
{
    lemma_offset_periodic(iteration);
}

/// The whole cell color inherits the offset's symmetry about the midpoint.
pub proof fn lemma_shade_symmetric(i: nat, j: nat, d: nat)
    requires
        1 <= d <= 127,
    ensures
        shade_spec(i, j, (128 + d) as nat) == shade_spec(i, j, (129 - d) as nat),
{
    lemma_offset_symmetric(d);
}

impl Grid {
    /// The RGB triple painted for a live cell at column `i`, row `j` at the
    /// given iteration count.
    pub fn shade_cell(i: usize, j: usize, iteration: usize) -> (r: (u8, u8, u8))
        ensures
            (r.0 as nat, r.1 as nat, r.2 as nat) == shade_spec(
                i as nat,
                j as nat,
                iteration as nat,
            ),
    {
        let m256: usize = iteration % 256;
        let offset: usize = if m256 <= 128 {
            m256
        } else {
            128 - iteration % 129
        };
        assert(offset == iter_offset_spec(iteration as nat));
        assert(offset <= 128);

        let b0: usize = ((i % 255) + (j % 255)) % 255;
        let c0: usize = (b0 * 3 + offset) % 255;
        proof {
            lemma_add_mod_noop(i as int, j as int, 255);
            assert(b0 == (i + j) % 255);
            lemma_mul_mod_noop_left((i + j) as int, 3, 255);
            assert((b0 * 3) % 255 == ((i + j) * 3) % 255);
            lemma_add_mod_noop(b0 * 3, offset as int, 255);
            lemma_add_mod_noop((i + j) * 3, offset as int, 255);
            assert(c0 == channel_spec((i + j) as nat, iteration as nat));
        }

        let ia: usize = i % 255;
        let jb: usize = j % 255;
        assert(ia * jb <= 254 * 254) by (nonlinear_arith)
            requires
                ia < 255,
                jb < 255,
        ;
        let b1: usize = (ia * jb) % 255;
        let c1: usize = (b1 * 3 + offset) % 255;
        proof {
            lemma_mul_mod_noop(i as int, j as int, 255);
            assert(b1 == (i * j) % 255);
            lemma_mul_mod_noop_left((i * j) as int, 3, 255);
            assert((b1 * 3) % 255 == ((i * j) * 3) % 255);
            lemma_add_mod_noop(b1 * 3, offset as int, 255);
            lemma_add_mod_noop((i * j) * 3, offset as int, 255);
            assert(c1 == channel_spec((i * j) as nat, iteration as nat));
        }

        let c2: usize = (3 + offset) % 255;
        assert(c2 == channel_spec(1, iteration as nat));

        (c0 as u8, c1 as u8, c2 as u8)
    }
}

impl Default for Grid {
    /// A grid with no rows.
    fn default() -> (r: Self)
        ensures
            r@.len() == 0,
    {
        Grid { cells: Vec::new() }
    }
}

impl Clone for Grid {
    /// A deep copy with the same cells.
    fn clone(&self) -> (r: Self)
        ensures
            r@ == self@,
    {
        let mut cells: Vec<Vec<Option<bool>>> = Vec::new();
        let mut j: usize = 0;
        while j < self.cells.len()
            invariant
                j <= self.cells@.len(),
                cells@.len() == j,
                forall|jj: int| 0 <= jj < j ==> cells@[jj]@ == self.cells@[jj]@,
            decreases self.cells@.len() - j,
        {
            let src_row = &self.cells[j];
            let mut row: Vec<Option<bool>> = Vec::new();
            let mut i: usize = 0;
            while i < src_row.len()
                invariant
                    i <= src_row@.len(),
                    row@.len() == i,
                    forall|ii: int| 0 <= ii < i ==> row@[ii] == src_row@[ii],
                decreases src_row@.len() - i,
            {
                row.push(src_row[i]);
                i = i + 1;
            }
            proof {
                assert(row@ =~= src_row@);
            }
            cells.push(row);
            j = j + 1;
        }
        let r = Grid { cells };
        proof {
            assert(r@ =~~= self@);
        }
        r
    }
}

} // verus!
