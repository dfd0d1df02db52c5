use vstd::prelude::*;

verus! {

use crate::grid::{Grid, grid_wf, width_of};

/// A game wrapping an initial grid; stepping happens through the iterator
/// state it turns into.
pub struct GameOfLife {
    pub grid: Grid,
}

/// The stepping state: the current grid and how many generations were
/// produced so far.
pub struct GameOfLifeIterator {
    pub iteration: usize,
    pub grid: Grid,
}

/// The liveness of a seeded cell.
pub enum LifeState {
    Live,
    Dead,
}

/// 1 if `(x, y)` lies inside `g` and holds a live cell, else 0.
pub open spec fn alive_at(g: Seq<Seq<Option<bool>>>, x: int, y: int) -> int {
    if 0 <= y < g.len() && 0 <= x < g[y].len() && g[y][x] == Some(true) {
        1
    } else {
        0
    }
}

/// The number of live cells among the 8 Moore neighbors of `(x, y)`;
/// coordinates outside the grid contribute nothing.
pub open spec fn live_neighbors(g: Seq<Seq<Option<bool>>>, x: int, y: int) -> int {
    alive_at(g, x - 1, y - 1) + alive_at(g, x, y - 1) + alive_at(g, x + 1, y - 1)
        + alive_at(g, x - 1, y) + alive_at(g, x + 1, y) + alive_at(g, x - 1, y + 1)
        + alive_at(g, x, y + 1) + alive_at(g, x + 1, y + 1)
}

/// Every cell of `g` is seeded: no cell is `None`.
pub open spec fn fully_defined(g: Seq<Seq<Option<bool>>>) -> bool {
    forall|j: int, i: int|
        0 <= j < g.len() && 0 <= i < g[j].len() ==> (#[trigger] g[j][i]) is Some
}

/// The life rule at `(x, y)`: a live cell survives with 2 or 3 live
/// neighbors and dies otherwise; a dead cell comes alive with exactly 3.
pub open spec fn next_cell(g: Seq<Seq<Option<bool>>>, x: int, y: int) -> Option<bool>
    recommends
        0 <= y < g.len(),
        0 <= x < g[y].len(),
        g[y][x] is Some,
{
    let n = live_neighbors(g, x, y);
    if g[y][x] == Some(true) {
        if 2 <= n <= 3 {
            Some(true)
        } else {
            Some(false)
        }
    } else {
        if n == 3 {
            Some(true)
        } else {
            Some(false)
        }
    }
}

/// `g1` is the generation after `g0`: the same shape, every cell stepped by
/// the rule.
pub open spec fn is_next_gen(g0: Seq<Seq<Option<bool>>>, g1: Seq<Seq<Option<bool>>>) -> bool {
    &&& g1.len() == g0.len()
    &&& forall|j: int| 0 <= j < g0.len() ==> (#[trigger] g1[j]).len() == width_of(g0)
    &&& forall|j: int, i: int|
        0 <= j < g0.len() && 0 <= i < width_of(g0) ==> #[trigger] g1[j][i] == next_cell(g0, i, j)
}

/// Relies on rand::random_ratio: a draw that is true with probability
/// `num / den`, and panics unless `0 < den` and `num <= den`.  Nothing is
/// promised of the outcome.
#[verifier::external_body]
fn random_ratio(num: u32, den: u32) -> bool
    requires
        num <= den,
        0 < den,
{
    rand::random_ratio(num, den)
}

/// True exactly for a live cell.
fn is_live_cell(c: Option<bool>) -> (r: bool)
    ensures
        r == (c == Some(true)),
{
    match c {
        Some(b) => b,
        None => false,
    }
}

impl GameOfLife {
    /// Turn the game into its stepping state, starting at generation 0.
    pub fn into_iter(self) -> (r: GameOfLifeIterator)
        ensures
            r.iteration == 0,
            r.grid == self.grid,
    {
        GameOfLifeIterator { iteration: 0, grid: self.grid }
    }
}

impl GameOfLifeIterator {
    /// The liveness of the seeded cell at `coord` = (column, row).
    pub fn get_livestate(&self, coord: (usize, usize)) -> (r: LifeState)
        requires
            grid_wf(self.grid@),
            coord.0 < width_of(self.grid@),
            coord.1 < self.grid@.len(),
            self.grid@[coord.1 as int][coord.0 as int] is Some,
        ensures
            r is Live <==> self.grid@[coord.1 as int][coord.0 as int] == Some(true),
            r is Dead <==> self.grid@[coord.1 as int][coord.0 as int] == Some(false),
    {
        match self.grid.get(coord.0, coord.1) {
            Some(true) => LifeState::Live,
            Some(false) => LifeState::Dead,
            None => unreached(),
        }
    }

    /// The life rule applied at `coord` = (column, row) of the current grid.
    pub fn apply_rules(&self, coord: (usize, usize)) -> (r: Option<bool>)
        requires
            grid_wf(self.grid@),
            fully_defined(self.grid@),
            coord.0 < width_of(self.grid@),
            coord.1 < self.grid@.len(),
        ensures
            r == next_cell(self.grid@, coord.0 as int, coord.1 as int),
    {
        let ghost g = self.grid@;
        let (x, y) = coord;
        let w = self.grid.width();
        let h = self.grid.height();

        let mut count: usize = 0;
        if y >= 1 {
            if x >= 1 && is_live_cell(self.grid.get(x - 1, y - 1)) {
                count = count + 1;
            }
            if is_live_cell(self.grid.get(x, y - 1)) {
                count = count + 1;
            }
            if x < w - 1 && is_live_cell(self.grid.get(x + 1, y - 1)) {
                count = count + 1;
            }
        }
        if x >= 1 && is_live_cell(self.grid.get(x - 1, y)) {
            count = count + 1;
        }
        if x < w - 1 && is_live_cell(self.grid.get(x + 1, y)) {
            count = count + 1;
        }
        if y < h - 1 {
            if x >= 1 && is_live_cell(self.grid.get(x - 1, y + 1)) {
                count = count + 1;
            }
            if is_live_cell(self.grid.get(x, y + 1)) {
                count = count + 1;
            }
            if x < w - 1 && is_live_cell(self.grid.get(x + 1, y + 1)) {
                count = count + 1;
            }
        }
        assert(count == live_neighbors(g, x as int, y as int));

        match self.get_livestate(coord) {
            LifeState::Live => {
                if count == 2 || count == 3 {
                    Some(true)
                } else {
                    Some(false)
                }
            },
            LifeState::Dead => {
                if count == 3 {
                    Some(true)
                } else {
                    Some(false)
                }
            },
        }
    }

    /// Compute the next generation, adopt it as the current grid, bump the
    /// generation count, and hand the new grid back.
    pub fn next(&mut self) -> (r: Option<Grid>)
        requires
            grid_wf(old(self).grid@),
            fully_defined(old(self).grid@),
            old(self).iteration < usize::MAX,
        ensures
            final(self).iteration == old(self).iteration + 1,
            r matches Some(g) && g@ == final(self).grid@ && is_next_gen(old(self).grid@, g@),
    {
        let ghost g0 = self.grid@;
        let h = self.grid.height();
        let w = self.grid.width();

        let mut cells: Vec<Vec<Option<bool>>> = Vec::new();
        let mut j: usize = 0;
        while j < h
            invariant
                grid_wf(self.grid@),
                fully_defined(self.grid@),
                self.grid@ == g0,
                self.iteration == old(self).iteration,
                h == g0.len(),
                w == width_of(g0),
                j <= h,
                cells@.len() == j,
                forall|jj: int| 0 <= jj < j ==> (#[trigger] cells@[jj])@.len() == w,
                forall|jj: int, i: int|
                    0 <= jj < j && 0 <= i < w ==> #[trigger] cells@[jj]@[i] == next_cell(g0, i, jj),
            decreases h - j,
        {
            let mut row: Vec<Option<bool>> = Vec::new();
            let mut i: usize = 0;
            while i < w
                invariant
                    grid_wf(self.grid@),
                    fully_defined(self.grid@),
                    self.grid@ == g0,
                    h == g0.len(),
                    w == width_of(g0),
                    j < h,
                    i <= w,
                    row@.len() == i,
                    forall|ii: int| 0 <= ii < i ==> #[trigger] row@[ii] == next_cell(g0, ii, j as int),
                decreases w - i,
            {
                let c = self.apply_rules((i, j));
                row.push(c);
                i = i + 1;
            }
            cells.push(row);
            j = j + 1;
        }
        let next = Grid { cells };
        assert(is_next_gen(g0, next@));
        self.grid = next.clone();
        self.iteration = self.iteration + 1;
        Some(next)
    }

    /// Seed a grid: keep every already-seeded cell, and draw each unseeded
    /// cell live with probability 3 in 10.  The result starts at
    /// generation 0.
    pub fn init_with_grid(grid: &Grid) -> (r: GameOfLifeIterator)
        ensures
            r.iteration == 0,
            r.grid@.len() == grid@.len(),
            forall|j: int| 0 <= j < grid@.len() ==> (#[trigger] r.grid@[j]).len() == grid@[j].len(),
            forall|j: int, i: int|
                0 <= j < grid@.len() && 0 <= i < grid@[j].len() ==> (#[trigger] r.grid@[j][i]) is Some,
            forall|j: int, i: int|
                0 <= j < grid@.len() && 0 <= i < grid@[j].len() && grid@[j][i] is Some
                    ==> #[trigger] r.grid@[j][i] == grid@[j][i],
    {
        let ghost g0 = grid@;
        let mut cells: Vec<Vec<Option<bool>>> = Vec::new();
        let mut j: usize = 0;
        while j < grid.cells.len()
            invariant
                g0 == grid@,
                g0.len() == grid.cells@.len(),
                j <= g0.len(),
                cells@.len() == j,
                forall|jj: int| 0 <= jj < j ==> (#[trigger] cells@[jj])@.len() == g0[jj].len(),
                forall|jj: int, i: int|
                    0 <= jj < j && 0 <= i < g0[jj].len() ==> (#[trigger] cells@[jj]@[i]) is Some,
                forall|jj: int, i: int|
                    0 <= jj < j && 0 <= i < g0[jj].len() && g0[jj][i] is Some
                        ==> #[trigger] cells@[jj]@[i] == g0[jj][i],
            decreases g0.len() - j,
        {
            let row_len = grid.cells[j].len();
            assert(row_len == g0[j as int].len());
            let mut row: Vec<Option<bool>> = Vec::new();
            let mut i: usize = 0;
            while i < row_len
                invariant
                    g0 == grid@,
                    g0.len() == grid.cells@.len(),
                    j < g0.len(),
                    row_len == g0[j as int].len(),
                    i <= row_len,
                    row@.len() == i,
                    forall|ii: int| 0 <= ii < i ==> (#[trigger] row@[ii]) is Some,
                    forall|ii: int|
                        0 <= ii < i && g0[j as int][ii] is Some
                            ==> #[trigger] row@[ii] == g0[j as int][ii],
                decreases row_len - i,
            {
                let c = grid.cells[j][i];
                let seeded = match c {
                    Some(b) => Some(b),
                    None => Some(random_ratio(3, 10)),
                };
                row.push(seeded);
                i = i + 1;
            }
            cells.push(row);
            j = j + 1;
        }
        GameOfLifeIterator { iteration: 0, grid: Grid { cells } }
    }
}

impl Default for GameOfLifeIterator {
    /// Generation 0 over a grid with no rows.
    fn default() -> (r: Self)
        ensures
            r.iteration == 0,
            r.grid@.len() == 0,
    {
        GameOfLifeIterator { iteration: 0, grid: Default::default() }
    }
}

/// No spontaneous births at a single cell: with every cell of the grid
/// dead, the rule leaves the cell at `(x, y)` dead.
pub proof fn lemma_dead_cell_stays_dead(g: Seq<Seq<Option<bool>>>, x: int, y: int)
    requires
        grid_wf(g),
        0 <= y < g.len(),
        0 <= x < width_of(g),
        forall|j: int, i: int|
            0 <= j < g.len() && 0 <= i < width_of(g) ==> #[trigger] g[j][i] == Some(false),
    ensures
        next_cell(g, x, y) == Some(false),
{
    assert(alive_at(g, x - 1, y - 1) == 0);
    assert(alive_at(g, x, y - 1) == 0);
    assert(alive_at(g, x + 1, y - 1) == 0);
    assert(alive_at(g, x - 1, y) == 0);
    assert(alive_at(g, x + 1, y) == 0);
    assert(alive_at(g, x - 1, y + 1) == 0);
    assert(alive_at(g, x, y + 1) == 0);
    assert(alive_at(g, x + 1, y + 1) == 0);
}

/// Stepping a fully dead grid yields a fully dead grid.
pub proof fn lemma_dead_grid_stays_dead(g0: Seq<Seq<Option<bool>>>, g1: Seq<Seq<Option<bool>>>)
    requires
        grid_wf(g0),
        is_next_gen(g0, g1),
        forall|j: int, i: int|
            0 <= j < g0.len() && 0 <= i < width_of(g0) ==> #[trigger] g0[j][i] == Some(false),
    ensures
        forall|j: int, i: int|
            0 <= j < g1.len() && 0 <= i < g1[j].len() ==> #[trigger] g1[j][i] == Some(false),
{
    assert forall|j: int, i: int|
        0 <= j < g1.len() && 0 <= i < g1[j].len() implies #[trigger] g1[j][i] == Some(false) by {
        assert(g1[j].len() == width_of(g0));
        lemma_dead_cell_stays_dead(g0, i, j);
    }
}

/// The isolated-cell rule: a live cell with no live cell anywhere among its
/// Moore neighbors dies in the next step.
pub proof fn lemma_isolated_cell_dies(g: Seq<Seq<Option<bool>>>, x: int, y: int)
    requires
        grid_wf(g),
        0 <= y < g.len(),
        0 <= x < width_of(g),
        g[y][x] == Some(true),
        forall|j: int, i: int|
            0 <= j < g.len() && 0 <= i < width_of(g) && !(i == x && j == y) && x - 1 <= i <= x + 1
                && y - 1 <= j <= y + 1 ==> #[trigger] g[j][i] != Some(true),
    ensures
        next_cell(g, x, y) == Some(false),
{
    assert(alive_at(g, x - 1, y - 1) == 0);
    assert(alive_at(g, x, y - 1) == 0);
    assert(alive_at(g, x + 1, y - 1) == 0);
    assert(alive_at(g, x - 1, y) == 0);
    assert(alive_at(g, x + 1, y) == 0);
    assert(alive_at(g, x - 1, y + 1) == 0);
    assert(alive_at(g, x, y + 1) == 0);
    assert(alive_at(g, x + 1, y + 1) == 0);
}

/// With exactly one live cell at `(x0, y0)` in a fully seeded grid, the
/// rule leaves the cell at `(x, y)` dead: the live cell's own neighborhood
/// excludes it, and every other cell sees at most that one live neighbor,
/// short of the three a birth needs.
pub proof fn lemma_single_cell_next_dead(
    g: Seq<Seq<Option<bool>>>,
    x0: int,
    y0: int,
    x: int,
    y: int,
)
    requires
        grid_wf(g),
        fully_defined(g),
        0 <= y0 < g.len(),
        0 <= x0 < width_of(g),
        0 <= y < g.len(),
        0 <= x < width_of(g),
        g[y0][x0] == Some(true),
        forall|j: int, i: int|
            0 <= j < g.len() && 0 <= i < width_of(g) && !(i == x0 && j == y0)
                ==> #[trigger] g[j][i] == Some(false),
    ensures
        next_cell(g, x, y) == Some(false),
{
    assert(alive_at(g, x - 1, y - 1) == 1 ==> x - 1 == x0 && y - 1 == y0);
    assert(alive_at(g, x, y - 1) == 1 ==> x == x0 && y - 1 == y0);
    assert(alive_at(g, x + 1, y - 1) == 1 ==> x + 1 == x0 && y - 1 == y0);
    assert(alive_at(g, x - 1, y) == 1 ==> x - 1 == x0 && y == y0);
    assert(alive_at(g, x + 1, y) == 1 ==> x + 1 == x0 && y == y0);
    assert(alive_at(g, x - 1, y + 1) == 1 ==> x - 1 == x0 && y + 1 == y0);
    assert(alive_at(g, x, y + 1) == 1 ==> x == x0 && y + 1 == y0);
    assert(alive_at(g, x + 1, y + 1) == 1 ==> x + 1 == x0 && y + 1 == y0);
    assert(live_neighbors(g, x, y) <= 1);
    if x == x0 && y == y0 {
        assert(live_neighbors(g, x, y) == 0);
    } else {
        assert(g[y][x] == Some(false));
    }
}

/// The isolated-cell rule over a whole step: a fully seeded grid with
/// exactly one live cell steps to a fully dead grid — the live cell dies
/// alone, and nothing is born.
pub proof fn lemma_single_cell_grid_dies(
    g0: Seq<Seq<Option<bool>>>,
    g1: Seq<Seq<Option<bool>>>,
    x0: int,
    y0: int,
)
    requires
        grid_wf(g0),
        fully_defined(g0),
        is_next_gen(g0, g1),
        0 <= y0 < g0.len(),
        0 <= x0 < width_of(g0),
        g0[y0][x0] == Some(true),
        forall|j: int, i: int|
            0 <= j < g0.len() && 0 <= i < width_of(g0) && !(i == x0 && j == y0)
                ==> #[trigger] g0[j][i] == Some(false),
    ensures
        forall|j: int, i: int|
            0 <= j < g1.len() && 0 <= i < g1[j].len() ==> #[trigger] g1[j][i] == Some(false),
{
    assert forall|j: int, i: int|
        0 <= j < g1.len() && 0 <= i < g1[j].len() implies #[trigger] g1[j][i] == Some(false) by {
        assert(g1[j].len() == width_of(g0));
        lemma_single_cell_next_dead(g0, x0, y0, i, j);
    }
}

} // verus!
