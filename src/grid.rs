//! The grid of generations: row 0 is the seed, each later row is computed from
//! the row above it through the rule table.
use vstd::prelude::*;
use crate::cell::{Cell, CellState, state_of};
use crate::rule::{decode_rule, rule_table};
use crate::seed::{fixed_seed, fixed_seed_row, random_seed_row};

verus! {

/// The neighbourhood code of column `i` in the row below `prev`:
/// 4 for a live upper-left cell, 2 for a live upper-right cell, 1 for a live
/// cell directly above. A neighbour outside the row counts as dead.
pub open spec fn neighborhood_code(prev: Seq<bool>, i: int) -> int {
    (if i > 0 && prev[i - 1] { 4int } else { 0int })
        + (if i != prev.len() - 1 && prev[i + 1] { 2int } else { 0int })
        + (if prev[i] { 1int } else { 0int })
}

/// The generation that follows `prev` under the lookup table `rule`.
pub open spec fn next_row(rule: Seq<bool>, prev: Seq<bool>) -> Seq<bool> {
    Seq::new(prev.len(), |i: int| rule[neighborhood_code(prev, i)])
}

/// Every row after the first follows from the one above it, cell by cell.
pub open spec fn follows_rule(rows: Seq<Seq<bool>>, rule: Seq<bool>) -> bool {
    forall|j: int, i: int|
        1 <= j < rows.len() && 0 <= i < rows[j].len() ==> #[trigger] rows[j][i]
            == rule[neighborhood_code(rows[j - 1], i)]
}

/// The cell at column `x` and row `y` with the given state.
pub open spec fn cell_at(alive: bool, x: int, y: int) -> Cell {
    Cell { state: state_of(alive), position_x: x as u32, position_y: y as u32 }
}

/// Computes the neighbourhood code of column `i` below the row `prev`.
pub fn neighborhood_index(prev: &Vec<bool>, i: usize) -> (code: usize)
    requires
        i < prev@.len(),
    ensures
        code as int == neighborhood_code(prev@, i as int),
        code < 8,
{
    let mut code: usize = 0;
    if i != 0 && prev[i - 1] {
        code = code + 4;
    }
    if i != prev.len() - 1 && prev[i + 1] {
        code = code + 2;
    }
    if prev[i] {
        code = code + 1;
    }
    code
}

/// Computes the generation that follows `prev` under the table `rule`.
pub fn next_generation(rule: &[bool; 8], prev: &Vec<bool>) -> (next: Vec<bool>)
    ensures
        next@ == next_row(rule@, prev@),
{
    let mut next: Vec<bool> = Vec::new();
    let mut i: usize = 0;
    while i < prev.len()
        invariant
            i <= prev@.len(),
            next@.len() == i,
            forall|k: int| 0 <= k < i ==> next@[k] == rule@[neighborhood_code(prev@, k)],
        decreases prev@.len() - i,
    {
        let code: usize = neighborhood_index(prev, i);
        next.push(rule[code]);
        i = i + 1;
    }
    assert(next@ =~= next_row(rule@, prev@));
    next
}

/// A square grid of cells, stored column by column: `grid[x][y]` is the cell
/// at column `x` and row (generation) `y`.
pub struct CellGrid {
    pub grid: Vec<Vec<Cell>>,
}

impl View for CellGrid {
    /// The grid as rows of live/dead flags: `self@[y][x]` is the cell at
    /// column `x` of row `y`.
    type V = Seq<Seq<bool>>;

    open spec fn view(&self) -> Seq<Seq<bool>> {
        Seq::new(
            self.grid@.len(),
            |y: int|
                Seq::new(
                    self.grid@.len(),
                    |x: int| self.grid@[x]@[y].state == CellState::Alive,
                ),
        )
    }
}

impl CellGrid {
    /// The grid is square and every cell knows its own column and row.
    pub open spec fn wf(&self) -> bool {
        forall|x: int|
            0 <= x < self.grid@.len() ==> {
                &&& #[trigger] self.grid@[x]@.len() == self.grid@.len()
                &&& forall|y: int|
                    0 <= y < self.grid@.len() ==> #[trigger] self.grid@[x]@[y].position_x == x
                        && self.grid@[x]@[y].position_y == y
            }
    }

    /// Builds the grid whose row `y` is `rows[y]`.
    pub fn from_rows(rows: &Vec<Vec<bool>>) -> (g: CellGrid)
        requires
            rows@.len() <= u32::MAX as int + 1,
            forall|y: int| 0 <= y < rows@.len() ==> #[trigger] rows@[y]@.len() == rows@.len(),
        ensures
            g.wf(),
            g@.len() == rows@.len(),
            forall|y: int| 0 <= y < rows@.len() ==> #[trigger] g@[y] == rows@[y]@,
    {
        let n: usize = rows.len();
        let mut grid: Vec<Vec<Cell>> = Vec::new();
        let mut x: usize = 0;
        while x < n
            invariant
                n == rows@.len(),
                n <= u32::MAX as int + 1,
                forall|y: int| 0 <= y < n ==> #[trigger] rows@[y]@.len() == n,
                x <= n,
                grid@.len() == x,
                forall|c: int|
                    0 <= c < x ==> {
                        &&& #[trigger] grid@[c]@.len() == n
                        &&& forall|r: int|
                            0 <= r < n ==> #[trigger] grid@[c]@[r] == cell_at(rows@[r]@[c], c, r)
                    },
            decreases n - x,
        {
            let mut column: Vec<Cell> = Vec::new();
            let mut y: usize = 0;
            while y < n
                invariant
                    n == rows@.len(),
                    n <= u32::MAX as int + 1,
                    forall|r: int| 0 <= r < n ==> #[trigger] rows@[r]@.len() == n,
                    x < n,
                    y <= n,
                    column@.len() == y,
                    forall|r: int|
                        0 <= r < y ==> #[trigger] column@[r] == cell_at(rows@[r]@[x as int], x as int, r),
                decreases n - y,
            {
                let state: CellState = CellState::from_alive(rows[y][x]);
                column.push(Cell { state, position_x: x as u32, position_y: y as u32 });
                y = y + 1;
            }
            grid.push(column);
            x = x + 1;
        }
        let g = CellGrid { grid };
        assert forall|y: int| 0 <= y < rows@.len() implies #[trigger] g@[y] == rows@[y]@ by {
            assert forall|c: int| 0 <= c < n implies g@[y][c] == rows@[y]@[c] by {
                assert(g.grid@[c]@.len() == n);
                assert(g.grid@[c]@[y] == cell_at(rows@[y]@[c], c, y));
            }
            assert(g@[y] =~= rows@[y]@);
        }
        g
    }

    /// A `num_cells` by `num_cells` grid of dead cells.
    pub fn new(num_cells: u32) -> (g: CellGrid)
        ensures
            g.wf(),
            g@.len() == num_cells,
            forall|y: int, x: int|
                0 <= y < num_cells && 0 <= x < num_cells ==> !#[trigger] g@[y][x],
    {
        let n: usize = num_cells as usize;
        let mut rows: Vec<Vec<bool>> = Vec::new();
        let mut y: usize = 0;
        while y < n
            invariant
                n == num_cells,
                y <= n,
                rows@.len() == y,
                forall|r: int|
                    0 <= r < y ==> #[trigger] rows@[r]@ == Seq::new(n as nat, |c: int| false),
            decreases n - y,
        {
            let mut row: Vec<bool> = Vec::new();
            let mut x: usize = 0;
            while x < n
                invariant
                    x <= n,
                    row@.len() == x,
                    forall|c: int| 0 <= c < x ==> !#[trigger] row@[c],
                decreases n - x,
            {
                row.push(false);
                x = x + 1;
            }
            assert(row@ =~= Seq::new(n as nat, |c: int| false));
            rows.push(row);
            y = y + 1;
        }
        CellGrid::from_rows(&rows)
    }

    /// The number of columns, which is also the number of rows.
    pub fn width(&self) -> (w: usize)
        ensures
            w == self.grid@.len(),
            w == self@.len(),
    {
        self.grid.len()
    }

    /// The state of the cell at column `x` of row `y`.
    pub fn state_at(&self, x: usize, y: usize) -> (s: CellState)
        requires
            self.wf(),
            x < self@.len(),
            y < self@.len(),
        ensures
            s == state_of(self@[y as int][x as int]),
    {
        self.grid[x][y].state
    }
}

/// Computes the grid that grows from the seed row `seed` under the table
/// `rule`: as many rows as the seed has columns, row 0 being the seed.
pub fn update_cell_grid(rule: &[bool; 8], seed: &Vec<bool>) -> (g: CellGrid)
    requires
        seed@.len() <= u32::MAX as int + 1,
    ensures
        g.wf(),
        g@.len() == seed@.len(),
        seed@.len() > 0 ==> g@[0] == seed@,
        follows_rule(g@, rule@),
{
    let n: usize = seed.len();
    let mut rows: Vec<Vec<bool>> = Vec::new();
    if n > 0 {
        let first: Vec<bool> = seed.clone();
        assert(first@ =~= seed@);
        rows.push(first);
    }
    let mut j: usize = 1;
    while j < n
        invariant
            n == seed@.len(),
            n > 0 ==> rows@.len() == j,
            n == 0 ==> rows@.len() == 0,
            1 <= j,
            n > 0 ==> j <= n,
            forall|r: int| 0 <= r < rows@.len() ==> #[trigger] rows@[r]@.len() == n,
            n > 0 ==> rows@[0]@ == seed@,
            forall|r: int|
                1 <= r < rows@.len() ==> #[trigger] rows@[r]@ == next_row(rule@, rows@[r - 1]@),
        decreases n - j,
    {
        let next: Vec<bool> = next_generation(rule, &rows[j - 1]);
        rows.push(next);
        j = j + 1;
    }
    let g = CellGrid::from_rows(&rows);
    assert forall|y: int, x: int|
        1 <= y < g@.len() && 0 <= x < g@[y].len() implies #[trigger] g@[y][x]
            == rule@[neighborhood_code(g@[y - 1], x)] by {
        assert(g@[y] == rows@[y]@);
        assert(g@[y - 1] == rows@[y - 1]@);
    }
    g
}

/// Computes the `width` by `width` grid of rule `rule_num`. The seed row is a
/// single live cell in the middle, or, when `random_seed` holds, a row of coin
/// flips.
pub fn compute_grid(width: u32, rule_num: u8, random_seed: bool) -> (g: CellGrid)
    ensures
        g.wf(),
        g@.len() == width,
        !random_seed && width > 0 ==> g@[0] == fixed_seed(width as nat),
        follows_rule(g@, rule_table(rule_num)),
{
    let seed: Vec<bool> = if random_seed {
        random_seed_row(width)
    } else {
        fixed_seed_row(width)
    };
    let rule: [bool; 8] = decode_rule(rule_num);
    update_cell_grid(&rule, &seed)
}

/// An edge column reads no neighbour outside the row: at column 0 the
/// upper-left neighbour contributes 0 to the code, at the last column the
/// upper-right one does, and every code indexes the eight-entry table.
pub proof fn lemma_edge_neighbors(prev: Seq<bool>)
    requires
        prev.len() >= 1,
    ensures
        neighborhood_code(prev, 0) == (if prev.len() > 1 && prev[1] { 2int } else { 0int }) + (
        if prev[0] { 1int } else { 0int }),
        neighborhood_code(prev, prev.len() - 1) == (if prev.len() > 1 && prev[prev.len() - 2] {
            4int
        } else {
            0int
        }) + (if prev[prev.len() - 1] { 1int } else { 0int }),
        forall|i: int| 0 <= i < prev.len() ==> 0 <= #[trigger] neighborhood_code(prev, i) < 8,
{
}

} // verus!
