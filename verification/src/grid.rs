//! A uniform spatial grid over agent positions for neighbour queries.
//!
//! The grid is rebuilt fully once per tick before being queried, so it
//! reflects positions as of the start of the tick. A query visits the cell
//! under the query point and its neighbours out to the radius in cell units;
//! it may return indices beyond the exact radius (callers re-check distances)
//! but never omits an agent within the radius.

use vstd::prelude::*;

use crate::agent::Agent;
use crate::num::{clamp_i64, spec_clamp, spec_tdiv, tdiv};
use crate::resource::POS_MAX;

verus! {

/// Side length of a grid cell, in thousandths.
pub const GRID_CELL_SIZE: i64 = 50000;

/// The deep view of the cell array: each cell as the sequence of the agent
/// indices it holds.
pub open spec fn grid_view(cells: Seq<Vec<usize>>) -> Seq<Seq<usize>> {
    cells.map_values(|v: Vec<usize>| v@)
}

/// A uniform grid of cells over the world, each holding the indices of the
/// agents positioned inside it.
pub struct SpatialGrid {
    pub cell_size: i64,
    pub cols: usize,
    pub rows: usize,
    pub cells: Vec<Vec<usize>>,
}

/// The cell coordinate of position `v`, clamped into `[0, count - 1]` to
/// tolerate positions at the boundary.
pub open spec fn spec_cell_of(v: i64, cell_size: i64, count: int) -> int {
    spec_clamp(spec_tdiv(v as int, cell_size as int), 0, count - 1)
}

/// The flat cell index of position `(x, y)`.
pub open spec fn spec_cell_index(x: i64, y: i64, cell_size: i64, cols: int, rows: int) -> int {
    spec_cell_of(y, cell_size, rows) * cols + spec_cell_of(x, cell_size, cols)
}

/// The grid contents after inserting agents from index `i` on into `acc`.
pub open spec fn spec_fill(
    agents: Seq<Agent>,
    i: int,
    cell_size: i64,
    cols: int,
    rows: int,
    acc: Seq<Seq<usize>>,
) -> Seq<Seq<usize>>
    decreases agents.len() - i,
{
    if i < 0 || i >= agents.len() {
        acc
    } else {
        let c = spec_cell_index(agents[i].x, agents[i].y, cell_size, cols, rows);
        let nacc = if 0 <= c < acc.len() {
            acc.update(c, acc[c].push(i as usize))
        } else {
            acc
        };
        spec_fill(agents, i + 1, cell_size, cols, rows, nacc)
    }
}

/// An all-empty grid of `n` cells.
pub open spec fn spec_empty_cells(n: int) -> Seq<Seq<usize>> {
    Seq::new(n as nat, |i: int| Seq::<usize>::empty())
}

/// The full contents of a grid freshly built over `agents`.
pub open spec fn spec_built(agents: Seq<Agent>, cell_size: i64, cols: int, rows: int) -> Seq<
    Seq<usize>,
> {
    spec_fill(agents, 0, cell_size, cols, rows, spec_empty_cells(cols * rows))
}

impl SpatialGrid {
    /// Structural invariant: positive cell size, modest dimensions, and one
    /// stored row of cells per grid row.
    pub open spec fn wf(self) -> bool {
        &&& 1000 <= self.cell_size <= POS_MAX
        &&& 1 <= self.cols <= 1000
        &&& 1 <= self.rows <= 1000
        &&& self.cells@.len() == self.cols * self.rows
    }

    /// Every stored index is below `n`.
    pub open spec fn bounded(self, n: int) -> bool {
        forall|c: int, k: int|
            0 <= c < self.cells@.len() && 0 <= k < self.cells@[c]@.len() ==> (
            #[trigger] self.cells@[c]@[k]) < n
    }

    /// The grid holds exactly the indices of `agents`, each filed under the
    /// cell of its position.
    pub open spec fn built_for(self, agents: Seq<Agent>) -> bool {
        grid_view(self.cells@) == spec_built(agents, self.cell_size, self.cols as int, self.rows as int)
    }

    /// Creates an empty grid covering a `w` by `h` world.
    pub fn new(w: i64, h: i64) -> (r: SpatialGrid)
        requires
            1000 <= w <= POS_MAX,
            1000 <= h <= POS_MAX,
        ensures
            r.wf(),
            r.cell_size == GRID_CELL_SIZE,
            r.cols == (w + GRID_CELL_SIZE - 1) / (GRID_CELL_SIZE as int),
            r.rows == (h + GRID_CELL_SIZE - 1) / (GRID_CELL_SIZE as int),
            grid_view(r.cells@) == spec_empty_cells(r.cols * r.rows),
            r.bounded(0),
    {
        let cols = (tdiv(w + GRID_CELL_SIZE - 1, GRID_CELL_SIZE)) as usize;
        let rows = (tdiv(h + GRID_CELL_SIZE - 1, GRID_CELL_SIZE)) as usize;
        proof {
            vstd::arithmetic::div_mod::lemma_div_pos_is_pos(
                w + GRID_CELL_SIZE - 1,
                GRID_CELL_SIZE as int,
            );
            vstd::arithmetic::div_mod::lemma_div_is_ordered(
                GRID_CELL_SIZE as int,
                w + GRID_CELL_SIZE - 1,
                GRID_CELL_SIZE as int,
            );
            vstd::arithmetic::div_mod::lemma_div_is_ordered(
                w + GRID_CELL_SIZE - 1,
                2049999,
                GRID_CELL_SIZE as int,
            );
            vstd::arithmetic::div_mod::lemma_div_pos_is_pos(
                h + GRID_CELL_SIZE - 1,
                GRID_CELL_SIZE as int,
            );
            vstd::arithmetic::div_mod::lemma_div_is_ordered(
                GRID_CELL_SIZE as int,
                h + GRID_CELL_SIZE - 1,
                GRID_CELL_SIZE as int,
            );
            vstd::arithmetic::div_mod::lemma_div_is_ordered(
                h + GRID_CELL_SIZE - 1,
                2049999,
                GRID_CELL_SIZE as int,
            );
            assert(1 <= cols <= 41);
            assert(1 <= rows <= 41);
            assert(cols * rows <= 1681) by (nonlinear_arith)
                requires
                    1 <= cols <= 41,
                    1 <= rows <= 41,
            ;
        }
        let count = cols * rows;
        let mut cells: Vec<Vec<usize>> = Vec::new();
        let mut i: usize = 0;
        while i < count
            invariant
                i <= count,
                cells@.len() == i,
                forall|c: int| 0 <= c < i ==> (#[trigger] cells@[c])@ == Seq::<usize>::empty(),
            decreases count - i,
        {
            cells.push(Vec::new());
            i = i + 1;
        }
        let r = SpatialGrid { cell_size: GRID_CELL_SIZE, cols, rows, cells };
        proof {
            assert(grid_view(r.cells@) =~~= spec_empty_cells(r.cols * r.rows));
        }
        r
    }

    /// Clears every cell and files each agent index under the cell of the
    /// agent's current position.
    pub fn rebuild(&mut self, agents: &Vec<Agent>)
        requires
            old(self).wf(),
            forall|k: int| 0 <= k < agents@.len() ==> (#[trigger] agents@[k]).wf(),
        ensures
            final(self).wf(),
            final(self).cell_size == old(self).cell_size,
            final(self).cols == old(self).cols,
            final(self).rows == old(self).rows,
            final(self).built_for(agents@),
            final(self).bounded(agents@.len() as int),
    {
        let count = self.cells.len();
        let mut c: usize = 0;
        while c < count
            invariant
                c <= count,
                self.cells@.len() == count,
                self.cell_size == old(self).cell_size,
                self.cols == old(self).cols,
                self.rows == old(self).rows,
                old(self).wf(),
                self.wf(),
                forall|j: int| 0 <= j < c ==> (#[trigger] self.cells@[j])@ == Seq::<usize>::empty(),
            decreases count - c,
        {
            self.cells[c].clear();
            c = c + 1;
        }
        proof {
            assert(grid_view(self.cells@) =~~= spec_empty_cells(
                self.cols as int * self.rows as int,
            ));
        }
        let ghost cs = self.cell_size;
        let ghost ncols = self.cols as int;
        let ghost nrows = self.rows as int;
        let ghost init = grid_view(self.cells@);
        let mut i: usize = 0;
        while i < agents.len()
            invariant
                i <= agents@.len(),
                forall|k: int| 0 <= k < agents@.len() ==> (#[trigger] agents@[k]).wf(),
                self.cells@.len() == ncols * nrows,
                self.cell_size == cs,
                self.cols as int == ncols,
                self.rows as int == nrows,
                self.wf(),
                spec_fill(agents@, 0, cs, ncols, nrows, init) == spec_fill(
                    agents@,
                    i as int,
                    cs,
                    ncols,
                    nrows,
                    grid_view(self.cells@),
                ),
                self.bounded(i as int),
            decreases agents@.len() - i,
        {
            let a = &agents[i];
            let cx = clamp_i64(tdiv(a.x, self.cell_size), 0, (self.cols - 1) as i64);
            let cy = clamp_i64(tdiv(a.y, self.cell_size), 0, (self.rows - 1) as i64);
            proof {
                assert((cy as int) * (self.cols as int) + (cx as int) < (self.rows as int) * (
                self.cols as int)) by (nonlinear_arith)
                    requires
                        0 <= cx < self.cols as int,
                        0 <= cy < self.rows as int,
                ;
                assert(0 <= (cy as int) * (self.cols as int) <= 999000) by (nonlinear_arith)
                    requires
                        0 <= cy <= 999,
                        0 <= self.cols as int <= 1000,
                ;
            }
            let idx: usize = (cy as usize) * self.cols + (cx as usize);
            let ghost before = grid_view(self.cells@);
            let ghost cidx = spec_cell_index(a.x, a.y, cs, ncols, nrows);
            proof {
                assert(cidx == idx as int);
            }
            self.cells[idx].push(i);
            proof {
                assert(grid_view(self.cells@) =~~= before.update(
                    idx as int,
                    before[idx as int].push(i),
                ));
                assert(spec_fill(agents@, i as int, cs, ncols, nrows, before) == spec_fill(
                    agents@,
                    i as int + 1,
                    cs,
                    ncols,
                    nrows,
                    grid_view(self.cells@),
                ));
            }
            i = i + 1;
        }
        proof {
            assert(spec_fill(agents@, agents@.len() as int, cs, ncols, nrows, grid_view(self.cells@))
                == grid_view(self.cells@));
        }
    }
}

/// The contents of cell `c`, or empty when out of range.
pub open spec fn cell_seq(cells: Seq<Seq<usize>>, c: int) -> Seq<usize> {
    if 0 <= c < cells.len() {
        cells[c]
    } else {
        Seq::empty()
    }
}

/// The indices collected from row `cy`, columns `cx` through `ex`, appended
/// to `acc`.
pub open spec fn spec_row_scan(
    cells: Seq<Seq<usize>>,
    cols: int,
    cy: int,
    cx: int,
    ex: int,
    acc: Seq<usize>,
) -> Seq<usize>
    decreases ex - cx + 1,
{
    if cx > ex || ex - cx + 1 < 0 {
        acc
    } else {
        spec_row_scan(cells, cols, cy, cx + 1, ex, acc + cell_seq(cells, cy * cols + cx))
    }
}

/// The indices collected from rows `cy` through `ey`, columns `sx` through
/// `ex`, appended to `acc`.
pub open spec fn spec_grid_scan(
    cells: Seq<Seq<usize>>,
    cols: int,
    cy: int,
    ey: int,
    sx: int,
    ex: int,
    acc: Seq<usize>,
) -> Seq<usize>
    decreases ey - cy + 1,
{
    if cy > ey || ey - cy + 1 < 0 {
        acc
    } else {
        spec_grid_scan(cells, cols, cy + 1, ey, sx, ex, spec_row_scan(cells, cols, cy, sx, ex, acc))
    }
}

/// How many cells out a query of `radius` must scan.
pub open spec fn spec_cell_reach(radius: i64, cell_size: i64) -> int {
    spec_tdiv(radius + cell_size - 1, cell_size as int)
}

/// The exact result of a radius query: the concatenation, cell by cell in
/// row-major order, of every cell within the radius in cell units of the cell
/// under `(x, y)`, clamped at the grid edges.
pub open spec fn spec_query(
    cells: Seq<Seq<usize>>,
    cell_size: i64,
    cols: int,
    rows: int,
    x: i64,
    y: i64,
    radius: i64,
) -> Seq<usize> {
    let cx = spec_cell_of(x, cell_size, cols);
    let cy = spec_cell_of(y, cell_size, rows);
    let cr = spec_cell_reach(radius, cell_size);
    let sx = if cx - cr < 0 {
        0
    } else {
        cx - cr
    };
    let ex = if cx + cr > cols - 1 {
        cols - 1
    } else {
        cx + cr
    };
    let sy = if cy - cr < 0 {
        0
    } else {
        cy - cr
    };
    let ey = if cy + cr > rows - 1 {
        rows - 1
    } else {
        cy + cr
    };
    spec_grid_scan(cells, cols, sy, ey, sx, ex, Seq::empty())
}

impl SpatialGrid {
    /// Collects the agent indices of every cell within `radius` (in cell
    /// units, rounded up) of the cell under `(x, y)`. The result is coarse:
    /// callers re-check exact distances.
    pub fn query(&self, x: i64, y: i64, radius: i64) -> (r: Vec<usize>)
        requires
            self.wf(),
            0 <= x <= POS_MAX,
            0 <= y <= POS_MAX,
            0 <= radius <= TARGET_QUERY_MAX,
        ensures
            r@ == spec_query(
                grid_view(self.cells@),
                self.cell_size,
                self.cols as int,
                self.rows as int,
                x,
                y,
                radius,
            ),
    {
        let ghost cells = grid_view(self.cells@);
        let ghost colsi = self.cols as int;
        let cxi = clamp_i64(tdiv(x, self.cell_size), 0, (self.cols - 1) as i64);
        let cyi = clamp_i64(tdiv(y, self.cell_size), 0, (self.rows - 1) as i64);
        proof {
            vstd::arithmetic::div_mod::lemma_div_pos_is_pos(
                radius + self.cell_size - 1,
                self.cell_size as int,
            );
            vstd::arithmetic::div_mod::lemma_div_is_ordered(
                radius + self.cell_size - 1,
                12000000,
                1000,
            );
            vstd::arithmetic::div_mod::lemma_div_is_ordered_by_denominator(
                radius + self.cell_size - 1,
                1000,
                self.cell_size as int,
            );
        }
        let cr = tdiv(radius + self.cell_size - 1, self.cell_size);
        let sxi = if cxi - cr < 0 {
            0
        } else {
            cxi - cr
        };
        let exi = if cxi + cr > (self.cols - 1) as i64 {
            (self.cols - 1) as i64
        } else {
            cxi + cr
        };
        let syi = if cyi - cr < 0 {
            0
        } else {
            cyi - cr
        };
        let eyi = if cyi + cr > (self.rows - 1) as i64 {
            (self.rows - 1) as i64
        } else {
            cyi + cr
        };
        let mut out: Vec<usize> = Vec::new();
        let mut cy: i64 = syi;
        while cy <= eyi
            invariant
                self.wf(),
                cells == grid_view(self.cells@),
                colsi == self.cols as int,
                syi <= cy <= eyi + 1,
                0 <= syi,
                eyi < self.rows as int,
                0 <= sxi <= exi < self.cols as int,
                spec_grid_scan(
                    cells,
                    colsi,
                    syi as int,
                    eyi as int,
                    sxi as int,
                    exi as int,
                    Seq::empty(),
                ) == spec_grid_scan(
                    cells,
                    colsi,
                    cy as int,
                    eyi as int,
                    sxi as int,
                    exi as int,
                    out@,
                ),
            decreases eyi - cy + 1,
        {
            let ghost row_start = out@;
            let mut cx: i64 = sxi;
            while cx <= exi
                invariant
                    self.wf(),
                    cells == grid_view(self.cells@),
                    colsi == self.cols as int,
                    sxi <= cx <= exi + 1,
                    0 <= sxi,
                    exi < self.cols as int,
                    0 <= cy < self.rows as int,
                    spec_row_scan(
                        cells,
                        colsi,
                        cy as int,
                        sxi as int,
                        exi as int,
                        row_start,
                    ) == spec_row_scan(cells, colsi, cy as int, cx as int, exi as int, out@),
                decreases exi - cx + 1,
            {
                proof {
                    assert(0 <= (cy as int) * colsi <= 999000) by (nonlinear_arith)
                        requires
                            0 <= (cy as int) <= 999,
                            0 <= colsi <= 1000,
                    ;
                    assert((cy as int) * colsi + (cx as int) < (self.rows as int) * colsi)
                        by (nonlinear_arith)
                        requires
                            0 <= (cx as int) < colsi,
                            0 <= (cy as int) < (self.rows as int),
                    ;
                }
                let c: usize = (cy as usize) * self.cols + (cx as usize);
                let cell = &self.cells[c];
                let ghost elem_start = out@;
                let mut k: usize = 0;
                while k < cell.len()
                    invariant
                        k <= cell@.len(),
                        out@ == elem_start + cell@.take(k as int),
                    decreases cell@.len() - k,
                {
                    out.push(cell[k]);
                    proof {
                        assert(out@ =~= elem_start + cell@.take(k as int + 1));
                    }
                    k = k + 1;
                }
                proof {
                    assert(cell@.take(cell@.len() as int) =~= cell@);
                    assert(cell@ == cell_seq(cells, (cy as int) * colsi + (cx as int)));
                    assert(spec_row_scan(
                        cells,
                        colsi,
                        cy as int,
                        cx as int,
                        exi as int,
                        elem_start,
                    ) == spec_row_scan(cells, colsi, cy as int, cx as int + 1, exi as int, out@));
                }
                cx = cx + 1;
            }
            proof {
                assert(spec_row_scan(cells, colsi, cy as int, exi as int + 1, exi as int, out@)
                    == out@);
                assert(spec_grid_scan(
                    cells,
                    colsi,
                    cy as int,
                    eyi as int,
                    sxi as int,
                    exi as int,
                    row_start,
                ) == spec_grid_scan(
                    cells,
                    colsi,
                    cy as int + 1,
                    eyi as int,
                    sxi as int,
                    exi as int,
                    out@,
                ));
            }
            cy = cy + 1;
        }
        proof {
            assert(spec_grid_scan(
                cells,
                colsi,
                eyi as int + 1,
                eyi as int,
                sxi as int,
                exi as int,
                out@,
            ) == out@);
        }
        out
    }
}

/// The largest query radius the engine ever uses, in thousandths.
pub const TARGET_QUERY_MAX: i64 = 10000000;

/// Filling never changes the number of cells.
proof fn lemma_fill_len(
    agents: Seq<Agent>,
    i: int,
    cell_size: i64,
    cols: int,
    rows: int,
    acc: Seq<Seq<usize>>,
)
    ensures
        spec_fill(agents, i, cell_size, cols, rows, acc).len() == acc.len(),
    decreases agents.len() - i,
{
    if 0 <= i < agents.len() {
        let c = spec_cell_index(agents[i].x, agents[i].y, cell_size, cols, rows);
        let nacc = if 0 <= c < acc.len() {
            acc.update(c, acc[c].push(i as usize))
        } else {
            acc
        };
        lemma_fill_len(agents, i + 1, cell_size, cols, rows, nacc);
    }
}

/// Filling never removes an index from a cell.
proof fn lemma_fill_preserves(
    agents: Seq<Agent>,
    i: int,
    cell_size: i64,
    cols: int,
    rows: int,
    acc: Seq<Seq<usize>>,
    c: int,
    v: usize,
)
    requires
        0 <= c < acc.len(),
        acc[c].contains(v),
    ensures
        spec_fill(agents, i, cell_size, cols, rows, acc)[c].contains(v),
    decreases agents.len() - i,
{
    lemma_fill_len(agents, i, cell_size, cols, rows, acc);
    if 0 <= i < agents.len() {
        let ci = spec_cell_index(agents[i].x, agents[i].y, cell_size, cols, rows);
        let nacc = if 0 <= ci < acc.len() {
            acc.update(ci, acc[ci].push(i as usize))
        } else {
            acc
        };
        assert(nacc[c].contains(v)) by {
            if ci == c && 0 <= ci < acc.len() {
                let k = choose|k: int| 0 <= k < acc[c].len() && acc[c][k] == v;
                assert(nacc[c][k] == v);
            }
        }
        lemma_fill_preserves(agents, i + 1, cell_size, cols, rows, nacc, c, v);
    }
}

/// The cell index of a nonnegative position is a valid flat index.
proof fn lemma_cell_index_bounds(x: i64, y: i64, cell_size: i64, cols: int, rows: int)
    requires
        1 <= cell_size,
        1 <= cols,
        1 <= rows,
    ensures
        0 <= spec_cell_index(x, y, cell_size, cols, rows) < cols * rows,
{
    let cx = spec_cell_of(x, cell_size, cols);
    let cy = spec_cell_of(y, cell_size, rows);
    assert(0 <= cx <= cols - 1);
    assert(0 <= cy <= rows - 1);
    assert(0 <= cy * cols + cx < cols * rows) by (nonlinear_arith)
        requires
            0 <= cx <= cols - 1,
            0 <= cy <= rows - 1,
            1 <= cols,
    ;
}

/// After a fill pass, every agent's index sits in the cell of its position.
proof fn lemma_fill_contains(
    agents: Seq<Agent>,
    i: int,
    cell_size: i64,
    cols: int,
    rows: int,
    acc: Seq<Seq<usize>>,
    j: int,
)
    requires
        i <= j < agents.len(),
        0 <= i,
        acc.len() == cols * rows,
        1 <= cell_size,
        1 <= cols,
        1 <= rows,
    ensures
        spec_fill(agents, i, cell_size, cols, rows, acc)[spec_cell_index(
            agents[j].x,
            agents[j].y,
            cell_size,
            cols,
            rows,
        )].contains(j as usize),
    decreases agents.len() - i,
{
    let ci = spec_cell_index(agents[i].x, agents[i].y, cell_size, cols, rows);
    lemma_cell_index_bounds(agents[i].x, agents[i].y, cell_size, cols, rows);
    let nacc = acc.update(ci, acc[ci].push(i as usize));
    if i == j {
        assert(nacc[ci][acc[ci].len() as int] == i as usize);
        assert(nacc[ci].contains(i as usize));
        lemma_fill_preserves(agents, i + 1, cell_size, cols, rows, nacc, ci, i as usize);
    } else {
        lemma_fill_contains(agents, i + 1, cell_size, cols, rows, nacc, j);
    }
}

/// A row scan keeps everything already collected and adds every index stored
/// in the cells it visits.
proof fn lemma_row_scan_collects(
    cells: Seq<Seq<usize>>,
    cols: int,
    cy: int,
    cx: int,
    ex: int,
    acc: Seq<usize>,
)
    ensures
        forall|v: usize| #[trigger]
            acc.contains(v) ==> spec_row_scan(cells, cols, cy, cx, ex, acc).contains(v),
        forall|cxx: int, k: int|
            cx <= cxx <= ex && 0 <= k < cell_seq(cells, cy * cols + cxx).len() ==> spec_row_scan(
                cells,
                cols,
                cy,
                cx,
                ex,
                acc,
            ).contains(#[trigger] cell_seq(cells, cy * cols + cxx)[k]),
    decreases ex - cx + 1,
{
    if !(cx > ex || ex - cx + 1 < 0) {
        let nacc = acc + cell_seq(cells, cy * cols + cx);
        lemma_row_scan_collects(cells, cols, cy, cx + 1, ex, acc + cell_seq(cells, cy * cols + cx));
        assert forall|v: usize| #[trigger] acc.contains(v) implies nacc.contains(v) by {
            let k = choose|k: int| 0 <= k < acc.len() && acc[k] == v;
            assert(nacc[k] == v);
        }
        assert forall|k: int|
            0 <= k < cell_seq(cells, cy * cols + cx).len() implies nacc.contains(
            #[trigger] cell_seq(cells, cy * cols + cx)[k],
        ) by {
            assert(nacc[acc.len() + k] == cell_seq(cells, cy * cols + cx)[k]);
        }
    }
}

/// A grid scan keeps everything already collected and adds every index stored
/// in the rectangle of cells it visits.
proof fn lemma_grid_scan_collects(
    cells: Seq<Seq<usize>>,
    cols: int,
    cy: int,
    ey: int,
    sx: int,
    ex: int,
    acc: Seq<usize>,
)
    ensures
        forall|v: usize| #[trigger]
            acc.contains(v) ==> spec_grid_scan(cells, cols, cy, ey, sx, ex, acc).contains(v),
        forall|cyy: int, cxx: int, k: int|
            cy <= cyy <= ey && sx <= cxx <= ex && 0 <= k < cell_seq(cells, cyy * cols + cxx).len()
                ==> spec_grid_scan(cells, cols, cy, ey, sx, ex, acc).contains(
                #[trigger] cell_seq(cells, cyy * cols + cxx)[k],
            ),
    decreases ey - cy + 1,
{
    if !(cy > ey || ey - cy + 1 < 0) {
        let nacc = spec_row_scan(cells, cols, cy, sx, ex, acc);
        lemma_row_scan_collects(cells, cols, cy, sx, ex, acc);
        lemma_grid_scan_collects(cells, cols, cy + 1, ey, sx, ex, nacc);
    }
}

/// A positive radius reaches at least itself in scaled cell units.
proof fn lemma_reach_covers_radius(radius: int, cs: int)
    requires
        1 <= cs,
        0 <= radius,
    ensures
        radius <= cs * ((radius + cs - 1) / cs),
{
    vstd::arithmetic::div_mod::lemma_fundamental_div_mod(radius + cs - 1, cs);
    vstd::arithmetic::div_mod::lemma_mod_bound(radius + cs - 1, cs);
}

/// Shifting a nonnegative position by at most `cs * cr` shifts its cell
/// coordinate by at most `cr`.
proof fn lemma_div_shift(a: int, b: int, cs: int, cr: int)
    requires
        1 <= cs,
        0 <= cr,
        0 <= a,
        0 <= b,
        b - cs * cr <= a <= b + cs * cr,
    ensures
        b / cs - cr <= a / cs <= b / cs + cr,
{
    vstd::arithmetic::div_mod::lemma_fundamental_div_mod(b, cs);
    vstd::arithmetic::div_mod::lemma_mod_bound(b, cs);
    assert(b + cs * cr == cs * (b / cs + cr) + b % cs) by (nonlinear_arith)
        requires
            b == cs * (b / cs) + b % cs,
    ;
    assert((cs * (b / cs + cr) + b % cs) / cs == b / cs + cr) by {
        vstd::arithmetic::div_mod::lemma_div_multiples_vanish_fancy(b / cs + cr, b % cs, cs);
    }
    vstd::arithmetic::div_mod::lemma_div_is_ordered(a, b + cs * cr, cs);
    assert(b - cs * cr == cs * (b / cs - cr) + b % cs) by (nonlinear_arith)
        requires
            b == cs * (b / cs) + b % cs,
    ;
    assert((cs * (b / cs - cr) + b % cs) / cs == b / cs - cr) by {
        vstd::arithmetic::div_mod::lemma_div_multiples_vanish_fancy(b / cs - cr, b % cs, cs);
    }
    vstd::arithmetic::div_mod::lemma_div_is_ordered(b - cs * cr, a, cs);
}

/// Clamping two values within `cr` of each other keeps them within `cr`.
proof fn lemma_clamp_shift(u: int, uc: int, m: int, cr: int)
    requires
        0 <= m,
        0 <= cr,
        uc - cr <= u <= uc + cr,
    ensures
        spec_clamp(uc, 0, m) - cr <= spec_clamp(u, 0, m) <= spec_clamp(uc, 0, m) + cr,
{
}

/// The spatial index query has no false negatives: any agent whose exact
/// distance to the query point is within the radius appears in the query
/// result, for a grid freshly built over the agents.
pub proof fn lemma_query_no_false_negative(
    cells: Seq<Seq<usize>>,
    cell_size: i64,
    cols: int,
    rows: int,
    x: i64,
    y: i64,
    radius: i64,
    agents: Seq<Agent>,
    i: int,
)
    requires
        cells == spec_built(agents, cell_size, cols, rows),
        1 <= cell_size,
        1 <= cols,
        1 <= rows,
        0 <= i < agents.len(),
        0 <= agents[i].x,
        0 <= agents[i].y,
        0 <= x,
        0 <= y,
        0 <= radius,
        crate::resource::spec_dist_sq(agents[i].x, agents[i].y, x, y) <= radius * radius,
    ensures
        spec_query(cells, cell_size, cols, rows, x, y, radius).contains(i as usize),
{
    let ax = agents[i].x as int;
    let ay = agents[i].y as int;
    let xi = x as int;
    let yi = y as int;
    let cs = cell_size as int;
    assert(xi - radius <= ax <= xi + radius && yi - radius <= ay <= yi + radius)
        by (nonlinear_arith)
        requires
            (ax - xi) * (ax - xi) + (ay - yi) * (ay - yi) <= radius * radius,
            0 <= radius,
    ;
    let cr = spec_cell_reach(radius, cell_size);
    vstd::arithmetic::div_mod::lemma_div_pos_is_pos(radius + cs - 1, cs);
    lemma_reach_covers_radius(radius as int, cs);
    assert(xi - cs * cr <= ax <= xi + cs * cr);
    assert(yi - cs * cr <= ay <= yi + cs * cr);
    lemma_div_shift(ax, xi, cs, cr);
    lemma_div_shift(ay, yi, cs, cr);
    let cxq = spec_cell_of(x, cell_size, cols);
    let cyq = spec_cell_of(y, cell_size, rows);
    let cxa = spec_cell_of(agents[i].x, cell_size, cols);
    let cya = spec_cell_of(agents[i].y, cell_size, rows);
    lemma_clamp_shift(spec_tdiv(ax, cs), spec_tdiv(xi, cs), cols - 1, cr);
    lemma_clamp_shift(spec_tdiv(ay, cs), spec_tdiv(yi, cs), rows - 1, cr);
    assert(cxq - cr <= cxa <= cxq + cr);
    assert(cyq - cr <= cya <= cyq + cr);
    lemma_fill_len(agents, 0, cell_size, cols, rows, spec_empty_cells(cols * rows));
    lemma_cell_index_bounds(agents[i].x, agents[i].y, cell_size, cols, rows);
    lemma_fill_contains(
        agents,
        0,
        cell_size,
        cols,
        rows,
        spec_empty_cells(cols * rows),
        i,
    );
    let cidx = spec_cell_index(agents[i].x, agents[i].y, cell_size, cols, rows);
    assert(cells[cidx].contains(i as usize));
    let sx = if cxq - cr < 0 {
        0
    } else {
        cxq - cr
    };
    let ex = if cxq + cr > cols - 1 {
        cols - 1
    } else {
        cxq + cr
    };
    let sy = if cyq - cr < 0 {
        0
    } else {
        cyq - cr
    };
    let ey = if cyq + cr > rows - 1 {
        rows - 1
    } else {
        cyq + cr
    };
    assert(sx <= cxa <= ex);
    assert(sy <= cya <= ey);
    lemma_grid_scan_collects(cells, cols, sy, ey, sx, ex, Seq::empty());
    let k = choose|k: int| 0 <= k < cells[cidx].len() && cells[cidx][k] == i as usize;
    assert(cell_seq(cells, cya * cols + cxa) == cells[cidx]);
    assert(spec_query(cells, cell_size, cols, rows, x, y, radius).contains(
        cell_seq(cells, cya * cols + cxa)[k],
    ));
}

/// Every index a query returns is stored in some cell; in particular all of
/// them are below the agent count the grid was built for.
pub proof fn lemma_query_bounded(
    cells: Seq<Seq<usize>>,
    cell_size: i64,
    cols: int,
    rows: int,
    x: i64,
    y: i64,
    radius: i64,
    n: int,
)
    requires
        forall|c: int, k: int|
            0 <= c < cells.len() && 0 <= k < cells[c].len() ==> (#[trigger] cells[c][k]) < n,
    ensures
        forall|j: int|
            0 <= j < spec_query(cells, cell_size, cols, rows, x, y, radius).len() ==> (
            #[trigger] spec_query(cells, cell_size, cols, rows, x, y, radius)[j]) < n,
{
    let cx = spec_cell_of(x, cell_size, cols);
    let cy = spec_cell_of(y, cell_size, rows);
    let cr = spec_cell_reach(radius, cell_size);
    let sx = if cx - cr < 0 {
        0
    } else {
        cx - cr
    };
    let ex = if cx + cr > cols - 1 {
        cols - 1
    } else {
        cx + cr
    };
    let sy = if cy - cr < 0 {
        0
    } else {
        cy - cr
    };
    let ey = if cy + cr > rows - 1 {
        rows - 1
    } else {
        cy + cr
    };
    lemma_grid_scan_bounded(cells, cols, sy, ey, sx, ex, Seq::empty(), n);
}

/// A row scan of bounded cells starting from a bounded accumulator stays
/// bounded.
proof fn lemma_row_scan_bounded(
    cells: Seq<Seq<usize>>,
    cols: int,
    cy: int,
    cx: int,
    ex: int,
    acc: Seq<usize>,
    n: int,
)
    requires
        forall|c: int, k: int|
            0 <= c < cells.len() && 0 <= k < cells[c].len() ==> (#[trigger] cells[c][k]) < n,
        forall|j: int| 0 <= j < acc.len() ==> (#[trigger] acc[j]) < n,
    ensures
        forall|j: int|
            0 <= j < spec_row_scan(cells, cols, cy, cx, ex, acc).len() ==> (#[trigger] spec_row_scan(
                cells,
                cols,
                cy,
                cx,
                ex,
                acc,
            )[j]) < n,
    decreases ex - cx + 1,
{
    if cx > ex || ex - cx + 1 < 0 {
        assert(spec_row_scan(cells, cols, cy, cx, ex, acc) == acc);
    } else {
        let nacc = acc + cell_seq(cells, cy * cols + cx);
        assert forall|j: int| 0 <= j < nacc.len() implies (#[trigger] nacc[j]) < n by {
            if j < acc.len() {
                assert(nacc[j] == acc[j]);
            } else {
                assert(nacc[j] == cell_seq(cells, cy * cols + cx)[j - acc.len()]);
            }
        }
        lemma_row_scan_bounded(cells, cols, cy, cx + 1, ex, nacc, n);
        assert(spec_row_scan(cells, cols, cy, cx, ex, acc) == spec_row_scan(
            cells,
            cols,
            cy,
            cx + 1,
            ex,
            nacc,
        ));
    }
}

/// A grid scan of bounded cells starting from a bounded accumulator stays
/// bounded.
proof fn lemma_grid_scan_bounded(
    cells: Seq<Seq<usize>>,
    cols: int,
    cy: int,
    ey: int,
    sx: int,
    ex: int,
    acc: Seq<usize>,
    n: int,
)
    requires
        forall|c: int, k: int|
            0 <= c < cells.len() && 0 <= k < cells[c].len() ==> (#[trigger] cells[c][k]) < n,
        forall|j: int| 0 <= j < acc.len() ==> (#[trigger] acc[j]) < n,
    ensures
        forall|j: int|
            0 <= j < spec_grid_scan(cells, cols, cy, ey, sx, ex, acc).len() ==> (
            #[trigger] spec_grid_scan(cells, cols, cy, ey, sx, ex, acc)[j]) < n,
    decreases ey - cy + 1,
{
    if cy > ey || ey - cy + 1 < 0 {
        assert(spec_grid_scan(cells, cols, cy, ey, sx, ex, acc) == acc);
    } else {
        let nacc = spec_row_scan(cells, cols, cy, sx, ex, acc);
        lemma_row_scan_bounded(cells, cols, cy, sx, ex, acc, n);
        lemma_grid_scan_bounded(cells, cols, cy + 1, ey, sx, ex, nacc, n);
        assert(spec_grid_scan(cells, cols, cy, ey, sx, ex, acc) == spec_grid_scan(
            cells,
            cols,
            cy + 1,
            ey,
            sx,
            ex,
            nacc,
        ));
    }
}

} // verus!
