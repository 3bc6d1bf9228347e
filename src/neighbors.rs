use vstd::prelude::*;
use crate::grid::{
    cell_index, cells_in_bounds, lemma_cell_index_bounds, lemma_cell_index_injective, GridCell,
};

verus! {

/// Cell `c` lies in the Moore neighbourhood of `(x, y)`: it differs from it by
/// at most one in each coordinate and is not `(x, y)` itself.
pub open spec fn is_neighbor(c: GridCell, x: int, y: int) -> bool {
    &&& (c.x != x || c.y != y)
    &&& x - 1 <= c.x <= x + 1
    &&& y - 1 <= c.y <= y + 1
}

/// Cell `c` adds one to the neighbour count of `(x, y)` on a grid with `n`
/// cells to a side: it is alive, a neighbour, and `(x, y)` is on the grid.
pub open spec fn contributes(c: GridCell, n: int, x: int, y: int) -> bool {
    &&& c.life > 0
    &&& 0 <= x < n
    &&& 0 <= y < n
    &&& is_neighbor(c, x, y)
}

/// The number of live cells of `cells` that neighbour `(x, y)`; zero for a
/// pair that is not on the grid.
pub open spec fn neighbor_count(cells: Seq<GridCell>, n: int, x: int, y: int) -> nat
    decreases cells.len(),
{
    if cells.len() == 0 {
        0
    } else {
        neighbor_count(cells.drop_last(), n, x, y) + if contributes(cells.last(), n, x, y) {
            1nat
        } else {
            0nat
        }
    }
}

/// A count never exceeds the number of cells it is taken over.
pub proof fn lemma_neighbor_count_bound(cells: Seq<GridCell>, n: int, x: int, y: int)
    ensures
        neighbor_count(cells, n, x, y) <= cells.len(),
    decreases cells.len(),
{
    if cells.len() > 0 {
        lemma_neighbor_count_bound(cells.drop_last(), n, x, y);
    }
}

/// Counting never reaches past the edge of the grid: a cell counts toward a
/// pair only when that pair is on the grid, and toward the corner `(0, 0)`
/// only when it stands at `(0, 1)`, `(1, 0)` or `(1, 1)`.
pub proof fn lemma_counting_stays_on_grid(c: GridCell, n: int, x: int, y: int)
    requires
        contributes(c, n, x, y),
    ensures
        0 <= x < n,
        0 <= y < n,
        x == 0 && y == 0 ==> (c.x == 0 && c.y == 1) || (c.x == 1 && c.y == 0) || (c.x == 1
            && c.y == 1),
{
}

/// Adds one to the entry of `(tx, ty)`.
fn bump(counts: &mut Vec<usize>, n: usize, tx: usize, ty: usize)
    requires
        old(counts).len() == n * n,
        tx < n,
        ty < n,
        old(counts)[cell_index(n as int, tx as int, ty as int)] < usize::MAX,
    ensures
        final(counts).len() == n * n,
        forall|x: int, y: int|
            0 <= x < n && 0 <= y < n ==> #[trigger] final(counts)[cell_index(n as int, x, y)]
                == old(counts)[cell_index(n as int, x, y)] + if x == tx && y == ty {
                1int
            } else {
                0int
            },
{
    proof {
        lemma_cell_index_bounds(n as int, tx as int, ty as int);
    }
    let k = tx * n + ty;
    let v = counts[k];
    counts.set(k, v + 1);
    assert forall|x: int, y: int| 0 <= x < n && 0 <= y < n implies #[trigger] counts[cell_index(
        n as int,
        x,
        y,
    )] == old(counts)[cell_index(n as int, x, y)] + if x == tx && y == ty {
        1int
    } else {
        0int
    } by {
        lemma_cell_index_bounds(n as int, x, y);
        if cell_index(n as int, x, y) == k {
            lemma_cell_index_injective(n as int, x, y, tx as int, ty as int);
        }
    }
}

/// Adds one to the entry of each on-grid neighbour of the live cell `c`.
fn add_neighbors_of(counts: &mut Vec<usize>, n: usize, c: GridCell)
    requires
        old(counts).len() == n * n,
        c.x < n,
        c.y < n,
        c.life > 0,
        forall|x: int, y: int|
            0 <= x < n && 0 <= y < n ==> #[trigger] old(counts)[cell_index(n as int, x, y)]
                < usize::MAX,
    ensures
        final(counts).len() == n * n,
        forall|x: int, y: int|
            0 <= x < n && 0 <= y < n ==> #[trigger] final(counts)[cell_index(n as int, x, y)]
                == old(counts)[cell_index(n as int, x, y)] + if contributes(c, n as int, x, y) {
                1int
            } else {
                0int
            },
{
    let cx = c.x;
    let cy = c.y;
    if cx >= 1 && cy >= 1 {
        bump(counts, n, cx - 1, cy - 1);
    }
    if cx >= 1 {
        bump(counts, n, cx - 1, cy);
    }
    if cx >= 1 && cy + 1 < n {
        bump(counts, n, cx - 1, cy + 1);
    }
    if cy >= 1 {
        bump(counts, n, cx, cy - 1);
    }
    if cy + 1 < n {
        bump(counts, n, cx, cy + 1);
    }
    if cx + 1 < n && cy >= 1 {
        bump(counts, n, cx + 1, cy - 1);
    }
    if cx + 1 < n {
        bump(counts, n, cx + 1, cy);
    }
    if cx + 1 < n && cy + 1 < n {
        bump(counts, n, cx + 1, cy + 1);
    }
}

/// Counts, for every pair on the grid with `grid_num` cells to a side, the
/// live cells that neighbour it. The entry of `(x, y)` stands at position
/// `x * grid_num + y`.
pub fn count_neighbors(cells: &Vec<GridCell>, grid_num: usize) -> (counts: Vec<usize>)
    requires
        grid_num * grid_num <= usize::MAX,
        cells_in_bounds(cells@, grid_num as int),
    ensures
        counts.len() == grid_num * grid_num,
        forall|x: int, y: int|
            0 <= x < grid_num && 0 <= y < grid_num ==> #[trigger] counts[cell_index(
                grid_num as int,
                x,
                y,
            )] == neighbor_count(cells@, grid_num as int, x, y),
{
    let n = grid_num;
    let total = n * n;
    let mut counts: Vec<usize> = Vec::new();
    let mut k: usize = 0;
    while k < total
        invariant
            total == n * n,
            k <= total,
            counts.len() == k,
            forall|j: int| 0 <= j < k ==> counts[j] == 0,
        decreases total - k,
    {
        counts.push(0);
        k = k + 1;
    }
    assert forall|x: int, y: int| 0 <= x < n && 0 <= y < n implies #[trigger] counts[cell_index(
        n as int,
        x,
        y,
    )] == neighbor_count(cells@.take(0), n as int, x, y) by {
        lemma_cell_index_bounds(n as int, x, y);
    }
    let mut i: usize = 0;
    while i < cells.len()
        invariant
            n == grid_num,
            total == n * n,
            i <= cells.len(),
            counts.len() == total,
            cells_in_bounds(cells@, n as int),
            forall|x: int, y: int|
                0 <= x < n && 0 <= y < n ==> #[trigger] counts[cell_index(n as int, x, y)]
                    == neighbor_count(cells@.take(i as int), n as int, x, y),
        decreases cells.len() - i,
    {
        let c = cells[i];
        proof {
            assert(cells@.take(i + 1).drop_last() == cells@.take(i as int));
        }
        if c.life > 0 {
            assert forall|x: int, y: int| 0 <= x < n && 0 <= y < n implies #[trigger] counts[cell_index(
                n as int,
                x,
                y,
            )] < usize::MAX by {
                lemma_neighbor_count_bound(cells@.take(i as int), n as int, x, y);
            }
            add_neighbors_of(&mut counts, n, c);
        }
        i = i + 1;
    }
    assert(cells@.take(cells.len() as int) == cells@);
    counts
}

} // verus!
