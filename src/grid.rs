use vstd::prelude::*;
use vstd::arithmetic::div_mod::{lemma_div_pos_is_pos, lemma_multiply_divide_lt};

verus! {

/// Marks what belongs to a running simulation, as opposed to the menus.
#[derive(Clone, Copy, Debug, PartialEq, Eq, Structural)]
pub struct InGameScene;

/// One cell of the grid: its coordinates, fixed once created, and its life.
#[derive(Clone, Copy, Debug, PartialEq, Eq, Structural)]
pub struct GridCell {
    pub x: usize,
    pub y: usize,
    pub life: usize,
}

/// Position of the coordinate pair `(x, y)` in a dense row-major table of a
/// grid with `n` cells to a side.
pub open spec fn cell_index(n: int, x: int, y: int) -> int {
    x * n + y
}

/// Every cell lies on the grid with `n` cells to a side.
pub open spec fn cells_in_bounds(cells: Seq<GridCell>, n: int) -> bool {
    forall|i: int| 0 <= i < cells.len() ==> #[trigger] cells[i].x < n && cells[i].y < n
}

/// The grid with `n` cells to a side, laid out in row-major order: the cell
/// at position `i` has coordinates `(i / n, i % n)`, so that every coordinate
/// pair occurs exactly once.
pub open spec fn is_full_grid(cells: Seq<GridCell>, n: int) -> bool {
    &&& cells.len() == n * n
    &&& forall|i: int|
        0 <= i < cells.len() ==> #[trigger] cells[i].x == i / n && cells[i].y == i % n
}

/// The table position of an on-grid pair lies inside the table.
pub proof fn lemma_cell_index_bounds(n: int, x: int, y: int)
    requires
        0 <= x < n,
        0 <= y < n,
    ensures
        0 <= cell_index(n, x, y) < n * n,
{
    assert(0 <= x * n + y < n * n) by (nonlinear_arith)
        requires
            0 <= x < n,
            0 <= y < n,
    ;
}

/// Two on-grid pairs share a table position only when they are equal.
pub proof fn lemma_cell_index_injective(n: int, x1: int, y1: int, x2: int, y2: int)
    requires
        0 <= x1 < n,
        0 <= y1 < n,
        0 <= x2 < n,
        0 <= y2 < n,
        cell_index(n, x1, y1) == cell_index(n, x2, y2),
    ensures
        x1 == x2,
        y1 == y2,
{
    assert(x1 == x2) by (nonlinear_arith)
        requires
            0 <= y1 < n,
            0 <= y2 < n,
            x1 * n + y1 == x2 * n + y2,
    ;
}

/// Every cell of a full grid lies on the grid.
pub proof fn lemma_full_grid_in_bounds(cells: Seq<GridCell>, n: int)
    requires
        0 <= n,
        is_full_grid(cells, n),
    ensures
        cells_in_bounds(cells, n),
{
    assert forall|i: int| 0 <= i < cells.len() implies #[trigger] cells[i].x < n && cells[i].y < n by {
        let c = cells[i];
        assert(c.x == i / n);
        lemma_full_position(n, i);
    }
}

/// The coordinates `(i / n, i % n)` of a position of a full grid lie on it.
pub proof fn lemma_full_position(n: int, i: int)
    requires
        0 <= n,
        0 <= i < n * n,
    ensures
        0 <= i / n < n,
        0 <= i % n < n,
{
    assert(n > 0) by (nonlinear_arith)
        requires
            0 <= n,
            0 <= i < n * n,
    ;
    lemma_div_pos_is_pos(i, n);
    lemma_multiply_divide_lt(i, n, n);
}

} // verus!
