use vstd::prelude::*;
use rand::Rng;
use crate::grid::{cells_in_bounds, is_full_grid, lemma_full_grid_in_bounds, lemma_full_position, GridCell};

verus! {

/// At most this many cells are seeded alive when a simulation starts.
pub const INITIAL_ALIVE_COUNT: usize = 10000;

/// Each cell is seeded alive with chance `SEED_NUMERATOR / SEED_DENOMINATOR`.
pub const SEED_NUMERATOR: u32 = 1;

pub const SEED_DENOMINATOR: u32 = 10;

/// The number of `true` values in `d`.
pub open spec fn count_true(d: Seq<bool>) -> nat
    decreases d.len(),
{
    if d.len() == 0 {
        0
    } else {
        count_true(d.drop_last()) + if d.last() {
            1nat
        } else {
            0nat
        }
    }
}

/// The starting life of the cell at position `i`: full life where its draw
/// came up and fewer than `seed_count` earlier draws did, 0 elsewhere.
pub open spec fn seeded_life(draws: Seq<bool>, seed_count: int, max_life: int, i: int) -> int {
    if draws[i] && count_true(draws.take(i)) < seed_count {
        max_life
    } else {
        0
    }
}

/// The starting grid with `n` cells to a side, in row-major order, seeded by
/// one draw per cell.
pub open spec fn seeded_grid(n: int, max_life: int, seed_count: int, draws: Seq<bool>) -> Seq<
    GridCell,
> {
    Seq::new(
        (n * n) as nat,
        |i: int|
            GridCell {
                x: (i / n) as usize,
                y: (i % n) as usize,
                life: seeded_life(draws, seed_count, max_life, i) as usize,
            },
    )
}

/// Builds the starting grid with `grid_num` cells to a side. The cell at
/// position `i` takes the draw `draws[i]`: it starts at `max_life` where the
/// draw came up and fewer than `seed_count` cells were seeded before it, and
/// at 0 elsewhere.
pub fn seed_grid(grid_num: usize, max_life: usize, seed_count: usize, draws: &Vec<bool>) -> (cells:
    Vec<GridCell>)
    requires
        draws.len() == grid_num * grid_num,
    ensures
        cells@ == seeded_grid(grid_num as int, max_life as int, seed_count as int, draws@),
        is_full_grid(cells@, grid_num as int),
        cells_in_bounds(cells@, grid_num as int),
{
    let n = grid_num;
    let total = draws.len();
    let mut cells: Vec<GridCell> = Vec::new();
    let mut alive_count: usize = 0;
    let mut i: usize = 0;
    while i < total
        invariant
            total == draws.len(),
            total == n * n,
            i <= total,
            cells.len() == i,
            alive_count <= seed_count,
            alive_count == (if count_true(draws@.take(i as int)) < seed_count {
                count_true(draws@.take(i as int))
            } else {
                seed_count as nat
            }),
            forall|j: int|
                0 <= j < i ==> #[trigger] cells[j] == seeded_grid(
                    n as int,
                    max_life as int,
                    seed_count as int,
                    draws@,
                )[j],
        decreases total - i,
    {
        proof {
            lemma_full_position(n as int, i as int);
            assert(draws@.take(i + 1).drop_last() == draws@.take(i as int));
        }
        let life = if alive_count < seed_count && draws[i] {
            alive_count = alive_count + 1;
            max_life
        } else {
            0
        };
        cells.push(GridCell { x: i / n, y: i % n, life });
        i = i + 1;
    }
    assert(cells@ == seeded_grid(n as int, max_life as int, seed_count as int, draws@));
    proof {
        lemma_full_grid_in_bounds(cells@, n as int);
    }
    cells
}

/// Relies on rand's `thread_rng` and `Rng::gen_ratio`: true with chance
/// `numerator / denominator`, always false when `numerator` is 0 and always
/// true when the two are equal. It panics when `denominator` is 0 or below
/// `numerator`.
#[verifier::external_body]
fn draw_ratio(numerator: u32, denominator: u32) -> (r: bool)
    requires
        0 < denominator,
        numerator <= denominator,
    ensures
        numerator == 0 ==> !r,
        numerator == denominator ==> r,
{
    rand::thread_rng().gen_ratio(numerator, denominator)
}

/// Builds a starting grid with `grid_num` cells to a side, seeding at most
/// `seed_count` of them alive at random: each cell is drawn with chance
/// `SEED_NUMERATOR / SEED_DENOMINATOR`, in row-major order, until
/// `seed_count` cells are alive.
pub fn random_grid(grid_num: usize, max_life: usize, seed_count: usize) -> (cells: Vec<GridCell>)
    requires
        grid_num * grid_num <= usize::MAX,
    ensures
        is_full_grid(cells@, grid_num as int),
        cells_in_bounds(cells@, grid_num as int),
        exists|draws: Seq<bool>|
            draws.len() == grid_num * grid_num && cells@ == seeded_grid(
                grid_num as int,
                max_life as int,
                seed_count as int,
                draws,
            ),
{
    let total = grid_num * grid_num;
    let mut draws: Vec<bool> = Vec::new();
    let mut i: usize = 0;
    while i < total
        invariant
            i <= total,
            draws.len() == i,
        decreases total - i,
    {
        draws.push(draw_ratio(SEED_NUMERATOR, SEED_DENOMINATOR));
        i = i + 1;
    }
    let cells = seed_grid(grid_num, max_life, seed_count, &draws);
    assert(draws@.len() == grid_num * grid_num && cells@ == seeded_grid(
        grid_num as int,
        max_life as int,
        seed_count as int,
        draws@,
    ));
    cells
}

/// The number of live cells of `cells`.
pub open spec fn live_count(cells: Seq<GridCell>) -> nat
    decreases cells.len(),
{
    if cells.len() == 0 {
        0
    } else {
        live_count(cells.drop_last()) + if cells.last().life > 0 {
            1nat
        } else {
            0nat
        }
    }
}

/// A starting grid has at most `seed_count` live cells, whatever the draws.
pub proof fn lemma_seeded_grid_respects_cap(
    n: usize,
    max_life: usize,
    seed_count: usize,
    draws: Seq<bool>,
)
    requires
        draws.len() == n * n,
    ensures
        live_count(seeded_grid(n as int, max_life as int, seed_count as int, draws))
            <= seed_count,
{
    let g = seeded_grid(n as int, max_life as int, seed_count as int, draws);
    lemma_seeded_prefix(n as int, max_life as int, seed_count as int, draws, g.len() as int);
    assert(g.take(g.len() as int) == g);
}

/// Over the first `k` cells of a starting grid, the live cells number no more
/// than the draws that came up, nor than the cap.
proof fn lemma_seeded_prefix(n: int, max_life: int, seed_count: int, draws: Seq<bool>, k: int)
    requires
        0 <= n,
        0 <= seed_count,
        draws.len() == n * n,
        0 <= k <= n * n,
    ensures
        live_count(seeded_grid(n, max_life, seed_count, draws).take(k)) <= count_true(
            draws.take(k),
        ),
        live_count(seeded_grid(n, max_life, seed_count, draws).take(k)) <= seed_count,
    decreases k,
{
    let g = seeded_grid(n, max_life, seed_count, draws);
    if k > 0 {
        lemma_seeded_prefix(n, max_life, seed_count, draws, k - 1);
        assert(g.take(k).drop_last() == g.take(k - 1));
        assert(draws.take(k).drop_last() == draws.take(k - 1));
        if g[k - 1].life > 0 {
            assert(draws[k - 1] && count_true(draws.take(k - 1)) < seed_count);
        }
    }
}

} // verus!
