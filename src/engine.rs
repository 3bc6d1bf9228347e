use vstd::prelude::*;
use crate::config::GameConfig;
use crate::grid::{cell_index, cells_in_bounds, is_full_grid, lemma_cell_index_bounds, GridCell};
use crate::neighbors::{count_neighbors, neighbor_count};
use crate::rules::{next_life, next_life_spec};
use crate::timer::GameUpdateTimer;

verus! {

/// The next life of the cell at position `i`, computed from the whole
/// current generation.
pub open spec fn next_life_at(cells: Seq<GridCell>, config: GameConfig, i: int) -> int {
    next_life_spec(
        cells[i].life as int,
        neighbor_count(cells, config.grid_num as int, cells[i].x as int, cells[i].y as int) as int,
        config,
    )
}

/// The life values of the next generation, in the order of the cells.
pub open spec fn next_lives_spec(cells: Seq<GridCell>, config: GameConfig) -> Seq<usize> {
    Seq::new(cells.len(), |i: int| next_life_at(cells, config, i) as usize)
}

/// `cells` with the life of each replaced by the value at the same position
/// of `lives`.
pub open spec fn with_lives(cells: Seq<GridCell>, lives: Seq<usize>) -> Seq<GridCell> {
    Seq::new(cells.len(), |i: int| GridCell { x: cells[i].x, y: cells[i].y, life: lives[i] })
}

/// The grid one generation later.
pub open spec fn next_generation_spec(cells: Seq<GridCell>, config: GameConfig) -> Seq<GridCell> {
    with_lives(cells, next_lives_spec(cells, config))
}

/// The engine can run on `cells` under `config`: every cell lies on the
/// configured grid, and the dense table of counts fits in memory.
pub open spec fn engine_ready(cells: Seq<GridCell>, config: GameConfig) -> bool {
    &&& config.grid_num * config.grid_num <= usize::MAX
    &&& cells_in_bounds(cells, config.grid_num as int)
}

/// Tells whether the engine can run on `cells` under `config`.
pub fn grid_fits_config(cells: &Vec<GridCell>, config: &GameConfig) -> (r: bool)
    ensures
        r == engine_ready(cells@, *config),
{
    let n = config.grid_num;
    if n.checked_mul(n).is_none() {
        return false;
    }
    let mut i: usize = 0;
    while i < cells.len()
        invariant
            n == config.grid_num,
            i <= cells.len(),
            forall|j: int| 0 <= j < i ==> #[trigger] cells[j].x < n && cells[j].y < n,
        decreases cells.len() - i,
    {
        if cells[i].x >= n || cells[i].y >= n {
            return false;
        }
        i = i + 1;
    }
    true
}

/// Computes the life of every cell in the next generation, in the order of
/// the cells, from the current generation alone.
pub fn next_generation(cells: &Vec<GridCell>, config: &GameConfig) -> (lives: Vec<usize>)
    requires
        engine_ready(cells@, *config),
    ensures
        lives@ == next_lives_spec(cells@, *config),
{
    let n = config.grid_num;
    let counts = count_neighbors(cells, n);
    let mut lives: Vec<usize> = Vec::new();
    let mut i: usize = 0;
    while i < cells.len()
        invariant
            n == config.grid_num,
            engine_ready(cells@, *config),
            counts.len() == n * n,
            forall|x: int, y: int|
                0 <= x < n && 0 <= y < n ==> #[trigger] counts[cell_index(n as int, x, y)]
                    == neighbor_count(cells@, n as int, x, y),
            i <= cells.len(),
            lives.len() == i,
            forall|j: int| 0 <= j < i ==> lives[j] == next_life_at(cells@, *config, j),
        decreases cells.len() - i,
    {
        let c = cells[i];
        proof {
            lemma_cell_index_bounds(n as int, c.x as int, c.y as int);
        }
        let neighbors = counts[c.x * n + c.y];
        let life = next_life(c.life, neighbors, config);
        lives.push(life);
        i = i + 1;
    }
    assert(lives@ == next_lives_spec(cells@, *config));
    lives
}

/// Overwrites the life of every cell with the value at the same position of
/// `lives`; the coordinates stay as they are.
pub fn apply_generation(cells: &mut Vec<GridCell>, lives: &Vec<usize>)
    requires
        old(cells).len() == lives.len(),
    ensures
        final(cells)@ == with_lives(old(cells)@, lives@),
{
    let mut i: usize = 0;
    while i < cells.len()
        invariant
            cells.len() == lives.len(),
            cells.len() == old(cells).len(),
            i <= cells.len(),
            forall|j: int|
                0 <= j < i ==> #[trigger] cells[j] == (GridCell {
                    x: old(cells)[j].x,
                    y: old(cells)[j].y,
                    life: lives[j],
                }),
            forall|j: int| i <= j < cells.len() ==> #[trigger] cells[j] == old(cells)[j],
        decreases cells.len() - i,
    {
        let c = cells[i];
        cells.set(i, GridCell { x: c.x, y: c.y, life: lives[i] });
        i = i + 1;
    }
    assert(cells@ == with_lives(old(cells)@, lives@));
}

/// Runs one generation when the update timer finished during the last
/// frame, and leaves the grid as it is otherwise.
pub fn update_grid(cells: &mut Vec<GridCell>, config: &GameConfig, timer: &GameUpdateTimer)
    requires
        engine_ready(old(cells)@, *config),
    ensures
        timer.timer.finished ==> final(cells)@ == next_generation_spec(old(cells)@, *config),
        !timer.timer.finished ==> final(cells)@ == old(cells)@,
{
    if !timer.timer.finished() {
        return;
    }
    let lives = next_generation(cells, config);
    apply_generation(cells, &lives);
}

/// After a generation every life lies in `[0, max_life]`.
pub proof fn lemma_generation_life_bounded(cells: Seq<GridCell>, config: GameConfig)
    ensures
        forall|i: int|
            0 <= i < cells.len() ==> #[trigger] next_generation_spec(cells, config)[i].life
                <= config.max_life,
{
}

/// A generation creates and destroys no cell and moves none: the cells keep
/// their number, order and coordinates, and a full grid stays a full grid.
pub proof fn lemma_generation_keeps_coordinates(cells: Seq<GridCell>, config: GameConfig)
    ensures
        next_generation_spec(cells, config).len() == cells.len(),
        forall|i: int|
            0 <= i < cells.len() ==> #[trigger] next_generation_spec(cells, config)[i].x
                == cells[i].x && next_generation_spec(cells, config)[i].y == cells[i].y,
        is_full_grid(cells, config.grid_num as int) ==> is_full_grid(
            next_generation_spec(cells, config),
            config.grid_num as int,
        ),
{
}

/// A generation depends on nothing but the grid and the configuration: two
/// runs on the same snapshot and configuration give the same grid.
pub proof fn lemma_generation_deterministic(
    a: Seq<GridCell>,
    b: Seq<GridCell>,
    config_a: GameConfig,
    config_b: GameConfig,
)
    requires
        a == b,
        config_a == config_b,
    ensures
        next_generation_spec(a, config_a) == next_generation_spec(b, config_b),
{
}

} // verus!
