use vstd::prelude::*;
use crate::config::GameConfig;

verus! {

/// `a - b`, or 0 where that would be negative.
pub open spec fn sat_sub(a: int, b: int) -> int {
    if a >= b { a - b } else { 0 }
}

/// `a + b`, or `usize::MAX` where that would not fit.
pub open spec fn sat_add(a: int, b: int) -> int {
    if a + b <= usize::MAX { a + b } else { usize::MAX as int }
}

/// `v` brought into `[0, hi]`.
pub open spec fn clamp_to(v: int, hi: int) -> int {
    if v > hi { hi } else { v }
}

/// The life of a cell in the next generation, given its life now and the
/// number of its live neighbours.
///
/// A live cell outside the survival range is damaged; a live cell inside it
/// is healed when the count also lies in the birth range, and otherwise
/// keeps its life. A dead cell is born at full life when the count lies in
/// the birth range. The result is clamped to `max_life`.
pub open spec fn next_life_spec(life: int, n: int, config: GameConfig) -> int {
    let raw = if life > 0 {
        if !config.survives(n) {
            sat_sub(life, config.damage_amount as int)
        } else if config.births(n) {
            sat_add(life, config.heal_amount as int)
        } else {
            life
        }
    } else if config.births(n) {
        config.max_life as int
    } else {
        0
    };
    clamp_to(raw, config.max_life as int)
}

/// Computes the next life of one cell from its current life and its number
/// of live neighbours.
pub fn next_life(life: usize, neighbors: usize, config: &GameConfig) -> (r: usize)
    ensures
        r == next_life_spec(life as int, neighbors as int, *config),
        r <= config.max_life,
{
    let mut next = life;
    if life > 0 {
        if neighbors < config.survive_neighbors_min || neighbors > config.survive_neighbors_max {
            next = life.saturating_sub(config.damage_amount);
        } else if neighbors >= config.birth_neighbors_min && neighbors <= config.birth_neighbors_max {
            next = life.saturating_add(config.heal_amount);
        }
    } else if neighbors >= config.birth_neighbors_min && neighbors <= config.birth_neighbors_max {
        next = config.max_life;
    }
    if next > config.max_life {
        next = config.max_life;
    }
    next
}

} // verus!
