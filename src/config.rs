use vstd::prelude::*;

verus! {

/// The rule configuration read by every generation.
///
/// `update_interval_ns` is the time between two generations, in nanoseconds.
#[derive(Clone, Copy, Debug, PartialEq, Eq, Structural)]
pub struct GameConfig {
    pub grid_num: usize,
    pub max_life: usize,
    pub damage_amount: usize,
    pub heal_amount: usize,
    /// Live cells whose neighbour count lies in this range are not damaged.
    pub survive_neighbors_min: usize,
    pub survive_neighbors_max: usize,
    /// Dead cells whose neighbour count lies in this range are born.
    pub birth_neighbors_min: usize,
    pub birth_neighbors_max: usize,
    pub update_interval_ns: u64,
}

/// Half a second, the default time between two generations.
pub const DEFAULT_UPDATE_INTERVAL_NS: u64 = 500_000_000;

impl GameConfig {
    /// Whether `n` lies in the survival range.
    pub open spec fn survives(self, n: int) -> bool {
        self.survive_neighbors_min <= n <= self.survive_neighbors_max
    }

    /// Whether `n` lies in the birth range.
    pub open spec fn births(self, n: int) -> bool {
        self.birth_neighbors_min <= n <= self.birth_neighbors_max
    }
}

impl Default for GameConfig {
    /// A 100 by 100 grid under the classic B3/S23 rule, with two life levels.
    fn default() -> (r: Self)
        ensures
            r == (GameConfig {
                grid_num: 100,
                max_life: 2,
                damage_amount: 1,
                heal_amount: 1,
                survive_neighbors_min: 2,
                survive_neighbors_max: 3,
                birth_neighbors_min: 3,
                birth_neighbors_max: 3,
                update_interval_ns: DEFAULT_UPDATE_INTERVAL_NS,
            }),
    {
        GameConfig {
            grid_num: 100,
            max_life: 2,
            damage_amount: 1,
            heal_amount: 1,
            survive_neighbors_min: 2,
            survive_neighbors_max: 3,
            birth_neighbors_min: 3,
            birth_neighbors_max: 3,
            update_interval_ns: DEFAULT_UPDATE_INTERVAL_NS,
        }
    }
}

} // verus!
