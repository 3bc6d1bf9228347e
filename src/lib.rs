//! A generalized cellular automaton on a square grid: each cell holds an
//! integer life level that rises or falls every generation according to how
//! many live neighbours it has.

pub mod config;
pub mod engine;
pub mod grid;
pub mod controls;
pub mod neighbors;
pub mod rules;
pub mod seeding;
pub mod timer;

pub use config::GameConfig;
pub use engine::{apply_generation, grid_fits_config, next_generation, update_grid};
pub use grid::{GridCell, InGameScene};
pub use controls::{
    handle_button_interaction, handle_main_menu_actions, BottomButtons, ButtonInteraction,
    InGameRequest, InGameState, MainMenu, MainMenuAction, MainMenuScene,
};
pub use neighbors::count_neighbors;
pub use rules::next_life;
pub use seeding::{random_grid, seed_grid};
pub use timer::{update_game_timer, GameUpdateTimer, RepeatingTimer};
