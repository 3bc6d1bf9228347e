use double_life::seeding::{INITIAL_ALIVE_COUNT, SEED_DENOMINATOR, SEED_NUMERATOR};
use double_life::{
    handle_button_interaction, BottomButtons, InGameRequest, InGameState,
    handle_main_menu_actions, random_grid, seed_grid, ButtonInteraction, GameConfig,
    MainMenuAction,
};

#[test]
fn seed_grid_lays_out_rows_and_caps_seeds() {
    let draws = vec![true, false, true, true, false, true, true, true, true];
    let cells = seed_grid(3, 5, 3, &draws);
    let coords: Vec<(usize, usize)> = cells.iter().map(|c| (c.x, c.y)).collect();
    assert_eq!(
        coords,
        vec![(0, 0), (0, 1), (0, 2), (1, 0), (1, 1), (1, 2), (2, 0), (2, 1), (2, 2)]
    );
    let lives: Vec<usize> = cells.iter().map(|c| c.life).collect();
    assert_eq!(lives, vec![5, 0, 5, 5, 0, 0, 0, 0, 0]);
}

#[test]
fn seed_grid_with_zero_cap_seeds_nothing() {
    let cells = seed_grid(2, 5, 0, &vec![true; 4]);
    assert!(cells.iter().all(|c| c.life == 0));
}

#[test]
fn random_grid_seeds_about_one_cell_in_ten() {
    let config = GameConfig::default();
    assert_eq!((SEED_NUMERATOR, SEED_DENOMINATOR), (1, 10));
    let cells = random_grid(config.grid_num, config.max_life, INITIAL_ALIVE_COUNT);
    assert_eq!(cells.len(), 10000);
    assert!(cells.iter().all(|c| c.life == 0 || c.life == config.max_life));
    let alive = cells.iter().filter(|c| c.life > 0).count();
    assert!(alive > 700 && alive < 1300, "alive = {}", alive);
    for (i, c) in cells.iter().enumerate() {
        assert_eq!((c.x, c.y), (i / 100, i % 100));
    }
}

#[test]
fn random_grid_respects_the_cap() {
    let cells = random_grid(40, 2, 5);
    assert!(cells.iter().filter(|c| c.life > 0).count() <= 5);
}

#[test]
fn menu_labels() {
    assert_eq!(MainMenuAction::NewGame.label(), "Start New Game");
    assert_eq!(MainMenuAction::Exit.label(), "Exit Game");
}

#[test]
fn only_pressed_buttons_act() {
    let buttons = vec![
        (ButtonInteraction::Hovered, MainMenuAction::NewGame),
        (ButtonInteraction::Pressed, MainMenuAction::Exit),
        (ButtonInteraction::Idle, MainMenuAction::NewGame),
    ];
    assert_eq!(handle_main_menu_actions(&buttons), vec![MainMenuAction::Exit]);
    let buttons = vec![
        (ButtonInteraction::Pressed, MainMenuAction::NewGame),
        (ButtonInteraction::Pressed, MainMenuAction::Exit),
    ];
    assert_eq!(
        handle_main_menu_actions(&buttons),
        vec![MainMenuAction::NewGame, MainMenuAction::Exit]
    );
    assert!(handle_main_menu_actions(&vec![]).is_empty());
}

#[test]
fn bottom_buttons_switch_run_state_or_leave() {
    assert_eq!(
        handle_button_interaction(ButtonInteraction::Pressed, BottomButtons::Start),
        Some(InGameRequest::SetRunState(InGameState::Processing))
    );
    assert_eq!(
        handle_button_interaction(ButtonInteraction::Pressed, BottomButtons::Stop),
        Some(InGameRequest::SetRunState(InGameState::Stop))
    );
    assert_eq!(
        handle_button_interaction(ButtonInteraction::Pressed, BottomButtons::Exit),
        Some(InGameRequest::ToMainMenu)
    );
    assert_eq!(handle_button_interaction(ButtonInteraction::Hovered, BottomButtons::Start), None);
    assert_eq!(handle_button_interaction(ButtonInteraction::Idle, BottomButtons::Exit), None);
}

#[test]
fn simulation_opens_halted() {
    assert_eq!(InGameState::default(), InGameState::Stop);
}
