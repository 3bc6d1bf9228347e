use vstd::prelude::*;

verus! {

/// Marks what belongs to the main menu screen.
#[derive(Clone, Copy, Debug, PartialEq, Eq, Structural)]
pub struct MainMenuScene;

/// Marks the block of main menu buttons.
#[derive(Clone, Copy, Debug, PartialEq, Eq, Structural)]
pub struct MainMenu;

/// What a main menu button does.
#[derive(Clone, Copy, Debug, PartialEq, Eq, Structural)]
pub enum MainMenuAction {
    NewGame,
    Exit,
}

/// The state of a button in the current frame.
#[derive(Clone, Copy, Debug, PartialEq, Eq, Structural)]
pub enum ButtonInteraction {
    Pressed,
    Hovered,
    Idle,
}

impl MainMenuAction {
    /// The text shown on the button.
    pub fn label(&self) -> (r: &'static str)
        ensures
            *self == MainMenuAction::NewGame ==> r@ == "Start New Game"@,
            *self == MainMenuAction::Exit ==> r@ == "Exit Game"@,
    {
        match self {
            MainMenuAction::NewGame => "Start New Game",
            MainMenuAction::Exit => "Exit Game",
        }
    }
}

/// The actions of the pressed buttons among `buttons`, in order.
pub open spec fn pressed_actions(buttons: Seq<(ButtonInteraction, MainMenuAction)>) -> Seq<
    MainMenuAction,
>
    decreases buttons.len(),
{
    if buttons.len() == 0 {
        Seq::empty()
    } else {
        let rest = pressed_actions(buttons.drop_last());
        if buttons.last().0 == ButtonInteraction::Pressed {
            rest.push(buttons.last().1)
        } else {
            rest
        }
    }
}

/// Picks the actions to carry out this frame: the action of every pressed
/// menu button, in the order of the buttons.
pub fn handle_main_menu_actions(buttons: &Vec<(ButtonInteraction, MainMenuAction)>) -> (actions:
    Vec<MainMenuAction>)
    ensures
        actions@ == pressed_actions(buttons@),
{
    let mut actions: Vec<MainMenuAction> = Vec::new();
    let mut i: usize = 0;
    while i < buttons.len()
        invariant
            i <= buttons.len(),
            actions@ == pressed_actions(buttons@.take(i as int)),
        decreases buttons.len() - i,
    {
        proof {
            assert(buttons@.take(i + 1).drop_last() == buttons@.take(i as int));
        }
        let (interaction, action) = buttons[i];
        if interaction == ButtonInteraction::Pressed {
            actions.push(action);
        }
        i = i + 1;
    }
    assert(buttons@.take(buttons.len() as int) == buttons@);
    actions
}

/// Whether the generations are running.
#[derive(Clone, Copy, Debug, PartialEq, Eq, Structural)]
pub enum InGameState {
    Stop,
    Processing,
}

impl Default for InGameState {
    /// A simulation opens halted.
    fn default() -> (r: Self)
        ensures
            r == InGameState::Stop,
    {
        InGameState::Stop
    }
}

/// The buttons shown below the grid while a simulation is open.
#[derive(Clone, Copy, Debug, PartialEq, Eq, Structural)]
pub enum BottomButtons {
    Start,
    Stop,
    Exit,
}

/// What the simulation screen is asked to do.
#[derive(Clone, Copy, Debug, PartialEq, Eq, Structural)]
pub enum InGameRequest {
    /// Switch the run state.
    SetRunState(InGameState),
    /// Close the simulation and go back to the main menu.
    ToMainMenu,
}

/// The request that a button of the simulation screen makes in a frame:
/// only a pressed button makes one. Start runs the generations, Stop halts
/// them, Exit goes back to the main menu.
pub open spec fn button_request_spec(interaction: ButtonInteraction, button: BottomButtons) -> Option<
    InGameRequest,
> {
    if interaction != ButtonInteraction::Pressed {
        None
    } else {
        match button {
            BottomButtons::Start => Some(InGameRequest::SetRunState(InGameState::Processing)),
            BottomButtons::Stop => Some(InGameRequest::SetRunState(InGameState::Stop)),
            BottomButtons::Exit => Some(InGameRequest::ToMainMenu),
        }
    }
}

/// Decides what a button of the simulation screen asks for in this frame.
pub fn handle_button_interaction(interaction: ButtonInteraction, button: BottomButtons) -> (r:
    Option<InGameRequest>)
    ensures
        r == button_request_spec(interaction, button),
{
    match interaction {
        ButtonInteraction::Pressed => match button {
            BottomButtons::Start => Some(InGameRequest::SetRunState(InGameState::Processing)),
            BottomButtons::Stop => Some(InGameRequest::SetRunState(InGameState::Stop)),
            BottomButtons::Exit => Some(InGameRequest::ToMainMenu),
        },
        _ => None,
    }
}

} // verus!
