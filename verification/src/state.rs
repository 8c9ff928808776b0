//! The game's flow states and the small decisions that move between them:
//! what each menu button does, what the gameplay keyboard shortcuts do, and
//! the visual feedback a button shows for each interaction state.

use vstd::prelude::*;
use crate::node::Rgb;

verus! {

/// The global flow states that choose which per-frame logic runs.
#[derive(Clone, Copy, Debug, PartialEq, Eq, Hash, Structural)]
pub enum GameState {
    MainMenu,
    LoadingLevel,
    Playing,
    LevelComplete,
    GameOver,
    GameWon,
}

impl Default for GameState {
    /// The game opens on the main menu.
    fn default() -> (s: Self)
        ensures
            s is MainMenu,
    {
        GameState::MainMenu
    }
}

/// A button's interaction state, as the UI layer reports it each frame.
#[derive(Clone, Copy, Debug, PartialEq, Eq, Structural)]
pub enum Interaction {
    Pressed,
    Hovered,
    Idle,
}

/// What a main-menu button does.
#[derive(Clone, Copy, Debug, PartialEq, Eq, Structural)]
pub enum MenuButtonAction {
    Play,
    Quit,
}

/// What a level-complete-screen button does.
#[derive(Clone, Copy, Debug, PartialEq, Eq, Structural)]
pub enum GameButtonAction {
    NextLevel,
    RestartLevel,
    BackToMenu,
}

/// An order from the menu logic to the shell around the game.
#[derive(Clone, Copy, Debug, PartialEq, Eq, Structural)]
pub enum ShellCommand {
    Goto(GameState),
    ExitApp,
}

/// A button's visual feedback: background fill and border color.
#[derive(Clone, Copy, Debug, PartialEq, Eq, Structural)]
pub struct ButtonVisual {
    pub background: Rgb,
    pub border: Rgb,
}

/// The feedback colors shared by the plain menu buttons: green-lit when
/// pressed, a lighter fill and white border under the cursor, dark at rest.
pub open spec fn menu_button_visual_spec(interaction: Interaction) -> ButtonVisual {
    match interaction {
        Interaction::Pressed => ButtonVisual {
            background: Rgb { r: 89, g: 191, b: 89 },
            border: Rgb { r: 255, g: 255, b: 255 },
        },
        Interaction::Hovered => ButtonVisual {
            background: Rgb { r: 64, g: 64, b: 64 },
            border: Rgb { r: 255, g: 255, b: 255 },
        },
        Interaction::Idle => ButtonVisual {
            background: Rgb { r: 38, g: 38, b: 38 },
            border: Rgb { r: 0, g: 0, b: 0 },
        },
    }
}

/// Visual feedback for the start and main-menu buttons.
pub fn menu_button_visual(interaction: Interaction) -> (v: ButtonVisual)
    ensures
        v == menu_button_visual_spec(interaction),
{
    match interaction {
        Interaction::Pressed => ButtonVisual {
            background: Rgb { r: 89, g: 191, b: 89 },
            border: Rgb { r: 255, g: 255, b: 255 },
        },
        Interaction::Hovered => ButtonVisual {
            background: Rgb { r: 64, g: 64, b: 64 },
            border: Rgb { r: 255, g: 255, b: 255 },
        },
        Interaction::Idle => ButtonVisual {
            background: Rgb { r: 38, g: 38, b: 38 },
            border: Rgb { r: 0, g: 0, b: 0 },
        },
    }
}

/// What pressing the start button on the main menu does: nothing until the
/// press, then a transition into level loading.
pub fn start_button_action(interaction: Interaction) -> (r: Option<GameState>)
    ensures
        r == if interaction is Pressed {
            Some(GameState::LoadingLevel)
        } else {
            None::<GameState>
        },
{
    match interaction {
        Interaction::Pressed => Some(GameState::LoadingLevel),
        _ => None,
    }
}

/// What pressing a main-menu button on an end-of-level screen does: a press
/// returns to the main menu.
pub fn back_to_menu_button_action(interaction: Interaction) -> (r: Option<GameState>)
    ensures
        r == if interaction is Pressed {
            Some(GameState::MainMenu)
        } else {
            None::<GameState>
        },
{
    match interaction {
        Interaction::Pressed => Some(GameState::MainMenu),
        _ => None,
    }
}

/// The shell command a pressed main-menu button issues: playing enters
/// level loading, quitting exits the application.
pub open spec fn menu_button_command_spec(
    interaction: Interaction,
    action: MenuButtonAction,
) -> Option<ShellCommand> {
    if interaction is Pressed {
        match action {
            MenuButtonAction::Play => Some(ShellCommand::Goto(GameState::LoadingLevel)),
            MenuButtonAction::Quit => Some(ShellCommand::ExitApp),
        }
    } else {
        None
    }
}

/// Decides what a main-menu button press does.
pub fn menu_button_command(interaction: Interaction, action: MenuButtonAction) -> (r: Option<
    ShellCommand,
>)
    ensures
        r == menu_button_command_spec(interaction, action),
{
    match interaction {
        Interaction::Pressed => match action {
            MenuButtonAction::Play => Some(ShellCommand::Goto(GameState::LoadingLevel)),
            MenuButtonAction::Quit => Some(ShellCommand::ExitApp),
        },
        _ => None,
    }
}

/// The feedback colors of the level-complete screen's buttons: each button
/// keeps its own palette and lights up with a white border under the
/// cursor; a press changes no color, and the unwired restart button shows
/// no feedback.
pub open spec fn level_complete_button_visual_spec(
    interaction: Interaction,
    action: GameButtonAction,
) -> Option<ButtonVisual> {
    match (interaction, action) {
        (Interaction::Hovered, GameButtonAction::NextLevel) => Some(
            ButtonVisual {
                background: Rgb { r: 77, g: 77, b: 179 },
                border: Rgb { r: 255, g: 255, b: 255 },
            },
        ),
        (Interaction::Hovered, GameButtonAction::BackToMenu) => Some(
            ButtonVisual {
                background: Rgb { r: 179, g: 77, b: 77 },
                border: Rgb { r: 255, g: 255, b: 255 },
            },
        ),
        (Interaction::Idle, GameButtonAction::NextLevel) => Some(
            ButtonVisual {
                background: Rgb { r: 51, g: 51, b: 153 },
                border: Rgb { r: 77, g: 77, b: 179 },
            },
        ),
        (Interaction::Idle, GameButtonAction::BackToMenu) => Some(
            ButtonVisual {
                background: Rgb { r: 153, g: 51, b: 51 },
                border: Rgb { r: 179, g: 77, b: 77 },
            },
        ),
        _ => None,
    }
}

/// Visual feedback for one level-complete-screen button this frame.
pub fn level_complete_button_visual(interaction: Interaction, action: GameButtonAction) -> (v:
    Option<ButtonVisual>)
    ensures
        v == level_complete_button_visual_spec(interaction, action),
{
    match (interaction, action) {
        (Interaction::Hovered, GameButtonAction::NextLevel) => Some(
            ButtonVisual {
                background: Rgb { r: 77, g: 77, b: 179 },
                border: Rgb { r: 255, g: 255, b: 255 },
            },
        ),
        (Interaction::Hovered, GameButtonAction::BackToMenu) => Some(
            ButtonVisual {
                background: Rgb { r: 179, g: 77, b: 77 },
                border: Rgb { r: 255, g: 255, b: 255 },
            },
        ),
        (Interaction::Idle, GameButtonAction::NextLevel) => Some(
            ButtonVisual {
                background: Rgb { r: 51, g: 51, b: 153 },
                border: Rgb { r: 77, g: 77, b: 179 },
            },
        ),
        (Interaction::Idle, GameButtonAction::BackToMenu) => Some(
            ButtonVisual {
                background: Rgb { r: 153, g: 51, b: 51 },
                border: Rgb { r: 179, g: 77, b: 77 },
            },
        ),
        _ => None,
    }
}

/// The gameplay keyboard shortcuts.
#[derive(Clone, Copy, Debug, PartialEq, Eq, Structural)]
pub enum GameKey {
    KeyM,
    KeyR,
    KeyN,
    Space,
}

/// What a gameplay keystroke orders.
#[derive(Clone, Copy, Debug, PartialEq, Eq, Structural)]
pub enum KeyCommand {
    Goto(GameState),
    SignalPuzzleComplete,
}

/// The gameplay shortcuts: M returns to the menu, R reloads the level,
/// N skips ahead only while a later level exists, and space signals the
/// puzzle as complete.
pub open spec fn gameplay_key_action_spec(
    key: GameKey,
    level_id: usize,
    total_levels: usize,
) -> Option<KeyCommand> {
    match key {
        GameKey::KeyM => Some(KeyCommand::Goto(GameState::MainMenu)),
        GameKey::KeyR => Some(KeyCommand::Goto(GameState::LoadingLevel)),
        GameKey::KeyN => if level_id < total_levels - 1 {
            Some(KeyCommand::Goto(GameState::LevelComplete))
        } else {
            None
        },
        GameKey::Space => Some(KeyCommand::SignalPuzzleComplete),
    }
}

/// Decides what one gameplay keystroke does.
pub fn gameplay_key_action(key: GameKey, level_id: usize, total_levels: usize) -> (r: Option<
    KeyCommand,
>)
    requires
        total_levels >= 1,
    ensures
        r == gameplay_key_action_spec(key, level_id, total_levels),
{
    match key {
        GameKey::KeyM => Some(KeyCommand::Goto(GameState::MainMenu)),
        GameKey::KeyR => Some(KeyCommand::Goto(GameState::LoadingLevel)),
        GameKey::KeyN => if level_id < total_levels - 1 {
            Some(KeyCommand::Goto(GameState::LevelComplete))
        } else {
            None
        },
        GameKey::Space => Some(KeyCommand::SignalPuzzleComplete),
    }
}

/// A puzzle-complete signal received while playing moves the game to the
/// level-complete screen; in any other state it is ignored.
pub fn puzzle_complete_transition(state: GameState, signal_seen: bool) -> (r: Option<GameState>)
    ensures
        r == if state is Playing && signal_seen {
            Some(GameState::LevelComplete)
        } else {
            None::<GameState>
        },
{
    if signal_seen {
        match state {
            GameState::Playing => Some(GameState::LevelComplete),
            _ => None,
        }
    } else {
        None
    }
}

} // verus!
