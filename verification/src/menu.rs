//! The menu wizards: the screen-by-screen flows that end in a lifecycle
//! request.
//!
//! Each wizard is a small state machine over its screens.  Navigation stays
//! inside the wizard; leaving it either returns to the owning overview or
//! raises a lifecycle request, which the caller passes to the session core.
//! Every handler is a pure transition function from the current screen and
//! the chosen action to what happens next.

use vstd::prelude::*;

use crate::states::MainMenuContext;

verus! {

/// An interaction with the top-level main menu.
#[derive(Debug, Clone, Copy, PartialEq, Eq, Structural)]
pub enum MainMenuInteraction {
    SwitchContext(MainMenuContext),
    Exit,
}

/// What the main menu decides: open a context, or leave the application.
#[derive(Debug, Clone, Copy, PartialEq, Eq, Structural)]
pub enum MainMenuOutcome {
    OpenContext(MainMenuContext),
    ExitApp,
}

/// Decides a main-menu interaction.
pub fn handle_main_menu_interaction(event: MainMenuInteraction) -> (r: MainMenuOutcome)
    ensures
        r == match event {
            MainMenuInteraction::SwitchContext(ctx) => MainMenuOutcome::OpenContext(ctx),
            MainMenuInteraction::Exit => MainMenuOutcome::ExitApp,
        },
{
    match event {
        MainMenuInteraction::SwitchContext(ctx) => MainMenuOutcome::OpenContext(ctx),
        MainMenuInteraction::Exit => MainMenuOutcome::ExitApp,
    }
}

/// The screens of the new-game wizard.
#[derive(Debug, Clone, Copy, PartialEq, Eq, Structural)]
pub enum NewGameMenuScreen {
    ConfigPlayer,
    ConfigWorld,
    ConfigSave,
}

/// An action chosen in the new-game wizard.
#[derive(Debug, Clone, Copy, PartialEq, Eq, Structural)]
pub enum SetSingleplayerNewGame {
    Next,
    Previous,
    Confirm,
    Back,
    Cancel,
}

/// Where a singleplayer wizard action leads: another screen, back to the
/// singleplayer overview, or the start of a local private session.
#[derive(Debug, Clone, Copy, PartialEq, Eq, Structural)]
pub enum SingleplayerNav {
    Screen(NewGameMenuScreen),
    ToOverview,
    StartGame,
}

/// Steps the new-game wizard.
///
/// `Next` walks the configuration screens forward and stops at the last;
/// `Previous` walks them back and leaves the wizard from the first;
/// `Confirm` starts the game from any screen; `Back` and `Cancel` return to
/// the overview.
pub fn handle_new_game_nav(current: NewGameMenuScreen, event: SetSingleplayerNewGame) -> (r:
    SingleplayerNav)
    ensures
        r == match event {
            SetSingleplayerNewGame::Next => match current {
                NewGameMenuScreen::ConfigPlayer => SingleplayerNav::Screen(
                    NewGameMenuScreen::ConfigWorld,
                ),
                NewGameMenuScreen::ConfigWorld => SingleplayerNav::Screen(
                    NewGameMenuScreen::ConfigSave,
                ),
                NewGameMenuScreen::ConfigSave => SingleplayerNav::Screen(
                    NewGameMenuScreen::ConfigSave,
                ),
            },
            SetSingleplayerNewGame::Previous => match current {
                NewGameMenuScreen::ConfigPlayer => SingleplayerNav::ToOverview,
                NewGameMenuScreen::ConfigWorld => SingleplayerNav::Screen(
                    NewGameMenuScreen::ConfigPlayer,
                ),
                NewGameMenuScreen::ConfigSave => SingleplayerNav::Screen(
                    NewGameMenuScreen::ConfigWorld,
                ),
            },
            SetSingleplayerNewGame::Confirm => SingleplayerNav::StartGame,
            SetSingleplayerNewGame::Back => SingleplayerNav::ToOverview,
            SetSingleplayerNewGame::Cancel => SingleplayerNav::ToOverview,
        },
{
    match event {
        SetSingleplayerNewGame::Next => match current {
            NewGameMenuScreen::ConfigPlayer => SingleplayerNav::Screen(
                NewGameMenuScreen::ConfigWorld,
            ),
            NewGameMenuScreen::ConfigWorld => SingleplayerNav::Screen(
                NewGameMenuScreen::ConfigSave,
            ),
            NewGameMenuScreen::ConfigSave => SingleplayerNav::Screen(
                NewGameMenuScreen::ConfigSave,
            ),
        },
        SetSingleplayerNewGame::Previous => match current {
            NewGameMenuScreen::ConfigPlayer => SingleplayerNav::ToOverview,
            NewGameMenuScreen::ConfigWorld => SingleplayerNav::Screen(
                NewGameMenuScreen::ConfigPlayer,
            ),
            NewGameMenuScreen::ConfigSave => SingleplayerNav::Screen(
                NewGameMenuScreen::ConfigWorld,
            ),
        },
        SetSingleplayerNewGame::Confirm => SingleplayerNav::StartGame,
        SetSingleplayerNewGame::Back => SingleplayerNav::ToOverview,
        SetSingleplayerNewGame::Cancel => SingleplayerNav::ToOverview,
    }
}

/// The screens of the load-game wizard.
#[derive(Debug, Clone, Copy, PartialEq, Eq, Structural)]
pub enum SavedGameMenuScreen {
    SelectSaveGame,
}

/// An action chosen in the load-game wizard.
#[derive(Debug, Clone, Copy, PartialEq, Eq, Structural)]
pub enum SetSingleplayerSavedGame {
    Next,
    Previous,
    Confirm,
    Back,
    Cancel,
}

/// Where a load-game wizard action leads.
#[derive(Debug, Clone, Copy, PartialEq, Eq, Structural)]
pub enum SavedGameNav {
    Screen(SavedGameMenuScreen),
    ToOverview,
    StartGame,
}

/// Steps the load-game wizard: save-game selection is its only screen, so
/// `Previous`, `Back` and `Cancel` all leave it and `Confirm` starts the
/// loaded game.
pub fn handle_load_game_nav(current: SavedGameMenuScreen, event: SetSingleplayerSavedGame) -> (r:
    SavedGameNav)
    ensures
        r == match event {
            SetSingleplayerSavedGame::Next => SavedGameNav::Screen(current),
            SetSingleplayerSavedGame::Previous => SavedGameNav::ToOverview,
            SetSingleplayerSavedGame::Confirm => SavedGameNav::StartGame,
            SetSingleplayerSavedGame::Back => SavedGameNav::ToOverview,
            SetSingleplayerSavedGame::Cancel => SavedGameNav::ToOverview,
        },
{
    match event {
        SetSingleplayerSavedGame::Next => SavedGameNav::Screen(current),
        SetSingleplayerSavedGame::Previous => SavedGameNav::ToOverview,
        SetSingleplayerSavedGame::Confirm => SavedGameNav::StartGame,
        SetSingleplayerSavedGame::Back => SavedGameNav::ToOverview,
        SetSingleplayerSavedGame::Cancel => SavedGameNav::ToOverview,
    }
}

/// The screens of the host-new-game wizard.
#[derive(Debug, Clone, Copy, PartialEq, Eq, Structural)]
pub enum HostNewGameMenuScreen {
    ConfigServer,
    ConfigWorld,
    ConfigSave,
}

/// The screens of the host-saved-game wizard.
#[derive(Debug, Clone, Copy, PartialEq, Eq, Structural)]
pub enum HostSavedGameMenuScreen {
    Overview,
    ConfigServer,
}

/// An action chosen in the host-new-game wizard.
#[derive(Debug, Clone, Copy, PartialEq, Eq, Structural)]
pub enum SetNewHostGame {
    Next,
    Previous,
    Confirm,
    Back,
    Cancel,
}

/// An action chosen in the host-saved-game wizard.
#[derive(Debug, Clone, Copy, PartialEq, Eq, Structural)]
pub enum SetSavedHostGame {
    Next,
    Previous,
    Confirm,
    Back,
    Cancel,
}

/// Where a host-new-game wizard action leads: another screen, back to the
/// multiplayer overview, or the start of a hosted session that is queued to
/// go public.
#[derive(Debug, Clone, Copy, PartialEq, Eq, Structural)]
pub enum HostNewGameNav {
    Screen(HostNewGameMenuScreen),
    ToOverview,
    StartHostedGame,
}

/// Where a host-saved-game wizard action leads.
#[derive(Debug, Clone, Copy, PartialEq, Eq, Structural)]
pub enum HostSavedGameNav {
    Screen(HostSavedGameMenuScreen),
    ToOverview,
    StartHostedGame,
}

/// Steps the host-new-game wizard, like the new-game wizard but starting
/// with the server configuration and ending in a hosted session.
pub fn handle_host_new_game_nav(current: HostNewGameMenuScreen, event: SetNewHostGame) -> (r:
    HostNewGameNav)
    ensures
        r == match event {
            SetNewHostGame::Next => match current {
                HostNewGameMenuScreen::ConfigServer => HostNewGameNav::Screen(
                    HostNewGameMenuScreen::ConfigWorld,
                ),
                HostNewGameMenuScreen::ConfigWorld => HostNewGameNav::Screen(
                    HostNewGameMenuScreen::ConfigSave,
                ),
                HostNewGameMenuScreen::ConfigSave => HostNewGameNav::Screen(
                    HostNewGameMenuScreen::ConfigSave,
                ),
            },
            SetNewHostGame::Previous => match current {
                HostNewGameMenuScreen::ConfigServer => HostNewGameNav::ToOverview,
                HostNewGameMenuScreen::ConfigWorld => HostNewGameNav::Screen(
                    HostNewGameMenuScreen::ConfigServer,
                ),
                HostNewGameMenuScreen::ConfigSave => HostNewGameNav::Screen(
                    HostNewGameMenuScreen::ConfigWorld,
                ),
            },
            SetNewHostGame::Confirm => HostNewGameNav::StartHostedGame,
            SetNewHostGame::Back => HostNewGameNav::ToOverview,
            SetNewHostGame::Cancel => HostNewGameNav::ToOverview,
        },
{
    match event {
        SetNewHostGame::Next => match current {
            HostNewGameMenuScreen::ConfigServer => HostNewGameNav::Screen(
                HostNewGameMenuScreen::ConfigWorld,
            ),
            HostNewGameMenuScreen::ConfigWorld => HostNewGameNav::Screen(
                HostNewGameMenuScreen::ConfigSave,
            ),
            HostNewGameMenuScreen::ConfigSave => HostNewGameNav::Screen(
                HostNewGameMenuScreen::ConfigSave,
            ),
        },
        SetNewHostGame::Previous => match current {
            HostNewGameMenuScreen::ConfigServer => HostNewGameNav::ToOverview,
            HostNewGameMenuScreen::ConfigWorld => HostNewGameNav::Screen(
                HostNewGameMenuScreen::ConfigServer,
            ),
            HostNewGameMenuScreen::ConfigSave => HostNewGameNav::Screen(
                HostNewGameMenuScreen::ConfigWorld,
            ),
        },
        SetNewHostGame::Confirm => HostNewGameNav::StartHostedGame,
        SetNewHostGame::Back => HostNewGameNav::ToOverview,
        SetNewHostGame::Cancel => HostNewGameNav::ToOverview,
    }
}

/// Steps the host-saved-game wizard: its overview and the server
/// configuration, with `Confirm` starting the hosted session.
pub fn handle_host_saved_game_nav(current: HostSavedGameMenuScreen, event: SetSavedHostGame) -> (r:
    HostSavedGameNav)
    ensures
        r == match event {
            SetSavedHostGame::Next => match current {
                HostSavedGameMenuScreen::Overview => HostSavedGameNav::Screen(
                    HostSavedGameMenuScreen::ConfigServer,
                ),
                HostSavedGameMenuScreen::ConfigServer => HostSavedGameNav::Screen(
                    HostSavedGameMenuScreen::ConfigServer,
                ),
            },
            SetSavedHostGame::Previous => match current {
                HostSavedGameMenuScreen::Overview => HostSavedGameNav::Screen(
                    HostSavedGameMenuScreen::Overview,
                ),
                HostSavedGameMenuScreen::ConfigServer => HostSavedGameNav::Screen(
                    HostSavedGameMenuScreen::Overview,
                ),
            },
            SetSavedHostGame::Confirm => HostSavedGameNav::StartHostedGame,
            SetSavedHostGame::Back => HostSavedGameNav::ToOverview,
            SetSavedHostGame::Cancel => HostSavedGameNav::ToOverview,
        },
{
    match event {
        SetSavedHostGame::Next => match current {
            HostSavedGameMenuScreen::Overview => HostSavedGameNav::Screen(
                HostSavedGameMenuScreen::ConfigServer,
            ),
            HostSavedGameMenuScreen::ConfigServer => HostSavedGameNav::Screen(
                HostSavedGameMenuScreen::ConfigServer,
            ),
        },
        SetSavedHostGame::Previous => match current {
            HostSavedGameMenuScreen::Overview => HostSavedGameNav::Screen(
                HostSavedGameMenuScreen::Overview,
            ),
            HostSavedGameMenuScreen::ConfigServer => HostSavedGameNav::Screen(
                HostSavedGameMenuScreen::Overview,
            ),
        },
        SetSavedHostGame::Confirm => HostSavedGameNav::StartHostedGame,
        SetSavedHostGame::Back => HostSavedGameNav::ToOverview,
        SetSavedHostGame::Cancel => HostSavedGameNav::ToOverview,
    }
}

/// An action chosen in the join-game dialog.
#[derive(Debug, Clone, Copy, PartialEq, Eq, Structural)]
pub enum SetJoinGame {
    Next,
    Previous,
    Confirm,
    Back,
    Cancel,
}

/// What the join-game dialog decides: stay, return to the multiplayer
/// overview, raise the connect request, or refuse because the entered
/// target is invalid.
#[derive(Debug, Clone, Copy, PartialEq, Eq, Structural)]
pub enum JoinGameNav {
    Stay,
    ToOverview,
    Connect,
    InvalidTarget,
}

/// Decides a join-game action against the validity of the entered target:
/// `Confirm` connects only to a validated target, and an invalid one is
/// refused without any request being raised.
pub fn handle_join_game_nav(event: SetJoinGame, target_valid: bool) -> (r: JoinGameNav)
    ensures
        r == match event {
            SetJoinGame::Confirm => if target_valid {
                JoinGameNav::Connect
            } else {
                JoinGameNav::InvalidTarget
            },
            SetJoinGame::Back => JoinGameNav::ToOverview,
            SetJoinGame::Cancel => JoinGameNav::ToOverview,
            _ => JoinGameNav::Stay,
        },
{
    match event {
        SetJoinGame::Confirm => if target_valid {
            JoinGameNav::Connect
        } else {
            JoinGameNav::InvalidTarget
        },
        SetJoinGame::Back => JoinGameNav::ToOverview,
        SetJoinGame::Cancel => JoinGameNav::ToOverview,
        _ => JoinGameNav::Stay,
    }
}

/// The screens of the settings menu.
#[derive(Debug, Clone, Copy, PartialEq, Eq, Structural)]
pub enum SettingsMenuScreen {
    Overview,
    Audio,
    Video,
    Controls,
}

/// An action chosen in the settings menu.
#[derive(Debug, Clone, Copy, PartialEq, Eq, Structural)]
pub enum SettingsMenuEvent {
    Navigate(SettingsMenuScreen),
    Back,
    Apply,
    Cancel,
}

/// Steps the settings menu: navigation opens a screen, `Back` and `Cancel`
/// return to its overview, and `Apply` stays put.
pub fn handle_settings_nav(current: SettingsMenuScreen, event: SettingsMenuEvent) -> (r:
    SettingsMenuScreen)
    ensures
        r == match event {
            SettingsMenuEvent::Navigate(target) => target,
            SettingsMenuEvent::Back => SettingsMenuScreen::Overview,
            SettingsMenuEvent::Apply => current,
            SettingsMenuEvent::Cancel => SettingsMenuScreen::Overview,
        },
{
    match event {
        SettingsMenuEvent::Navigate(target) => target,
        SettingsMenuEvent::Back => SettingsMenuScreen::Overview,
        SettingsMenuEvent::Apply => current,
        SettingsMenuEvent::Cancel => SettingsMenuScreen::Overview,
    }
}

} // verus!
