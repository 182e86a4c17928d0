//! The menu wizards, stepped screen by screen into a lifecycle request.

use fos_server::menu::{
    handle_host_new_game_nav, handle_host_saved_game_nav, handle_join_game_nav,
    handle_load_game_nav, handle_main_menu_interaction, handle_new_game_nav, handle_settings_nav,
    HostNewGameMenuScreen, HostNewGameNav, HostSavedGameMenuScreen, HostSavedGameNav,
    JoinGameNav, MainMenuInteraction, MainMenuOutcome, NewGameMenuScreen, SavedGameMenuScreen,
    SavedGameNav, SetJoinGame, SetNewHostGame, SetSavedHostGame, SetSingleplayerNewGame,
    SetSingleplayerSavedGame, SettingsMenuEvent, SettingsMenuScreen, SingleplayerNav,
};
use fos_server::session::{Request, SessionCore};
use fos_server::states::{MainMenuContext, MultiplayerSetup, SingleplayerSetup};

#[test]
fn main_menu_switches_contexts() {
    assert_eq!(
        handle_main_menu_interaction(MainMenuInteraction::SwitchContext(
            MainMenuContext::Multiplayer
        )),
        MainMenuOutcome::OpenContext(MainMenuContext::Multiplayer)
    );
    assert_eq!(
        handle_main_menu_interaction(MainMenuInteraction::Exit),
        MainMenuOutcome::ExitApp
    );
}

#[test]
fn new_game_wizard_walks_forward_and_back() {
    assert_eq!(
        handle_new_game_nav(NewGameMenuScreen::ConfigPlayer, SetSingleplayerNewGame::Next),
        SingleplayerNav::Screen(NewGameMenuScreen::ConfigWorld)
    );
    assert_eq!(
        handle_new_game_nav(NewGameMenuScreen::ConfigWorld, SetSingleplayerNewGame::Next),
        SingleplayerNav::Screen(NewGameMenuScreen::ConfigSave)
    );
    assert_eq!(
        handle_new_game_nav(NewGameMenuScreen::ConfigSave, SetSingleplayerNewGame::Next),
        SingleplayerNav::Screen(NewGameMenuScreen::ConfigSave)
    );
    assert_eq!(
        handle_new_game_nav(NewGameMenuScreen::ConfigSave, SetSingleplayerNewGame::Previous),
        SingleplayerNav::Screen(NewGameMenuScreen::ConfigWorld)
    );
    assert_eq!(
        handle_new_game_nav(NewGameMenuScreen::ConfigPlayer, SetSingleplayerNewGame::Previous),
        SingleplayerNav::ToOverview
    );
    assert_eq!(
        handle_new_game_nav(NewGameMenuScreen::ConfigWorld, SetSingleplayerNewGame::Cancel),
        SingleplayerNav::ToOverview
    );
}

#[test]
fn new_game_confirm_starts_the_session() {
    let nav = handle_new_game_nav(NewGameMenuScreen::ConfigSave, SetSingleplayerNewGame::Confirm);
    assert_eq!(nav, SingleplayerNav::StartGame);

    let mut core = SessionCore::new();
    core.navigate_main(MainMenuContext::Singleplayer).unwrap();
    core.navigate_singleplayer(SingleplayerSetup::NewGame).unwrap();
    if nav == SingleplayerNav::StartGame {
        core.request(Request::StartLocal).unwrap();
    }
    assert_eq!(
        core.singleplayer_status(),
        Some(fos_server::states::SingleplayerStatus::Starting)
    );
}

#[test]
fn load_game_wizard_leaves_from_its_only_screen() {
    assert_eq!(
        handle_load_game_nav(
            SavedGameMenuScreen::SelectSaveGame,
            SetSingleplayerSavedGame::Previous
        ),
        SavedGameNav::ToOverview
    );
    assert_eq!(
        handle_load_game_nav(
            SavedGameMenuScreen::SelectSaveGame,
            SetSingleplayerSavedGame::Confirm
        ),
        SavedGameNav::StartGame
    );
}

#[test]
fn host_new_game_wizard_walks_its_screens() {
    assert_eq!(
        handle_host_new_game_nav(HostNewGameMenuScreen::ConfigServer, SetNewHostGame::Next),
        HostNewGameNav::Screen(HostNewGameMenuScreen::ConfigWorld)
    );
    assert_eq!(
        handle_host_new_game_nav(HostNewGameMenuScreen::ConfigServer, SetNewHostGame::Previous),
        HostNewGameNav::ToOverview
    );
    assert_eq!(
        handle_host_new_game_nav(HostNewGameMenuScreen::ConfigWorld, SetNewHostGame::Confirm),
        HostNewGameNav::StartHostedGame
    );
}

#[test]
fn host_saved_game_wizard_walks_its_screens() {
    assert_eq!(
        handle_host_saved_game_nav(HostSavedGameMenuScreen::Overview, SetSavedHostGame::Next),
        HostSavedGameNav::Screen(HostSavedGameMenuScreen::ConfigServer)
    );
    assert_eq!(
        handle_host_saved_game_nav(
            HostSavedGameMenuScreen::ConfigServer,
            SetSavedHostGame::Previous
        ),
        HostSavedGameNav::Screen(HostSavedGameMenuScreen::Overview)
    );
    assert_eq!(
        handle_host_saved_game_nav(HostSavedGameMenuScreen::Overview, SetSavedHostGame::Confirm),
        HostSavedGameNav::StartHostedGame
    );
}

#[test]
fn host_confirm_queues_the_session_to_go_public() {
    let nav = handle_host_new_game_nav(HostNewGameMenuScreen::ConfigSave, SetNewHostGame::Confirm);
    assert_eq!(nav, HostNewGameNav::StartHostedGame);

    let mut core = SessionCore::new();
    core.navigate_main(MainMenuContext::Multiplayer).unwrap();
    core.navigate_multiplayer(MultiplayerSetup::HostNewGame).unwrap();
    if nav == HostNewGameNav::StartHostedGame {
        core.request(Request::StartLocal).unwrap();
    }
    assert_eq!(
        core.visibility(),
        Some(fos_server::states::ServerVisibility::PendingPublic)
    );
}

#[test]
fn join_dialog_connects_only_with_a_valid_target() {
    assert_eq!(
        handle_join_game_nav(SetJoinGame::Confirm, true),
        JoinGameNav::Connect
    );
    assert_eq!(
        handle_join_game_nav(SetJoinGame::Confirm, false),
        JoinGameNav::InvalidTarget
    );
    assert_eq!(
        handle_join_game_nav(SetJoinGame::Back, true),
        JoinGameNav::ToOverview
    );
    assert_eq!(
        handle_join_game_nav(SetJoinGame::Next, false),
        JoinGameNav::Stay
    );
}

#[test]
fn settings_menu_navigates_and_returns() {
    assert_eq!(
        handle_settings_nav(
            SettingsMenuScreen::Overview,
            SettingsMenuEvent::Navigate(SettingsMenuScreen::Audio)
        ),
        SettingsMenuScreen::Audio
    );
    assert_eq!(
        handle_settings_nav(SettingsMenuScreen::Audio, SettingsMenuEvent::Back),
        SettingsMenuScreen::Overview
    );
    assert_eq!(
        handle_settings_nav(SettingsMenuScreen::Video, SettingsMenuEvent::Apply),
        SettingsMenuScreen::Video
    );
}
