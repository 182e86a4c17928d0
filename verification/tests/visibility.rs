//! The host-side visibility lifecycle: going public over the pause menu,
//! hosting from the multiplayer menu, and the full close-down.

use fos_server::session::{Action, ListenerState, Request, SessionCore};
use fos_server::states::{
    MainMenuContext, MultiplayerSetup, PauseMenuEvent, SessionState, SessionStatus,
    ServerVisibility, SingleplayerSetup, SingleplayerStatus,
};

/// Runs `frames` control-loop ticks, playing a prompt transport that
/// completes every requested side effect before the next tick.
fn wait_frames(core: &mut SessionCore, frames: usize) {
    for _ in 0..frames {
        if let Some(action) = core.tick() {
            match action {
                Action::OpenListener(_) => core.on_listener_ready(),
                Action::CloseListener => core.on_listener_closed(),
                Action::DisconnectRemoteClients => {
                    while core.resources.remote_clients > 0 {
                        core.on_remote_client_left();
                    }
                }
                _ => {}
            }
        }
    }
}

fn start_singleplayer_new_game(core: &mut SessionCore) {
    core.navigate_main(MainMenuContext::Singleplayer).unwrap();
    core.navigate_singleplayer(SingleplayerSetup::NewGame).unwrap();
    core.request(Request::StartLocal).unwrap();
    wait_frames(core, 3);
}

fn start_singleplayer_loaded_game(core: &mut SessionCore) {
    core.navigate_main(MainMenuContext::Singleplayer).unwrap();
    core.navigate_singleplayer(SingleplayerSetup::LoadGame).unwrap();
    core.request(Request::StartLocal).unwrap();
    wait_frames(core, 3);
}

fn start_singleplayer_host_new_game(core: &mut SessionCore) {
    core.navigate_main(MainMenuContext::Multiplayer).unwrap();
    core.navigate_multiplayer(MultiplayerSetup::HostNewGame).unwrap();
    core.request(Request::StartLocal).unwrap();
    wait_frames(core, 3);
}

fn start_singleplayer_host_saved_game(core: &mut SessionCore) {
    core.navigate_main(MainMenuContext::Multiplayer).unwrap();
    core.navigate_multiplayer(MultiplayerSetup::HostSavedGame).unwrap();
    core.request(Request::StartLocal).unwrap();
    wait_frames(core, 3);
}

#[test]
fn server_lifecycle_over_game_menu_after_new_game_in_singleplayer_is_started() {
    let mut core = SessionCore::new();
    start_singleplayer_new_game(&mut core);

    assert!(matches!(core.state, SessionState::Local { .. }));
    assert_eq!(core.singleplayer_status(), Some(SingleplayerStatus::Running));
    assert_eq!(core.visibility(), Some(ServerVisibility::Private));
    assert_eq!(core.focus(), Some(SessionStatus::Playing));
    assert!(core.resources.local_server);
    assert!(core.resources.local_client);

    core.toggle_focus();
    assert_eq!(core.focus(), Some(SessionStatus::Paused));
    core.request(Request::GoPublic).unwrap();
    core.toggle_focus();
    assert_eq!(core.focus(), Some(SessionStatus::Playing));

    wait_frames(&mut core, 5);
    println!("waited 5 frames");
    assert!(matches!(core.resources.listener, ListenerState::Open));
    assert_eq!(core.visibility(), Some(ServerVisibility::Public));

    core.toggle_focus();
    assert_eq!(core.focus(), Some(SessionStatus::Paused));
    core.pause_menu_event(PauseMenuEvent::Exit).unwrap();
    assert_eq!(core.singleplayer_status(), Some(SingleplayerStatus::Stopping));

    wait_frames(&mut core, 6);
    assert!(matches!(core.state, SessionState::Menu { .. }));
    assert!(matches!(core.resources.listener, ListenerState::Closed));
    assert_eq!(core.resources.remote_clients, 0);
}

#[test]
fn server_lifecycle_over_game_menu_after_saved_game_in_singleplayer_is_started() {
    let mut core = SessionCore::new();
    start_singleplayer_loaded_game(&mut core);

    assert!(matches!(core.state, SessionState::Local { .. }));
    assert_eq!(core.singleplayer_status(), Some(SingleplayerStatus::Running));
    assert_eq!(core.visibility(), Some(ServerVisibility::Private));
    assert_eq!(core.focus(), Some(SessionStatus::Playing));
    assert!(core.resources.local_server);
    assert!(core.resources.local_client);

    core.toggle_focus();
    assert_eq!(core.focus(), Some(SessionStatus::Paused));
    core.request(Request::GoPublic).unwrap();
    core.toggle_focus();
    assert_eq!(core.focus(), Some(SessionStatus::Playing));

    wait_frames(&mut core, 5);
    assert!(matches!(core.resources.listener, ListenerState::Open));
    println!("waited 5 frames");

    assert_eq!(core.visibility(), Some(ServerVisibility::Public));

    core.toggle_focus();
    assert_eq!(core.focus(), Some(SessionStatus::Paused));
    core.pause_menu_event(PauseMenuEvent::Exit).unwrap();
    assert_eq!(core.singleplayer_status(), Some(SingleplayerStatus::Stopping));

    wait_frames(&mut core, 6);
    assert!(matches!(core.state, SessionState::Menu { .. }));
    assert!(matches!(core.resources.listener, ListenerState::Closed));
    assert_eq!(core.resources.remote_clients, 0);
}

#[test]
fn server_start_with_new_hosted_game() {
    let mut core = SessionCore::new();
    start_singleplayer_host_new_game(&mut core);

    assert!(matches!(core.state, SessionState::Local { .. }));
    assert_eq!(core.singleplayer_status(), Some(SingleplayerStatus::Running));
    assert_eq!(core.visibility(), Some(ServerVisibility::GoingPublic));

    assert!(core.resources.local_server);
    assert!(core.resources.local_client);

    wait_frames(&mut core, 3);

    assert_eq!(core.visibility(), Some(ServerVisibility::Public));
    assert!(matches!(core.resources.listener, ListenerState::Open));
}

#[test]
fn server_start_with_loaded_hosted_game() {
    let mut core = SessionCore::new();
    start_singleplayer_host_saved_game(&mut core);

    assert!(matches!(core.state, SessionState::Local { .. }));
    assert_eq!(core.singleplayer_status(), Some(SingleplayerStatus::Running));
    assert_eq!(core.visibility(), Some(ServerVisibility::GoingPublic));

    assert!(core.resources.local_server);
    assert!(core.resources.local_client);

    wait_frames(&mut core, 3);

    assert_eq!(core.visibility(), Some(ServerVisibility::Public));
    assert!(matches!(core.resources.listener, ListenerState::Open));
}
