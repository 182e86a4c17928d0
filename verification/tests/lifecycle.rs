//! The singleplayer lifecycle, driven end to end: starting, pausing,
//! stopping, restarting, and request spam.

use fos_server::session::{Action, Request, SessionCore};
use fos_server::states::{
    MainMenuContext, PauseMenuEvent, SessionState, SessionStatus, ServerVisibility,
    SingleplayerSetup, SingleplayerStatus,
};

/// Runs `frames` control-loop ticks, playing a prompt transport that
/// completes every requested side effect before the next tick.
fn wait_frames(core: &mut SessionCore, frames: usize) {
    for _ in 0..frames {
        if let Some(action) = core.tick() {
            match action {
                Action::OpenListener(_) => core.on_listener_ready(),
                Action::CloseListener => core.on_listener_closed(),
                Action::DisconnectRemoteClients => {
                    while core.resources.remote_clients > 0 {
                        core.on_remote_client_left();
                    }
                }
                _ => {}
            }
        }
    }
}

fn start_singleplayer_new_game(core: &mut SessionCore) {
    core.navigate_main(MainMenuContext::Singleplayer).unwrap();
    core.navigate_singleplayer(SingleplayerSetup::NewGame).unwrap();
    core.request(Request::StartLocal).unwrap();
    wait_frames(core, 3);
}

fn start_singleplayer_loaded_game(core: &mut SessionCore) {
    core.navigate_main(MainMenuContext::Singleplayer).unwrap();
    core.navigate_singleplayer(SingleplayerSetup::LoadGame).unwrap();
    core.request(Request::StartLocal).unwrap();
    wait_frames(core, 3);
}

fn stop_singleplayer(core: &mut SessionCore) {
    core.pause_menu_event(PauseMenuEvent::Exit).unwrap();
    wait_frames(core, 1);
}

#[test]
fn test_from_singleplayer_startup_new_game() {
    let mut core = SessionCore::new();
    start_singleplayer_new_game(&mut core);

    assert!(matches!(core.state, SessionState::Local { .. }));
    assert_eq!(core.singleplayer_status(), Some(SingleplayerStatus::Running));
    assert_eq!(core.visibility(), Some(ServerVisibility::Private));
    assert!(core.resources.local_server);
    assert!(core.resources.local_client);
}

#[test]
fn test_from_singleplayer_startup_loaded_game() {
    let mut core = SessionCore::new();
    start_singleplayer_loaded_game(&mut core);

    assert!(matches!(core.state, SessionState::Local { .. }));
    assert_eq!(core.singleplayer_status(), Some(SingleplayerStatus::Running));
    assert_eq!(core.visibility(), Some(ServerVisibility::Private));
    assert!(core.resources.local_server);
    assert!(core.resources.local_client);
}

#[test]
fn test_game_menu_toggle() {
    let mut core = SessionCore::new();
    start_singleplayer_new_game(&mut core);

    assert_eq!(core.focus(), Some(SessionStatus::Playing));

    core.toggle_focus();
    assert_eq!(core.focus(), Some(SessionStatus::Paused));

    core.toggle_focus();
    assert_eq!(core.focus(), Some(SessionStatus::Playing));
}

#[test]
fn test_singleplayer_exit_from_menu() {
    let mut core = SessionCore::new();
    start_singleplayer_new_game(&mut core);

    core.toggle_focus();
    assert_eq!(core.focus(), Some(SessionStatus::Paused));

    core.pause_menu_event(PauseMenuEvent::Exit).unwrap();
    assert_eq!(core.singleplayer_status(), Some(SingleplayerStatus::Stopping));

    wait_frames(&mut core, 10);

    assert_eq!(core.resources.remote_clients, 0);
    assert!(matches!(
        core.resources.listener,
        fos_server::session::ListenerState::Closed
    ));
    assert_eq!(core.resources.bots, 0);
    assert!(!core.resources.local_server);
    assert!(!core.resources.local_client);
    assert!(matches!(core.state, SessionState::Menu { .. }));
}

#[test]
fn test_restart_cycle() {
    let mut core = SessionCore::new();

    start_singleplayer_new_game(&mut core);
    assert_eq!(core.singleplayer_status(), Some(SingleplayerStatus::Running));
    stop_singleplayer(&mut core);
    wait_frames(&mut core, 10);
    assert!(matches!(core.state, SessionState::Menu { .. }));

    start_singleplayer_new_game(&mut core);
    assert_eq!(core.singleplayer_status(), Some(SingleplayerStatus::Running));

    assert!(core.resources.local_server);
    assert!(core.resources.local_client);
}

#[test]
fn test_double_exit_spam_in_same_frame() {
    let mut core = SessionCore::new();
    start_singleplayer_new_game(&mut core);

    core.toggle_focus();

    let first = core.pause_menu_event(PauseMenuEvent::Exit);
    let second = core.pause_menu_event(PauseMenuEvent::Exit);
    assert!(first.is_ok());
    assert!(second.is_err());

    wait_frames(&mut core, 10);

    assert!(matches!(core.state, SessionState::Menu { .. }));
    assert!(!core.resources.local_server);
}

#[test]
fn test_double_exit_spam_in_different_frames() {
    let mut core = SessionCore::new();
    start_singleplayer_new_game(&mut core);

    core.toggle_focus();

    let first = core.pause_menu_event(PauseMenuEvent::Exit);
    wait_frames(&mut core, 1);
    let second = core.pause_menu_event(PauseMenuEvent::Exit);
    assert!(first.is_ok());
    assert!(second.is_err());

    wait_frames(&mut core, 10);

    assert!(matches!(core.state, SessionState::Menu { .. }));
    assert!(!core.resources.local_server);
}

#[test]
fn test_double_start_spam_in_same_frame() {
    let mut core = SessionCore::new();

    core.navigate_main(MainMenuContext::Singleplayer).unwrap();
    core.navigate_singleplayer(SingleplayerSetup::NewGame).unwrap();

    let first = core.request(Request::StartLocal);
    let second = core.request(Request::StartLocal);
    assert!(first.is_ok());
    assert!(second.is_err());

    wait_frames(&mut core, 3);

    assert!(core.resources.local_server);
    assert!(core.resources.local_client);
    assert_eq!(core.singleplayer_status(), Some(SingleplayerStatus::Running));
}

#[test]
fn test_double_start_spam_in_different_frames() {
    let mut core = SessionCore::new();

    core.navigate_main(MainMenuContext::Singleplayer).unwrap();
    core.navigate_singleplayer(SingleplayerSetup::NewGame).unwrap();

    let first = core.request(Request::StartLocal);
    wait_frames(&mut core, 1);
    let second = core.request(Request::StartLocal);
    assert!(first.is_ok());
    assert!(second.is_err());

    wait_frames(&mut core, 3);

    assert!(core.resources.local_server);
    assert!(core.resources.local_client);
    assert_eq!(core.singleplayer_status(), Some(SingleplayerStatus::Running));
}
