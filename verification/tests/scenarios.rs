//! End-to-end scenarios across the lifecycle, the visibility manager and
//! the connection orchestrator.

use fos_server::session::{Action, ListenerState, RejectedReason, Request, SessionCore};
use fos_server::states::{
    MainMenuContext, MenuContext, MultiplayerSetup, PauseMenuEvent, SessionState, SessionStatus,
    ServerVisibility, SingleplayerSetup, SingleplayerStatus,
};

/// Runs `frames` control-loop ticks, playing a prompt transport.
fn wait_frames(core: &mut SessionCore, frames: usize) {
    for _ in 0..frames {
        if let Some(action) = core.tick() {
            match action {
                Action::OpenListener(_) => core.on_listener_ready(),
                Action::CloseListener => core.on_listener_closed(),
                Action::DisconnectRemoteClients => {
                    while core.resources.remote_clients > 0 {
                        core.on_remote_client_left();
                    }
                }
                _ => {}
            }
        }
    }
}

#[test]
fn full_session_start_publish_and_stop() {
    let mut core = SessionCore::new();

    core.navigate_main(MainMenuContext::Singleplayer).unwrap();
    core.navigate_singleplayer(SingleplayerSetup::NewGame).unwrap();
    core.request(Request::StartLocal).unwrap();
    wait_frames(&mut core, 2);
    assert_eq!(core.singleplayer_status(), Some(SingleplayerStatus::Running));
    assert_eq!(core.visibility(), Some(ServerVisibility::Private));

    core.request(Request::GoPublic).unwrap();
    wait_frames(&mut core, 3);
    assert_eq!(core.visibility(), Some(ServerVisibility::Public));
    let fingerprint = core.shareable_fingerprint().expect("a public session has an identity");
    assert!(!fingerprint.is_empty());

    core.request(Request::StopLocal).unwrap();
    wait_frames(&mut core, 6);
    assert_eq!(
        core.state,
        SessionState::Menu { context: MenuContext::Main }
    );
    assert_eq!(core.resources.remote_clients, 0);
    assert_eq!(core.resources.bots, 0);
    assert!(!core.resources.local_server);
    assert!(!core.resources.local_client);
    assert!(matches!(core.resources.listener, ListenerState::Closed));
    assert!(core.shareable_fingerprint().is_none());
}

#[test]
fn public_session_publishes_its_listen_address() {
    let mut core = SessionCore::new();
    core.navigate_main(MainMenuContext::Singleplayer).unwrap();
    core.navigate_singleplayer(SingleplayerSetup::NewGame).unwrap();
    core.request(Request::StartLocal).unwrap();
    wait_frames(&mut core, 2);
    assert!(core.listen_address().is_none());

    core.request(Request::GoPublic).unwrap();
    wait_frames(&mut core, 2);
    assert_eq!(core.visibility(), Some(ServerVisibility::Public));
    let address = core.listen_address().expect("a public session has an address");
    assert_eq!(address, "0.0.0.0:25571");
    let hash = core.shareable_cert_hash().expect("a public session has a cert hash");
    assert_eq!(hash.len(), 44);
}

#[test]
fn go_public_then_immediately_go_private_converges() {
    let mut core = SessionCore::new();
    core.navigate_main(MainMenuContext::Singleplayer).unwrap();
    core.navigate_singleplayer(SingleplayerSetup::NewGame).unwrap();
    core.request(Request::StartLocal).unwrap();
    wait_frames(&mut core, 2);

    core.request(Request::GoPublic).unwrap();
    // One tick generates the identity and starts the bind; go private
    // before the listener has reported ready.
    let action = core.tick();
    assert!(matches!(action, Some(Action::OpenListener(_))));
    assert!(matches!(core.resources.listener, ListenerState::Opening));
    core.request(Request::GoPrivate).unwrap();
    assert_eq!(core.visibility(), Some(ServerVisibility::GoingPrivate));

    wait_frames(&mut core, 3);
    assert_eq!(core.visibility(), Some(ServerVisibility::Private));
    assert!(matches!(core.resources.listener, ListenerState::Closed));
    assert!(core.shareable_fingerprint().is_none());
    assert_eq!(core.singleplayer_status(), Some(SingleplayerStatus::Running));
}

#[test]
fn pending_public_upgrades_only_once_running() {
    let mut core = SessionCore::new();
    core.navigate_main(MainMenuContext::Multiplayer).unwrap();
    core.navigate_multiplayer(MultiplayerSetup::HostNewGame).unwrap();
    core.request(Request::StartLocal).unwrap();
    assert_eq!(core.visibility(), Some(ServerVisibility::PendingPublic));
    assert_eq!(core.singleplayer_status(), Some(SingleplayerStatus::Starting));

    wait_frames(&mut core, 1);
    assert_eq!(core.visibility(), Some(ServerVisibility::PendingPublic));
    wait_frames(&mut core, 2);
    assert_eq!(core.visibility(), Some(ServerVisibility::GoingPublic));
}

#[test]
fn connect_with_invalid_target_is_a_validation_error() {
    let mut core = SessionCore::new();
    core.navigate_main(MainMenuContext::Multiplayer).unwrap();
    core.navigate_multiplayer(MultiplayerSetup::JoinGame).unwrap();
    core.set_target(String::from("not-an-address"));

    let before = core.state;
    let res = core.request(Request::Connect);
    assert_eq!(res, Err(RejectedReason::ValidationError));
    assert_eq!(core.state, before);
    assert_eq!(core.resources.connections, 0);
    let action = core.tick();
    assert!(action.is_none());
    assert_eq!(core.resources.connections, 0);
}

#[test]
fn unreachable_target_fails_and_retry_starts_clean() {
    let mut core = SessionCore::new();
    core.navigate_main(MainMenuContext::Multiplayer).unwrap();
    core.navigate_multiplayer(MultiplayerSetup::JoinGame).unwrap();
    core.set_target(String::from("10.255.255.1:25571"));

    core.request(Request::Connect).unwrap();
    assert!(matches!(
        core.state,
        SessionState::Client { status: fos_server::states::ClientStatus::Connecting, .. }
    ));

    let action = core.tick();
    match action {
        Some(Action::ConnectToServer(url)) => {
            assert_eq!(url, "https://10.255.255.1:25571");
        }
        other => panic!("expected a connection attempt, got {:?}", other.is_some()),
    }
    assert_eq!(core.resources.connections, 1);

    // The transport gives up on the unreachable host.
    core.on_session_disconnected(false, "connection timed out");
    assert_eq!(
        core.client_status(),
        Some(fos_server::states::ClientStatus::Failed)
    );
    let message = core.error_message().expect("a failure records its cause");
    assert!(!message.is_empty());
    assert_eq!(message, "Connection Error: connection timed out");
    assert_eq!(core.resources.connections, 0);
    assert!(!core.target.is_valid);

    // A retry without re-validating the stale target is rejected.
    assert_eq!(core.request(Request::Retry), Err(RejectedReason::ValidationError));

    // After re-validation the retry starts from a clean slate: no handle
    // is held when the new attempt opens.
    core.set_target(String::from("10.255.255.1:25571"));
    core.request(Request::Retry).unwrap();
    assert_eq!(core.resources.connections, 0);
    let action = core.tick();
    assert!(matches!(action, Some(Action::ConnectToServer(_))));
    assert_eq!(core.resources.connections, 1);
}

#[test]
fn client_session_reaches_running_and_disconnects() {
    let mut core = SessionCore::new();
    core.navigate_main(MainMenuContext::Multiplayer).unwrap();
    core.navigate_multiplayer(MultiplayerSetup::JoinGame).unwrap();
    core.set_target(String::from("192.168.0.7:25571"));

    core.request(Request::Connect).unwrap();
    let action = core.tick();
    assert!(matches!(action, Some(Action::ConnectToServer(_))));

    core.on_session_established();
    assert_eq!(
        core.client_status(),
        Some(fos_server::states::ClientStatus::Syncing)
    );
    wait_frames(&mut core, 1);
    assert_eq!(
        core.client_status(),
        Some(fos_server::states::ClientStatus::Running)
    );

    core.request(Request::Disconnect).unwrap();
    assert_eq!(
        core.client_status(),
        Some(fos_server::states::ClientStatus::Disconnecting)
    );
    wait_frames(&mut core, 3);
    assert_eq!(
        core.state,
        SessionState::Menu { context: MenuContext::Main }
    );
    assert_eq!(core.resources.connections, 0);
}

#[test]
fn remote_peers_are_drained_before_the_listener_closes() {
    let mut core = SessionCore::new();
    core.navigate_main(MainMenuContext::Multiplayer).unwrap();
    core.navigate_multiplayer(MultiplayerSetup::HostNewGame).unwrap();
    core.request(Request::StartLocal).unwrap();
    wait_frames(&mut core, 4);
    assert_eq!(core.visibility(), Some(ServerVisibility::Public));

    assert!(core.on_session_request());
    assert!(core.on_session_request());
    assert_eq!(core.resources.remote_clients, 2);

    core.request(Request::GoPrivate).unwrap();
    // The first tick only signals the peers; the listener must stay until
    // none remain.
    let action = core.tick();
    assert!(matches!(action, Some(Action::DisconnectRemoteClients)));
    assert!(matches!(core.resources.listener, ListenerState::Open));

    core.on_remote_client_left();
    core.on_remote_client_left();
    let action = core.tick();
    assert!(matches!(action, Some(Action::CloseListener)));
    core.on_listener_closed();
    assert_eq!(core.visibility(), Some(ServerVisibility::Private));
    assert!(matches!(core.resources.listener, ListenerState::Closed));
}

#[test]
fn shutdown_releases_peers_listener_and_bots_in_order() {
    let mut core = SessionCore::new();
    core.navigate_main(MainMenuContext::Multiplayer).unwrap();
    core.navigate_multiplayer(MultiplayerSetup::HostNewGame).unwrap();
    core.request(Request::StartLocal).unwrap();
    wait_frames(&mut core, 4);
    assert_eq!(core.visibility(), Some(ServerVisibility::Public));

    core.on_bot_spawned();
    core.on_bot_spawned();
    assert!(core.on_session_request());
    assert_eq!(core.resources.bots, 2);
    assert_eq!(core.resources.remote_clients, 1);

    core.request(Request::StopLocal).unwrap();
    // The sequencer's steps, one per tick and each confirmed before the
    // next: remote peers, the listener, the bots, the loopback peers.
    let a1 = core.tick();
    assert!(matches!(a1, Some(Action::DisconnectRemoteClients)));
    assert_eq!(core.resources.remote_clients, 0);
    let a2 = core.tick();
    assert!(matches!(a2, Some(Action::CloseListener)));
    assert!(matches!(core.resources.listener, ListenerState::Closed));
    let a3 = core.tick();
    assert!(matches!(a3, Some(Action::DespawnBots)));
    assert_eq!(core.resources.bots, 0);
    let a4 = core.tick();
    assert!(matches!(a4, Some(Action::DespawnLocalClient)));
    let a5 = core.tick();
    assert!(matches!(a5, Some(Action::DespawnLocalServer)));
    let a6 = core.tick();
    assert!(a6.is_none());
    assert_eq!(
        core.state,
        SessionState::Menu { context: MenuContext::Main }
    );
}

#[test]
fn simulation_pauses_only_for_a_private_local_session() {
    let mut core = SessionCore::new();
    assert_eq!(
        core.simulation(),
        fos_server::states::PhysicsSimulation::Paused
    );

    core.navigate_main(MainMenuContext::Singleplayer).unwrap();
    core.navigate_singleplayer(SingleplayerSetup::NewGame).unwrap();
    core.request(Request::StartLocal).unwrap();
    // The signal depends on the focus, type and visibility alone: it is
    // active as soon as the session exists with the focus on playing.
    assert_eq!(
        core.simulation(),
        fos_server::states::PhysicsSimulation::Running
    );
    wait_frames(&mut core, 2);
    assert_eq!(
        core.simulation(),
        fos_server::states::PhysicsSimulation::Running
    );

    core.toggle_focus();
    assert_eq!(core.focus(), Some(SessionStatus::Paused));
    assert_eq!(
        core.simulation(),
        fos_server::states::PhysicsSimulation::Paused
    );

    core.toggle_focus();
    core.request(Request::GoPublic).unwrap();
    wait_frames(&mut core, 3);
    core.toggle_focus();
    // Publicly visible: remote peers keep playing, so pausing the menu
    // does not stop the simulation.
    assert_eq!(
        core.simulation(),
        fos_server::states::PhysicsSimulation::Running
    );
}
