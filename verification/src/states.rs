//! The state space of the session lifecycle.
//!
//! The composite state is a sum type per phase, so that a sub-state can only
//! exist under the parent state it belongs to: a menu context only while in
//! the menu, a server visibility only for a local session, a client status
//! only for a client session.

use vstd::prelude::*;

verus! {

/// The top-level scope of the application: in the menu, or in a running game.
#[derive(Debug, Clone, Copy, PartialEq, Eq, Structural)]
pub enum AppScope {
    Menu,
    InGame,
}

/// Which top-level menu context is open.
#[derive(Debug, Clone, Copy, PartialEq, Eq, Structural)]
pub enum MainMenuContext {
    Main,
    Singleplayer,
    Multiplayer,
    Wiki,
    Settings,
}

/// The singleplayer sub-menu.
#[derive(Debug, Clone, Copy, PartialEq, Eq, Structural)]
pub enum SingleplayerSetup {
    Overview,
    NewGame,
    LoadGame,
}

/// The multiplayer sub-menu.
#[derive(Debug, Clone, Copy, PartialEq, Eq, Structural)]
pub enum MultiplayerSetup {
    Overview,
    HostNewGame,
    HostSavedGame,
    JoinGame,
}

/// What kind of session is active.
#[derive(Debug, Clone, Copy, PartialEq, Eq, Structural)]
pub enum SessionType {
    NoSession,
    Singleplayer,
    Client,
}

/// Status of a local (singleplayer or hosted) session.
#[derive(Debug, Clone, Copy, PartialEq, Eq, Structural)]
pub enum SingleplayerStatus {
    Starting,
    Running,
    Stopping,
    Failed,
}

/// Status of a remote client session.
#[derive(Debug, Clone, Copy, PartialEq, Eq, Structural)]
pub enum ClientStatus {
    Connecting,
    Syncing,
    Running,
    Disconnecting,
    Failed,
}

/// Whether a local session is reachable from other machines on the LAN.
#[derive(Debug, Clone, Copy, PartialEq, Eq, Structural)]
pub enum ServerVisibility {
    Private,
    PendingPublic,
    GoingPublic,
    Public,
    GoingPrivate,
    Failed,
}

/// Whether the player is playing or sitting in the in-game pause menu.
#[derive(Debug, Clone, Copy, PartialEq, Eq, Structural)]
pub enum SessionStatus {
    Playing,
    Paused,
}

/// An action chosen in the in-game pause menu.
#[derive(Debug, Clone, Copy, PartialEq, Eq, Structural)]
pub enum PauseMenuEvent {
    Resume,
    Settings,
    Save,
    Load,
    Exit,
}

/// The ordered steps of tearing down a local session.
#[derive(Debug, Clone, Copy, PartialEq, Eq, Structural)]
pub enum SingleplayerShutdownStep {
    DisconnectRemoteClients,
    CloseRemoteServer,
    DespawnBots,
    DespawnLocalClient,
    DespawnLocalServer,
    Done,
}

/// The ordered steps of tearing down a client session.
#[derive(Debug, Clone, Copy, PartialEq, Eq, Structural)]
pub enum ClientShutdownStep {
    DisconnectFromServer,
    DespawnLocalClient,
    Done,
}

/// A coarse view of the session, derived from the type-specific statuses.
#[derive(Debug, Clone, Copy, PartialEq, Eq, Structural)]
pub enum SessionLifecycle {
    Idle,
    Initializing,
    Loading,
    Active,
    Cleanup,
}

/// Whether the game simulation (physics, time) is advancing.
#[derive(Debug, Clone, Copy, PartialEq, Eq, Structural)]
pub enum PhysicsSimulation {
    Running,
    Paused,
}

/// The menu context, with its sub-menu where one exists.
#[derive(Debug, Clone, Copy, PartialEq, Eq, Structural)]
pub enum MenuContext {
    Main,
    Singleplayer(SingleplayerSetup),
    Multiplayer(MultiplayerSetup),
    Wiki,
    Settings,
}

/// The composite lifecycle state.
///
/// `Menu` holds the open menu context; `Local` a singleplayer or hosted
/// session; `Client` a remote client session.  Each variant carries exactly
/// the sub-states that are meaningful under it, so that an illegal
/// combination (a visibility without a local session, a client status in the
/// menu) cannot be represented.
#[derive(Debug, Clone, Copy, PartialEq, Eq, Structural)]
pub enum SessionState {
    Menu {
        context: MenuContext,
    },
    Local {
        status: SingleplayerStatus,
        visibility: ServerVisibility,
        focus: SessionStatus,
        step: SingleplayerShutdownStep,
    },
    Client {
        status: ClientStatus,
        focus: SessionStatus,
        step: ClientShutdownStep,
    },
}

impl SessionState {
    /// The top-level scope this state lies in.
    pub open spec fn spec_scope(self) -> AppScope {
        match self {
            SessionState::Menu { .. } => AppScope::Menu,
            _ => AppScope::InGame,
        }
    }

    /// The session type this state lies in.
    pub open spec fn spec_session_type(self) -> SessionType {
        match self {
            SessionState::Menu { .. } => SessionType::NoSession,
            SessionState::Local { .. } => SessionType::Singleplayer,
            SessionState::Client { .. } => SessionType::Client,
        }
    }

    /// The top-level scope this state lies in.
    pub fn scope(&self) -> (r: AppScope)
        ensures
            r == self.spec_scope(),
    {
        match self {
            SessionState::Menu { .. } => AppScope::Menu,
            _ => AppScope::InGame,
        }
    }

    /// The session type this state lies in.
    pub fn session_type(&self) -> (r: SessionType)
        ensures
            r == self.spec_session_type(),
    {
        match self {
            SessionState::Menu { .. } => SessionType::NoSession,
            SessionState::Local { .. } => SessionType::Singleplayer,
            SessionState::Client { .. } => SessionType::Client,
        }
    }
}

impl SessionLifecycle {
    /// The coarse lifecycle derived from the session type and its status.
    ///
    /// A pure derivation, recomputed on demand: `Idle` outside a session,
    /// `Loading` while one is being established, `Active` while it runs and
    /// `Cleanup` while it is being torn down.
    pub fn compute(
        session_type: SessionType,
        sp_status: Option<SingleplayerStatus>,
        client_status: Option<ClientStatus>,
    ) -> (r: SessionLifecycle)
        ensures
            r == SessionLifecycle::spec_compute(session_type, sp_status, client_status),
    {
        match session_type {
            SessionType::NoSession => SessionLifecycle::Idle,
            SessionType::Singleplayer => match sp_status {
                None => SessionLifecycle::Idle,
                Some(status) => match status {
                    SingleplayerStatus::Starting => SessionLifecycle::Loading,
                    SingleplayerStatus::Running => SessionLifecycle::Active,
                    SingleplayerStatus::Stopping => SessionLifecycle::Cleanup,
                    SingleplayerStatus::Failed => SessionLifecycle::Idle,
                },
            },
            SessionType::Client => match client_status {
                None => SessionLifecycle::Idle,
                Some(status) => match status {
                    ClientStatus::Running => SessionLifecycle::Active,
                    ClientStatus::Connecting | ClientStatus::Syncing => SessionLifecycle::Loading,
                    ClientStatus::Disconnecting => SessionLifecycle::Cleanup,
                    ClientStatus::Failed => SessionLifecycle::Idle,
                },
            },
        }
    }

    /// What `compute` returns, as a specification.
    pub open spec fn spec_compute(
        session_type: SessionType,
        sp_status: Option<SingleplayerStatus>,
        client_status: Option<ClientStatus>,
    ) -> SessionLifecycle {
        match session_type {
            SessionType::NoSession => SessionLifecycle::Idle,
            SessionType::Singleplayer => match sp_status {
                None => SessionLifecycle::Idle,
                Some(SingleplayerStatus::Starting) => SessionLifecycle::Loading,
                Some(SingleplayerStatus::Running) => SessionLifecycle::Active,
                Some(SingleplayerStatus::Stopping) => SessionLifecycle::Cleanup,
                Some(SingleplayerStatus::Failed) => SessionLifecycle::Idle,
            },
            SessionType::Client => match client_status {
                None => SessionLifecycle::Idle,
                Some(ClientStatus::Running) => SessionLifecycle::Active,
                Some(ClientStatus::Connecting) | Some(ClientStatus::Syncing)
                    => SessionLifecycle::Loading,
                Some(ClientStatus::Disconnecting) => SessionLifecycle::Cleanup,
                Some(ClientStatus::Failed) => SessionLifecycle::Idle,
            },
        }
    }
}

impl PhysicsSimulation {
    /// Whether the simulation advances, derived from the player's focus,
    /// the session type and the visibility alone; pure and side-effect-free,
    /// recomputed on demand.
    ///
    /// In a session the simulation runs while the player is playing; it
    /// also keeps running behind the pause menu for a client session, and
    /// for a local session that is visible beyond the loopback (remote
    /// peers are still playing).  Outside a session there is nothing to
    /// simulate.
    pub fn compute(
        focus: SessionStatus,
        session_type: SessionType,
        visibility: ServerVisibility,
    ) -> (r: PhysicsSimulation)
        ensures
            r == PhysicsSimulation::spec_compute(focus, session_type, visibility),
    {
        match session_type {
            SessionType::NoSession => PhysicsSimulation::Paused,
            SessionType::Client => PhysicsSimulation::Running,
            SessionType::Singleplayer => {
                if focus == SessionStatus::Playing {
                    PhysicsSimulation::Running
                } else {
                    match visibility {
                        ServerVisibility::Private => PhysicsSimulation::Paused,
                        _ => PhysicsSimulation::Running,
                    }
                }
            },
        }
    }

    /// What `compute` returns, as a specification: active exactly when the
    /// focus is on playing, or the session is a client session, or it is a
    /// local session whose visibility is not private.
    pub open spec fn spec_compute(
        focus: SessionStatus,
        session_type: SessionType,
        visibility: ServerVisibility,
    ) -> PhysicsSimulation {
        if session_type != SessionType::NoSession && (focus == SessionStatus::Playing
            || session_type == SessionType::Client || (session_type == SessionType::Singleplayer
            && visibility != ServerVisibility::Private)) {
            PhysicsSimulation::Running
        } else {
            PhysicsSimulation::Paused
        }
    }
}

} // verus!
