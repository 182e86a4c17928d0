//! The session lifecycle state machine and its orchestration.
//!
//! A [`SessionCore`] holds the composite lifecycle state, a model of the
//! transport-side resources the session owns, the validated connection
//! target and the configured ports.  The embedding application raises
//! lifecycle requests, drives one [`SessionCore::tick`] per control-loop
//! iteration, performs the returned [`Action`]s against the real transport,
//! and reports transport events back.  Every request is validated against
//! the current state and either rejected with a reason and no state change,
//! or applied; the multi-step shutdown is driven one step per tick, in
//! order.

use vstd::prelude::*;

use crate::identity::NetworkIdentity;
use crate::states::{
    ClientShutdownStep, ClientStatus, MenuContext, MultiplayerSetup, SessionState, SessionStatus,
    SingleplayerSetup, SingleplayerShutdownStep, SingleplayerStatus, ServerVisibility,
};
use crate::target::{valid_port_str, dec_value, ClientTarget};

verus! {

/// The port a public listener binds when the configured port does not
/// parse: the game port that discovery replies advertise, so a discovered
/// URL reaches the listener under the default configuration.
pub const DEFAULT_LAN_PORT: u16 = crate::discovery::GAME_PORT;

/// A lifecycle request, as raised by the user interface.
#[derive(Debug, Clone, Copy, PartialEq, Eq, Structural)]
pub enum Request {
    StartLocal,
    StopLocal,
    GoPublic,
    GoPrivate,
    Connect,
    Disconnect,
    Retry,
    ResetToMenu,
}

/// Why a lifecycle request was rejected.  A rejected request changes
/// nothing.
#[derive(Debug, Clone, Copy, PartialEq, Eq, Structural)]
pub enum RejectedReason {
    /// The request is not valid in the current phase or status.
    WrongPhase,
    /// The request belongs to another session type.
    WrongSessionType,
    /// The requested transition is already under way or already done.
    AlreadyInProgress,
    /// The request needs a valid connection target and there is none.
    ValidationError,
}

/// The lifecycle of the host's LAN listener, as confirmed by the transport.
#[derive(Debug, Clone, Copy, PartialEq, Eq, Structural)]
pub enum ListenerState {
    Closed,
    Opening,
    Open,
    Closing,
}

/// The transport-side resources a session holds, as far as they have been
/// confirmed: the local loopback peers, in-process bots, remote peers
/// attached to the listener, the listener itself, and the client-side
/// connection handle.
#[derive(Debug, Clone, Copy, PartialEq, Eq, Structural)]
pub struct SessionResources {
    pub local_server: bool,
    pub local_client: bool,
    pub bots: u64,
    pub remote_clients: u64,
    pub listener: ListenerState,
    pub connections: u64,
}

impl SessionResources {
    /// No resources at all.
    pub fn empty() -> (r: SessionResources)
        ensures
            r == SessionResources::spec_empty(),
    {
        SessionResources {
            local_server: false,
            local_client: false,
            bots: 0,
            remote_clients: 0,
            listener: ListenerState::Closed,
            connections: 0,
        }
    }

    /// No resources at all.
    pub open spec fn spec_empty() -> SessionResources {
        SessionResources {
            local_server: false,
            local_client: false,
            bots: 0,
            remote_clients: 0,
            listener: ListenerState::Closed,
            connections: 0,
        }
    }
}

/// Connection configuration: the default target host and the port the LAN
/// listener binds.
pub struct ConnectionConfig {
    pub target_ip: String,
    pub lan_port: String,
}

impl Default for ConnectionConfig {
    /// The loopback host and the default game port.
    fn default() -> (r: ConnectionConfig)
        ensures
            r.target_ip@ == "127.0.0.1"@,
            r.lan_port@ == "25571"@,
    {
        ConnectionConfig {
            target_ip: String::from_str("127.0.0.1"),
            lan_port: String::from_str("25571"),
        }
    }
}

/// A side effect the control loop must perform against the real transport.
pub enum Action {
    /// Provision the in-process loopback transport (server and client peer).
    OpenLoopback,
    /// Send a graceful close to every remote peer attached to the listener.
    DisconnectRemoteClients,
    /// Close the LAN listener.
    CloseListener,
    /// Despawn the in-process bot peers.
    DespawnBots,
    /// Despawn the local loopback client peer.
    DespawnLocalClient,
    /// Despawn the local loopback server peer.
    DespawnLocalServer,
    /// Bind the LAN listener on the given port.
    OpenListener(u16),
    /// Open a transport session to the given address.
    ConnectToServer(String),
    /// Send a graceful close to the remote server.
    DisconnectFromServer,
}

/// The mathematical value of an [`Action`].
pub enum ActionV {
    OpenLoopback,
    DisconnectRemoteClients,
    CloseListener,
    DespawnBots,
    DespawnLocalClient,
    DespawnLocalServer,
    OpenListener(u16),
    ConnectToServer(Seq<char>),
    DisconnectFromServer,
}

impl View for Action {
    type V = ActionV;

    open spec fn view(&self) -> ActionV {
        match self {
            Action::OpenLoopback => ActionV::OpenLoopback,
            Action::DisconnectRemoteClients => ActionV::DisconnectRemoteClients,
            Action::CloseListener => ActionV::CloseListener,
            Action::DespawnBots => ActionV::DespawnBots,
            Action::DespawnLocalClient => ActionV::DespawnLocalClient,
            Action::DespawnLocalServer => ActionV::DespawnLocalServer,
            Action::OpenListener(p) => ActionV::OpenListener(*p),
            Action::ConnectToServer(url) => ActionV::ConnectToServer(url@),
            Action::DisconnectFromServer => ActionV::DisconnectFromServer,
        }
    }
}

/// The value of an optional action.
pub open spec fn opt_action_view(a: Option<Action>) -> Option<ActionV> {
    match a {
        Option::None => Option::None,
        Option::Some(x) => Option::Some(x@),
    }
}

/// The session lifecycle core: the composite state, the resource model, the
/// connection target and configuration, the current identity and the current
/// error message.
pub struct SessionCore {
    pub state: SessionState,
    pub resources: SessionResources,
    pub target: ClientTarget,
    pub config: ConnectionConfig,
    pub identity: Option<NetworkIdentity>,
    pub error: Option<String>,
}

/// The position of a local shutdown step in its fixed order.
pub open spec fn sp_step_index(step: SingleplayerShutdownStep) -> int {
    match step {
        SingleplayerShutdownStep::DisconnectRemoteClients => 0,
        SingleplayerShutdownStep::CloseRemoteServer => 1,
        SingleplayerShutdownStep::DespawnBots => 2,
        SingleplayerShutdownStep::DespawnLocalClient => 3,
        SingleplayerShutdownStep::DespawnLocalServer => 4,
        SingleplayerShutdownStep::Done => 5,
    }
}

/// The position of a client shutdown step in its fixed order.
pub open spec fn cl_step_index(step: ClientShutdownStep) -> int {
    match step {
        ClientShutdownStep::DisconnectFromServer => 0,
        ClientShutdownStep::DespawnLocalClient => 1,
        ClientShutdownStep::Done => 2,
    }
}

/// Each completed shutdown step has released its resource: the sequencer
/// only advances after its step's effect is done.
pub open spec fn shutdown_progress(step: SingleplayerShutdownStep, r: SessionResources) -> bool {
    &&& (sp_step_index(step) >= 1 ==> r.remote_clients == 0)
    &&& (sp_step_index(step) >= 2 ==> r.listener is Closed)
    &&& (sp_step_index(step) >= 3 ==> r.bots == 0)
    &&& (sp_step_index(step) >= 4 ==> !r.local_client)
    &&& (sp_step_index(step) >= 5 ==> !r.local_server)
}

impl SessionCore {
    /// Well-formedness: at most one connection handle; resources only exist
    /// under the session that owns them; a shutdown step is at its first
    /// value unless its sequencer runs, and a sequencer never runs ahead of
    /// its confirmed effects; an identity only exists for a local session;
    /// the target's derived fields agree with its raw text.
    pub open spec fn wf(self) -> bool {
        &&& self.resources.connections <= 1
        &&& (self.resources.connections != 0 ==> (self.state matches SessionState::Client {
            status,
            ..
        } && status !is Failed))
        &&& (self.state matches SessionState::Local {
            status: SingleplayerStatus::Stopping,
            step,
            ..
        } ==> shutdown_progress(step, self.resources))
        &&& (self.state matches SessionState::Client {
            status: ClientStatus::Disconnecting,
            step,
            ..
        } ==> (step is Done ==> self.resources.connections == 0))
        &&& (self.state matches SessionState::Local { status, step, .. } ==> (status
            !is Stopping ==> step == SingleplayerShutdownStep::DisconnectRemoteClients))
        &&& (self.state matches SessionState::Client { status, step, .. } ==> (status
            !is Disconnecting ==> step == ClientShutdownStep::DisconnectFromServer))
        &&& (!(self.state is Local) ==> self.resources.listener is Closed
            && self.resources.remote_clients == 0 && self.resources.bots == 0
            && !self.resources.local_server && !self.resources.local_client)
        &&& (self.identity matches Some(id) ==> id.wf() && self.state is Local)
        &&& self.target.wf()
    }

    /// A fresh core: in the main menu, with no resources, no target, the
    /// default configuration, no identity and no error.
    pub fn new() -> (r: SessionCore)
        ensures
            r.wf(),
            r.state == (SessionState::Menu { context: MenuContext::Main }),
            r.resources == SessionResources::spec_empty(),
            !r.target.is_valid,
            r.identity is None,
            r.error is None,
    {
        SessionCore {
            state: SessionState::Menu { context: MenuContext::Main },
            resources: SessionResources::empty(),
            target: ClientTarget::new(),
            config: ConnectionConfig::default(),
            identity: Option::None,
            error: Option::None,
        }
    }

    /// Replaces the connection target's raw text, re-validating it.
    /// Nothing else changes.
    pub fn set_target(&mut self, input: String)
        requires
            old(self).wf(),
        ensures
            final(self).wf(),
            final(self).state == old(self).state,
            final(self).resources == old(self).resources,
            final(self).identity == old(self).identity,
            final(self).error == old(self).error,
            final(self).target.input@ == input@,
            final(self).target.is_valid == (crate::target::spec_parse_target(input@) is Some),
    {
        self.target.update_input(input);
    }

    // --- the request guards ---

    /// What [`Self::request`] does for `StartLocal`: only from a menu
    /// context that is about to start or load a game; a hosting context
    /// queues the session to go public once it runs.
    pub open spec fn start_local_spec(v: SessionCore) -> (SessionCore, Result<
        (),
        RejectedReason,
    >) {
        match v.state {
            SessionState::Menu { context } => match context {
                MenuContext::Singleplayer(SingleplayerSetup::NewGame)
                | MenuContext::Singleplayer(SingleplayerSetup::LoadGame) => (
                    SessionCore {
                        state: SessionState::Local {
                            status: SingleplayerStatus::Starting,
                            visibility: ServerVisibility::Private,
                            focus: SessionStatus::Playing,
                            step: SingleplayerShutdownStep::DisconnectRemoteClients,
                        },
                        ..v
                    },
                    Result::Ok(()),
                ),
                MenuContext::Multiplayer(MultiplayerSetup::HostNewGame)
                | MenuContext::Multiplayer(MultiplayerSetup::HostSavedGame) => (
                    SessionCore {
                        state: SessionState::Local {
                            status: SingleplayerStatus::Starting,
                            visibility: ServerVisibility::PendingPublic,
                            focus: SessionStatus::Playing,
                            step: SingleplayerShutdownStep::DisconnectRemoteClients,
                        },
                        ..v
                    },
                    Result::Ok(()),
                ),
                _ => (v, Result::Err(RejectedReason::WrongPhase)),
            },
            SessionState::Local { .. } => (v, Result::Err(RejectedReason::AlreadyInProgress)),
            SessionState::Client { .. } => (v, Result::Err(RejectedReason::WrongSessionType)),
        }
    }

    /// What [`Self::request`] does for `StopLocal`: only from a running
    /// local session; starts the shutdown sequencer at its first step.
    pub open spec fn stop_local_spec(v: SessionCore) -> (SessionCore, Result<
        (),
        RejectedReason,
    >) {
        match v.state {
            SessionState::Local { status, visibility, focus, .. } => match status {
                SingleplayerStatus::Running => (
                    SessionCore {
                        state: SessionState::Local {
                            status: SingleplayerStatus::Stopping,
                            visibility,
                            focus,
                            step: SingleplayerShutdownStep::DisconnectRemoteClients,
                        },
                        ..v
                    },
                    Result::Ok(()),
                ),
                SingleplayerStatus::Stopping => (
                    v,
                    Result::Err(RejectedReason::AlreadyInProgress),
                ),
                _ => (v, Result::Err(RejectedReason::WrongPhase)),
            },
            SessionState::Client { .. } => (v, Result::Err(RejectedReason::WrongSessionType)),
            SessionState::Menu { .. } => (v, Result::Err(RejectedReason::WrongPhase)),
        }
    }

    /// What [`Self::request`] does for `GoPublic`: only from a running local
    /// session that is private.  A failed visibility attempt must be
    /// acknowledged by `GoPrivate` first.
    pub open spec fn go_public_spec(v: SessionCore) -> (SessionCore, Result<
        (),
        RejectedReason,
    >) {
        match v.state {
            SessionState::Local { status, visibility, focus, step } => match status {
                SingleplayerStatus::Running => match visibility {
                    ServerVisibility::Private => (
                        SessionCore {
                            state: SessionState::Local {
                                status,
                                visibility: ServerVisibility::GoingPublic,
                                focus,
                                step,
                            },
                            ..v
                        },
                        Result::Ok(()),
                    ),
                    ServerVisibility::Failed => (v, Result::Err(RejectedReason::WrongPhase)),
                    _ => (v, Result::Err(RejectedReason::AlreadyInProgress)),
                },
                _ => (v, Result::Err(RejectedReason::WrongPhase)),
            },
            SessionState::Client { .. } => (v, Result::Err(RejectedReason::WrongSessionType)),
            SessionState::Menu { .. } => (v, Result::Err(RejectedReason::WrongPhase)),
        }
    }

    /// What [`Self::request`] does for `GoPrivate`.  A pending attempt is
    /// abandoned on the spot; an open or opening listener is drained and
    /// closed over the following ticks; a failed attempt is acknowledged,
    /// clearing the error.
    pub open spec fn go_private_spec(v: SessionCore) -> (SessionCore, Result<
        (),
        RejectedReason,
    >) {
        match v.state {
            SessionState::Local { status, visibility, focus, step } => match status {
                SingleplayerStatus::Running => match visibility {
                    ServerVisibility::PendingPublic => (
                        SessionCore {
                            state: SessionState::Local {
                                status,
                                visibility: ServerVisibility::Private,
                                focus,
                                step,
                            },
                            ..v
                        },
                        Result::Ok(()),
                    ),
                    ServerVisibility::Public | ServerVisibility::GoingPublic => (
                        SessionCore {
                            state: SessionState::Local {
                                status,
                                visibility: ServerVisibility::GoingPrivate,
                                focus,
                                step,
                            },
                            ..v
                        },
                        Result::Ok(()),
                    ),
                    ServerVisibility::Failed => (
                        SessionCore {
                            state: SessionState::Local {
                                status,
                                visibility: ServerVisibility::Private,
                                focus,
                                step,
                            },
                            identity: Option::None,
                            error: Option::None,
                            ..v
                        },
                        Result::Ok(()),
                    ),
                    _ => (v, Result::Err(RejectedReason::AlreadyInProgress)),
                },
                _ => (v, Result::Err(RejectedReason::WrongPhase)),
            },
            SessionState::Client { .. } => (v, Result::Err(RejectedReason::WrongSessionType)),
            SessionState::Menu { .. } => (v, Result::Err(RejectedReason::WrongPhase)),
        }
    }

    /// What [`Self::request`] does for `Connect`: only from the join-game
    /// menu context, and only with a valid target; an invalid target is a
    /// validation error and changes nothing.
    pub open spec fn connect_spec(v: SessionCore) -> (SessionCore, Result<(), RejectedReason>) {
        match v.state {
            SessionState::Menu { context } => match context {
                MenuContext::Multiplayer(MultiplayerSetup::JoinGame) => if v.target.is_valid {
                    (
                        SessionCore {
                            state: SessionState::Client {
                                status: ClientStatus::Connecting,
                                focus: SessionStatus::Playing,
                                step: ClientShutdownStep::DisconnectFromServer,
                            },
                            ..v
                        },
                        Result::Ok(()),
                    )
                } else {
                    (v, Result::Err(RejectedReason::ValidationError))
                },
                _ => (v, Result::Err(RejectedReason::WrongPhase)),
            },
            SessionState::Local { .. } => (v, Result::Err(RejectedReason::WrongSessionType)),
            SessionState::Client { .. } => (v, Result::Err(RejectedReason::AlreadyInProgress)),
        }
    }

    /// What [`Self::request`] does for `Disconnect`: only from a running or
    /// failed client session; starts the client teardown sequencer.
    pub open spec fn disconnect_spec(v: SessionCore) -> (SessionCore, Result<
        (),
        RejectedReason,
    >) {
        match v.state {
            SessionState::Client { status, focus, .. } => match status {
                ClientStatus::Running | ClientStatus::Failed => (
                    SessionCore {
                        state: SessionState::Client {
                            status: ClientStatus::Disconnecting,
                            focus,
                            step: ClientShutdownStep::DisconnectFromServer,
                        },
                        ..v
                    },
                    Result::Ok(()),
                ),
                ClientStatus::Disconnecting => (
                    v,
                    Result::Err(RejectedReason::AlreadyInProgress),
                ),
                _ => (v, Result::Err(RejectedReason::WrongPhase)),
            },
            SessionState::Local { .. } => (v, Result::Err(RejectedReason::WrongSessionType)),
            SessionState::Menu { .. } => (v, Result::Err(RejectedReason::WrongPhase)),
        }
    }

    /// What [`Self::request`] does for `Retry`: only from a failed client
    /// session, and only once the target has been re-validated; the stale
    /// connection handle, if any, is dropped before the new attempt opens.
    pub open spec fn retry_spec(v: SessionCore) -> (SessionCore, Result<(), RejectedReason>) {
        match v.state {
            SessionState::Client { status, focus, .. } => match status {
                ClientStatus::Failed => if v.target.is_valid {
                    (
                        SessionCore {
                            state: SessionState::Client {
                                status: ClientStatus::Connecting,
                                focus,
                                step: ClientShutdownStep::DisconnectFromServer,
                            },
                            ..v
                        },
                        Result::Ok(()),
                    )
                } else {
                    (v, Result::Err(RejectedReason::ValidationError))
                },
                ClientStatus::Connecting => (v, Result::Err(RejectedReason::AlreadyInProgress)),
                _ => (v, Result::Err(RejectedReason::WrongPhase)),
            },
            SessionState::Local { .. } => (v, Result::Err(RejectedReason::WrongSessionType)),
            SessionState::Menu { .. } => (v, Result::Err(RejectedReason::WrongPhase)),
        }
    }

    /// What [`Self::request`] does for `ResetToMenu`: a failed client
    /// session returns to the main menu; a failed local session is torn
    /// down through the ordered shutdown sequencer.
    pub open spec fn reset_spec(v: SessionCore) -> (SessionCore, Result<(), RejectedReason>) {
        match v.state {
            SessionState::Client { status, .. } => match status {
                ClientStatus::Failed => (
                    SessionCore {
                        state: SessionState::Menu { context: MenuContext::Main },
                        error: Option::None,
                        ..v
                    },
                    Result::Ok(()),
                ),
                _ => (v, Result::Err(RejectedReason::WrongPhase)),
            },
            SessionState::Local { status, visibility, focus, .. } => match status {
                SingleplayerStatus::Failed => (
                    SessionCore {
                        state: SessionState::Local {
                            status: SingleplayerStatus::Stopping,
                            visibility,
                            focus,
                            step: SingleplayerShutdownStep::DisconnectRemoteClients,
                        },
                        ..v
                    },
                    Result::Ok(()),
                ),
                _ => (v, Result::Err(RejectedReason::WrongPhase)),
            },
            SessionState::Menu { .. } => (v, Result::Err(RejectedReason::WrongPhase)),
        }
    }

    /// What [`Self::request`] does, per request kind.
    pub open spec fn request_spec(v: SessionCore, r: Request) -> (SessionCore, Result<
        (),
        RejectedReason,
    >) {
        match r {
            Request::StartLocal => Self::start_local_spec(v),
            Request::StopLocal => Self::stop_local_spec(v),
            Request::GoPublic => Self::go_public_spec(v),
            Request::GoPrivate => Self::go_private_spec(v),
            Request::Connect => Self::connect_spec(v),
            Request::Disconnect => Self::disconnect_spec(v),
            Request::Retry => Self::retry_spec(v),
            Request::ResetToMenu => Self::reset_spec(v),
        }
    }

    /// Validates a lifecycle request against the current state and either
    /// applies it or rejects it with a reason.
    ///
    /// A rejected request changes nothing at all: this is the guard that
    /// makes duplicate requests harmless.  Exactly what each request does is
    /// given by [`Self::request_spec`] and the per-request specifications it
    /// delegates to.
    pub fn request(&mut self, r: Request) -> (res: Result<(), RejectedReason>)
        requires
            old(self).wf(),
        ensures
            final(self).wf(),
            (*final(self), res) == Self::request_spec(*old(self), r),
            res is Err ==> *final(self) == *old(self),
    {
        match r {
            Request::StartLocal => match self.state {
                SessionState::Menu { context } => match context {
                    MenuContext::Singleplayer(SingleplayerSetup::NewGame)
                    | MenuContext::Singleplayer(SingleplayerSetup::LoadGame) => {
                        self.state = SessionState::Local {
                            status: SingleplayerStatus::Starting,
                            visibility: ServerVisibility::Private,
                            focus: SessionStatus::Playing,
                            step: SingleplayerShutdownStep::DisconnectRemoteClients,
                        };
                        Result::Ok(())
                    },
                    MenuContext::Multiplayer(MultiplayerSetup::HostNewGame)
                    | MenuContext::Multiplayer(MultiplayerSetup::HostSavedGame) => {
                        self.state = SessionState::Local {
                            status: SingleplayerStatus::Starting,
                            visibility: ServerVisibility::PendingPublic,
                            focus: SessionStatus::Playing,
                            step: SingleplayerShutdownStep::DisconnectRemoteClients,
                        };
                        Result::Ok(())
                    },
                    _ => Result::Err(RejectedReason::WrongPhase),
                },
                SessionState::Local { .. } => Result::Err(RejectedReason::AlreadyInProgress),
                SessionState::Client { .. } => Result::Err(RejectedReason::WrongSessionType),
            },
            Request::StopLocal => match self.state {
                SessionState::Local { status, visibility, focus, .. } => match status {
                    SingleplayerStatus::Running => {
                        self.state = SessionState::Local {
                            status: SingleplayerStatus::Stopping,
                            visibility,
                            focus,
                            step: SingleplayerShutdownStep::DisconnectRemoteClients,
                        };
                        Result::Ok(())
                    },
                    SingleplayerStatus::Stopping => Result::Err(
                        RejectedReason::AlreadyInProgress,
                    ),
                    _ => Result::Err(RejectedReason::WrongPhase),
                },
                SessionState::Client { .. } => Result::Err(RejectedReason::WrongSessionType),
                SessionState::Menu { .. } => Result::Err(RejectedReason::WrongPhase),
            },
            Request::GoPublic => match self.state {
                SessionState::Local { status, visibility, focus, step } => match status {
                    SingleplayerStatus::Running => match visibility {
                        ServerVisibility::Private => {
                            self.state = SessionState::Local {
                                status,
                                visibility: ServerVisibility::GoingPublic,
                                focus,
                                step,
                            };
                            Result::Ok(())
                        },
                        ServerVisibility::Failed => Result::Err(RejectedReason::WrongPhase),
                        _ => Result::Err(RejectedReason::AlreadyInProgress),
                    },
                    _ => Result::Err(RejectedReason::WrongPhase),
                },
                SessionState::Client { .. } => Result::Err(RejectedReason::WrongSessionType),
                SessionState::Menu { .. } => Result::Err(RejectedReason::WrongPhase),
            },
            Request::GoPrivate => match self.state {
                SessionState::Local { status, visibility, focus, step } => match status {
                    SingleplayerStatus::Running => match visibility {
                        ServerVisibility::PendingPublic => {
                            self.state = SessionState::Local {
                                status,
                                visibility: ServerVisibility::Private,
                                focus,
                                step,
                            };
                            Result::Ok(())
                        },
                        ServerVisibility::Public | ServerVisibility::GoingPublic => {
                            self.state = SessionState::Local {
                                status,
                                visibility: ServerVisibility::GoingPrivate,
                                focus,
                                step,
                            };
                            Result::Ok(())
                        },
                        ServerVisibility::Failed => {
                            self.state = SessionState::Local {
                                status,
                                visibility: ServerVisibility::Private,
                                focus,
                                step,
                            };
                            self.identity = Option::None;
                            self.error = Option::None;
                            Result::Ok(())
                        },
                        _ => Result::Err(RejectedReason::AlreadyInProgress),
                    },
                    _ => Result::Err(RejectedReason::WrongPhase),
                },
                SessionState::Client { .. } => Result::Err(RejectedReason::WrongSessionType),
                SessionState::Menu { .. } => Result::Err(RejectedReason::WrongPhase),
            },
            Request::Connect => match self.state {
                SessionState::Menu { context } => match context {
                    MenuContext::Multiplayer(MultiplayerSetup::JoinGame) => {
                        if self.target.is_valid {
                            self.state = SessionState::Client {
                                status: ClientStatus::Connecting,
                                focus: SessionStatus::Playing,
                                step: ClientShutdownStep::DisconnectFromServer,
                            };
                            Result::Ok(())
                        } else {
                            Result::Err(RejectedReason::ValidationError)
                        }
                    },
                    _ => Result::Err(RejectedReason::WrongPhase),
                },
                SessionState::Local { .. } => Result::Err(RejectedReason::WrongSessionType),
                SessionState::Client { .. } => Result::Err(RejectedReason::AlreadyInProgress),
            },
            Request::Disconnect => match self.state {
                SessionState::Client { status, focus, .. } => match status {
                    ClientStatus::Running | ClientStatus::Failed => {
                        self.state = SessionState::Client {
                            status: ClientStatus::Disconnecting,
                            focus,
                            step: ClientShutdownStep::DisconnectFromServer,
                        };
                        Result::Ok(())
                    },
                    ClientStatus::Disconnecting => Result::Err(
                        RejectedReason::AlreadyInProgress,
                    ),
                    _ => Result::Err(RejectedReason::WrongPhase),
                },
                SessionState::Local { .. } => Result::Err(RejectedReason::WrongSessionType),
                SessionState::Menu { .. } => Result::Err(RejectedReason::WrongPhase),
            },
            Request::Retry => match self.state {
                SessionState::Client { status, focus, .. } => match status {
                    ClientStatus::Failed => {
                        if self.target.is_valid {
                            self.state = SessionState::Client {
                                status: ClientStatus::Connecting,
                                focus,
                                step: ClientShutdownStep::DisconnectFromServer,
                            };
                            Result::Ok(())
                        } else {
                            Result::Err(RejectedReason::ValidationError)
                        }
                    },
                    ClientStatus::Connecting => Result::Err(
                        RejectedReason::AlreadyInProgress,
                    ),
                    _ => Result::Err(RejectedReason::WrongPhase),
                },
                SessionState::Local { .. } => Result::Err(RejectedReason::WrongSessionType),
                SessionState::Menu { .. } => Result::Err(RejectedReason::WrongPhase),
            },
            Request::ResetToMenu => match self.state {
                SessionState::Client { status, .. } => match status {
                    ClientStatus::Failed => {
                        self.state = SessionState::Menu { context: MenuContext::Main };
                        self.error = Option::None;
                        Result::Ok(())
                    },
                    _ => Result::Err(RejectedReason::WrongPhase),
                },
                SessionState::Local { status, visibility, focus, .. } => match status {
                    SingleplayerStatus::Failed => {
                        self.state = SessionState::Local {
                            status: SingleplayerStatus::Stopping,
                            visibility,
                            focus,
                            step: SingleplayerShutdownStep::DisconnectRemoteClients,
                        };
                        Result::Ok(())
                    },
                    _ => Result::Err(RejectedReason::WrongPhase),
                },
                SessionState::Menu { .. } => Result::Err(RejectedReason::WrongPhase),
            },
        }
    }

    // --- the control-loop tick ---

    /// The port the LAN listener binds: the configured text parsed as a
    /// decimal port, or the default when it does not parse.
    pub open spec fn lan_port_of(s: Seq<char>) -> u16 {
        if valid_port_str(s) {
            dec_value(s) as u16
        } else {
            DEFAULT_LAN_PORT
        }
    }

    /// Whether the next tick must generate a TLS identity: the session is
    /// going public and none has been generated yet.
    pub open spec fn needs_identity(v: SessionCore) -> bool {
        v.state matches SessionState::Local {
            status: SingleplayerStatus::Running,
            visibility: ServerVisibility::GoingPublic,
            ..
        } && v.identity is None
    }

    /// What [`Self::tick`] does, except for the identity-generating case
    /// (see [`Self::needs_identity`]), whose outcome depends on key
    /// generation and is specified on `tick` itself.
    pub open spec fn tick_spec(v: SessionCore) -> (SessionCore, Option<ActionV>) {
        match v.state {
            SessionState::Menu { .. } => (v, Option::None),
            SessionState::Local { status, visibility, focus, step } => match status {
                SingleplayerStatus::Starting => if !v.resources.local_server {
                    (
                        SessionCore {
                            resources: SessionResources {
                                local_server: true,
                                local_client: true,
                                ..v.resources
                            },
                            ..v
                        },
                        Option::Some(ActionV::OpenLoopback),
                    )
                } else {
                    (
                        SessionCore {
                            state: SessionState::Local {
                                status: SingleplayerStatus::Running,
                                visibility,
                                focus: SessionStatus::Playing,
                                step,
                            },
                            ..v
                        },
                        Option::None,
                    )
                },
                SingleplayerStatus::Running => match visibility {
                    ServerVisibility::PendingPublic => (
                        SessionCore {
                            state: SessionState::Local {
                                status,
                                visibility: ServerVisibility::GoingPublic,
                                focus,
                                step,
                            },
                            ..v
                        },
                        Option::None,
                    ),
                    ServerVisibility::GoingPublic => if v.identity is Some
                        && v.resources.listener is Closed {
                        (
                            SessionCore {
                                resources: SessionResources {
                                    listener: ListenerState::Opening,
                                    ..v.resources
                                },
                                ..v
                            },
                            Option::Some(
                                ActionV::OpenListener(Self::lan_port_of(v.config.lan_port@)),
                            ),
                        )
                    } else {
                        (v, Option::None)
                    },
                    ServerVisibility::GoingPrivate => if v.resources.remote_clients > 0 {
                        (v, Option::Some(ActionV::DisconnectRemoteClients))
                    } else {
                        match v.resources.listener {
                            ListenerState::Opening | ListenerState::Open => (
                                SessionCore {
                                    resources: SessionResources {
                                        listener: ListenerState::Closing,
                                        ..v.resources
                                    },
                                    ..v
                                },
                                Option::Some(ActionV::CloseListener),
                            ),
                            ListenerState::Closing => (v, Option::None),
                            ListenerState::Closed => (
                                SessionCore {
                                    state: SessionState::Local {
                                        status,
                                        visibility: ServerVisibility::Private,
                                        focus,
                                        step,
                                    },
                                    identity: Option::None,
                                    ..v
                                },
                                Option::None,
                            ),
                        }
                    },
                    _ => (v, Option::None),
                },
                SingleplayerStatus::Stopping => match step {
                    SingleplayerShutdownStep::DisconnectRemoteClients => (
                        SessionCore {
                            state: SessionState::Local {
                                status,
                                visibility,
                                focus,
                                step: SingleplayerShutdownStep::CloseRemoteServer,
                            },
                            resources: SessionResources { remote_clients: 0, ..v.resources },
                            ..v
                        },
                        if v.resources.remote_clients > 0 {
                            Option::Some(ActionV::DisconnectRemoteClients)
                        } else {
                            Option::None
                        },
                    ),
                    SingleplayerShutdownStep::CloseRemoteServer => (
                        SessionCore {
                            state: SessionState::Local {
                                status,
                                visibility,
                                focus,
                                step: SingleplayerShutdownStep::DespawnBots,
                            },
                            resources: SessionResources {
                                listener: ListenerState::Closed,
                                ..v.resources
                            },
                            ..v
                        },
                        if !(v.resources.listener is Closed) {
                            Option::Some(ActionV::CloseListener)
                        } else {
                            Option::None
                        },
                    ),
                    SingleplayerShutdownStep::DespawnBots => (
                        SessionCore {
                            state: SessionState::Local {
                                status,
                                visibility,
                                focus,
                                step: SingleplayerShutdownStep::DespawnLocalClient,
                            },
                            resources: SessionResources { bots: 0, ..v.resources },
                            ..v
                        },
                        if v.resources.bots > 0 {
                            Option::Some(ActionV::DespawnBots)
                        } else {
                            Option::None
                        },
                    ),
                    SingleplayerShutdownStep::DespawnLocalClient => (
                        SessionCore {
                            state: SessionState::Local {
                                status,
                                visibility,
                                focus,
                                step: SingleplayerShutdownStep::DespawnLocalServer,
                            },
                            resources: SessionResources { local_client: false, ..v.resources },
                            ..v
                        },
                        if v.resources.local_client {
                            Option::Some(ActionV::DespawnLocalClient)
                        } else {
                            Option::None
                        },
                    ),
                    SingleplayerShutdownStep::DespawnLocalServer => (
                        SessionCore {
                            state: SessionState::Local {
                                status,
                                visibility,
                                focus,
                                step: SingleplayerShutdownStep::Done,
                            },
                            resources: SessionResources { local_server: false, ..v.resources },
                            ..v
                        },
                        if v.resources.local_server {
                            Option::Some(ActionV::DespawnLocalServer)
                        } else {
                            Option::None
                        },
                    ),
                    SingleplayerShutdownStep::Done => (
                        SessionCore {
                            state: SessionState::Menu { context: MenuContext::Main },
                            identity: Option::None,
                            error: Option::None,
                            ..v
                        },
                        Option::None,
                    ),
                },
                SingleplayerStatus::Failed => (v, Option::None),
            },
            SessionState::Client { status, focus, step } => match status {
                ClientStatus::Connecting => if v.resources.connections == 0 {
                    (
                        SessionCore {
                            resources: SessionResources { connections: 1, ..v.resources },
                            ..v
                        },
                        Option::Some(ActionV::ConnectToServer(v.target.real_address@)),
                    )
                } else {
                    (v, Option::None)
                },
                ClientStatus::Syncing => (
                    SessionCore {
                        state: SessionState::Client {
                            status: ClientStatus::Running,
                            focus,
                            step,
                        },
                        ..v
                    },
                    Option::None,
                ),
                ClientStatus::Running => (v, Option::None),
                ClientStatus::Disconnecting => match step {
                    ClientShutdownStep::DisconnectFromServer => (
                        SessionCore {
                            state: SessionState::Client {
                                status,
                                focus,
                                step: ClientShutdownStep::DespawnLocalClient,
                            },
                            ..v
                        },
                        if v.resources.connections > 0 {
                            Option::Some(ActionV::DisconnectFromServer)
                        } else {
                            Option::None
                        },
                    ),
                    ClientShutdownStep::DespawnLocalClient => (
                        SessionCore {
                            state: SessionState::Client {
                                status,
                                focus,
                                step: ClientShutdownStep::Done,
                            },
                            resources: SessionResources { connections: 0, ..v.resources },
                            ..v
                        },
                        if v.resources.connections > 0 {
                            Option::Some(ActionV::DespawnLocalClient)
                        } else {
                            Option::None
                        },
                    ),
                    ClientShutdownStep::Done => (
                        SessionCore {
                            state: SessionState::Menu { context: MenuContext::Main },
                            error: Option::None,
                            ..v
                        },
                        Option::None,
                    ),
                },
                ClientStatus::Failed => (v, Option::None),
            },
        }
    }

    /// The configured LAN port, with the documented fallback.
    fn lan_port_value(&self) -> (r: u16)
        ensures
            r == Self::lan_port_of(self.config.lan_port@),
    {
        let s = self.config.lan_port.as_str();
        let n = s.unicode_len();
        proof {
            assert(s@.subrange(0, n as int) =~= s@);
        }
        if n < 1 || n > 5 {
            return DEFAULT_LAN_PORT;
        }
        if !crate::target::check_digits(s, 0, n) {
            return DEFAULT_LAN_PORT;
        }
        let v = crate::target::dec_value_exec(s, 0, n);
        if v > 65535 {
            return DEFAULT_LAN_PORT;
        }
        v as u16
    }

    /// One control-loop tick: drives the starting handshake, the visibility
    /// manager and one step of any active shutdown sequencer, and returns
    /// the side effect the control loop must perform, if any.
    ///
    /// Everything but identity generation follows [`Self::tick_spec`].  When
    /// the session is going public and no identity exists yet, one is
    /// generated here for the session's fixed subject names.  Those names
    /// are ASCII, so generation itself cannot be refused; the one remaining
    /// failure mode is the certificate digests being unavailable, on which
    /// the visibility moves to its failed state with that error recorded.
    /// On success the identity is kept, the listener starts opening on the
    /// configured port and the tick asks for it to be bound.  The
    /// connection target and the configuration are untouched either way, so
    /// the published listen address names the port the listener was asked
    /// to bind.
    pub fn tick(&mut self) -> (a: Option<Action>)
        requires
            old(self).wf(),
        ensures
            final(self).wf(),
            !Self::needs_identity(*old(self)) ==> (*final(self), opt_action_view(a))
                == Self::tick_spec(*old(self)),
            Self::needs_identity(*old(self)) ==> {
                let prior = *old(self);
                &&& final(self).config == prior.config
                &&& final(self).target == prior.target
                &&& {
                    ||| {
                        &&& a is None
                        &&& final(self).state matches SessionState::Local {
                            status: SingleplayerStatus::Running,
                            visibility: ServerVisibility::Failed,
                            ..
                        }
                        &&& final(self).error matches Some(m) && m@.len() > 0 && m@
                            == "certificate digest unavailable"@
                        &&& final(self).resources == prior.resources
                        &&& final(self).identity is None
                    }
                    ||| {
                        &&& opt_action_view(a) == Option::Some(
                            ActionV::OpenListener(Self::lan_port_of(prior.config.lan_port@)),
                        )
                        &&& final(self).state == prior.state
                        &&& final(self).identity matches Some(id) && id.wf()
                            && id.subject_names@.len() == 3 && id.subject_names@[0]@
                            == "localsingleplayer"@ && id.subject_names@[1]@ == "127.0.0.1"@
                            && id.subject_names@[2]@ == "::1"@
                        &&& final(self).resources == SessionResources {
                            listener: ListenerState::Opening,
                            ..prior.resources
                        }
                        &&& final(self).error == prior.error
                    }
                }
            },
    {
        match self.state {
            SessionState::Menu { .. } => Option::None,
            SessionState::Local { status, visibility, focus, step } => match status {
                SingleplayerStatus::Starting => {
                    if !self.resources.local_server {
                        self.resources.local_server = true;
                        self.resources.local_client = true;
                        Option::Some(Action::OpenLoopback)
                    } else {
                        self.state = SessionState::Local {
                            status: SingleplayerStatus::Running,
                            visibility,
                            focus: SessionStatus::Playing,
                            step,
                        };
                        Option::None
                    }
                },
                SingleplayerStatus::Running => match visibility {
                    ServerVisibility::PendingPublic => {
                        self.state = SessionState::Local {
                            status,
                            visibility: ServerVisibility::GoingPublic,
                            focus,
                            step,
                        };
                        Option::None
                    },
                    ServerVisibility::GoingPublic => {
                        if self.identity.is_none() {
                            let mut names: Vec<String> = Vec::new();
                            names.push(String::from_str("localsingleplayer"));
                            names.push(String::from_str("127.0.0.1"));
                            names.push(String::from_str("::1"));
                            proof {
                                reveal_strlit("localsingleplayer");
                                reveal_strlit("127.0.0.1");
                                reveal_strlit("::1");
                                assert(names@[0]@ == "localsingleplayer"@);
                                assert(names@[1]@ == "127.0.0.1"@);
                                assert(names@[2]@ == "::1"@);
                                assert(vstd::utf8::is_ascii_chars("localsingleplayer"@));
                                assert(vstd::utf8::is_ascii_chars("127.0.0.1"@));
                                assert(vstd::utf8::is_ascii_chars("::1"@));
                            }
                            match NetworkIdentity::generate(&names) {
                                Ok(id) => {
                                    self.identity = Option::Some(id);
                                    self.resources.listener = ListenerState::Opening;
                                    let port = self.lan_port_value();
                                    Option::Some(Action::OpenListener(port))
                                },
                                Err(m) => {
                                    self.error = Option::Some(m);
                                    self.state = SessionState::Local {
                                        status,
                                        visibility: ServerVisibility::Failed,
                                        focus,
                                        step,
                                    };
                                    Option::None
                                },
                            }
                        } else if matches!(self.resources.listener, ListenerState::Closed) {
                            self.resources.listener = ListenerState::Opening;
                            let port = self.lan_port_value();
                            Option::Some(Action::OpenListener(port))
                        } else {
                            Option::None
                        }
                    },
                    ServerVisibility::GoingPrivate => {
                        if self.resources.remote_clients > 0 {
                            Option::Some(Action::DisconnectRemoteClients)
                        } else {
                            match self.resources.listener {
                                ListenerState::Opening | ListenerState::Open => {
                                    self.resources.listener = ListenerState::Closing;
                                    Option::Some(Action::CloseListener)
                                },
                                ListenerState::Closing => Option::None,
                                ListenerState::Closed => {
                                    self.state = SessionState::Local {
                                        status,
                                        visibility: ServerVisibility::Private,
                                        focus,
                                        step,
                                    };
                                    self.identity = Option::None;
                                    Option::None
                                },
                            }
                        }
                    },
                    _ => Option::None,
                },
                SingleplayerStatus::Stopping => match step {
                    SingleplayerShutdownStep::DisconnectRemoteClients => {
                        let had = self.resources.remote_clients > 0;
                        self.resources.remote_clients = 0;
                        self.state = SessionState::Local {
                            status,
                            visibility,
                            focus,
                            step: SingleplayerShutdownStep::CloseRemoteServer,
                        };
                        if had {
                            Option::Some(Action::DisconnectRemoteClients)
                        } else {
                            Option::None
                        }
                    },
                    SingleplayerShutdownStep::CloseRemoteServer => {
                        let had = !matches!(self.resources.listener, ListenerState::Closed);
                        self.resources.listener = ListenerState::Closed;
                        self.state = SessionState::Local {
                            status,
                            visibility,
                            focus,
                            step: SingleplayerShutdownStep::DespawnBots,
                        };
                        if had {
                            Option::Some(Action::CloseListener)
                        } else {
                            Option::None
                        }
                    },
                    SingleplayerShutdownStep::DespawnBots => {
                        let had = self.resources.bots > 0;
                        self.resources.bots = 0;
                        self.state = SessionState::Local {
                            status,
                            visibility,
                            focus,
                            step: SingleplayerShutdownStep::DespawnLocalClient,
                        };
                        if had {
                            Option::Some(Action::DespawnBots)
                        } else {
                            Option::None
                        }
                    },
                    SingleplayerShutdownStep::DespawnLocalClient => {
                        let had = self.resources.local_client;
                        self.resources.local_client = false;
                        self.state = SessionState::Local {
                            status,
                            visibility,
                            focus,
                            step: SingleplayerShutdownStep::DespawnLocalServer,
                        };
                        if had {
                            Option::Some(Action::DespawnLocalClient)
                        } else {
                            Option::None
                        }
                    },
                    SingleplayerShutdownStep::DespawnLocalServer => {
                        let had = self.resources.local_server;
                        self.resources.local_server = false;
                        self.state = SessionState::Local {
                            status,
                            visibility,
                            focus,
                            step: SingleplayerShutdownStep::Done,
                        };
                        if had {
                            Option::Some(Action::DespawnLocalServer)
                        } else {
                            Option::None
                        }
                    },
                    SingleplayerShutdownStep::Done => {
                        self.state = SessionState::Menu { context: MenuContext::Main };
                        self.identity = Option::None;
                        self.error = Option::None;
                        Option::None
                    },
                },
                SingleplayerStatus::Failed => Option::None,
            },
            SessionState::Client { status, focus, step } => match status {
                ClientStatus::Connecting => {
                    if self.resources.connections == 0 {
                        self.resources.connections = 1;
                        Option::Some(Action::ConnectToServer(self.target.real_address.clone()))
                    } else {
                        Option::None
                    }
                },
                ClientStatus::Syncing => {
                    self.state = SessionState::Client {
                        status: ClientStatus::Running,
                        focus,
                        step,
                    };
                    Option::None
                },
                ClientStatus::Running => Option::None,
                ClientStatus::Disconnecting => match step {
                    ClientShutdownStep::DisconnectFromServer => {
                        self.state = SessionState::Client {
                            status,
                            focus,
                            step: ClientShutdownStep::DespawnLocalClient,
                        };
                        if self.resources.connections > 0 {
                            Option::Some(Action::DisconnectFromServer)
                        } else {
                            Option::None
                        }
                    },
                    ClientShutdownStep::DespawnLocalClient => {
                        let had = self.resources.connections > 0;
                        self.resources.connections = 0;
                        self.state = SessionState::Client {
                            status,
                            focus,
                            step: ClientShutdownStep::Done,
                        };
                        if had {
                            Option::Some(Action::DespawnLocalClient)
                        } else {
                            Option::None
                        }
                    },
                    ClientShutdownStep::Done => {
                        self.state = SessionState::Menu { context: MenuContext::Main };
                        self.error = Option::None;
                        Option::None
                    },
                },
                ClientStatus::Failed => Option::None,
            },
        }
    }

    // --- transport events, reported by the control loop ---

    /// What [`Self::on_session_established`] does: a connecting client
    /// moves to syncing; anything else ignores the event.
    pub open spec fn established_spec(v: SessionCore) -> SessionCore {
        match v.state {
            SessionState::Client { status: ClientStatus::Connecting, focus, step } => SessionCore {
                state: SessionState::Client { status: ClientStatus::Syncing, focus, step },
                ..v
            },
            _ => v,
        }
    }

    /// The transport reports that the client session is established.
    pub fn on_session_established(&mut self)
        requires
            old(self).wf(),
        ensures
            final(self).wf(),
            *final(self) == Self::established_spec(*old(self)),
    {
        match self.state {
            SessionState::Client { status: ClientStatus::Connecting, focus, step } => {
                self.state = SessionState::Client {
                    status: ClientStatus::Syncing,
                    focus,
                    step,
                };
            },
            _ => {},
        }
    }

    /// The transport reports that the client session dropped.
    ///
    /// While disconnecting, this is part of the expected teardown: the
    /// handle is gone and the sequencer finishes on its own.  Otherwise a
    /// user-initiated close returns to the menu, and anything else is a
    /// connection failure: the status moves to its failed state, a non-empty
    /// cause is recorded, and the stale target is invalidated so a retry
    /// cannot reuse it without re-validation.  The dropped handle is
    /// released in every case; outside a client session the event is
    /// ignored.
    pub fn on_session_disconnected(&mut self, by_user: bool, cause: &str)
        requires
            old(self).wf(),
        ensures
            final(self).wf(),
            final(self).identity == old(self).identity,
            final(self).config == old(self).config,
            match old(self).state {
                SessionState::Client { status, focus, step } => {
                    &&& final(self).resources == SessionResources {
                        connections: 0,
                        ..old(self).resources
                    }
                    &&& (status is Disconnecting ==> final(self).state == old(self).state
                        && final(self).error == old(self).error && final(self).target == old(
                        self,
                    ).target)
                    &&& (status !is Disconnecting && by_user ==> final(self).state == (
                    SessionState::Menu { context: MenuContext::Main }) && final(self).error
                        is None && final(self).target == old(self).target)
                    &&& (status !is Disconnecting && !by_user ==> {
                        &&& final(self).state == (SessionState::Client {
                            status: ClientStatus::Failed,
                            focus,
                            step: ClientShutdownStep::DisconnectFromServer,
                        })
                        &&& final(self).error matches Some(m) && m@ == "Connection Error: "@
                            + cause@
                        &&& !final(self).target.is_valid
                        &&& final(self).target.input == old(self).target.input
                    })
                },
                _ => *final(self) == *old(self),
            },
    {
        match self.state {
            SessionState::Client { status, focus, step } => {
                self.resources.connections = 0;
                match status {
                    ClientStatus::Disconnecting => {},
                    _ => {
                        if by_user {
                            self.state = SessionState::Menu { context: MenuContext::Main };
                            self.error = Option::None;
                        } else {
                            self.state = SessionState::Client {
                                status: ClientStatus::Failed,
                                focus,
                                step: ClientShutdownStep::DisconnectFromServer,
                            };
                            let msg = String::from_str("Connection Error: ").concat(cause);
                            self.error = Option::Some(msg);
                            self.target.is_valid = false;
                        }
                    },
                }
            },
            _ => {},
        }
    }

    /// What [`Self::on_listener_ready`] does: a session going public
    /// becomes public with the listener open; otherwise a listener that was
    /// opening is recorded as open, and the event is ignored everywhere
    /// else.
    pub open spec fn listener_ready_spec(v: SessionCore) -> SessionCore {
        match v.state {
            SessionState::Local {
                status: SingleplayerStatus::Running,
                visibility: ServerVisibility::GoingPublic,
                focus,
                step,
            } => SessionCore {
                state: SessionState::Local {
                    status: SingleplayerStatus::Running,
                    visibility: ServerVisibility::Public,
                    focus,
                    step,
                },
                resources: SessionResources { listener: ListenerState::Open, ..v.resources },
                ..v
            },
            SessionState::Local { .. } => if v.resources.listener is Opening {
                SessionCore {
                    resources: SessionResources { listener: ListenerState::Open, ..v.resources },
                    ..v
                }
            } else {
                v
            },
            _ => v,
        }
    }

    /// The transport reports that the LAN listener is bound and accepting.
    pub fn on_listener_ready(&mut self)
        requires
            old(self).wf(),
        ensures
            final(self).wf(),
            *final(self) == Self::listener_ready_spec(*old(self)),
    {
        match self.state {
            SessionState::Local { status, visibility, focus, step } => match (
                status,
                visibility,
            ) {
                (SingleplayerStatus::Running, ServerVisibility::GoingPublic) => {
                    self.state = SessionState::Local {
                        status: SingleplayerStatus::Running,
                        visibility: ServerVisibility::Public,
                        focus,
                        step,
                    };
                    self.resources.listener = ListenerState::Open;
                },
                _ => {
                    if matches!(self.resources.listener, ListenerState::Opening) {
                        self.resources.listener = ListenerState::Open;
                    }
                },
            },
            _ => {},
        }
    }

    /// What [`Self::on_listener_closed`] does.  While going private with no
    /// remote peer left, the close completes the transition: the session is
    /// private again and the identity is discarded.  A close while public
    /// starts the drain (the listener died).  A close while going public
    /// means the bind failed: the visibility attempt has failed; the session
    /// itself keeps running.  The listener is recorded as closed in every
    /// case.
    pub open spec fn listener_closed_spec(v: SessionCore) -> SessionCore {
        match v.state {
            SessionState::Local { status: SingleplayerStatus::Running, visibility, focus, step }
                => match visibility {
                ServerVisibility::GoingPrivate => if v.resources.remote_clients == 0 {
                    SessionCore {
                        state: SessionState::Local {
                            status: SingleplayerStatus::Running,
                            visibility: ServerVisibility::Private,
                            focus,
                            step,
                        },
                        resources: SessionResources {
                            listener: ListenerState::Closed,
                            ..v.resources
                        },
                        identity: Option::None,
                        ..v
                    }
                } else {
                    SessionCore {
                        resources: SessionResources {
                            listener: ListenerState::Closed,
                            ..v.resources
                        },
                        ..v
                    }
                },
                ServerVisibility::Public => SessionCore {
                    state: SessionState::Local {
                        status: SingleplayerStatus::Running,
                        visibility: ServerVisibility::GoingPrivate,
                        focus,
                        step,
                    },
                    resources: SessionResources {
                        listener: ListenerState::Closed,
                        ..v.resources
                    },
                    ..v
                },
                ServerVisibility::GoingPublic => SessionCore {
                    state: SessionState::Local {
                        status: SingleplayerStatus::Running,
                        visibility: ServerVisibility::Failed,
                        focus,
                        step,
                    },
                    resources: SessionResources {
                        listener: ListenerState::Closed,
                        ..v.resources
                    },
                    ..v
                },
                _ => SessionCore {
                    resources: SessionResources {
                        listener: ListenerState::Closed,
                        ..v.resources
                    },
                    ..v
                },
            },
            SessionState::Local { .. } => SessionCore {
                resources: SessionResources { listener: ListenerState::Closed, ..v.resources },
                ..v
            },
            _ => v,
        }
    }

    /// The transport reports that the LAN listener has closed.
    pub fn on_listener_closed(&mut self)
        requires
            old(self).wf(),
        ensures
            final(self).wf(),
            *final(self) == Self::listener_closed_spec(*old(self)),
    {
        match self.state {
            SessionState::Local { status, visibility, focus, step } => {
                self.resources.listener = ListenerState::Closed;
                match (status, visibility) {
                    (SingleplayerStatus::Running, ServerVisibility::GoingPrivate) => {
                        if self.resources.remote_clients == 0 {
                            self.state = SessionState::Local {
                                status: SingleplayerStatus::Running,
                                visibility: ServerVisibility::Private,
                                focus,
                                step,
                            };
                            self.identity = Option::None;
                        }
                    },
                    (SingleplayerStatus::Running, ServerVisibility::Public) => {
                        self.state = SessionState::Local {
                            status: SingleplayerStatus::Running,
                            visibility: ServerVisibility::GoingPrivate,
                            focus,
                            step,
                        };
                    },
                    (SingleplayerStatus::Running, ServerVisibility::GoingPublic) => {
                        self.state = SessionState::Local {
                            status: SingleplayerStatus::Running,
                            visibility: ServerVisibility::Failed,
                            focus,
                            step,
                        };
                    },
                    _ => {},
                }
            },
            _ => {},
        }
    }

    /// What [`Self::on_session_request`] does: while the session is running
    /// and public with the listener open, the accepted peer is counted;
    /// otherwise the request is ignored.
    pub open spec fn session_request_spec(v: SessionCore) -> SessionCore {
        if v.state matches SessionState::Local {
            status: SingleplayerStatus::Running,
            visibility: ServerVisibility::Public,
            ..
        } && v.resources.listener is Open && v.resources.remote_clients < u64::MAX {
            SessionCore {
                resources: SessionResources {
                    remote_clients: (v.resources.remote_clients + 1) as u64,
                    ..v.resources
                },
                ..v
            }
        } else {
            v
        }
    }

    /// An incoming session request on the listener.
    ///
    /// In the baseline policy every request on a running public session is
    /// accepted and the peer counted.  Rejection paths (block-lists,
    /// passwords, capacity) are reserved extension points and not wired to
    /// a decision here.
    pub fn on_session_request(&mut self) -> (accepted: bool)
        requires
            old(self).wf(),
        ensures
            final(self).wf(),
            *final(self) == Self::session_request_spec(*old(self)),
            accepted,
    {
        if matches!(
            self.state,
            SessionState::Local {
                status: SingleplayerStatus::Running,
                visibility: ServerVisibility::Public,
                ..
            },
        ) && matches!(self.resources.listener, ListenerState::Open)
            && self.resources.remote_clients < u64::MAX {
            self.resources.remote_clients = self.resources.remote_clients + 1;
        }
        true
    }

    /// What [`Self::on_bot_spawned`] does: while a local session is
    /// starting or running, the new in-process bot peer is counted;
    /// otherwise the event is ignored.
    pub open spec fn bot_spawned_spec(v: SessionCore) -> SessionCore {
        if v.state matches SessionState::Local { status, .. } && (status is Starting || status
            is Running) && v.resources.bots < u64::MAX {
            SessionCore {
                resources: SessionResources {
                    bots: (v.resources.bots + 1) as u64,
                    ..v.resources
                },
                ..v
            }
        } else {
            v
        }
    }

    /// Gameplay reports an in-process bot peer joining the local session.
    pub fn on_bot_spawned(&mut self)
        requires
            old(self).wf(),
        ensures
            final(self).wf(),
            *final(self) == Self::bot_spawned_spec(*old(self)),
    {
        match self.state {
            SessionState::Local { status, .. } => match status {
                SingleplayerStatus::Starting | SingleplayerStatus::Running => {
                    if self.resources.bots < u64::MAX {
                        self.resources.bots = self.resources.bots + 1;
                    }
                },
                _ => {},
            },
            _ => {},
        }
    }

    /// What [`Self::on_remote_client_left`] does: one fewer remote peer,
    /// when any was attached.
    pub open spec fn remote_left_spec(v: SessionCore) -> SessionCore {
        if v.resources.remote_clients > 0 {
            SessionCore {
                resources: SessionResources {
                    remote_clients: (v.resources.remote_clients - 1) as u64,
                    ..v.resources
                },
                ..v
            }
        } else {
            v
        }
    }

    /// The transport reports that a remote peer detached from the listener.
    pub fn on_remote_client_left(&mut self)
        requires
            old(self).wf(),
        ensures
            final(self).wf(),
            *final(self) == Self::remote_left_spec(*old(self)),
    {
        if self.resources.remote_clients > 0 {
            self.resources.remote_clients = self.resources.remote_clients - 1;
        }
    }

    // --- focus and menu navigation ---

    /// What [`Self::toggle_focus`] does: flips between playing and paused
    /// while in a session; does nothing in the menu.
    pub open spec fn toggle_focus_spec(v: SessionCore) -> SessionCore {
        match v.state {
            SessionState::Local { status, visibility, focus, step } => SessionCore {
                state: SessionState::Local {
                    status,
                    visibility,
                    focus: if focus is Playing {
                        SessionStatus::Paused
                    } else {
                        SessionStatus::Playing
                    },
                    step,
                },
                ..v
            },
            SessionState::Client { status, focus, step } => SessionCore {
                state: SessionState::Client {
                    status,
                    focus: if focus is Playing {
                        SessionStatus::Paused
                    } else {
                        SessionStatus::Playing
                    },
                    step,
                },
                ..v
            },
            SessionState::Menu { .. } => v,
        }
    }

    /// Toggles between playing and the in-game pause menu.
    pub fn toggle_focus(&mut self)
        requires
            old(self).wf(),
        ensures
            final(self).wf(),
            *final(self) == Self::toggle_focus_spec(*old(self)),
    {
        match self.state {
            SessionState::Local { status, visibility, focus, step } => {
                self.state = SessionState::Local {
                    status,
                    visibility,
                    focus: match focus {
                        SessionStatus::Playing => SessionStatus::Paused,
                        SessionStatus::Paused => SessionStatus::Playing,
                    },
                    step,
                };
            },
            SessionState::Client { status, focus, step } => {
                self.state = SessionState::Client {
                    status,
                    focus: match focus {
                        SessionStatus::Playing => SessionStatus::Paused,
                        SessionStatus::Paused => SessionStatus::Playing,
                    },
                    step,
                };
            },
            SessionState::Menu { .. } => {},
        }
    }

    /// An action chosen in the in-game pause menu.
    ///
    /// `Resume` returns the focus to playing.  `Exit` raises the stop or
    /// disconnect request that fits the session type.  The remaining
    /// entries only navigate screens the interface owns and change nothing
    /// here.  In the menu every pause-menu action is out of place.
    pub fn pause_menu_event(&mut self, e: crate::states::PauseMenuEvent) -> (res: Result<
        (),
        RejectedReason,
    >)
        requires
            old(self).wf(),
        ensures
            final(self).wf(),
            match e {
                crate::states::PauseMenuEvent::Resume => match old(self).state {
                    SessionState::Menu { .. } => res is Err && *final(self) == *old(self),
                    _ => res is Ok && *final(self) == SessionCore {
                        state: match old(self).state {
                            SessionState::Local { status, visibility, focus, step }
                                => SessionState::Local {
                                status,
                                visibility,
                                focus: SessionStatus::Playing,
                                step,
                            },
                            SessionState::Client { status, focus, step } => SessionState::Client {
                                status,
                                focus: SessionStatus::Playing,
                                step,
                            },
                            s => s,
                        },
                        ..*old(self)
                    },
                },
                crate::states::PauseMenuEvent::Exit => match old(self).state {
                    SessionState::Local { .. } => (*final(self), res) == Self::request_spec(
                        *old(self),
                        Request::StopLocal,
                    ),
                    SessionState::Client { .. } => (*final(self), res) == Self::request_spec(
                        *old(self),
                        Request::Disconnect,
                    ),
                    SessionState::Menu { .. } => res is Err && *final(self) == *old(self),
                },
                _ => match old(self).state {
                    SessionState::Menu { .. } => res is Err && *final(self) == *old(self),
                    _ => res is Ok && *final(self) == *old(self),
                },
            },
    {
        match e {
            crate::states::PauseMenuEvent::Resume => match self.state {
                SessionState::Local { status, visibility, focus, step } => {
                    self.state = SessionState::Local {
                        status,
                        visibility,
                        focus: SessionStatus::Playing,
                        step,
                    };
                    Result::Ok(())
                },
                SessionState::Client { status, focus, step } => {
                    self.state = SessionState::Client {
                        status,
                        focus: SessionStatus::Playing,
                        step,
                    };
                    Result::Ok(())
                },
                SessionState::Menu { .. } => Result::Err(RejectedReason::WrongPhase),
            },
            crate::states::PauseMenuEvent::Exit => match self.state {
                SessionState::Local { .. } => self.request(Request::StopLocal),
                SessionState::Client { .. } => self.request(Request::Disconnect),
                SessionState::Menu { .. } => Result::Err(RejectedReason::WrongPhase),
            },
            _ => match self.state {
                SessionState::Menu { .. } => Result::Err(RejectedReason::WrongPhase),
                _ => Result::Ok(()),
            },
        }
    }

    /// The menu context a top-level navigation target opens, with its
    /// sub-menu at its overview.
    pub open spec fn main_context_of(t: crate::states::MainMenuContext) -> MenuContext {
        match t {
            crate::states::MainMenuContext::Main => MenuContext::Main,
            crate::states::MainMenuContext::Singleplayer => MenuContext::Singleplayer(
                SingleplayerSetup::Overview,
            ),
            crate::states::MainMenuContext::Multiplayer => MenuContext::Multiplayer(
                MultiplayerSetup::Overview,
            ),
            crate::states::MainMenuContext::Wiki => MenuContext::Wiki,
            crate::states::MainMenuContext::Settings => MenuContext::Settings,
        }
    }

    /// Navigates the top-level menu.  Only valid in the menu; each target
    /// opens with its sub-menu at its overview.
    pub fn navigate_main(&mut self, t: crate::states::MainMenuContext) -> (res: Result<
        (),
        RejectedReason,
    >)
        requires
            old(self).wf(),
        ensures
            final(self).wf(),
            match old(self).state {
                SessionState::Menu { .. } => res is Ok && *final(self) == SessionCore {
                    state: SessionState::Menu { context: Self::main_context_of(t) },
                    ..*old(self)
                },
                _ => res is Err && *final(self) == *old(self),
            },
    {
        match self.state {
            SessionState::Menu { .. } => {
                self.state = SessionState::Menu {
                    context: match t {
                        crate::states::MainMenuContext::Main => MenuContext::Main,
                        crate::states::MainMenuContext::Singleplayer => MenuContext::Singleplayer(
                            SingleplayerSetup::Overview,
                        ),
                        crate::states::MainMenuContext::Multiplayer => MenuContext::Multiplayer(
                            MultiplayerSetup::Overview,
                        ),
                        crate::states::MainMenuContext::Wiki => MenuContext::Wiki,
                        crate::states::MainMenuContext::Settings => MenuContext::Settings,
                    },
                };
                Result::Ok(())
            },
            _ => Result::Err(RejectedReason::WrongPhase),
        }
    }

    /// Navigates the singleplayer sub-menu.  Only valid while it is open.
    pub fn navigate_singleplayer(&mut self, t: SingleplayerSetup) -> (res: Result<
        (),
        RejectedReason,
    >)
        requires
            old(self).wf(),
        ensures
            final(self).wf(),
            match old(self).state {
                SessionState::Menu { context: MenuContext::Singleplayer(_) } => res is Ok
                    && *final(self) == SessionCore {
                    state: SessionState::Menu { context: MenuContext::Singleplayer(t) },
                    ..*old(self)
                },
                _ => res is Err && *final(self) == *old(self),
            },
    {
        match self.state {
            SessionState::Menu { context: MenuContext::Singleplayer(_) } => {
                self.state = SessionState::Menu { context: MenuContext::Singleplayer(t) };
                Result::Ok(())
            },
            _ => Result::Err(RejectedReason::WrongPhase),
        }
    }

    // --- laws ---

    /// A rejected request changes nothing: the state after a rejection is
    /// the state before it.
    pub proof fn lemma_rejected_request_unchanged(v: SessionCore, r: Request)
        ensures
            Self::request_spec(v, r).1 is Err ==> Self::request_spec(v, r).0 == v,
    {
    }

    /// Guarded transitions are idempotent: once a request has been applied,
    /// issuing the same request again is rejected and leaves the state
    /// exactly as the first application left it.  Replaying a sequence of
    /// requests with duplicates therefore ends in the same state as without
    /// them.
    pub proof fn lemma_duplicate_request_rejected(v: SessionCore, r: Request)
        requires
            v.wf(),
            Self::request_spec(v, r).1 is Ok,
        ensures
            Self::request_spec(Self::request_spec(v, r).0, r).1 is Err,
            Self::request_spec(Self::request_spec(v, r).0, r).0 == Self::request_spec(v, r).0,
    {
    }

    /// A connect request with an invalid target is always rejected and
    /// changes nothing, whatever the current state.
    pub proof fn lemma_connect_invalid_target(v: SessionCore)
        requires
            v.wf(),
            !v.target.is_valid,
        ensures
            Self::request_spec(v, Request::Connect).1 is Err,
            Self::request_spec(v, Request::Connect).0 == v,
    {
    }

    /// In the menu a tick performs no work at all; in particular a rejected
    /// connect request can never be followed by a transport attempt.
    pub proof fn lemma_menu_tick_idle(v: SessionCore)
        requires
            v.wf(),
            v.state is Menu,
        ensures
            Self::tick_spec(v) == (v, Option::<ActionV>::None),
    {
    }

    /// The state after `n` ticks, when none of them generates an identity.
    pub open spec fn ticks(v: SessionCore, n: nat) -> SessionCore
        decreases n,
    {
        if n == 0 {
            v
        } else {
            Self::ticks(Self::tick_spec(v).0, (n - 1) as nat)
        }
    }

    /// The step of a local session's shutdown sequencer.
    pub open spec fn local_step(v: SessionCore) -> SingleplayerShutdownStep {
        match v.state {
            SessionState::Local { step, .. } => step,
            _ => SingleplayerShutdownStep::Done,
        }
    }

    /// The shutdown sequencer only moves forward, one step per tick.
    pub proof fn lemma_shutdown_advances(v: SessionCore)
        requires
            v.wf(),
            v.state matches SessionState::Local { status: SingleplayerStatus::Stopping, step, .. }
                && step !is Done,
        ensures
            Self::tick_spec(v).0.wf(),
            Self::tick_spec(v).0.state matches SessionState::Local {
                status: SingleplayerStatus::Stopping,
                ..
            },
            sp_step_index(Self::local_step(Self::tick_spec(v).0)) == sp_step_index(
                Self::local_step(v),
            ) + 1,
    {
    }

    /// The shutdown sequencer always terminates within its own step count,
    /// whether or not any step had work to do: from any stopping state it
    /// reaches its final step within the number of steps that remain, and
    /// one tick later the session is back in the main menu with every
    /// resource released.
    pub proof fn lemma_shutdown_reaches_menu(v: SessionCore)
        requires
            v.wf(),
            v.state matches SessionState::Local { status: SingleplayerStatus::Stopping, .. },
        ensures
            Self::ticks(v, (5 - sp_step_index(Self::local_step(v))) as nat).state
                matches SessionState::Local {
                status: SingleplayerStatus::Stopping,
                step: SingleplayerShutdownStep::Done,
                ..
            },
            Self::ticks(v, (6 - sp_step_index(Self::local_step(v))) as nat).state == (
            SessionState::Menu { context: MenuContext::Main }),
            Self::ticks(v, (6 - sp_step_index(Self::local_step(v))) as nat).resources
                == SessionResources::spec_empty(),
        decreases 5 - sp_step_index(Self::local_step(v)),
    {
        if Self::local_step(v) is Done {
            let w = Self::tick_spec(v).0;
            assert(Self::ticks(v, 1) == Self::ticks(w, 0));
        } else {
            Self::lemma_shutdown_advances(v);
            let w = Self::tick_spec(v).0;
            Self::lemma_shutdown_reaches_menu(w);
            assert(Self::ticks(v, (6 - sp_step_index(Self::local_step(v))) as nat)
                == Self::ticks(w, (6 - sp_step_index(Self::local_step(w))) as nat));
            assert(Self::ticks(v, (5 - sp_step_index(Self::local_step(v))) as nat)
                == Self::ticks(w, (5 - sp_step_index(Self::local_step(w))) as nat));
        }
    }

    /// `v` after `n` remote peers have honoured their graceful close.
    pub open spec fn remotes_gone(v: SessionCore, n: nat) -> SessionCore
        decreases n,
    {
        if n == 0 {
            v
        } else {
            Self::remotes_gone(Self::remote_left_spec(v), (n - 1) as nat)
        }
    }

    /// Once every remote peer has honoured its close, none is attached and
    /// nothing else has changed.
    pub proof fn lemma_remotes_gone(v: SessionCore)
        ensures
            Self::remotes_gone(v, v.resources.remote_clients as nat) == (SessionCore {
                resources: SessionResources { remote_clients: 0, ..v.resources },
                ..v
            }),
        decreases v.resources.remote_clients,
    {
        if v.resources.remote_clients > 0 {
            Self::lemma_remotes_gone(Self::remote_left_spec(v));
        }
    }

    /// A prompt transport settles the work a tick asked for before the next
    /// tick: signalled peers leave, and a requested (or pending) listener
    /// close completes.
    pub open spec fn settle(v: SessionCore, a: Option<ActionV>) -> SessionCore {
        match a {
            Option::Some(ActionV::DisconnectRemoteClients) => Self::remotes_gone(
                v,
                v.resources.remote_clients as nat,
            ),
            Option::Some(ActionV::CloseListener) => Self::listener_closed_spec(v),
            _ => if v.resources.listener is Closing {
                Self::listener_closed_spec(v)
            } else {
                v
            },
        }
    }

    /// One tick followed by the transport settling its effects.
    pub open spec fn drain_step(v: SessionCore) -> SessionCore {
        Self::settle(Self::tick_spec(v).0, Self::tick_spec(v).1)
    }

    /// `n` ticks under a prompt transport.
    pub open spec fn drain(v: SessionCore, n: nat) -> SessionCore
        decreases n,
    {
        if n == 0 {
            v
        } else {
            Self::drain(Self::drain_step(v), (n - 1) as nat)
        }
    }

    /// Going private always converges: from any state that is on its way
    /// private — including a `goPublic()` followed immediately by
    /// `goPrivate()` before the listener finished binding — three ticks of
    /// a prompt transport suffice to be private again with no listener left
    /// open, no remote peer attached and the identity discarded.
    pub proof fn lemma_go_private_converges(v: SessionCore)
        requires
            v.wf(),
            v.state matches SessionState::Local {
                status: SingleplayerStatus::Running,
                visibility: ServerVisibility::GoingPrivate,
                ..
            },
        ensures
            Self::drain(v, 3).state matches SessionState::Local {
                status: SingleplayerStatus::Running,
                visibility: ServerVisibility::Private,
                ..
            },
            Self::drain(v, 3).resources.listener is Closed,
            Self::drain(v, 3).resources.remote_clients == 0,
            Self::drain(v, 3).identity is None,
    {
        let v1 = Self::drain_step(v);
        if v.resources.remote_clients > 0 {
            Self::lemma_remotes_gone(v);
        }
        let v2 = Self::drain_step(v1);
        let v3 = Self::drain_step(v2);
        assert(Self::drain(v, 3) == Self::drain(v1, 2));
        assert(Self::drain(v1, 2) == Self::drain(v2, 1));
        assert(Self::drain(v2, 1) == Self::drain(v3, 0));
        assert(Self::drain(v3, 0) == v3);
    }

    /// A transport attempt is only ever opened when no connection handle is
    /// held, towards the validated target's canonical address, and a
    /// rejected or retried attempt starts from a clean slate: a retry is
    /// only accepted from a failed session, which holds no handle.
    pub proof fn lemma_single_attempt(v: SessionCore)
        requires
            v.wf(),
        ensures
            Self::tick_spec(v).1 matches Some(ActionV::ConnectToServer(url)) ==> {
                &&& v.resources.connections == 0
                &&& Self::tick_spec(v).0.resources.connections == 1
                &&& url == v.target.real_address@
            },
            Self::request_spec(v, Request::Retry).1 is Ok ==> Self::request_spec(
                v,
                Request::Retry,
            ).0.resources.connections == 0,
    {
    }

    // --- the status read interface ---

    /// The session type's status fields, for the lifecycle derivation.
    pub open spec fn spec_singleplayer_status(self) -> Option<SingleplayerStatus> {
        match self.state {
            SessionState::Local { status, .. } => Option::Some(status),
            _ => Option::None,
        }
    }

    /// The client status, while a client session exists.
    pub open spec fn spec_client_status(self) -> Option<ClientStatus> {
        match self.state {
            SessionState::Client { status, .. } => Option::Some(status),
            _ => Option::None,
        }
    }

    /// The visibility, while a local session exists.
    pub open spec fn spec_visibility(self) -> Option<ServerVisibility> {
        match self.state {
            SessionState::Local { visibility, .. } => Option::Some(visibility),
            _ => Option::None,
        }
    }

    /// The focus, while a session exists.
    pub open spec fn spec_focus(self) -> Option<SessionStatus> {
        match self.state {
            SessionState::Local { focus, .. } => Option::Some(focus),
            SessionState::Client { focus, .. } => Option::Some(focus),
            _ => Option::None,
        }
    }

    /// The local session's status, if one exists.
    pub fn singleplayer_status(&self) -> (r: Option<SingleplayerStatus>)
        ensures
            r == self.spec_singleplayer_status(),
    {
        match self.state {
            SessionState::Local { status, .. } => Option::Some(status),
            _ => Option::None,
        }
    }

    /// The client session's status, if one exists.
    pub fn client_status(&self) -> (r: Option<ClientStatus>)
        ensures
            r == self.spec_client_status(),
    {
        match self.state {
            SessionState::Client { status, .. } => Option::Some(status),
            _ => Option::None,
        }
    }

    /// The local session's visibility, if one exists.
    pub fn visibility(&self) -> (r: Option<ServerVisibility>)
        ensures
            r == self.spec_visibility(),
    {
        match self.state {
            SessionState::Local { visibility, .. } => Option::Some(visibility),
            _ => Option::None,
        }
    }

    /// The focus, while in a session.
    pub fn focus(&self) -> (r: Option<SessionStatus>)
        ensures
            r == self.spec_focus(),
    {
        match self.state {
            SessionState::Local { focus, .. } => Option::Some(focus),
            SessionState::Client { focus, .. } => Option::Some(focus),
            _ => Option::None,
        }
    }

    /// The derived coarse lifecycle of the current session.
    pub fn lifecycle(&self) -> (r: crate::states::SessionLifecycle)
        ensures
            r == crate::states::SessionLifecycle::spec_compute(
                self.state.spec_session_type(),
                self.spec_singleplayer_status(),
                self.spec_client_status(),
            ),
    {
        crate::states::SessionLifecycle::compute(
            self.state.session_type(),
            self.singleplayer_status(),
            self.client_status(),
        )
    }

    /// The derived simulation signal: whether the game simulation advances
    /// right now, from the focus, the session type and the visibility
    /// alone.  Pure and recomputed on demand; the simulation keeps running
    /// behind the pause menu for a client session and for a local session
    /// that is visible beyond the loopback.
    pub fn simulation(&self) -> (r: crate::states::PhysicsSimulation)
        ensures
            r == crate::states::PhysicsSimulation::spec_compute(
                match self.spec_focus() {
                    Option::Some(f) => f,
                    Option::None => SessionStatus::Paused,
                },
                self.state.spec_session_type(),
                match self.spec_visibility() {
                    Option::Some(vis) => vis,
                    Option::None => ServerVisibility::Private,
                },
            ),
    {
        let focus = match self.focus() {
            Option::Some(f) => f,
            Option::None => SessionStatus::Paused,
        };
        let visibility = match self.visibility() {
            Option::Some(vis) => vis,
            Option::None => ServerVisibility::Private,
        };
        crate::states::PhysicsSimulation::compute(focus, self.state.session_type(), visibility)
    }

    /// The current error message, if a failure has been recorded.
    pub fn error_message(&self) -> (r: Option<String>)
        ensures
            match self.error {
                Option::Some(e) => r matches Some(m) && m@ == e@,
                Option::None => r is None,
            },
    {
        match &self.error {
            Option::Some(e) => Option::Some(e.clone()),
            Option::None => Option::None,
        }
    }

    /// The SPKI fingerprint of the current identity, to be shared
    /// out-of-band with a joining peer; present exactly while an identity
    /// exists, and never empty.
    pub fn shareable_fingerprint(&self) -> (r: Option<String>)
        requires
            self.wf(),
        ensures
            match self.identity {
                Option::Some(id) => r matches Some(f) && f@ == id.spki_fingerprint@ && f@.len()
                    == 44,
                Option::None => r is None,
            },
    {
        match &self.identity {
            Option::Some(id) => Option::Some(id.spki_fingerprint.clone()),
            Option::None => Option::None,
        }
    }

    /// The base-64 certificate hash of the current identity, for a joining
    /// peer to pin; present exactly while an identity exists.
    pub fn shareable_cert_hash(&self) -> (r: Option<String>)
        requires
            self.wf(),
        ensures
            match self.identity {
                Option::Some(id) => r matches Some(h) && h@ == id.cert_hash@ && h@.len() == 44,
                Option::None => r is None,
            },
    {
        match &self.identity {
            Option::Some(id) => Option::Some(id.cert_hash.clone()),
            Option::None => Option::None,
        }
    }

    /// The address the LAN listener is reachable under, shown to the user
    /// next to the fingerprint: the wildcard host with the configured
    /// port.  Present exactly while an identity exists.
    pub fn listen_address(&self) -> (r: Option<String>)
        ensures
            match self.identity {
                Option::Some(_) => r matches Some(a) && a@ == "0.0.0.0:"@ + crate::discovery::dec_chars(
                    Self::lan_port_of(self.config.lan_port@) as int,
                ),
                Option::None => r is None,
            },
    {
        proof {
            reveal_strlit("0.0.0.0:");
        }
        match &self.identity {
            Option::Some(_) => {
                let mut addr = String::from_str("0.0.0.0:");
                let port = self.lan_port_value();
                crate::discovery::push_dec_chars(port, &mut addr);
                Option::Some(addr)
            },
            Option::None => Option::None,
        }
    }

    /// Applying the same request twice always lands in the same state as
    /// applying it once, whether the first application was accepted or
    /// rejected.
    pub proof fn lemma_request_idempotent(v: SessionCore, r: Request)
        requires
            v.wf(),
        ensures
            Self::request_spec(Self::request_spec(v, r).0, r).0 == Self::request_spec(v, r).0,
    {
        if Self::request_spec(v, r).1 is Ok {
            Self::lemma_duplicate_request_rejected(v, r);
        } else {
            Self::lemma_rejected_request_unchanged(v, r);
        }
    }

    /// Every request leaves the core well-formed.
    pub proof fn lemma_request_spec_wf(v: SessionCore, r: Request)
        requires
            v.wf(),
        ensures
            Self::request_spec(v, r).0.wf(),
    {
    }

    /// The state a sequence of lifecycle requests ends in, applied first to
    /// last.
    pub open spec fn apply_requests(v: SessionCore, rs: Seq<Request>) -> SessionCore
        decreases rs.len(),
    {
        if rs.len() == 0 {
            v
        } else {
            Self::apply_requests(
                Self::request_spec(v, rs[0]).0,
                rs.subrange(1, rs.len() as int),
            )
        }
    }

    /// Replay is insensitive to duplicated requests: a sequence with a
    /// duplicate of its `i`-th request inserted right after it ends in
    /// exactly the state the sequence without the duplicate ends in.  In
    /// particular, issuing a request twice in the same tick yields exactly
    /// one transition.
    pub proof fn lemma_replay_ignores_duplicates(v: SessionCore, rs: Seq<Request>, i: int)
        requires
            v.wf(),
            0 <= i < rs.len(),
        ensures
            Self::apply_requests(v, rs.insert(i + 1, rs[i])) == Self::apply_requests(v, rs),
        decreases i,
    {
        let dup = rs.insert(i + 1, rs[i]);
        let v1 = Self::request_spec(v, rs[0]).0;
        let tail = rs.subrange(1, rs.len() as int);
        assert(dup[0] == rs[0]);
        assert(Self::apply_requests(v, dup) == Self::apply_requests(
            v1,
            dup.subrange(1, dup.len() as int),
        ));
        assert(Self::apply_requests(v, rs) == Self::apply_requests(v1, tail));
        if i == 0 {
            let mid = tail.insert(0, rs[0]);
            assert(dup.subrange(1, dup.len() as int) =~= mid);
            assert(mid[0] == rs[0]);
            Self::lemma_request_idempotent(v, rs[0]);
            assert(Self::request_spec(v1, rs[0]).0 == v1);
            assert(Self::apply_requests(v1, mid) == Self::apply_requests(
                v1,
                mid.subrange(1, mid.len() as int),
            ));
            assert(mid.subrange(1, mid.len() as int) =~= tail);
        } else {
            assert(dup.subrange(1, dup.len() as int) =~= tail.insert(i, tail[i - 1]));
            Self::lemma_request_spec_wf(v, rs[0]);
            Self::lemma_replay_ignores_duplicates(v1, tail, i - 1);
        }
    }

    /// Navigates the multiplayer sub-menu.  Only valid while it is open.
    pub fn navigate_multiplayer(&mut self, t: MultiplayerSetup) -> (res: Result<
        (),
        RejectedReason,
    >)
        requires
            old(self).wf(),
        ensures
            final(self).wf(),
            match old(self).state {
                SessionState::Menu { context: MenuContext::Multiplayer(_) } => res is Ok
                    && *final(self) == SessionCore {
                    state: SessionState::Menu { context: MenuContext::Multiplayer(t) },
                    ..*old(self)
                },
                _ => res is Err && *final(self) == *old(self),
            },
    {
        match self.state {
            SessionState::Menu { context: MenuContext::Multiplayer(_) } => {
                self.state = SessionState::Menu { context: MenuContext::Multiplayer(t) };
                Result::Ok(())
            },
            _ => Result::Err(RejectedReason::WrongPhase),
        }
    }
}


} // verus!
