//! Session lifecycle orchestration for a LAN-capable game server.
//!
//! The library models the life of a game session: moving the application
//! between the menu, a local (singleplayer) session, a hosted session that is
//! visible on the LAN, and a remote client session.  The state machine, the
//! ordered shutdown sequencer, the connection-target validator, the LAN
//! discovery protocol and the server visibility manager live here, each with a
//! verified contract.  The surrounding I/O (window, input, transport sockets)
//! is left to the embedding application, which raises lifecycle requests and
//! reads the published state.

pub mod states;
pub mod target;
pub mod menu;
pub mod identity;
pub mod session;
pub mod discovery;
pub mod notifications;
