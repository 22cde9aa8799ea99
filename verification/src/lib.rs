//! A session-orchestration library for real-time, message-based multiplayer
//! games: a registry of lobbies with stable, reusable slot indices, a
//! two-phase lifecycle (waiting lobby / active game) for each lobby, and a
//! per-connection message protocol with polling-based disconnect detection.
//!
//! The transport itself (accepting sockets, upgrading them to text-message
//! channels, timers, task spawning) is left to the embedding application;
//! this crate holds the state, the transition rules and the decision logic,
//! each function with a contract.

pub mod game;
pub mod join;
pub mod registry;

