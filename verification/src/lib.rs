//! Synchronization core of a two-player networked Pong game.
//!
//! Each peer runs a local fixed-rate simulation and exchanges paddle
//! intent with the other peer over an unreliable datagram transport.
//! This crate holds the verified core: the wire protocol for paddle
//! commands, the simulation step, and the session/handshake state
//! machines.  Sockets, rendering and input polling live outside it.

pub mod game;
pub mod protocol;
pub mod session;
