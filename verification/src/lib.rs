//! Server-side session handshake for a binary game-network protocol.
//!
//! The crate models one connection's path from the first handshake packet
//! through version negotiation, identity resolution, the encryption and
//! authentication steps, compression activation and the configuration
//! exchange, as a verified state machine: decoded packets and adapter
//! results come in as plain values, and the messages and mode switches
//! owed in response come out as a sequence of actions.

pub mod connection;
pub mod dispatcher;
pub mod disconnect;
pub mod outside;
pub mod packets;
pub mod player;
pub mod policy;
pub mod profile;
pub mod server;
pub mod text;
