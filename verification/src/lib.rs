//! A registry of transient game lobbies and the two session protocols around
//! it: hosts publish a lobby over one connection and own its entry for as
//! long as the connection lasts; clients list and look up lobbies over
//! another.
//!
//! The library holds the decisions and proves them. It reads no socket and
//! takes no lock: the embedding application runs the connections, shares one
//! `Registry` behind a lock of its own, and drives each session by carrying
//! out the one request that the session has outstanding.
//!
//! - `address`: IPv4 dotted-quad text and the public address of a lobby.
//! - `ident`: lobby identifiers.
//! - `lobby`: the lobby record and the creation request.
//! - `registry`: the map from identifiers to records, and what sequences of
//!   calls on it leave behind.
//! - `wire`: the frames of the two protocols.
//! - `probe`: the verdict of the liveness probe.
//! - `session`: what ends a session.
//! - `registration`: the registration session.
//! - `query`: the query session.
//! - `service`: many registration sessions around one registry.

pub mod address;
pub mod ident;
pub mod lobby;
pub mod probe;
pub mod query;
pub mod registration;
pub mod registry;
pub mod service;
pub mod session;
pub mod wire;
