//! A small request/response and publish/subscribe protocol between peers.
//!
//! The verified part of the crate holds the wire-level packet model and the
//! state of an RPC application: which methods and events it offers, who has
//! subscribed to its events, which requests are still waiting for an answer,
//! and how every incoming packet changes that state.
pub mod application;
pub mod laws;
pub mod packets;
pub mod peer;
