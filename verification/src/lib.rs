//! Core of a real-time "watch party" relay.
//!
//! Rooms of members exchange chat messages and keep a shared video in sync.
//! This crate holds the verified heart of the relay: the wire-event types and
//! their canonical JSON codec, the connection registry that fans broadcasts
//! out to a room, the per-room playback sync store, the chat pipeline that
//! enforces persist-then-notify, and the router that turns one inbound frame
//! into registry updates and delivery plans.
//!
//! Everything effectful — sockets, the document store, task scheduling — stays
//! outside; the functions here are the decisions those loops carry out.

use vstd::prelude::*;

pub mod api;
pub mod codec;
pub mod config;
pub mod db;
pub mod events;
pub mod json;
pub mod message;
pub mod registry;
pub mod router;
pub mod sync;

verus! {

/// A connection handle identifier: the key under which the transport layer
/// keeps the write half of one live connection.
pub type ConnId = u64;

} // verus!
