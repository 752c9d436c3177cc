//! A client/server world-state synchronisation core.
//!
//! The library keeps simulations on several peers causally aligned through a
//! monotonic command-frame clock: it buffers client commands (client side for
//! prediction and replay, server side with an acceptance window), accumulates
//! per-frame world changes into a single delta, and fans messages out to peers
//! through per-peer post boxes.

pub mod clock;
pub mod compression;
pub mod error;
pub mod event;
pub mod packer;
pub mod search;
pub mod serialization;
pub mod synchronisation;
pub mod time;
pub mod tracker;
pub mod transport;
pub mod uid;

pub use synchronisation::{ComponentData, ComponentId, EntityId};
