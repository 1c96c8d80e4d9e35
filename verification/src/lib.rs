//! Beacon chain synchronization for a randomness-beacon node.
//!
//! A node that has fallen behind rebuilds the signature chain from untrusted
//! peers. This crate holds the decisions of that process: which peer to try,
//! which beacon to accept, when to stop, and which error ends a session. The
//! network, the store and the signature scheme are driven by the caller,
//! which reports what happened as events and carries out the returned actions.

pub mod error;
pub mod packet;
pub mod model;
pub mod session;
pub mod setup;
pub mod laws;
pub mod encoding;
pub mod info;
pub mod follow;
pub mod resync;
