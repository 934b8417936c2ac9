//! Gossip ingestion and sync-completion tracking for a payment-channel
//! network node: classified tallies of the gossip the protocol engine
//! accepts, a router that counts and forwards every accepted message, a
//! supervisor policy for dialing a configured peer set, and a heuristic
//! tracker that decides — once per transition — when initial gossip sync
//! is complete.
//!
//! The protocol engine, the network transport and the task scheduler are
//! outside collaborators; this crate takes their verdicts, snapshots and
//! clocks as plain values and proves every decision taken on them.

pub mod counter;
pub mod router;
pub mod supervisor;
pub mod tracker;
