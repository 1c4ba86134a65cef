//! Authoritative game-state logic for a real-time multiplayer movement game
//! whose state lives in transactions confirmed on a replicated ledger.
//!
//! The crate covers the deterministic core that every replica must compute
//! bit-for-bit identically: the signed/unsigned coordinate codec, the lazy
//! tick-based player-movement model with its explicit per-identity store, the
//! contract entry points, and the layer that turns the confirmed-transaction
//! stream into domain events and merges it with locally predicted ones.
//! The surrounding runtime — ledger consensus, transaction signing, network
//! transport and rendering — stays outside and hands this crate plain values.

pub mod client;
pub mod codec;
pub mod contract;
pub mod error;
pub mod event;
pub mod heading;
pub mod player;
pub mod tick;
