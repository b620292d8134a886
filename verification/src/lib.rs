//! Consensus service of a chain node: it drives the overlord BFT engine, checks
//! block proofs, keeps the authority list in step with the controller's
//! configuration, and frames the engine's messages for the network.
//!
//! The engine, the controller and the network are asynchronous services. Every
//! function here is synchronous: it takes their replies as plain values and
//! returns what has to be sent next.

pub mod bls;
pub mod brain;
pub mod codec;
pub mod config;
pub mod consensus;
pub mod crypto;
pub mod endpoint;
pub mod error;
pub mod laws;
pub mod message;
pub mod proposal;
pub mod server;
pub mod status;
pub mod types;
pub mod util;
pub mod voters;
pub mod wal;
