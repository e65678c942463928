//! Verified core of a cross-chain interoperability relay.
//!
//! The library establishes the trust boundary between two chains: it turns
//! finalized headers of a source chain into canonical consensus messages for a
//! counterparty, audits such messages for fraud against the counterparty's
//! committed state, and maintains the per-chain host-parameter record together
//! with its canonical wire encoding.
//!
//! All chain I/O (RPC subscriptions, commitment queries, freeze calls) is left
//! to callers; the modules here hold the decision logic and the byte formats,
//! each function carrying a contract that pins its result down.

pub mod abi;
pub mod byzantine;
pub mod codec;
pub mod params;
pub mod pipeline;
pub mod state;
pub mod words;
