//! A decentralized reputation ledger for autonomous agents.
//!
//! Agents accrue, lose, and transfer trust through task completion, peer
//! vouching, oracle attestations, time-based decay, slashing, and
//! governance-gated parameter changes. Every public operation here is a pure
//! state transition: it takes the relevant records and a clock reading, and
//! either returns the updated records or an error with no partial effect.
//! Persistent storage, token custody, and the clock itself are external
//! collaborators; the caller loads records, invokes an engine, and persists
//! the result.

pub mod decay;
pub mod errors;
pub mod governance;
pub mod math;
pub mod nft;
pub mod oracle;
pub mod propagation;
pub mod slash;
pub mod state;
pub mod vouch;
pub mod zk;
