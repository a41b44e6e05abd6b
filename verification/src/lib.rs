//! Transaction dispatch and submission engine for an automated
//! position-maintenance agent on a collateralized-lending protocol.
//!
//! The crate turns already-decided maintenance actions (deposit, repay,
//! withdraw, liquidate, and the rebalancer's variants) into assembled
//! transactions and drives the two submission strategies: direct retrying
//! submission against the primary ledger endpoint, and leader-slot-aware
//! bundle submission through a private relay.
//!
//! Chain-side concerns (key custody, signing, socket I/O, the relay wire
//! protocol) live outside this crate; everything here works on plain values
//! and carries a verified contract.

pub mod types;
pub mod codec;
pub mod instructions;
pub mod observation;
pub mod transaction;
pub mod liquidator_account;
pub mod direct_sender;
pub mod bundle_sender;
pub mod pipeline;
