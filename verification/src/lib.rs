//! Token-accounting and staking-reward ledger.
//!
//! Two subsystems share this crate. The supply/price controller
//! ([`arcade`]) owns a singleton configuration record with running
//! mint/burn totals, a target price and a pause gate, and exposes
//! mint, burn and service-purchase transitions plus administrative
//! updates and a read-only stats query. The staking ledger
//! ([`staking`]) owns a singleton token-info record (hard cap,
//! circulating supply) and a per-holder stake position, and exposes
//! stake, unstake and claim transitions driven by a fixed-point
//! time-based reward accrual.
//!
//! Every transition here is a pure function from the owning record
//! and the call's inputs to a result and the record's next value.
//! The surrounding runtime — caller authentication, the value-transfer
//! primitive that actually moves balances, durable storage, the clock
//! and the event sink — is a trusted collaborator: it hands each
//! transition plain values (amounts, timestamps, identities) and
//! applies the returned state atomically, so each transition either
//! takes full effect or none.

pub mod identity;

pub mod sums;

pub mod arcade;

pub mod staking;
