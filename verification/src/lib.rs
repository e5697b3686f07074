//! A minimal fungible-token ledger with a single-owner administrative gate.
//!
//! The ledger tracks a balance for each explicitly registered account and a
//! running total supply; deposits and withdrawals are checked against
//! overflow and insufficient funds and either complete in full or leave the
//! state untouched. A gateway wraps the ledger with a single-owner
//! authorization check for the administrative operations (mint, burn,
//! account registration, ownership transfer) and a stricter self-only check
//! for the metadata icon update. The surrounding host is expected to supply
//! the authenticated caller identity and the attached native payment for
//! each call as plain values.

pub mod account;
pub mod errors;
pub mod ledger;
pub mod lifecycle;
pub mod metadata;
pub mod token;
