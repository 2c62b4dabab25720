//! A two-party escrowed lottery built on a commit-reveal scheme.
//!
//! Two participants lock an equal stake and each commits to a secret through a
//! Keccak-256 digest. Once both secrets are revealed, the parity of the summed
//! secret lengths picks the winner, who receives the combined stake. A party
//! that stays silent past its deadline forfeits the stake to the counterparty.

pub mod errors;
pub mod hashing;
pub mod record;
pub mod ledger;
pub mod store;
pub mod ops;
pub mod laws;
