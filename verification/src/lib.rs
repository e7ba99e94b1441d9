//! Stake/reward accounting for a shared, depleting reward pool.
//!
//! A singleton pool holds a fixed reward budget; each participant may hold
//! one staked position at a time. The verified core is the accounting:
//! opening a position, converting elapsed time into a reward, checking the
//! reward against the remaining budget, and updating both records. Storage
//! provisioning, signer verification, the token-custody ledger and event
//! emission belong to the hosting environment, which supplies plain values
//! (the current time) and carries out the custody transfers that the
//! operations report.

pub mod laws;
pub mod ops;
pub mod reward;
pub mod state;
