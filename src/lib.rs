//! Conditional payouts to allow-listed accounts.
//!
//! A payout is a chain of three stages that run on separate host invocations:
//! the entry stage checks the caller and the attached value and asks the
//! allow-list service about the receiver; the eligibility continuation either
//! sends the value to the receiver or refunds the payer; the transfer
//! continuation records the payment or refunds the payer. Each stage here is a
//! pure decision from its inputs to what the host must do next.

pub mod account;
pub mod payouts;
pub mod laws;
