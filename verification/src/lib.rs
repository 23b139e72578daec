//! A ledger-state transition engine for a token incentive protocol.
//!
//! The engine turns observed trading and staking activity, together with
//! externally supplied price data, into validated token-mint amounts. It is
//! deliberately pure: every operation is a function from the caller's inputs
//! and the freshly loaded account records to new records plus the amounts to
//! mint or transfer. Persistent storage, signature checks, the price oracle
//! and the token ledger itself are capabilities of the host; the engine only
//! decides amounts and destinations, and every decision carries a proof.

pub mod arith;
pub mod errors;
pub mod governance;
pub mod protocol;
pub mod reward;
pub mod stake;
pub mod state;
