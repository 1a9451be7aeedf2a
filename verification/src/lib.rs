//! Settlement logic for a two-party escrow ("deal") with optional collateral
//! ("bond") held for a third-party arbiter ("checker").
//!
//! The library models the cancellation-with-bond path: given a deal record in
//! a specific state, it authorizes the caller, validates the lifecycle
//! preconditions, and produces the ordered, all-or-nothing sequence of fund
//! movements that unwinds the escrow. The on-chain transport (account
//! loading, cross-program invocations, the clock) stays outside; the library
//! works on plain values and is verified.

pub mod address;
pub mod errors;
pub mod state;
pub mod guard;
pub mod validate;
pub mod plan;
pub mod ledger;
pub mod settle;
pub mod authority;
pub mod laws;
