//! Verified core of a minimal crowdfunding protocol.
//!
//! A creator opens a campaign with a funding goal and a deadline, backers
//! pledge value into the campaign's escrow, and once the deadline has passed
//! the creator may withdraw the pooled funds if the goal was met.
//!
//! The host substrate (durable record storage, a trusted clock, signature
//! checks and the value-transfer primitive) is abstracted away: operations
//! take the current time and the caller's identity as plain arguments, and
//! balances are plain integers handed in by the caller. Every state
//! transition is specified by a total outcome function and proved to keep
//! the escrow's value-conservation invariant.

pub mod campaign;
pub mod errors;
pub mod laws;
pub mod registry;
pub mod state;
pub mod tally;
