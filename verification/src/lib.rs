//! Leader-timed submission of transaction bundles to a block-engine relay,
//! and confirmation of whether a submitted bundle landed.
//!
//! The crate holds the decisions of that protocol: when the next leader slot
//! is close enough to submit, what a tip-paying bundle is made of, and how the
//! relay's result stream, its pending-transaction stream and a liveness timer
//! are folded into one final status. Network reads and writes are left to the
//! caller, which feeds events in and carries actions out.
//!
//! - `slot`: the answer of a leader probe and the proximity rule.
//! - `instruction`, `encoding`, `ledger`: instructions as plain values, the
//!   limits of the transaction format, and the calls into the ledger SDK.
//! - `bundle`: the bundle builder.
//! - `submitter`: what is sent, and what the relay's answer means.
//! - `correlator`: the wait for a bundle's result.
//! - `workflow`: the whole run, from leader wait to final status.
//! - `status`: final statuses and errors.

pub mod bundle;
pub mod correlator;
pub mod encoding;
pub mod instruction;
pub mod ledger;
pub mod slot;
pub mod status;
pub mod submitter;
pub mod workflow;
