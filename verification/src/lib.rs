//! Core of a decentralized credit-based payment network node.
//!
//! Nodes form a trust graph: each pair of mutually trusting nodes ("friends")
//! maintains a bilateral mutual-credit channel. Value moves across the graph
//! by atomically adjusting bilateral balances along a multi-hop route.
//!
//! The crate covers the mutual-credit accounting unit, the signed token
//! channel that keeps two peers' view of their shared balance identical,
//! the canonical signature buffers, and the funder-side bookkeeping
//! (friend state, queues, payments, cancellation).

use vstd::prelude::*;

pub mod canceler;
pub mod credit_calc;
pub mod compact;
pub mod crypto;
pub mod friend;
pub mod files;
pub mod funder;
pub mod liveness;
pub mod messages;
pub mod mutual_credit;
pub mod report;
pub mod serialize;
pub mod signature_buff;
pub mod state;
pub mod token_channel;
pub mod verify;

verus! {

/// The maximum possible funder debt.
/// We don't use the full u128 range because i128 can not go beyond this value.
pub const MAX_FUNDER_DEBT: u128 = 170141183460469231731687303715884105727;

/// Longest route (list of public keys) a request may carry.
pub const MAX_ROUTE_LEN: usize = 32;

} // verus!
