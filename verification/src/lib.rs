//! A progressive reward-claim engine.
//!
//! Holders of a per-account credential claim a primary reward at a
//! rate-limited cadence. A bonus reward is granted whenever the cumulative
//! claim count of an account lands exactly on a step of a rising threshold
//! schedule. Primary tokens can be burned for bonus tokens, and a payment in
//! a designated currency buys a claim that skips the rate limit.
//!
//! Every operation is a function of the engine state and of the plain values
//! handed in by the surrounding runtime: the credential state read from the
//! credential store, the current time, and the assets presented by the caller.
//! What the runtime has to mint, burn, move or write back is returned as a
//! receipt. The engine itself holds no tokens, reads no clock and sends no
//! events.
//!
//! The modules, from the leaves up:
//! - `schedule`: the bonus threshold schedule;
//! - `account`: account records and their ledger;
//! - `claim_policy`: the rate limit and the counting of a claim;
//! - `redemption_policy`: burning for a bonus, and the paid claim;
//! - `issuance`: batches of credentials;
//! - `engine`: the operations on one configuration and one ledger;
//! - `events`: what is reported of an operation;
//! - `laws`: what holds of all of them.

pub mod account;
pub mod amount;
pub mod claim_policy;
pub mod config;
pub mod credential;
pub mod engine;
pub mod error;
pub mod events;
pub mod issuance;
pub mod laws;
pub mod redemption_policy;
pub mod schedule;
