//! A token escrow between a learner and a mentor.
//!
//! A learner locks tokens for a mentoring session; the tokens then go to the
//! mentor (released by the learner or the admin) or back to the learner
//! (refunded by the admin, possibly after a dispute).
//!
//! The contract runs on a ledger host that owns its storage, checks
//! signatures, moves tokens and tells the time. The library decides what is
//! asked of that host and what is made of each answer: an operation is an
//! `Invocation` that names one host call at a time and is resumed with the
//! reply.
//!
//! - `types`: addresses, escrows, and the reasons to refuse an operation.
//! - `host`: the host calls that the contract makes, and their replies.
//! - `script`: which calls each operation makes, in which order, and where it
//!   stops.
//! - `contract`: the executable operations, proved to follow their scripts.
//! - `ledger`: a model of the host, and what it means to run an operation
//!   against it.
//! - `effects`: what each operation does to a ledger, in closed form.
//! - `solvency`: the contract's storage always makes sense, and the contract
//!   always holds the tokens that it owes.
//! - `faithful`: the models of the library's values leave nothing out.
//! - `promises`: when each operation goes through, what it then leaves behind,
//!   and how each other one is answered.
//! - `laws`: what holds of every operation and of every history.

pub mod contract;
pub mod effects;
pub mod faithful;
pub mod host;
pub mod laws;
pub mod ledger;
pub mod promises;
pub mod script;
pub mod solvency;
pub mod types;
