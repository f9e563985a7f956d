//! Planning and bookkeeping for token transfers on a ledger with a shielded pool.
//!
//! The crate holds the decisions of a transfer: which identity an alias names,
//! how an amount is denominated, how fees are paid, who has to sign, and what a
//! node's answer to a submission means. Talking to the wallet file, the network
//! and the proving system is left to the caller, who hands their answers in as
//! plain values.

pub mod amount;
pub mod config;
pub mod error;
pub mod identity;
pub mod intent;
pub mod outcome;
pub mod pipeline;
pub mod signing;
pub mod wallet;
