//! What a user has to say to have a transfer made.

use vstd::prelude::*;

verus! {

/// The settings of one transfer. Accounts are given by the aliases that the
/// wallet knows them under.
#[derive(Debug, PartialEq, Eq)]
pub struct AppConfig {
    /// The chain to send to.
    pub chain_id: String,
    /// Where that chain's node answers.
    pub rpc: String,
    /// Alias of the token to move.
    pub token: String,
    /// Alias of the account that pays.
    pub source: String,
    /// Alias of the account that receives.
    pub target: String,
    /// How much to move, in base units of the token.
    pub amount: u64,
    /// Alias of the key that pays the fee, if the source does not.
    pub fee_payer: Option<String>,
}

} // verus!
