//! Deployment configuration: the fixed keys a deployment compares against and
//! its policy on closing an escrow that was never settled or canceled.

use crate::key::Key;
use vstd::prelude::*;

verus! {

/// The keys and policy of one deployment, supplied when it starts.
#[derive(Debug, Copy, Clone)]
pub struct Config {
    /// This program's own identity.
    pub program_id: Key,
    /// The token-ledger program that owns token accounts.
    pub token_program: Key,
    /// The mint sentinel that denotes the ledger's native unit.
    pub native_mint: Key,
    /// The approving authority of deposits and fundings.
    pub authority: Key,
    /// The owner of the accounts that collect fees.
    pub fee_collector: Key,
    /// The owner of the accounts that collect deposits.
    pub deposit_collector: Key,
    /// Whether Close may finish an escrow still awaiting settlement.
    pub close_pending: bool,
}

} // verus!
