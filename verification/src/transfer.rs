//! What the library asks of the service that moves value, and what it hears
//! back. The library never moves value itself: it says which transfer is
//! due, and is told how the transfer went.

use vstd::prelude::*;
use anchor_lang::prelude::Pubkey;

verus! {

/// One transfer of tokens, to be carried out by the token program.
#[derive(Clone, Copy, Debug, PartialEq, Eq)]
pub struct TransferRequest {
    /// The token program that is to carry it out.
    pub program: Pubkey,
    /// The account the tokens leave.
    pub from: Pubkey,
    /// The account the tokens reach.
    pub to: Pubkey,
    /// The account whose signature allows the transfer.
    pub authority: Pubkey,
    /// How much is moved, in the smallest unit of the currency.
    pub amount: u64,
}

/// How a requested transfer went.
#[derive(Clone, Copy, Debug, PartialEq, Eq, Structural)]
pub enum TransferOutcome {
    /// The tokens were moved.
    Completed,
    /// Nothing was moved.
    Failed,
}

} // verus!
