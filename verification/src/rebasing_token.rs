//! Share accounting: balances are stored as shares of a pool, and a transfer
//! names an amount of shares.

use crate::pubkey::OptionalNonZeroPubkey;
use vstd::prelude::*;

pub mod instruction;
pub mod processor;

verus! {

/// The share accounting record of a mint.
#[derive(Clone, Copy, Debug, PartialEq)]
pub struct RebasingTokenMint {
    /// The authority to determine share allocations.
    pub share_authority: OptionalNonZeroPubkey,
    /// The shares outstanding over all accounts of the mint.
    pub supply: u64,
}

impl Default for RebasingTokenMint {
    /// The record of a slot that nothing was written to: no authority and no
    /// shares outstanding.
    fn default() -> (mint: RebasingTokenMint)
        ensures
            mint == (RebasingTokenMint {
                share_authority: OptionalNonZeroPubkey::stored(None),
                supply: 0,
            }),
            mint.share_authority.key() is None,
    {
        RebasingTokenMint { share_authority: OptionalNonZeroPubkey::default(), supply: 0 }
    }
}

/// The shares of a token account.
#[derive(Clone, Copy, Debug, Default, PartialEq, Eq, Structural)]
pub struct RebasingTokenAccount {
    /// Shares to compute rebasing token balance
    pub shares: u64,
}

} // verus!
