//! Accounts as the rebasing extensions see them: who they are, who owns
//! them, their bytes, and the records that the token program finds in them.

use crate::pubkey::Pubkey;
use crate::rebasing_mint::RebasingMintConfig;
use crate::rebasing_token::{RebasingTokenAccount, RebasingTokenMint};
use vstd::prelude::*;

verus! {

/// What the token program finds in a mint, as far as rebasing reads it.
#[derive(Clone, Copy, Debug, PartialEq)]
pub struct MintState {
    /// The total supply of the mint's token.
    pub supply: u64,
    /// The slot of the rebasing configuration, empty until it is initialized.
    pub rebasing_mint: Option<RebasingMintConfig>,
    /// The slot of the share accounting record, empty until it is initialized.
    pub rebasing_token: Option<RebasingTokenMint>,
}

/// What the token program finds in a token account, as far as rebasing
/// reads it.
#[derive(Clone, Copy, Debug, PartialEq)]
pub struct TokenAccountState {
    /// The slot of the account's shares.
    pub rebasing_token: Option<RebasingTokenAccount>,
}

/// What the token program finds in an account's bytes.
#[derive(Clone, Copy, Debug, PartialEq)]
pub enum AccountState {
    /// Neither a mint nor a token account of the token program.
    Unknown,
    /// A mint.
    Mint(MintState),
    /// A token account.
    Token(TokenAccountState),
}

/// An account that is handed to an instruction.
#[derive(Clone, Debug, PartialEq)]
pub struct AccountInfo {
    /// The account's identifier.
    pub key: Pubkey,
    /// The program that owns the account.
    pub owner: Pubkey,
    /// The account's bytes.
    pub data: Vec<u8>,
    /// What the token program finds in those bytes.
    pub state: AccountState,
}

impl AccountInfo {
    /// The mint in this account, if the account holds one.
    pub open spec fn mint(self) -> Option<MintState> {
        match self.state {
            AccountState::Mint(mint) => Some(mint),
            _ => None,
        }
    }

    /// The token account in this account, if the account holds one.
    pub open spec fn token(self) -> Option<TokenAccountState> {
        match self.state {
            AccountState::Token(token) => Some(token),
            _ => None,
        }
    }
}

} // verus!
