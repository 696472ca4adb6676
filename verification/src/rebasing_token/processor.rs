//! Processing of the share accounting instructions.

use crate::account::{AccountInfo, AccountState, MintState, TokenAccountState};
use crate::amount::{checked_scale, scaled};
use crate::error::RebaseError;
use crate::instruction::{decode_instruction_data, decode_instruction_type};
use crate::pubkey::{zero_key_bytes, OptionalNonZeroPubkey, Pubkey};
use crate::rebasing_token::instruction::{
    InitializeMintData, RebasingTokenInstruction, TransferCheckedData, INITIALIZE_MINT_DATA_LEN,
    TRANSFER_CHECKED_DATA_LEN,
};
use crate::rebasing_token::{RebasingTokenAccount, RebasingTokenMint};
use vstd::prelude::*;

verus! {

/// The transfer of underlying tokens that the token program's own transfer
/// is to carry out once the shares are debited.
#[derive(Clone, Copy, Debug, PartialEq)]
pub struct BaseTransfer {
    /// The program that runs the transfer.
    pub program_id: Pubkey,
    /// The amount of underlying tokens to move.
    pub amount: u64,
    /// The decimals that the mint is expected to have, where they are checked.
    pub decimals: Option<u8>,
    /// The fee that the caller expects, where one is named.
    pub fee: Option<u64>,
}

/// What `InitializeMint` decides: the record that it stores in the mint, or
/// the error. The checks come in this order: the number of accounts, the
/// owner of the mint, that the account holds a mint, that the mint's slot is
/// still empty, and that the authority can be stored.
pub open spec fn initialize_mint_outcome(
    program_id: Pubkey,
    accounts: Seq<AccountInfo>,
    share_authority: Option<Pubkey>,
) -> Result<OptionalNonZeroPubkey, RebaseError> {
    if accounts.len() < 1 {
        Err(RebaseError::NotEnoughAccountKeys)
    } else if accounts[0].owner != program_id {
        Err(RebaseError::IncorrectProgramId)
    } else {
        match accounts[0].state {
            AccountState::Mint(mint) => if mint.rebasing_token is Some {
                Err(RebaseError::AlreadyInitialized)
            } else if share_authority is Some && share_authority->0@ == zero_key_bytes() {
                Err(RebaseError::InvalidArgument)
            } else {
                Ok(OptionalNonZeroPubkey::stored(share_authority))
            },
            _ => Err(RebaseError::InvalidAccountData),
        }
    }
}

/// The accounts after share accounting is set up in the mint, which is the
/// first of them, with no shares outstanding: nothing else changes.
pub open spec fn with_share_authority(
    accounts: Seq<AccountInfo>,
    share_authority: OptionalNonZeroPubkey,
) -> Seq<AccountInfo> {
    accounts.update(
        0,
        AccountInfo {
            state: AccountState::Mint(
                MintState {
                    rebasing_token: Some(RebasingTokenMint { share_authority, supply: 0 }),
                    ..accounts[0].mint()->0
                },
            ),
            ..accounts[0]
        },
    )
}

/// Processes an `InitializeMint` instruction: sets up share accounting in
/// the mint, which is the first account. On an error no account changes.
pub fn process_initialize_mint(
    program_id: &Pubkey,
    accounts: &mut Vec<AccountInfo>,
    share_authority: Option<Pubkey>,
) -> (result: Result<(), RebaseError>)
    ensures
        match initialize_mint_outcome(*program_id, old(accounts)@, share_authority) {
            Ok(stored) => result is Ok && final(accounts)@ == with_share_authority(
                old(accounts)@,
                stored,
            ),
            Err(e) => result == Err::<(), RebaseError>(e) && final(accounts)@ == old(accounts)@,
        },
{
    if accounts.len() < 1 {
        return Err(RebaseError::NotEnoughAccountKeys);
    }
    if !accounts[0].owner.equals(program_id) {
        return Err(RebaseError::IncorrectProgramId);
    }
    let mint = match accounts[0].state {
        AccountState::Mint(mint) => mint,
        _ => {
            return Err(RebaseError::InvalidAccountData);
        },
    };
    if mint.rebasing_token.is_some() {
        return Err(RebaseError::AlreadyInitialized);
    }
    let stored = match OptionalNonZeroPubkey::try_from_option(share_authority) {
        Ok(stored) => stored,
        Err(e) => {
            return Err(e);
        },
    };
    accounts[0].state = AccountState::Mint(
        MintState {
            supply: mint.supply,
            rebasing_mint: mint.rebasing_mint,
            rebasing_token: Some(RebasingTokenMint { share_authority: stored, supply: 0 }),
        },
    );
    assert(accounts@ =~= with_share_authority(old(accounts)@, stored));
    Ok(())
}

/// What `TransferChecked` decides: the amount of underlying tokens that
/// `share_amount` shares are worth, `floor(share_amount * supply /
/// share_supply)`, or the error. The checks come in this order: that the
/// source and the mint are there, that the second account holds a mint with
/// share accounting, that the first holds a token account with shares, that
/// the shares suffice, the arithmetic, and that the destination and the
/// authority are there for the transfer of underlying tokens.
pub open spec fn transfer_outcome(accounts: Seq<AccountInfo>, share_amount: u64) -> Result<
    u64,
    RebaseError,
> {
    if accounts.len() < 2 {
        Err(RebaseError::NotEnoughAccountKeys)
    } else {
        match accounts[1].state {
            AccountState::Mint(mint) => match mint.rebasing_token {
                None => Err(RebaseError::ExtensionNotFound),
                Some(pool) => match accounts[0].state {
                    AccountState::Token(token) => match token.rebasing_token {
                        None => Err(RebaseError::ExtensionNotFound),
                        Some(held) => if held.shares < share_amount {
                            Err(RebaseError::InsufficientShares)
                        } else {
                            match scaled(share_amount, mint.supply, pool.supply) {
                                None => Err(RebaseError::ArithmeticOverflow),
                                Some(amount) => if accounts.len() < 4 {
                                    Err(RebaseError::NotEnoughAccountKeys)
                                } else {
                                    Ok(amount)
                                },
                            }
                        },
                    },
                    _ => Err(RebaseError::InvalidAccountData),
                },
            },
            _ => Err(RebaseError::InvalidAccountData),
        }
    }
}

/// The accounts after `share_amount` shares are taken from the source,
/// which is the first of them: nothing else changes.
pub open spec fn with_shares_debited(accounts: Seq<AccountInfo>, share_amount: u64) -> Seq<
    AccountInfo,
> {
    accounts.update(
        0,
        AccountInfo {
            state: AccountState::Token(
                TokenAccountState {
                    rebasing_token: Some(
                        RebasingTokenAccount {
                            shares: (accounts[0].token()->0.rebasing_token->0.shares
                                - share_amount) as u64,
                        },
                    ),
                },
            ),
            ..accounts[0]
        },
    )
}

/// Processes a `TransferChecked` instruction: takes `share_amount` shares
/// from the source account and says which transfer of underlying tokens
/// goes with them. The accounts are the source, the mint, the destination
/// and the authority. The source and the mint are read here: the shares and
/// the arithmetic are checked on them before the other two accounts are
/// asked for. Everything is checked before the shares are taken: on an
/// error no account changes. The destination is credited by the transfer
/// that is returned, not here.
pub fn process_transfer_checked(
    program_id: &Pubkey,
    accounts: &mut Vec<AccountInfo>,
    share_amount: u64,
    decimals: Option<u8>,
) -> (result: Result<BaseTransfer, RebaseError>)
    ensures
        match transfer_outcome(old(accounts)@, share_amount) {
            Ok(amount) => result == Ok::<BaseTransfer, RebaseError>(
                BaseTransfer { program_id: *program_id, amount, decimals, fee: None },
            ) && final(accounts)@ == with_shares_debited(old(accounts)@, share_amount),
            Err(e) => result == Err::<BaseTransfer, RebaseError>(e) && final(accounts)@ == old(accounts)@,
        },
{
    if accounts.len() < 2 {
        return Err(RebaseError::NotEnoughAccountKeys);
    }
    let mint = match accounts[1].state {
        AccountState::Mint(mint) => mint,
        _ => {
            return Err(RebaseError::InvalidAccountData);
        },
    };
    let pool = match mint.rebasing_token {
        Some(pool) => pool,
        None => {
            return Err(RebaseError::ExtensionNotFound);
        },
    };
    let token = match accounts[0].state {
        AccountState::Token(token) => token,
        _ => {
            return Err(RebaseError::InvalidAccountData);
        },
    };
    let held = match token.rebasing_token {
        Some(held) => held,
        None => {
            return Err(RebaseError::ExtensionNotFound);
        },
    };
    // Assert that there are sufficient shares
    if held.shares < share_amount {
        return Err(RebaseError::InsufficientShares);
    }
    let remaining = match held.shares.checked_sub(share_amount) {
        Some(remaining) => remaining,
        None => {
            return Err(RebaseError::ArithmeticOverflow);
        },
    };
    let transfer_amount = match checked_scale(share_amount, mint.supply, pool.supply) {
        Ok(amount) => amount,
        Err(e) => {
            return Err(e);
        },
    };
    if accounts.len() < 4 {
        return Err(RebaseError::NotEnoughAccountKeys);
    }
    accounts[0].state = AccountState::Token(
        TokenAccountState { rebasing_token: Some(RebasingTokenAccount { shares: remaining }) },
    );
    assert(accounts@ =~= with_shares_debited(old(accounts)@, share_amount));
    Ok(BaseTransfer { program_id: *program_id, amount: transfer_amount, decimals, fee: None })
}

/// A transfer of more shares than the source holds fails with
/// `InsufficientShares`, whatever the supplies are and whether or not the
/// destination and the authority are among the accounts.
pub proof fn lemma_transfer_needs_shares(accounts: Seq<AccountInfo>, share_amount: u64)
    requires
        accounts.len() >= 2,
        accounts[1].mint() is Some,
        accounts[1].mint()->0.rebasing_token is Some,
        accounts[0].token() is Some,
        accounts[0].token()->0.rebasing_token is Some,
        share_amount > accounts[0].token()->0.rebasing_token->0.shares,
    ensures
        transfer_outcome(accounts, share_amount) == Err::<u64, RebaseError>(
            RebaseError::InsufficientShares,
        ),
{
}

/// A transfer that the source has the shares for, but whose product does
/// not fit in 64 bits or whose share supply is zero, fails with
/// `ArithmeticOverflow`, whether or not the destination and the authority
/// are among the accounts.
pub proof fn lemma_transfer_needs_arithmetic(accounts: Seq<AccountInfo>, share_amount: u64)
    requires
        accounts.len() >= 2,
        accounts[1].mint() is Some,
        accounts[1].mint()->0.rebasing_token is Some,
        accounts[0].token() is Some,
        accounts[0].token()->0.rebasing_token is Some,
        share_amount <= accounts[0].token()->0.rebasing_token->0.shares,
        share_amount * accounts[1].mint()->0.supply > u64::MAX
            || accounts[1].mint()->0.rebasing_token->0.supply == 0,
    ensures
        transfer_outcome(accounts, share_amount) == Err::<u64, RebaseError>(
            RebaseError::ArithmeticOverflow,
        ),
{
}

/// What an instruction of share accounting asks for.
#[derive(Clone, Copy, Debug, PartialEq)]
pub enum TokenRequest {
    /// Set up share accounting with this authority.
    InitializeMint(InitializeMintData),
    /// Transfer this amount of shares.
    TransferChecked(TransferCheckedData),
}

/// What the bytes of an instruction ask for, or the error where the bytes
/// are no instruction of share accounting.
pub open spec fn decoded_instruction(input: Seq<u8>) -> Result<TokenRequest, RebaseError> {
    if input.len() == 0 {
        Err(RebaseError::MalformedInstructionPayload)
    } else {
        match RebasingTokenInstruction::from_byte(input[0]) {
            None => Err(RebaseError::MalformedInstructionPayload),
            Some(RebasingTokenInstruction::InitializeMint) => if input.len() != 33 {
                Err(RebaseError::MalformedInstructionPayload)
            } else {
                Ok(
                    TokenRequest::InitializeMint(
                        InitializeMintData::unpacked(input.subrange(1, 33))->0,
                    ),
                )
            },
            Some(RebasingTokenInstruction::TransferChecked) => if input.len() != 10 {
                Err(RebaseError::MalformedInstructionPayload)
            } else {
                Ok(
                    TokenRequest::TransferChecked(
                        TransferCheckedData::unpacked(input.subrange(1, 10))->0,
                    ),
                )
            },
        }
    }
}

/// Processes an instruction of share accounting: reads the opcode and its
/// arguments from `input` and carries the instruction out. A transfer
/// returns the transfer of underlying tokens that goes with it. Bytes that
/// are no instruction fail with `MalformedInstructionPayload`. On an error
/// no account changes.
pub fn process_instruction(program_id: &Pubkey, accounts: &mut Vec<AccountInfo>, input: &[u8]) -> (result:
    Result<Option<BaseTransfer>, RebaseError>)
    ensures
        match decoded_instruction(input@) {
            Err(e) => result == Err::<Option<BaseTransfer>, RebaseError>(e) && final(accounts)@
                == old(accounts)@,
            Ok(TokenRequest::InitializeMint(data)) => match initialize_mint_outcome(
                *program_id,
                old(accounts)@,
                data.share_authority.key(),
            ) {
                Ok(stored) => result == Ok::<Option<BaseTransfer>, RebaseError>(None) && final(accounts)@ == with_share_authority(old(accounts)@, data.share_authority),
                Err(e) => result == Err::<Option<BaseTransfer>, RebaseError>(e) && final(accounts)@ == old(accounts)@,
            },
            Ok(TokenRequest::TransferChecked(data)) => match transfer_outcome(
                old(accounts)@,
                data.share_amount,
            ) {
                Ok(amount) => result == Ok::<Option<BaseTransfer>, RebaseError>(
                    Some(
                        BaseTransfer {
                            program_id: *program_id,
                            amount,
                            decimals: Some(data.decimals),
                            fee: None,
                        },
                    ),
                ) && final(accounts)@ == with_shares_debited(old(accounts)@, data.share_amount),
                Err(e) => result == Err::<Option<BaseTransfer>, RebaseError>(e) && final(accounts)@ == old(accounts)@,
            },
        },
{
    let opcode = match decode_instruction_type(input) {
        Ok(opcode) => opcode,
        Err(e) => {
            return Err(e);
        },
    };
    let instruction = match RebasingTokenInstruction::try_from_u8(opcode) {
        Ok(instruction) => instruction,
        Err(e) => {
            return Err(e);
        },
    };
    match instruction {
        RebasingTokenInstruction::InitializeMint => {
            let arguments = match decode_instruction_data(input, INITIALIZE_MINT_DATA_LEN) {
                Ok(arguments) => arguments,
                Err(e) => {
                    return Err(e);
                },
            };
            assert(arguments@ == input@.subrange(1, 33));
            let data = match InitializeMintData::unpack(arguments) {
                Ok(data) => data,
                Err(e) => {
                    return Err(e);
                },
            };
            proof {
                data.share_authority.lemma_stored_of_key();
            }
            match process_initialize_mint(program_id, accounts, data.share_authority.to_option()) {
                Ok(_) => Ok(None),
                Err(e) => Err(e),
            }
        },
        RebasingTokenInstruction::TransferChecked => {
            let arguments = match decode_instruction_data(input, TRANSFER_CHECKED_DATA_LEN) {
                Ok(arguments) => arguments,
                Err(e) => {
                    return Err(e);
                },
            };
            assert(arguments@ == input@.subrange(1, 10));
            let data = match TransferCheckedData::unpack(arguments) {
                Ok(data) => data,
                Err(e) => {
                    return Err(e);
                },
            };
            match process_transfer_checked(
                program_id,
                accounts,
                data.share_amount,
                Some(data.decimals),
            ) {
                Ok(transfer) => Ok(Some(transfer)),
                Err(e) => Err(e),
            }
        },
    }
}

} // verus!
