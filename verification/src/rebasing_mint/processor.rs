//! Processing of the mint's rebasing instructions.

use crate::account::{AccountInfo, AccountState, MintState};
use crate::error::RebaseError;
use crate::instruction::{decode_instruction_data, decode_instruction_type};
use crate::pubkey::{OptionalNonZeroPubkey, Pubkey};
use crate::rebasing_mint::instruction::{
    InitializeInstructionData, RebasingMintInstruction, INITIALIZE_DATA_LEN,
};
use crate::rebasing_mint::{
    reference_quantity, reference_quantity_of, RebaseType, RebasingMintConfig,
};
use vstd::prelude::*;

verus! {

/// What `Initialize` decides: the configuration that it stores in the mint,
/// or the error. The checks come in this order: the kind of the reference,
/// the number of accounts, the identity of the reference account, its
/// state, the owner of the mint, and that the mint's slot is still empty.
pub open spec fn initialize_outcome(
    program_id: Pubkey,
    accounts: Seq<AccountInfo>,
    rebase_pubkey: OptionalNonZeroPubkey,
    rebase_type: u8,
) -> Result<RebasingMintConfig, RebaseError> {
    if RebaseType::from_byte(rebase_type) is None {
        Err(RebaseError::InvalidRebaseType)
    } else if accounts.len() < 2 {
        Err(RebaseError::NotEnoughAccountKeys)
    } else if rebase_pubkey.key() != Some(accounts[1].key) {
        Err(RebaseError::RebaseAccountMismatch)
    } else if reference_quantity_of(RebaseType::from_byte(rebase_type)->0, accounts[1]) is Err {
        Err(reference_quantity_of(RebaseType::from_byte(rebase_type)->0, accounts[1])->Err_0)
    } else if accounts[0].owner != program_id {
        Err(RebaseError::IncorrectProgramId)
    } else {
        match accounts[0].state {
            AccountState::Mint(mint) => if mint.rebasing_mint is Some {
                Err(RebaseError::AlreadyInitialized)
            } else {
                Ok(RebasingMintConfig { rescale_authority: rebase_pubkey, rescale_type: rebase_type })
            },
            _ => Err(RebaseError::InvalidAccountData),
        }
    }
}

/// The accounts after `config` is stored in the mint, which is the first of
/// them: nothing else changes.
pub open spec fn with_mint_config(accounts: Seq<AccountInfo>, config: RebasingMintConfig) -> Seq<
    AccountInfo,
> {
    accounts.update(
        0,
        AccountInfo {
            state: AccountState::Mint(
                MintState { rebasing_mint: Some(config), ..accounts[0].mint()->0 },
            ),
            ..accounts[0]
        },
    )
}

/// Processes an `Initialize` rebasing extension instruction: binds the mint
/// to its reference account. The accounts are the mint and the reference
/// account. On an error no account changes.
pub fn process_initialize(
    program_id: &Pubkey,
    accounts: &mut Vec<AccountInfo>,
    rebase_pubkey: &OptionalNonZeroPubkey,
    rebase_type: u8,
) -> (result: Result<(), RebaseError>)
    ensures
        match initialize_outcome(*program_id, old(accounts)@, *rebase_pubkey, rebase_type) {
            Ok(config) => result is Ok && config.valid() && final(accounts)@ == with_mint_config(
                old(accounts)@,
                config,
            ),
            Err(e) => result == Err::<(), RebaseError>(e) && final(accounts)@ == old(accounts)@,
        },
{
    let kind = match RebaseType::try_from_u8(rebase_type) {
        Ok(kind) => kind,
        Err(e) => {
            return Err(e);
        },
    };
    if accounts.len() < 2 {
        return Err(RebaseError::NotEnoughAccountKeys);
    }
    let acc_match = match rebase_pubkey.to_option() {
        Some(named) => named.equals(&accounts[1].key),
        None => false,
    };
    if !acc_match {
        return Err(RebaseError::RebaseAccountMismatch);
    }
    match reference_quantity(kind, &accounts[1]) {
        Err(e) => {
            return Err(e);
        },
        Ok(_) => {},
    }
    if !accounts[0].owner.equals(program_id) {
        return Err(RebaseError::IncorrectProgramId);
    }
    let mint = match accounts[0].state {
        AccountState::Mint(mint) => mint,
        _ => {
            return Err(RebaseError::InvalidAccountData);
        },
    };
    if mint.rebasing_mint.is_some() {
        return Err(RebaseError::AlreadyInitialized);
    }
    let config = RebasingMintConfig { rescale_authority: *rebase_pubkey, rescale_type: rebase_type };
    accounts[0].state = AccountState::Mint(
        MintState {
            supply: mint.supply,
            rebasing_mint: Some(config),
            rebasing_token: mint.rebasing_token,
        },
    );
    assert(accounts@ =~= with_mint_config(old(accounts)@, config));
    Ok(())
}

/// A mint whose slot is populated is never initialized again: the
/// instruction fails and leaves the accounts as they are, and where nothing
/// else is wrong with the request it fails with `AlreadyInitialized`.
pub proof fn lemma_initialize_once(
    program_id: Pubkey,
    accounts: Seq<AccountInfo>,
    rebase_pubkey: OptionalNonZeroPubkey,
    rebase_type: u8,
)
    requires
        accounts.len() >= 1,
        accounts[0].mint() is Some,
        accounts[0].mint()->0.rebasing_mint is Some,
    ensures
        initialize_outcome(program_id, accounts, rebase_pubkey, rebase_type) is Err,
        RebaseType::from_byte(rebase_type) is Some && accounts.len() >= 2 && rebase_pubkey.key()
            == Some(accounts[1].key) && reference_quantity_of(
            RebaseType::from_byte(rebase_type)->0,
            accounts[1],
        ) is Ok && accounts[0].owner == program_id ==> initialize_outcome(
            program_id,
            accounts,
            rebase_pubkey,
            rebase_type,
        ) == Err::<RebasingMintConfig, RebaseError>(RebaseError::AlreadyInitialized),
{
}

/// What the bytes of an instruction ask for: the arguments of `Initialize`,
/// or the error where the bytes are not that instruction.
pub open spec fn decoded_instruction(input: Seq<u8>) -> Result<
    InitializeInstructionData,
    RebaseError,
> {
    if input.len() == 0 || RebasingMintInstruction::from_byte(input[0]) is None || input.len()
        != 34 {
        Err(RebaseError::MalformedInstructionPayload)
    } else {
        Ok(InitializeInstructionData::unpacked(input.subrange(1, 34))->0)
    }
}

/// Processes an instruction of the mint's rebasing extension: reads the
/// opcode and its arguments from `input` and carries the instruction out.
/// Bytes that are no instruction fail with `MalformedInstructionPayload`.
/// On an error no account changes.
pub fn process_instruction(program_id: &Pubkey, accounts: &mut Vec<AccountInfo>, input: &[u8]) -> (result:
    Result<(), RebaseError>)
    ensures
        match decoded_instruction(input@) {
            Err(e) => result == Err::<(), RebaseError>(e) && final(accounts)@ == old(accounts)@,
            Ok(data) => match initialize_outcome(
                *program_id,
                old(accounts)@,
                data.rebase_pubkey,
                data.rebase_type,
            ) {
                Ok(config) => result is Ok && final(accounts)@ == with_mint_config(
                    old(accounts)@,
                    config,
                ),
                Err(e) => result == Err::<(), RebaseError>(e) && final(accounts)@ == old(accounts)@,
            },
        },
{
    let opcode = match decode_instruction_type(input) {
        Ok(opcode) => opcode,
        Err(e) => {
            return Err(e);
        },
    };
    match RebasingMintInstruction::try_from_u8(opcode) {
        Err(e) => Err(e),
        Ok(RebasingMintInstruction::Initialize) => {
            let arguments = match decode_instruction_data(input, INITIALIZE_DATA_LEN) {
                Ok(arguments) => arguments,
                Err(e) => {
                    return Err(e);
                },
            };
            assert(arguments@ == input@.subrange(1, 34));
            match InitializeInstructionData::unpack(arguments) {
                Err(e) => Err(e),
                Ok(data) => process_initialize(
                    program_id,
                    accounts,
                    &data.rebase_pubkey,
                    data.rebase_type,
                ),
            }
        },
    }
}

} // verus!
