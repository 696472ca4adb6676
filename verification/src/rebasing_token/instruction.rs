//! The instructions of share accounting, and their bytes.

use crate::error::RebaseError;
use crate::instruction::{AccountMeta, Instruction};
use crate::pod::{lemma_pubkey_by_bytes, push_key, push_u64, read_key, read_u64};
use crate::pubkey::{zero_key_bytes, OptionalNonZeroPubkey, Pubkey};
use crate::rebasing_mint::instruction::stored_key_bytes;
use vstd::bytes::{
    lemma_auto_spec_u64_to_from_le_bytes, spec_u64_from_le_bytes, spec_u64_to_le_bytes,
};
use vstd::prelude::*;

verus! {

/// Rebasing Token extension instructions
#[derive(Clone, Copy, Debug, PartialEq, Eq, Structural)]
pub enum RebasingTokenInstruction {
    /// Initializes share accounting for a mint.
    ///
    /// Accounts expected by this instruction:
    ///
    ///   0. `[writable]` The mint.
    ///
    /// Data expected by this instruction: `InitializeMintData`
    InitializeMint,
    /// Transfers shares from one account to another either directly or via
    /// a delegate.
    ///
    /// Accounts expected by this instruction:
    ///
    ///   0. `[writable]` The source account.
    ///   1. `[]` The token mint.
    ///   2. `[writable]` The destination account.
    ///   3. `[signer]` The source account's owner or delegate; `[]` where it
    ///      is a multisignature account.
    ///   4. ..4+M `[signer]` M signer accounts of a multisignature account.
    ///
    /// Data expected by this instruction: `TransferCheckedData`
    TransferChecked,
}

impl RebasingTokenInstruction {
    /// The instruction that the opcode `byte` stands for.
    pub open spec fn from_byte(byte: u8) -> Option<RebasingTokenInstruction> {
        if byte == 0 {
            Some(RebasingTokenInstruction::InitializeMint)
        } else if byte == 1 {
            Some(RebasingTokenInstruction::TransferChecked)
        } else {
            None
        }
    }

    /// The opcode of the instruction.
    pub open spec fn byte(self) -> u8 {
        match self {
            RebasingTokenInstruction::InitializeMint => 0,
            RebasingTokenInstruction::TransferChecked => 1,
        }
    }

    /// Decodes an opcode. Fails with `MalformedInstructionPayload` where
    /// the byte is no opcode of this extension.
    pub fn try_from_u8(byte: u8) -> (decoded: Result<RebasingTokenInstruction, RebaseError>)
        ensures
            decoded == match Self::from_byte(byte) {
                Some(i) => Ok::<RebasingTokenInstruction, RebaseError>(i),
                None => Err::<RebasingTokenInstruction, RebaseError>(
                    RebaseError::MalformedInstructionPayload,
                ),
            },
    {
        match byte {
            0 => Ok(RebasingTokenInstruction::InitializeMint),
            1 => Ok(RebasingTokenInstruction::TransferChecked),
            _ => Err(RebaseError::MalformedInstructionPayload),
        }
    }

    /// The opcode of the instruction.
    pub fn to_u8(self) -> (byte: u8)
        ensures
            byte == self.byte(),
            Self::from_byte(byte) == Some(self),
    {
        match self {
            RebasingTokenInstruction::InitializeMint => 0,
            RebasingTokenInstruction::TransferChecked => 1,
        }
    }
}

/// The number of bytes in the arguments of `InitializeMint`.
pub const INITIALIZE_MINT_DATA_LEN: usize = 32;

/// The number of bytes in the arguments of `TransferChecked`.
pub const TRANSFER_CHECKED_DATA_LEN: usize = 9;

/// Data expected by `RebasingTokenInstruction::InitializeMint`
#[derive(Clone, Copy, Debug, PartialEq)]
pub struct InitializeMintData {
    /// Authority to modify the share amount of each account
    pub share_authority: OptionalNonZeroPubkey,
}

impl InitializeMintData {
    /// The bytes of the arguments: the 32 bytes of the identifier.
    pub open spec fn packed(self) -> Seq<u8> {
        self.share_authority.0@
    }

    /// The arguments that `bytes` holds: those of which they are the bytes,
    /// if there are 32 of them.
    pub open spec fn unpacked(bytes: Seq<u8>) -> Option<InitializeMintData> {
        if bytes.len() == 32 {
            Some(choose|data: InitializeMintData| data.packed() == bytes)
        } else {
            None
        }
    }

    /// Arguments that are packed and unpacked come back as they were.
    pub proof fn lemma_unpack_packed(self)
        ensures
            self.packed().len() == 32,
            Self::unpacked(self.packed()) == Some(self),
    {
        let found = choose|data: InitializeMintData| data.packed() == self.packed();
        lemma_pubkey_by_bytes(found.share_authority.0, self.share_authority.0);
    }

    /// The bytes of the arguments.
    pub fn pack(&self) -> (bytes: Vec<u8>)
        ensures
            bytes@ == self.packed(),
    {
        let mut bytes: Vec<u8> = Vec::new();
        push_key(&mut bytes, &self.share_authority);
        assert(bytes@ =~= self.packed());
        bytes
    }

    /// Reads the arguments from their bytes. Fails with
    /// `MalformedInstructionPayload` unless there are 32 bytes.
    pub fn unpack(bytes: &[u8]) -> (data: Result<InitializeMintData, RebaseError>)
        ensures
            data == match Self::unpacked(bytes@) {
                Some(d) => Ok::<InitializeMintData, RebaseError>(d),
                None => Err::<InitializeMintData, RebaseError>(
                    RebaseError::MalformedInstructionPayload,
                ),
            },
            data is Ok ==> data->Ok_0.packed() == bytes@,
    {
        match read_key(bytes) {
            None => Err(RebaseError::MalformedInstructionPayload),
            Some(share_authority) => {
                let data = InitializeMintData { share_authority };
                proof {
                    data.lemma_unpack_packed();
                }
                Ok(data)
            },
        }
    }
}

/// Data expected by `RebasingTokenInstruction::TransferChecked`
#[derive(Clone, Copy, Debug, PartialEq, Eq, Structural)]
pub struct TransferCheckedData {
    /// The amount of shares to transfer.
    pub share_amount: u64,
    /// Expected number of base 10 digits to the right of the decimal place.
    pub decimals: u8,
}

impl TransferCheckedData {
    /// The bytes of the arguments: the eight little-endian bytes of the
    /// amount, then the byte of the decimals.
    pub open spec fn packed(self) -> Seq<u8> {
        spec_u64_to_le_bytes(self.share_amount) + seq![self.decimals]
    }

    /// The arguments that `bytes` holds, if there are 9 of them.
    pub open spec fn unpacked(bytes: Seq<u8>) -> Option<TransferCheckedData> {
        if bytes.len() == 9 {
            Some(
                TransferCheckedData {
                    share_amount: spec_u64_from_le_bytes(bytes.subrange(0, 8)),
                    decimals: bytes[8],
                },
            )
        } else {
            None
        }
    }

    /// Arguments that are packed and unpacked come back as they were.
    pub proof fn lemma_unpack_packed(self)
        ensures
            self.packed().len() == 9,
            Self::unpacked(self.packed()) == Some(self),
    {
        lemma_auto_spec_u64_to_from_le_bytes();
        let amount = spec_u64_to_le_bytes(self.share_amount);
        assert(self.packed().subrange(0, 8) =~= amount);
    }

    /// The bytes of the arguments.
    pub fn pack(&self) -> (bytes: Vec<u8>)
        ensures
            bytes@ == self.packed(),
    {
        let mut bytes: Vec<u8> = Vec::new();
        push_u64(&mut bytes, self.share_amount);
        bytes.push(self.decimals);
        assert(bytes@ =~= self.packed());
        bytes
    }

    /// Reads the arguments from their bytes. Fails with
    /// `MalformedInstructionPayload` unless there are 9 bytes.
    pub fn unpack(bytes: &[u8]) -> (data: Result<TransferCheckedData, RebaseError>)
        ensures
            data == match Self::unpacked(bytes@) {
                Some(d) => Ok::<TransferCheckedData, RebaseError>(d),
                None => Err::<TransferCheckedData, RebaseError>(
                    RebaseError::MalformedInstructionPayload,
                ),
            },
    {
        if bytes.len() != TRANSFER_CHECKED_DATA_LEN {
            return Err(RebaseError::MalformedInstructionPayload);
        }
        match read_u64(&bytes[0..8]) {
            None => Err(RebaseError::MalformedInstructionPayload),
            Some(share_amount) => Ok(TransferCheckedData { share_amount, decimals: bytes[8] }),
        }
    }
}

/// Create a `InitializeMint` instruction. Fails with `InvalidArgument`
/// where the authority is 32 zero bytes.
pub fn initialize_mint(token_program_id: &Pubkey, mint: &Pubkey, share_authority: Option<Pubkey>) -> (result:
    Result<Instruction, RebaseError>)
    ensures
        share_authority is Some && share_authority->0@ == zero_key_bytes() ==> result == Err::<
            Instruction,
            RebaseError,
        >(RebaseError::InvalidArgument),
        !(share_authority is Some && share_authority->0@ == zero_key_bytes()) ==> {
            &&& result is Ok
            &&& result->Ok_0.program_id == *token_program_id
            &&& result->Ok_0.accounts@ == seq![
                AccountMeta { pubkey: *mint, is_signer: false, is_writable: true },
            ]
            &&& result->Ok_0.data@ == seq![0u8] + stored_key_bytes(share_authority)
        },
{
    let stored = match OptionalNonZeroPubkey::try_from_option(share_authority) {
        Err(e) => {
            return Err(e);
        },
        Ok(stored) => stored,
    };
    let mut accounts: Vec<AccountMeta> = Vec::new();
    accounts.push(AccountMeta::new(*mint, false));
    assert(accounts@ =~= seq![AccountMeta { pubkey: *mint, is_signer: false, is_writable: true }]);
    let payload = InitializeMintData { share_authority: stored };
    let mut data: Vec<u8> = Vec::new();
    data.push(RebasingTokenInstruction::InitializeMint.to_u8());
    let mut packed = payload.pack();
    data.append(&mut packed);
    assert(data@ =~= seq![0u8] + stored_key_bytes(share_authority));
    Ok(Instruction { program_id: *token_program_id, accounts, data })
}

/// The accounts that `TransferChecked` names: the source, the mint, the
/// destination and the authority, then the signers of a multisignature
/// authority. The authority signs itself exactly where no signers are given.
pub open spec fn transfer_accounts(
    source: Pubkey,
    mint: Pubkey,
    destination: Pubkey,
    authority: Pubkey,
    signers: Seq<Pubkey>,
) -> Seq<AccountMeta> {
    seq![
        AccountMeta { pubkey: source, is_signer: false, is_writable: true },
        AccountMeta { pubkey: mint, is_signer: false, is_writable: false },
        AccountMeta { pubkey: destination, is_signer: false, is_writable: true },
        AccountMeta { pubkey: authority, is_signer: signers.len() == 0, is_writable: false },
    ] + Seq::new(
        signers.len(),
        |i: int| AccountMeta { pubkey: signers[i], is_signer: true, is_writable: false },
    )
}

/// Create a `TransferChecked` instruction.
pub fn transfer_checked(
    token_program_id: &Pubkey,
    source: &Pubkey,
    mint: &Pubkey,
    destination: &Pubkey,
    authority: &Pubkey,
    signers: &[&Pubkey],
    share_amount: u64,
    decimals: u8,
) -> (result: Result<Instruction, RebaseError>)
    ensures
        result is Ok,
        result->Ok_0.program_id == *token_program_id,
        result->Ok_0.accounts@ == transfer_accounts(
            *source,
            *mint,
            *destination,
            *authority,
            Seq::new(signers@.len(), |i: int| *signers@[i]),
        ),
        result->Ok_0.data@ == seq![1u8] + spec_u64_to_le_bytes(share_amount) + seq![decimals],
{
    let ghost keys = Seq::new(signers@.len(), |i: int| *signers@[i]);
    let ghost expected = transfer_accounts(*source, *mint, *destination, *authority, keys);
    let count = signers.len();
    let mut accounts: Vec<AccountMeta> = Vec::new();
    accounts.push(AccountMeta::new(*source, false));
    accounts.push(AccountMeta::new_readonly(*mint, false));
    accounts.push(AccountMeta::new(*destination, false));
    accounts.push(AccountMeta::new_readonly(*authority, count == 0));
    let mut i: usize = 0;
    while i < count
        invariant
            i <= count,
            count == signers@.len(),
            keys == Seq::new(signers@.len(), |i: int| *signers@[i]),
            expected == transfer_accounts(*source, *mint, *destination, *authority, keys),
            accounts@ == expected.subrange(0, 4 + i),
        decreases count - i,
    {
        let ghost before = accounts@;
        accounts.push(AccountMeta::new_readonly(*signers[i], true));
        assert(accounts@ =~= expected.subrange(0, 4 + i + 1)) by {
            assert(expected[4 + i] == AccountMeta {
                pubkey: keys[i as int],
                is_signer: true,
                is_writable: false,
            });
        }
        i += 1;
    }
    assert(accounts@ =~= expected);
    let payload = TransferCheckedData { share_amount, decimals };
    let mut data: Vec<u8> = Vec::new();
    data.push(RebasingTokenInstruction::TransferChecked.to_u8());
    let mut packed = payload.pack();
    data.append(&mut packed);
    assert(data@ =~= seq![1u8] + spec_u64_to_le_bytes(share_amount) + seq![decimals]);
    Ok(Instruction { program_id: *token_program_id, accounts, data })
}

} // verus!
