//! The instruction that sets up a mint's rebasing configuration, and its
//! bytes.

use crate::error::RebaseError;
use crate::instruction::{AccountMeta, Instruction};
use crate::pod::{lemma_pubkey_by_bytes, push_key, read_key};
use crate::pubkey::{zero_key_bytes, OptionalNonZeroPubkey, Pubkey};
use crate::rebasing_mint::RebaseType;
use vstd::prelude::*;

verus! {

/// Rebasing mint extension instructions
#[derive(Clone, Copy, Debug, PartialEq, Eq, Structural)]
pub enum RebasingMintInstruction {
    /// Initializes the rebasing configuration of a mint.
    ///
    /// Accounts expected by this instruction:
    ///
    ///   0. `[writable]` The mint.
    ///   1. `[]` The account whose quantity the mint's amounts are scaled
    ///      against.
    ///
    /// Data expected by this instruction: `InitializeInstructionData`
    Initialize,
}

impl RebasingMintInstruction {
    /// The instruction that the opcode `byte` stands for.
    pub open spec fn from_byte(byte: u8) -> Option<RebasingMintInstruction> {
        if byte == 0 {
            Some(RebasingMintInstruction::Initialize)
        } else {
            None
        }
    }

    /// The opcode of the instruction.
    pub open spec fn byte(self) -> u8 {
        0
    }

    /// Decodes an opcode. Fails with `MalformedInstructionPayload` where
    /// the byte is no opcode of this extension.
    pub fn try_from_u8(byte: u8) -> (decoded: Result<RebasingMintInstruction, RebaseError>)
        ensures
            decoded == match Self::from_byte(byte) {
                Some(i) => Ok::<RebasingMintInstruction, RebaseError>(i),
                None => Err::<RebasingMintInstruction, RebaseError>(
                    RebaseError::MalformedInstructionPayload,
                ),
            },
    {
        match byte {
            0 => Ok(RebasingMintInstruction::Initialize),
            _ => Err(RebaseError::MalformedInstructionPayload),
        }
    }

    /// The opcode of the instruction.
    pub fn to_u8(self) -> (byte: u8)
        ensures
            byte == self.byte(),
            Self::from_byte(byte) == Some(self),
    {
        match self {
            RebasingMintInstruction::Initialize => 0,
        }
    }
}

/// The number of bytes in the arguments of `Initialize`.
pub const INITIALIZE_DATA_LEN: usize = 33;

/// Data expected by `RebasingMintInstruction::Initialize`
#[derive(Clone, Copy, Debug, PartialEq)]
pub struct InitializeInstructionData {
    /// The account whose quantity the mint's amounts are scaled against.
    pub rebase_pubkey: OptionalNonZeroPubkey,
    /// The kind of that account: 1 for a staking account, 2 for a mint.
    pub rebase_type: u8,
}

impl InitializeInstructionData {
    /// The bytes of the arguments: the 32 bytes of the identifier, then the
    /// byte of the kind.
    pub open spec fn packed(self) -> Seq<u8> {
        self.rebase_pubkey.0@ + seq![self.rebase_type]
    }

    /// The arguments that `bytes` holds: those of which they are the bytes,
    /// if there are 33 of them.
    pub open spec fn unpacked(bytes: Seq<u8>) -> Option<InitializeInstructionData> {
        if bytes.len() == 33 {
            Some(choose|data: InitializeInstructionData| data.packed() == bytes)
        } else {
            None
        }
    }

    /// Arguments with the same bytes are the same arguments.
    pub proof fn lemma_packed_injective(self, other: InitializeInstructionData)
        requires
            self.packed() == other.packed(),
        ensures
            self == other,
    {
        let a = self.rebase_pubkey.0@;
        let b = other.rebase_pubkey.0@;
        assert(a.len() == 32 && b.len() == 32);
        assert(self.packed()[32] == self.rebase_type);
        assert(other.packed()[32] == other.rebase_type);
        assert forall|i: int| 0 <= i < 32 implies a[i] == b[i] by {
            assert(self.packed()[i] == a[i]);
            assert(other.packed()[i] == b[i]);
        }
        assert(a =~= b);
        lemma_pubkey_by_bytes(self.rebase_pubkey.0, other.rebase_pubkey.0);
    }

    /// Arguments that are packed and unpacked come back as they were.
    pub proof fn lemma_unpack_packed(self)
        ensures
            self.packed().len() == 33,
            Self::unpacked(self.packed()) == Some(self),
    {
        let found = choose|data: InitializeInstructionData| data.packed() == self.packed();
        found.lemma_packed_injective(self);
    }

    /// The bytes of the arguments.
    pub fn pack(&self) -> (bytes: Vec<u8>)
        ensures
            bytes@ == self.packed(),
    {
        let mut bytes: Vec<u8> = Vec::new();
        push_key(&mut bytes, &self.rebase_pubkey);
        bytes.push(self.rebase_type);
        assert(bytes@ =~= self.packed());
        bytes
    }

    /// Reads the arguments from their bytes. Fails with
    /// `MalformedInstructionPayload` unless there are 33 bytes.
    pub fn unpack(bytes: &[u8]) -> (data: Result<InitializeInstructionData, RebaseError>)
        ensures
            data == match Self::unpacked(bytes@) {
                Some(d) => Ok::<InitializeInstructionData, RebaseError>(d),
                None => Err::<InitializeInstructionData, RebaseError>(
                    RebaseError::MalformedInstructionPayload,
                ),
            },
            data is Ok ==> data->Ok_0.packed() == bytes@,
    {
        if bytes.len() != INITIALIZE_DATA_LEN {
            return Err(RebaseError::MalformedInstructionPayload);
        }
        let rebase_pubkey = match read_key(&bytes[0..32]) {
            Some(key) => key,
            None => {
                return Err(RebaseError::MalformedInstructionPayload);
            },
        };
        let data = InitializeInstructionData { rebase_pubkey, rebase_type: bytes[32] };
        proof {
            assert(data.packed() =~= bytes@);
            data.lemma_unpack_packed();
        }
        Ok(data)
    }
}

/// The accounts that `Initialize` names: the mint, which it writes, and the
/// reference account, where one is given, which it reads.
pub open spec fn initialize_accounts(mint: Pubkey, rebase_pubkey: Option<Pubkey>) -> Seq<
    AccountMeta,
> {
    let first = seq![AccountMeta { pubkey: mint, is_signer: false, is_writable: true }];
    match rebase_pubkey {
        Some(key) => first.push(AccountMeta { pubkey: key, is_signer: false, is_writable: false }),
        None => first,
    }
}

/// The bytes in which an optional identifier is stored.
pub open spec fn stored_key_bytes(key: Option<Pubkey>) -> Seq<u8> {
    match key {
        Some(k) => k@,
        None => zero_key_bytes(),
    }
}

/// Create a `Initialize` rebasing extension instruction. Fails with
/// `InvalidRebaseType` where `rebase_type` is neither 1 nor 2, and with
/// `InvalidArgument` where the identifier is 32 zero bytes.
pub fn initialize(
    token_program_id: &Pubkey,
    mint: &Pubkey,
    rebase_pubkey: Option<Pubkey>,
    rebase_type: u8,
) -> (result: Result<Instruction, RebaseError>)
    ensures
        RebaseType::from_byte(rebase_type) is None ==> result == Err::<Instruction, RebaseError>(
            RebaseError::InvalidRebaseType,
        ),
        RebaseType::from_byte(rebase_type) is Some && rebase_pubkey is Some && rebase_pubkey->0@
            == zero_key_bytes() ==> result == Err::<Instruction, RebaseError>(
            RebaseError::InvalidArgument,
        ),
        RebaseType::from_byte(rebase_type) is Some && !(rebase_pubkey is Some && rebase_pubkey->0@
            == zero_key_bytes()) ==> {
            &&& result is Ok
            &&& result->Ok_0.program_id == *token_program_id
            &&& result->Ok_0.accounts@ == initialize_accounts(*mint, rebase_pubkey)
            &&& result->Ok_0.data@ == seq![0u8] + stored_key_bytes(rebase_pubkey) + seq![
                rebase_type,
            ]
        },
{
    match RebaseType::validate(rebase_type) {
        Err(e) => {
            return Err(e);
        },
        Ok(_) => {},
    }
    let stored = match OptionalNonZeroPubkey::try_from_option(rebase_pubkey) {
        Err(e) => {
            return Err(e);
        },
        Ok(stored) => stored,
    };
    let mut accounts: Vec<AccountMeta> = Vec::new();
    accounts.push(AccountMeta::new(*mint, false));
    match rebase_pubkey {
        Some(key) => {
            accounts.push(AccountMeta::new_readonly(key, false));
        },
        None => {},
    }
    assert(accounts@ =~= initialize_accounts(*mint, rebase_pubkey));
    let payload = InitializeInstructionData { rebase_pubkey: stored, rebase_type };
    let mut data: Vec<u8> = Vec::new();
    data.push(RebasingMintInstruction::Initialize.to_u8());
    let mut packed = payload.pack();
    data.append(&mut packed);
    assert(data@ =~= seq![0u8] + stored_key_bytes(rebase_pubkey) + seq![rebase_type]);
    Ok(Instruction { program_id: *token_program_id, accounts, data })
}

} // verus!
