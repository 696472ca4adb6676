//! Instructions as they are handed to the token program, and the first
//! step of reading one.

use crate::error::RebaseError;
use crate::pubkey::Pubkey;
use vstd::prelude::*;

verus! {

/// An account that an instruction names, and how the instruction uses it.
#[derive(Clone, Copy, Debug, PartialEq, Eq)]
pub struct AccountMeta {
    /// The account's identifier.
    pub pubkey: Pubkey,
    /// Whether the account signs the transaction.
    pub is_signer: bool,
    /// Whether the instruction may write to the account.
    pub is_writable: bool,
}

impl AccountMeta {
    /// An account that the instruction may write to.
    pub fn new(pubkey: Pubkey, is_signer: bool) -> (meta: AccountMeta)
        ensures
            meta == (AccountMeta { pubkey, is_signer, is_writable: true }),
    {
        AccountMeta { pubkey, is_signer, is_writable: true }
    }

    /// An account that the instruction only reads.
    pub fn new_readonly(pubkey: Pubkey, is_signer: bool) -> (meta: AccountMeta)
        ensures
            meta == (AccountMeta { pubkey, is_signer, is_writable: false }),
    {
        AccountMeta { pubkey, is_signer, is_writable: false }
    }
}

/// An instruction for the token program. Its bytes are an opcode of the
/// extension and the opcode's arguments; they follow the byte by which the
/// token program selects the extension, which is not part of them.
#[derive(Clone, Debug, PartialEq, Eq)]
pub struct Instruction {
    /// The program that runs the instruction.
    pub program_id: Pubkey,
    /// The accounts, in the order in which the instruction expects them.
    pub accounts: Vec<AccountMeta>,
    /// The opcode and its arguments.
    pub data: Vec<u8>,
}

/// The opcode of an instruction: its first byte.
pub open spec fn instruction_type(input: Seq<u8>) -> Result<u8, RebaseError> {
    if input.len() == 0 {
        Err(RebaseError::MalformedInstructionPayload)
    } else {
        Ok(input[0])
    }
}

/// Reads the opcode of an instruction. Fails with
/// `MalformedInstructionPayload` where there is no byte to read.
pub fn decode_instruction_type(input: &[u8]) -> (opcode: Result<u8, RebaseError>)
    ensures
        opcode == instruction_type(input@),
{
    if input.len() == 0 {
        Err(RebaseError::MalformedInstructionPayload)
    } else {
        Ok(input[0])
    }
}

/// The arguments of an instruction: what follows the opcode, which must be
/// `width` bytes.
pub open spec fn instruction_arguments(input: Seq<u8>, width: nat) -> Result<
    Seq<u8>,
    RebaseError,
> {
    if input.len() != width + 1 {
        Err(RebaseError::MalformedInstructionPayload)
    } else {
        Ok(input.subrange(1, input.len() as int))
    }
}

/// Reads the arguments of an instruction, which must be `width` bytes after
/// the opcode. Fails with `MalformedInstructionPayload` where they are more
/// or fewer.
pub fn decode_instruction_data(input: &[u8], width: usize) -> (arguments: Result<
    &[u8],
    RebaseError,
>)
    ensures
        match instruction_arguments(input@, width as nat) {
            Ok(bytes) => arguments is Ok && arguments->Ok_0@ == bytes,
            Err(e) => arguments == Err::<&[u8], RebaseError>(e),
        },
{
    let len = input.len();
    if width == usize::MAX || len != width + 1 {
        Err(RebaseError::MalformedInstructionPayload)
    } else {
        let rest = &input[1..len];
        Ok(rest)
    }
}

} // verus!
