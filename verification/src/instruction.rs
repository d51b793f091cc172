use crate::encoding::{le_u64, read_u64};
use crate::error::TransferError;
use vstd::prelude::*;
use vstd::slice::slice_subrange;

verus! {

/// The tag byte that selects a transfer.
pub const TRANSFER_TAG: u8 = 0;

/// The length of an encoded transfer: the tag and the eight bytes of the value.
pub const TRANSFER_LEN: usize = 9;

/// The arguments of a transfer.
#[derive(Debug, Clone, Copy, PartialEq, Eq, Structural)]
pub struct TransferInstructionArgs {
    /// The amount to move, in the mint's smallest unit.
    pub value: u64,
}

/// A command to the program. The first byte on the wire is its tag, the rest
/// are its fields in their fixed layout.
#[derive(Debug, Clone, Copy, PartialEq, Eq, Structural)]
pub enum TransferInstruction {
    /// Move `value` from the source to the destination.
    Transfer(TransferInstructionArgs),
}

impl TransferInstruction {
    /// What a byte sequence decodes to: a transfer where it is the tag `0`
    /// followed by exactly eight bytes, which hold the value least significant
    /// byte first; otherwise nothing.
    pub open spec fn decode(bytes: Seq<u8>) -> Result<TransferInstruction, TransferError> {
        if bytes.len() == TRANSFER_LEN && bytes[0] == TRANSFER_TAG {
            Ok(
                TransferInstruction::Transfer(
                    TransferInstructionArgs { value: le_u64(bytes.subrange(1, 9)) as u64 },
                ),
            )
        } else {
            Err(TransferError::InvalidInstructionData)
        }
    }

    /// Decodes instruction bytes. Empty input, an unknown tag, and a payload
    /// that is too short or too long are all `InvalidInstructionData`.
    pub fn unpack(input: &[u8]) -> (r: Result<TransferInstruction, TransferError>)
        ensures
            r == Self::decode(input@),
            r is Ok <==> input@.len() == 9 && input@[0] == 0,
            r is Err ==> r == Err::<TransferInstruction, TransferError>(
                TransferError::InvalidInstructionData,
            ),
    {
        if input.len() == 0 {
            return Err(TransferError::InvalidInstructionData);
        }
        let tag: u8 = input[0];
        let payload = slice_subrange(input, 1, input.len());
        if tag != TRANSFER_TAG {
            return Err(TransferError::InvalidInstructionData);
        }
        match read_u64(payload) {
            Some(value) => Ok(TransferInstruction::Transfer(TransferInstructionArgs { value })),
            None => Err(TransferError::InvalidInstructionData),
        }
    }
}

} // verus!
