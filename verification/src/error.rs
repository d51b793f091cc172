use vstd::prelude::*;

verus! {

/// Why an invocation was turned down. Every error ends the invocation: nothing
/// is retried and nothing is applied in part.
#[derive(Debug, Clone, Copy, PartialEq, Eq, Structural)]
pub enum TransferError {
    /// The instruction bytes are empty, carry an unknown tag, or carry a
    /// payload of the wrong length.
    InvalidInstructionData,
    /// Fewer than five accounts were supplied.
    NotEnoughAccountKeys,
    /// The supplied authority is not the address derived from the program's
    /// own identity.
    InvalidSeeds,
    /// The token module could not parse the source or the mint account; `code`
    /// is the status it reported.
    ExternalDeserialization { code: u64 },
    /// The token module turned the transfer down; `code` is the status it
    /// reported, handed on unchanged.
    DelegatedCallFailure { code: u64 },
}

} // verus!
