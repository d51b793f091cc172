use crate::accounts::AccountContext;
use crate::address::AUTHORITY_SEED;
use crate::error::TransferError;
use crate::instruction::TransferInstruction;
use crate::token::{transfer_checked, transfer_checked_call, TokenCall, TokenCallView};
use vstd::prelude::*;
use vstd::slice::slice_to_vec;

verus! {

/// The delegated call that an accepted invocation asks the host to make: a
/// checked transfer, signed for the program's derived authority.
#[derive(Debug, Clone, PartialEq, Eq)]
pub struct Invocation {
    /// The call to the token module.
    pub call: TokenCall,
    /// The positions, in the invocation's account list, of the accounts that
    /// are handed to the call: source, mint, destination, authority and token
    /// module.
    pub account_indices: Vec<usize>,
    /// The seed label of the signing authority.
    pub seed: Vec<u8>,
    /// The bump byte of the signing authority, the last seed of the
    /// signature.
    pub bump: u8,
}

/// An `Invocation` as a mathematical value.
pub struct InvocationView {
    pub call: TokenCallView,
    pub account_indices: Seq<usize>,
    pub seed: Seq<u8>,
    pub bump: u8,
}

impl View for Invocation {
    type V = InvocationView;

    open spec fn view(&self) -> InvocationView {
        InvocationView {
            call: self.call@,
            account_indices: self.account_indices@,
            seed: self.seed@,
            bump: self.bump,
        }
    }
}

/// The amount that an instruction moves: for a transfer, the value it carries,
/// whatever the source holds.
pub open spec fn resolved_amount(instruction: TransferInstruction, source_balance: u64) -> u64 {
    match instruction {
        TransferInstruction::Transfer(args) => args.value,
    }
}

/// Resolves the amount to transfer. The balance of the source takes no part:
/// whether it covers the amount is for the token module to say.
pub fn resolve_amount(instruction: &TransferInstruction, source_balance: u64) -> (amount: u64)
    ensures
        amount == resolved_amount(*instruction, source_balance),
{
    match instruction {
        TransferInstruction::Transfer(args) => args.value,
    }
}

/// The delegated call for the accounts of `context`: the token module's
/// checked transfer of `amount` at `decimals`, to be signed with the seed
/// label and `bump`. Where the token module refuses to build the call, its
/// status becomes a `DelegatedCallFailure`.
pub open spec fn delegated_invocation(
    context: AccountContext,
    amount: u64,
    decimals: u8,
    bump: u8,
) -> Result<InvocationView, TransferError> {
    match transfer_checked_call(
        context.token_program.key@,
        context.source.key@,
        context.mint.key@,
        context.destination.key@,
        context.authority.key@,
        amount,
        decimals,
    ) {
        Ok(call) => Ok(
            InvocationView {
                call,
                account_indices: seq![0usize, 2usize, 1usize, 3usize, 4usize],
                seed: AUTHORITY_SEED@,
                bump,
            },
        ),
        Err(code) => Err(TransferError::DelegatedCallFailure { code }),
    }
}

/// Builds the delegated call: one checked transfer from the source to the
/// destination, authorized by the derived authority.
pub fn build_invocation(context: &AccountContext, amount: u64, decimals: u8, bump: u8) -> (r:
    Result<Invocation, TransferError>)
    ensures
        match r {
            Ok(invocation) => delegated_invocation(*context, amount, decimals, bump) == Ok::<
                InvocationView,
                TransferError,
            >(invocation@),
            Err(e) => delegated_invocation(*context, amount, decimals, bump) == Err::<
                InvocationView,
                TransferError,
            >(e),
        },
{
    let built = transfer_checked(
        &context.token_program.key,
        &context.source.key,
        &context.mint.key,
        &context.destination.key,
        &context.authority.key,
        amount,
        decimals,
    );
    match built {
        Ok(call) => {
            let account_indices: Vec<usize> = vec![0, 2, 1, 3, 4];
            let seed = slice_to_vec(AUTHORITY_SEED.as_slice());
            assert(account_indices@ =~= seq![0usize, 2usize, 1usize, 3usize, 4usize]);
            Ok(Invocation { call, account_indices, seed, bump })
        },
        Err(code) => Err(TransferError::DelegatedCallFailure { code }),
    }
}

} // verus!
