//! A program that moves tokens on behalf of an authority that only the program
//! itself can sign for.
//!
//! One invocation decodes its instruction, binds its accounts to their roles,
//! verifies that the supplied authority is the address derived from the
//! program's own identity, and builds the token module's checked transfer. The
//! library holds no state and makes no call to the host: it returns the call
//! that the host is to make, or the error that ends the invocation.

pub mod accounts;
pub mod address;
pub mod encoding;
pub mod error;
pub mod instruction;
pub mod invocation;
pub mod token;

use crate::accounts::{AccountContext, AccountRecord};
use crate::address::{
    checked_bump, derived_authority, verify_authority, Address, AUTHORITY_SEED,
};
use crate::encoding::lemma_bytes_of_le_u64;
use crate::error::TransferError;
use crate::instruction::TransferInstruction;
use crate::invocation::{
    build_invocation, delegated_invocation, resolve_amount, resolved_amount, Invocation,
    InvocationView,
};
use crate::token::{
    mint_decimals, read_mint_decimals, read_token_balance, token_account_balance, CallAccountView,
    TokenCallView, TOKEN_PROGRAM_ID, TRANSFER_CHECKED_TAG,
};
use vstd::prelude::*;

verus! {

/// What an invocation comes to. The stages run in a fixed order and the first
/// one that fails decides the error: the instruction is decoded, the accounts
/// are bound to their roles, the authority is held against the derived
/// address, the source and the mint are parsed, and the delegated call is
/// built. Only an invocation that passes them all yields a call.
pub open spec fn process_outcome(
    program_id: Seq<u8>,
    accounts: Seq<AccountRecord>,
    instruction_data: Seq<u8>,
) -> Result<InvocationView, TransferError> {
    match TransferInstruction::decode(instruction_data) {
        Err(e) => Err(e),
        Ok(instruction) => if accounts.len() < 5 {
            Err(TransferError::NotEnoughAccountKeys)
        } else {
            let context = AccountContext::bound(accounts);
            match checked_bump(derived_authority(program_id), context.authority.key@) {
                Err(e) => Err(e),
                Ok(bump) => match token_account_balance(context.source.data@) {
                    Err(code) => Err(TransferError::ExternalDeserialization { code }),
                    Ok(balance) => match mint_decimals(context.mint.data@) {
                        Err(code) => Err(TransferError::ExternalDeserialization { code }),
                        Ok(decimals) => delegated_invocation(
                            context,
                            resolved_amount(instruction, balance),
                            decimals,
                            bump,
                        ),
                    },
                },
            }
        },
    }
}

/// Processes one invocation of the program `program_id`: validates the
/// instruction, the accounts and the authority, and returns the delegated call
/// that the host is to make. Nothing is retained between invocations.
pub fn process_instruction(
    program_id: &Address,
    accounts: &[AccountRecord],
    instruction_data: &[u8],
) -> (r: Result<Invocation, TransferError>)
    ensures
        match r {
            Ok(invocation) => process_outcome(program_id@, accounts@, instruction_data@) == Ok::<
                InvocationView,
                TransferError,
            >(invocation@),
            Err(e) => process_outcome(program_id@, accounts@, instruction_data@) == Err::<
                InvocationView,
                TransferError,
            >(e),
        },
{
    let instruction = match TransferInstruction::unpack(instruction_data) {
        Ok(instruction) => instruction,
        Err(e) => return Err(e),
    };
    let context = match AccountContext::bind(accounts) {
        Ok(context) => context,
        Err(e) => return Err(e),
    };
    let bump = match verify_authority(program_id, &context.authority.key) {
        Ok(bump) => bump,
        Err(e) => return Err(e),
    };
    let balance = match read_token_balance(context.source.data) {
        Ok(balance) => balance,
        Err(code) => return Err(TransferError::ExternalDeserialization { code }),
    };
    let decimals = match read_mint_decimals(context.mint.data) {
        Ok(decimals) => decimals,
        Err(code) => return Err(TransferError::ExternalDeserialization { code }),
    };
    let amount = resolve_amount(&instruction, balance);
    build_invocation(&context, amount, decimals, bump)
}

/// Instruction data that do not decode are refused as `InvalidInstructionData`
/// before any account is looked at: the program and the accounts make no
/// difference.
pub proof fn lemma_undecodable_data_refused(
    program_id: Seq<u8>,
    accounts: Seq<AccountRecord>,
    instruction_data: Seq<u8>,
)
    requires
        instruction_data.len() != 9 || instruction_data[0] != 0,
    ensures
        process_outcome(program_id, accounts, instruction_data) == Err::<
            InvocationView,
            TransferError,
        >(TransferError::InvalidInstructionData),
{
}

/// With fewer than five accounts an invocation whose instruction decodes is
/// refused as `NotEnoughAccountKeys`, whatever the instruction says and
/// whatever the accounts hold.
pub proof fn lemma_short_account_list_refused(
    program_id: Seq<u8>,
    accounts: Seq<AccountRecord>,
    instruction_data: Seq<u8>,
)
    requires
        accounts.len() < 5,
        TransferInstruction::decode(instruction_data) is Ok,
    ensures
        process_outcome(program_id, accounts, instruction_data) == Err::<
            InvocationView,
            TransferError,
        >(TransferError::NotEnoughAccountKeys),
{
}

/// An authority other than the address derived from the program's identity is
/// refused as `InvalidSeeds`, and no delegated call comes of it, whatever the
/// remaining accounts hold.
pub proof fn lemma_foreign_authority_refused(
    program_id: Seq<u8>,
    accounts: Seq<AccountRecord>,
    instruction_data: Seq<u8>,
)
    requires
        TransferInstruction::decode(instruction_data) is Ok,
        accounts.len() >= 5,
        match derived_authority(program_id) {
            Some((address, bump)) => address != accounts[3].key@,
            None => true,
        },
    ensures
        process_outcome(program_id, accounts, instruction_data) == Err::<
            InvocationView,
            TransferError,
        >(TransferError::InvalidSeeds),
{
}

/// An invocation that passes every stage yields exactly one call: it is
/// addressed to the token module, names the source, the mint, the destination
/// and the authority, carries the eight bytes of the instruction's value
/// unchanged and the mint's precision after them, and is signed with the seed
/// label and the derived bump byte.
pub proof fn lemma_accepted_invocation(
    program_id: Seq<u8>,
    accounts: Seq<AccountRecord>,
    instruction_data: Seq<u8>,
    bump: u8,
    decimals: u8,
)
    requires
        instruction_data.len() == 9,
        instruction_data[0] == 0,
        accounts.len() >= 5,
        derived_authority(program_id) == Some((accounts[3].key@, bump)),
        token_account_balance(accounts[0].data@) is Ok,
        mint_decimals(accounts[2].data@) == Ok::<u8, u64>(decimals),
        accounts[4].key@ == TOKEN_PROGRAM_ID@,
    ensures
        process_outcome(program_id, accounts, instruction_data) == Ok::<
            InvocationView,
            TransferError,
        >(
            InvocationView {
                call: TokenCallView {
                    program_id: TOKEN_PROGRAM_ID@,
                    accounts: seq![
                        CallAccountView {
                            key: accounts[0].key@,
                            is_signer: false,
                            is_writable: true,
                        },
                        CallAccountView {
                            key: accounts[2].key@,
                            is_signer: false,
                            is_writable: false,
                        },
                        CallAccountView {
                            key: accounts[1].key@,
                            is_signer: false,
                            is_writable: true,
                        },
                        CallAccountView {
                            key: accounts[3].key@,
                            is_signer: true,
                            is_writable: false,
                        },
                    ],
                    data: seq![TRANSFER_CHECKED_TAG] + instruction_data.subrange(1, 9) + seq![
                        decimals,
                    ],
                },
                account_indices: seq![0usize, 2usize, 1usize, 3usize, 4usize],
                seed: AUTHORITY_SEED@,
                bump,
            },
        ),
{
    lemma_bytes_of_le_u64(instruction_data.subrange(1, 9));
}

} // verus!
