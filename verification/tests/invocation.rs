use delegated_transfer::accounts::{AccountContext, AccountRecord};
use delegated_transfer::address::Address;
use delegated_transfer::error::TransferError;
use delegated_transfer::instruction::{TransferInstruction, TransferInstructionArgs};
use delegated_transfer::invocation::{build_invocation, resolve_amount, Invocation};
use delegated_transfer::token::{
    CallAccount, TokenCall, INCORRECT_PROGRAM_ID, TOKEN_PROGRAM_ID, TRANSFER_CHECKED_TAG,
};
use solana_program::program_error::ProgramError;
use solana_program::pubkey::Pubkey;

const SOURCE: Address = [11; 32];
const DESTINATION: Address = [22; 32];
const MINT: Address = [33; 32];
const AUTHORITY: Address = [44; 32];

fn five_accounts(token_program: Address) -> Vec<AccountRecord<'static>> {
    [SOURCE, DESTINATION, MINT, AUTHORITY, token_program]
        .iter()
        .map(|key| AccountRecord {
            key: *key,
            data: &[],
        })
        .collect()
}

#[test]
fn token_program_id_is_the_token_module() {
    assert_eq!(TOKEN_PROGRAM_ID, spl_token::id().to_bytes());
}

#[test]
fn resolve_amount_is_the_value_of_the_transfer() {
    let instruction = TransferInstruction::Transfer(TransferInstructionArgs { value: 1000 });
    assert_eq!(resolve_amount(&instruction, 0), 1000);
    assert_eq!(resolve_amount(&instruction, 999), 1000);
    assert_eq!(resolve_amount(&instruction, u64::MAX), 1000);
    let nothing = TransferInstruction::Transfer(TransferInstructionArgs { value: 0 });
    assert_eq!(resolve_amount(&nothing, 5), 0);
}

#[test]
fn build_invocation_gives_the_checked_transfer() {
    let accounts = five_accounts(TOKEN_PROGRAM_ID);
    let context = AccountContext::bind(&accounts).unwrap();
    let invocation = build_invocation(&context, 1000, 6, 254).unwrap();
    let expected = Invocation {
        call: TokenCall {
            program_id: TOKEN_PROGRAM_ID,
            accounts: vec![
                CallAccount {
                    key: SOURCE,
                    is_signer: false,
                    is_writable: true,
                },
                CallAccount {
                    key: MINT,
                    is_signer: false,
                    is_writable: false,
                },
                CallAccount {
                    key: DESTINATION,
                    is_signer: false,
                    is_writable: true,
                },
                CallAccount {
                    key: AUTHORITY,
                    is_signer: true,
                    is_writable: false,
                },
            ],
            data: vec![TRANSFER_CHECKED_TAG, 0xe8, 0x03, 0, 0, 0, 0, 0, 0, 6],
        },
        account_indices: vec![0, 2, 1, 3, 4],
        seed: b"authority".to_vec(),
        bump: 254,
    };
    assert_eq!(invocation, expected);
}

#[test]
fn build_invocation_agrees_with_the_token_module() {
    let accounts = five_accounts(TOKEN_PROGRAM_ID);
    let context = AccountContext::bind(&accounts).unwrap();
    for (amount, decimals) in [(0u64, 0u8), (1, 9), (0x0102_0304_0506_0708, 2), (u64::MAX, 255)] {
        let invocation = build_invocation(&context, amount, decimals, 1).unwrap();
        let built = spl_token::instruction::transfer_checked(
            &spl_token::id(),
            &Pubkey::new_from_array(SOURCE),
            &Pubkey::new_from_array(MINT),
            &Pubkey::new_from_array(DESTINATION),
            &Pubkey::new_from_array(AUTHORITY),
            &[],
            amount,
            decimals,
        )
        .unwrap();
        assert_eq!(invocation.call.program_id, built.program_id.to_bytes());
        assert_eq!(invocation.call.data, built.data);
        assert_eq!(invocation.call.accounts.len(), built.accounts.len());
        for (ours, theirs) in invocation.call.accounts.iter().zip(built.accounts.iter()) {
            assert_eq!(ours.key, theirs.pubkey.to_bytes());
            assert_eq!(ours.is_signer, theirs.is_signer);
            assert_eq!(ours.is_writable, theirs.is_writable);
        }
    }
}

#[test]
fn build_invocation_is_decoded_by_the_token_module() {
    let accounts = five_accounts(TOKEN_PROGRAM_ID);
    let context = AccountContext::bind(&accounts).unwrap();
    let invocation = build_invocation(&context, 123_456_789, 9, 1).unwrap();
    let decoded = spl_token::instruction::TokenInstruction::unpack(&invocation.call.data).unwrap();
    assert_eq!(
        decoded,
        spl_token::instruction::TokenInstruction::TransferChecked {
            amount: 123_456_789,
            decimals: 9,
        }
    );
}

#[test]
fn build_invocation_writes_the_amount_least_significant_byte_first() {
    let accounts = five_accounts(TOKEN_PROGRAM_ID);
    let context = AccountContext::bind(&accounts).unwrap();
    let invocation = build_invocation(&context, 0x0807_0605_0403_0201, 0, 0).unwrap();
    assert_eq!(invocation.call.data, vec![12, 1, 2, 3, 4, 5, 6, 7, 8, 0]);
}

#[test]
fn build_invocation_refuses_another_token_program() {
    let mut other = TOKEN_PROGRAM_ID;
    other[31] ^= 1;
    for token_program in [other, [0; 32], SOURCE] {
        let accounts = five_accounts(token_program);
        let context = AccountContext::bind(&accounts).unwrap();
        assert_eq!(
            build_invocation(&context, 1000, 6, 254),
            Err(TransferError::DelegatedCallFailure {
                code: INCORRECT_PROGRAM_ID
            })
        );
    }
}

#[test]
fn incorrect_program_status_is_the_hosts() {
    assert_eq!(
        INCORRECT_PROGRAM_ID,
        u64::from(ProgramError::IncorrectProgramId)
    );
}
