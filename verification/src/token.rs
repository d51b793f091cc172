use crate::address::Address;
use crate::encoding::{le_u64, u64_le_bytes};
use solana_program::program_pack::Pack;
use solana_program::pubkey::Pubkey;
use vstd::prelude::*;

verus! {

/// The address of the token module.
pub const TOKEN_PROGRAM_ID: Address = [
    6, 221, 246, 225, 215, 101, 161, 147, 217, 203, 225, 70, 206, 235, 121, 172,
    28, 180, 133, 237, 95, 91, 55, 145, 58, 140, 245, 133, 126, 255, 0, 169,
];

/// The length of a mint account's data.
pub const MINT_LEN: usize = 82;

/// The length of a token account's data.
pub const TOKEN_ACCOUNT_LEN: usize = 165;

/// The tag byte of the token module's checked transfer.
pub const TRANSFER_CHECKED_TAG: u8 = 12;

/// The host's status for account data that does not have the expected layout.
pub const INVALID_ACCOUNT_DATA: u64 = 0x4_0000_0000;

/// The host's status for a call addressed to the wrong program.
pub const INCORRECT_PROGRAM_ID: u64 = 0x7_0000_0000;

/// The host's status for an account that was never initialized.
pub const UNINITIALIZED_ACCOUNT: u64 = 0xa_0000_0000;

/// One account of a call to the token module, with the permissions that the
/// call asks for.
#[derive(Debug, Clone, Copy, PartialEq, Eq)]
pub struct CallAccount {
    pub key: Address,
    pub is_signer: bool,
    pub is_writable: bool,
}

/// A `CallAccount` as a mathematical value.
pub struct CallAccountView {
    pub key: Seq<u8>,
    pub is_signer: bool,
    pub is_writable: bool,
}

impl View for CallAccount {
    type V = CallAccountView;

    open spec fn view(&self) -> CallAccountView {
        CallAccountView { key: self.key@, is_signer: self.is_signer, is_writable: self.is_writable }
    }
}

/// A call to the token module: the program that is addressed, the accounts
/// that it works on, and the encoded command.
#[derive(Debug, Clone, PartialEq, Eq)]
pub struct TokenCall {
    pub program_id: Address,
    pub accounts: Vec<CallAccount>,
    pub data: Vec<u8>,
}

/// A `TokenCall` as a mathematical value.
pub struct TokenCallView {
    pub program_id: Seq<u8>,
    pub accounts: Seq<CallAccountView>,
    pub data: Seq<u8>,
}

impl View for TokenCall {
    type V = TokenCallView;

    open spec fn view(&self) -> TokenCallView {
        TokenCallView {
            program_id: self.program_id@,
            accounts: Seq::new(self.accounts@.len(), |i: int| self.accounts@[i]@),
            data: self.data@,
        }
    }
}

/// Whether the four bytes from `at` on are the tag of an optional field: the
/// number 0 or 1, least significant byte first.
pub open spec fn option_tag_at(data: Seq<u8>, at: int) -> bool {
    (data[at] == 0 || data[at] == 1) && data[at + 1] == 0 && data[at + 2] == 0 && data[at + 3] == 0
}

/// The decimal precision that a mint account's data records, or the status
/// with which the token module refuses the data.
///
/// The data are 82 bytes: an optional mint authority from byte 0, the supply
/// from byte 36, the precision at byte 44, the initialized flag at byte 45 and
/// an optional freeze authority from byte 46.
pub open spec fn mint_decimals(data: Seq<u8>) -> Result<u8, u64> {
    if data.len() != MINT_LEN || !option_tag_at(data, 0) || data[45] > 1 || !option_tag_at(
        data,
        46,
    ) {
        Err(INVALID_ACCOUNT_DATA)
    } else if data[45] == 0 {
        Err(UNINITIALIZED_ACCOUNT)
    } else {
        Ok(data[44])
    }
}

/// The balance that a token account's data record, or the status with which
/// the token module refuses the data.
///
/// The data are 165 bytes: the mint from byte 0, the owner from byte 32, the
/// balance from byte 64, an optional delegate from byte 72, the state at byte
/// 108 (0 uninitialized, 1 initialized, 2 frozen), an optional native reserve
/// from byte 109, the delegated amount from byte 121 and an optional close
/// authority from byte 129.
pub open spec fn token_account_balance(data: Seq<u8>) -> Result<u64, u64> {
    if data.len() != TOKEN_ACCOUNT_LEN || !option_tag_at(data, 72) || data[108] > 2
        || !option_tag_at(data, 109) || !option_tag_at(data, 129) {
        Err(INVALID_ACCOUNT_DATA)
    } else if data[108] == 0 {
        Err(UNINITIALIZED_ACCOUNT)
    } else {
        Ok(le_u64(data.subrange(64, 72)) as u64)
    }
}

/// The checked transfer that the token module builds for the given accounts,
/// amount and precision, or the status with which it refuses to build one.
///
/// The call is addressed to the token module and names the source (writable),
/// the mint, the destination (writable) and the authority (signer), in that
/// order. Its data are the tag 12, the amount in eight bytes, least
/// significant first, and the precision.
pub open spec fn transfer_checked_call(
    token_program: Seq<u8>,
    source: Seq<u8>,
    mint: Seq<u8>,
    destination: Seq<u8>,
    authority: Seq<u8>,
    amount: u64,
    decimals: u8,
) -> Result<TokenCallView, u64> {
    if token_program == TOKEN_PROGRAM_ID@ {
        Ok(
            TokenCallView {
                program_id: token_program,
                accounts: seq![
                    CallAccountView { key: source, is_signer: false, is_writable: true },
                    CallAccountView { key: mint, is_signer: false, is_writable: false },
                    CallAccountView { key: destination, is_signer: false, is_writable: true },
                    CallAccountView { key: authority, is_signer: true, is_writable: false },
                ],
                data: seq![TRANSFER_CHECKED_TAG] + u64_le_bytes(amount) + seq![decimals],
            },
        )
    } else {
        Err(INCORRECT_PROGRAM_ID)
    }
}

/// Reads the decimal precision of a mint with `spl_token::state::Mint::unpack`.
///
/// Trusted: the token module accepts exactly the initialized mints of 82 bytes
/// whose option tags and initialized flag are well formed, reports bad layout
/// before a missing initialization, and takes the precision from byte 44.
#[verifier::external_body]
pub(crate) fn read_mint_decimals(data: &[u8]) -> (r: Result<u8, u64>)
    ensures
        r == mint_decimals(data@),
{
    match spl_token::state::Mint::unpack(data) {
        Ok(mint) => Ok(mint.decimals),
        Err(status) => Err(u64::from(status)),
    }
}

/// Reads the balance of a token account with
/// `spl_token::state::Account::unpack`.
///
/// Trusted: the token module accepts exactly the initialized or frozen
/// accounts of 165 bytes whose option tags and state byte are well formed,
/// reports bad layout before a missing initialization, and takes the balance
/// from the eight bytes at byte 64, least significant first.
#[verifier::external_body]
pub(crate) fn read_token_balance(data: &[u8]) -> (r: Result<u64, u64>)
    ensures
        r == token_account_balance(data@),
{
    match spl_token::state::Account::unpack(data) {
        Ok(account) => Ok(account.amount),
        Err(status) => Err(u64::from(status)),
    }
}

/// Builds a checked transfer with `spl_token::instruction::transfer_checked`,
/// the authority being the only signer.
///
/// Trusted: the token module refuses any program address but its own with
/// `IncorrectProgramId`, and otherwise returns the call that
/// `transfer_checked_call` describes.
#[verifier::external_body]
pub(crate) fn transfer_checked(
    token_program: &Address,
    source: &Address,
    mint: &Address,
    destination: &Address,
    authority: &Address,
    amount: u64,
    decimals: u8,
) -> (r: Result<TokenCall, u64>)
    ensures
        match r {
            Ok(call) => transfer_checked_call(
                token_program@,
                source@,
                mint@,
                destination@,
                authority@,
                amount,
                decimals,
            ) == Ok::<TokenCallView, u64>(call@),
            Err(status) => transfer_checked_call(
                token_program@,
                source@,
                mint@,
                destination@,
                authority@,
                amount,
                decimals,
            ) == Err::<TokenCallView, u64>(status),
        },
{
    let keys = [token_program, source, mint, destination, authority].map(|k| Pubkey::new_from_array(*k));
    match spl_token::instruction::transfer_checked(&keys[0], &keys[1], &keys[2], &keys[3], &keys[4], &[], amount, decimals) {
        Ok(built) => Ok(TokenCall {
            program_id: built.program_id.to_bytes(),
            accounts: built.accounts.iter().map(|a| CallAccount { key: a.pubkey.to_bytes(), is_signer: a.is_signer, is_writable: a.is_writable }).collect(),
            data: built.data,
        }),
        Err(status) => Err(u64::from(status)),
    }
}

} // verus!
