use crate::address::Address;
use crate::error::TransferError;
use vstd::prelude::*;

verus! {

/// How many accounts an invocation takes.
pub const ACCOUNT_COUNT: usize = 5;

/// What the program reads of an account that the host supplied: its address
/// and the bytes stored in it, borrowed for the length of the invocation.
#[derive(Debug, Clone, Copy, PartialEq, Eq)]
pub struct AccountRecord<'a> {
    pub key: Address,
    pub data: &'a [u8],
}

/// The accounts of one invocation under the roles that their positions give
/// them. The records stay borrowed from the caller's list.
#[derive(Debug, Clone, Copy)]
pub struct AccountContext<'a> {
    /// The token account that is debited.
    pub source: &'a AccountRecord<'a>,
    /// The token account that is credited.
    pub destination: &'a AccountRecord<'a>,
    /// The mint of the token that moves.
    pub mint: &'a AccountRecord<'a>,
    /// The account that authorizes the transfer.
    pub authority: &'a AccountRecord<'a>,
    /// The token module that carries the transfer out.
    pub token_program: &'a AccountRecord<'a>,
}

impl<'a> AccountContext<'a> {
    /// The roles of the first five accounts of a list, by position alone:
    /// source, destination, mint, authority, token module.
    pub open spec fn bound(accounts: Seq<AccountRecord<'a>>) -> AccountContext<'a>
        recommends
            accounts.len() >= ACCOUNT_COUNT,
    {
        AccountContext {
            source: &accounts[0],
            destination: &accounts[1],
            mint: &accounts[2],
            authority: &accounts[3],
            token_program: &accounts[4],
        }
    }

    /// Binds the account list to its roles. A list shorter than five is
    /// `NotEnoughAccountKeys`; accounts after the fifth are left alone. The
    /// accounts' flags and contents are not looked at.
    pub fn bind(accounts: &'a [AccountRecord<'a>]) -> (r: Result<AccountContext<'a>, TransferError>)
        ensures
            accounts@.len() < 5 ==> r == Err::<AccountContext<'a>, TransferError>(
                TransferError::NotEnoughAccountKeys,
            ),
            accounts@.len() >= 5 ==> r == Ok::<AccountContext<'a>, TransferError>(
                Self::bound(accounts@),
            ),
    {
        if accounts.len() < ACCOUNT_COUNT {
            return Err(TransferError::NotEnoughAccountKeys);
        }
        Ok(
            AccountContext {
                source: &accounts[0],
                destination: &accounts[1],
                mint: &accounts[2],
                authority: &accounts[3],
                token_program: &accounts[4],
            },
        )
    }
}

} // verus!
