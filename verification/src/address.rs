use crate::error::TransferError;
use vstd::prelude::*;

verus! {

/// The address of an account or of a program: thirty-two bytes.
pub type Address = [u8; 32];

/// The seed label from which the program derives its signing authority: the
/// ASCII bytes of the word "authority".
pub const AUTHORITY_SEED: [u8; 9] = [97, 117, 116, 104, 111, 114, 105, 116, 121];

/// An address that only the program can sign for, and the bump byte that was
/// needed to find it.
#[derive(Debug, Clone, Copy, PartialEq, Eq)]
pub struct DerivedAuthority {
    pub address: Address,
    pub bump: u8,
}

/// The address that the host derives from one seed and a program's identity,
/// with its bump byte; nothing where no bump byte gives a valid address.
pub uninterp spec fn program_address(seed: Seq<u8>, program_id: Seq<u8>) -> Option<(Seq<u8>, u8)>;

/// The signing authority of the program `program_id`.
pub open spec fn derived_authority(program_id: Seq<u8>) -> Option<(Seq<u8>, u8)> {
    program_address(AUTHORITY_SEED@, program_id)
}

/// Whether two addresses are the same, byte for byte.
pub fn same_address(a: &Address, b: &Address) -> (same: bool)
    ensures
        same == (a@ == b@),
{
    let mut i: usize = 0;
    while i < 32
        invariant
            i <= 32,
            forall|j: int| 0 <= j < i ==> a@[j] == b@[j],
        decreases 32 - i,
    {
        if a[i] != b[i] {
            return false;
        }
        i += 1;
    }
    assert(a@ =~= b@);
    true
}

/// Derives a program address from one seed with
/// `solana_program::pubkey::Pubkey::try_find_program_address`.
///
/// Trusted: the address and the bump byte depend on the seed and the program
/// identity alone, so the same arguments always give the same answer.
#[verifier::external_body]
fn find_program_address(seed: &[u8], program_id: &Address) -> (found: Option<DerivedAuthority>)
    ensures
        match found {
            Some(authority) => program_address(seed@, program_id@) == Some(
                (authority.address@, authority.bump),
            ),
            None => program_address(seed@, program_id@).is_none(),
        },
{
    let id = solana_program::pubkey::Pubkey::new_from_array(*program_id);
    match solana_program::pubkey::Pubkey::try_find_program_address(&[seed], &id) {
        Some((address, bump)) => Some(DerivedAuthority { address: address.to_bytes(), bump }),
        None => None,
    }
}

/// Recomputes the program's signing authority from its identity and the seed
/// label. The result is never stored: every invocation derives it anew.
pub fn derive_authority(program_id: &Address) -> (found: Option<DerivedAuthority>)
    ensures
        match found {
            Some(authority) => derived_authority(program_id@) == Some(
                (authority.address@, authority.bump),
            ),
            None => derived_authority(program_id@).is_none(),
        },
{
    find_program_address(AUTHORITY_SEED.as_slice(), program_id)
}

/// The bump byte that signs for `authority`, where `derived` is that very
/// address; `InvalidSeeds` for any other address and where nothing was derived.
pub open spec fn checked_bump(derived: Option<(Seq<u8>, u8)>, authority: Seq<u8>) -> Result<
    u8,
    TransferError,
> {
    match derived {
        Some((address, bump)) => if address == authority {
            Ok(bump)
        } else {
            Err(TransferError::InvalidSeeds)
        },
        None => Err(TransferError::InvalidSeeds),
    }
}

/// Holds the supplied authority against a derived one. Only the derived address
/// itself passes, and then the bump byte comes back for signing.
pub fn check_authority(derived: Option<DerivedAuthority>, authority: &Address) -> (r: Result<
    u8,
    TransferError,
>)
    ensures
        r == checked_bump(
            match derived {
                Some(d) => Some((d.address@, d.bump)),
                None => None,
            },
            authority@,
        ),
        r is Ok <==> derived is Some && derived.unwrap().address@ == authority@,
{
    match derived {
        Some(d) => {
            if same_address(&d.address, authority) {
                Ok(d.bump)
            } else {
                Err(TransferError::InvalidSeeds)
            }
        },
        None => Err(TransferError::InvalidSeeds),
    }
}

/// Verifies that `authority` is the signing authority of the program
/// `program_id`, and returns the bump byte that signs for it.
pub fn verify_authority(program_id: &Address, authority: &Address) -> (r: Result<u8, TransferError>)
    ensures
        r == checked_bump(derived_authority(program_id@), authority@),
{
    check_authority(derive_authority(program_id), authority)
}

} // verus!
