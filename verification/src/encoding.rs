use vstd::arithmetic::div_mod::{lemma_div_denominator, lemma_fundamental_div_mod_converse};
use vstd::prelude::*;

verus! {

/// The number that eight bytes stand for, the first byte being the least
/// significant.
pub open spec fn le_u64(bytes: Seq<u8>) -> nat
    recommends
        bytes.len() == 8,
{
    (bytes[0] as nat) + (bytes[1] as nat) * 0x100 + (bytes[2] as nat) * 0x1_0000 + (bytes[3] as nat)
        * 0x100_0000 + (bytes[4] as nat) * 0x1_0000_0000 + (bytes[5] as nat) * 0x100_0000_0000 + (
    bytes[6] as nat) * 0x1_0000_0000_0000 + (bytes[7] as nat) * 0x100_0000_0000_0000
}

/// The eight bytes that stand for `value`, least significant first.
pub open spec fn u64_le_bytes(value: u64) -> Seq<u8> {
    seq![
        (value % 0x100) as u8,
        ((value / 0x100) % 0x100) as u8,
        ((value / 0x1_0000) % 0x100) as u8,
        ((value / 0x100_0000) % 0x100) as u8,
        ((value / 0x1_0000_0000) % 0x100) as u8,
        ((value / 0x100_0000_0000) % 0x100) as u8,
        ((value / 0x1_0000_0000_0000) % 0x100) as u8,
        ((value / 0x100_0000_0000_0000) % 0x100) as u8,
    ]
}

/// Eight bytes never stand for more than a `u64` can hold.
pub proof fn lemma_le_u64_fits(bytes: Seq<u8>)
    requires
        bytes.len() == 8,
    ensures
        le_u64(bytes) <= u64::MAX,
{
}

/// Dividing by a power of 256 is dividing by 256 again and again.
proof fn lemma_successive_quotients(x: int)
    requires
        0 <= x,
    ensures
        x / 0x1_0000 == (x / 0x100) / 0x100,
        x / 0x100_0000 == (x / 0x1_0000) / 0x100,
        x / 0x1_0000_0000 == (x / 0x100_0000) / 0x100,
        x / 0x100_0000_0000 == (x / 0x1_0000_0000) / 0x100,
        x / 0x1_0000_0000_0000 == (x / 0x100_0000_0000) / 0x100,
        x / 0x100_0000_0000_0000 == (x / 0x1_0000_0000_0000) / 0x100,
{
    lemma_div_denominator(x, 0x100, 0x100);
    lemma_div_denominator(x, 0x1_0000, 0x100);
    lemma_div_denominator(x, 0x100_0000, 0x100);
    lemma_div_denominator(x, 0x1_0000_0000, 0x100);
    lemma_div_denominator(x, 0x100_0000_0000, 0x100);
    lemma_div_denominator(x, 0x1_0000_0000_0000, 0x100);
}

/// Encoding a number and reading the bytes back gives the number.
pub proof fn lemma_le_u64_of_bytes(value: u64)
    ensures
        u64_le_bytes(value).len() == 8,
        le_u64(u64_le_bytes(value)) == value,
{
    lemma_successive_quotients(value as int);
}

/// Reading eight bytes and encoding the number gives the same bytes.
pub proof fn lemma_bytes_of_le_u64(bytes: Seq<u8>)
    requires
        bytes.len() == 8,
    ensures
        u64_le_bytes(le_u64(bytes) as u64) == bytes,
{
    let n = le_u64(bytes) as int;
    let r7 = bytes[7] as int;
    let r6 = bytes[6] + 0x100 * r7;
    let r5 = bytes[5] + 0x100 * r6;
    let r4 = bytes[4] + 0x100 * r5;
    let r3 = bytes[3] + 0x100 * r4;
    let r2 = bytes[2] + 0x100 * r3;
    let r1 = bytes[1] + 0x100 * r2;
    assert(n == bytes[0] + 0x100 * r1);
    lemma_successive_quotients(n);
    lemma_fundamental_div_mod_converse(n, 0x100, r1, bytes[0] as int);
    lemma_fundamental_div_mod_converse(r1, 0x100, r2, bytes[1] as int);
    lemma_fundamental_div_mod_converse(r2, 0x100, r3, bytes[2] as int);
    lemma_fundamental_div_mod_converse(r3, 0x100, r4, bytes[3] as int);
    lemma_fundamental_div_mod_converse(r4, 0x100, r5, bytes[4] as int);
    lemma_fundamental_div_mod_converse(r5, 0x100, r6, bytes[5] as int);
    lemma_fundamental_div_mod_converse(r6, 0x100, r7, bytes[6] as int);
    assert(u64_le_bytes(n as u64) =~= bytes);
}

/// Reads a `u64` from a byte slice with `borsh::BorshDeserialize::try_from_slice`.
///
/// Trusted: borsh reads a `u64` as exactly eight bytes, least significant
/// first, and refuses a slice that is shorter or that has bytes left over.
#[verifier::external_body]
pub(crate) fn read_u64(bytes: &[u8]) -> (value: Option<u64>)
    ensures
        bytes@.len() == 8 ==> value == Some(le_u64(bytes@) as u64),
        bytes@.len() != 8 ==> value.is_none(),
{
    let parsed: Result<u64, borsh::io::Error> = borsh::BorshDeserialize::try_from_slice(bytes);
    parsed.ok()
}

} // verus!
