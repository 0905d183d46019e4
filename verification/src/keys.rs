//! Account addresses and ownership commitments, as plain 32-byte arrays.

use vstd::prelude::*;

verus! {

/// A 32-byte account address.
pub type Pubkey = [u8; 32];

/// Address of the system program, which owns vaults and moves lamports.
pub const SYSTEM_PROGRAM_ID: Pubkey = [
    0, 0, 0, 0, 0, 0, 0, 0, 0, 0, 0, 0, 0, 0, 0, 0,
    0, 0, 0, 0, 0, 0, 0, 0, 0, 0, 0, 0, 0, 0, 0, 0,
];

/// The commitment recorded for an agent that is owned by a key: all zero,
/// a value no agent owned by commitment may have.
pub const NO_COMMITMENT: [u8; 32] = [
    0, 0, 0, 0, 0, 0, 0, 0, 0, 0, 0, 0, 0, 0, 0, 0,
    0, 0, 0, 0, 0, 0, 0, 0, 0, 0, 0, 0, 0, 0, 0, 0,
];

/// Address of the program that checks zero-knowledge ownership proofs.
pub const ZK_VERIFIER_PROGRAM_ID: Pubkey = [
    223, 10, 132, 73, 240, 231, 116, 60, 49, 54, 195, 219, 130, 217, 44, 166,
    146, 255, 29, 49, 144, 172, 171, 199, 160, 43, 21, 190, 210, 62, 150, 214,
];

/// Whether every byte of `bytes` is zero.
pub open spec fn all_zero(bytes: Seq<u8>) -> bool {
    forall|i: int| 0 <= i < bytes.len() ==> bytes[i] == 0
}

/// Compares two 32-byte values byte by byte.
pub fn same_bytes(a: &[u8; 32], b: &[u8; 32]) -> (same: bool)
    ensures
        same == (*a == *b),
{
    let mut i: usize = 0;
    while i < 32
        invariant
            i <= 32,
            forall|j: int| 0 <= j < i ==> a[j] == b[j],
        decreases 32 - i,
    {
        if a[i] != b[i] {
            return false;
        }
        i += 1;
    }
    assert(*a =~= *b);
    true
}

/// Tells whether `bytes` is the reserved all-zero value.
pub fn is_zero(bytes: &[u8; 32]) -> (zero: bool)
    ensures
        zero == all_zero(bytes@),
{
    let mut i: usize = 0;
    while i < 32
        invariant
            i <= 32,
            forall|j: int| 0 <= j < i ==> bytes[j] == 0,
        decreases 32 - i,
    {
        if bytes[i] != 0 {
            return false;
        }
        i += 1;
    }
    true
}

} // verus!
