//! Helpers for the 32-byte values the escrow works with: identifiers,
//! identities, hashlocks and secrets.

use vstd::prelude::*;

verus! {

/// The all-zero 32-byte sequence, which marks a hashlock or secret as unset.
pub open spec fn zero_bytes() -> Seq<u8> {
    Seq::new(32, |i: int| 0u8)
}

/// Returns the all-zero 32-byte value.
pub fn zeroed() -> (out: [u8; 32])
    ensures
        out@ == zero_bytes(),
{
    let out: [u8; 32] = [0u8; 32];
    assert(out@ =~= zero_bytes());
    out
}

/// Tells whether two 32-byte values hold the same bytes.
pub fn same_bytes(a: &[u8; 32], b: &[u8; 32]) -> (same: bool)
    ensures
        same == (a@ == b@),
{
    let mut i: usize = 0;
    while i < 32
        invariant
            i <= 32,
            forall|k: int| 0 <= k < i ==> a@[k] == b@[k],
        decreases 32 - i,
    {
        if a[i] != b[i] {
            return false;
        }
        i += 1;
    }
    assert(a@ =~= b@);
    true
}

/// Tells whether a 32-byte value is all zero.
pub fn is_zero(a: &[u8; 32]) -> (zero: bool)
    ensures
        zero == (a@ == zero_bytes()),
{
    let mut i: usize = 0;
    while i < 32
        invariant
            i <= 32,
            forall|k: int| 0 <= k < i ==> a@[k] == 0u8,
        decreases 32 - i,
    {
        if a[i] != 0 {
            assert(zero_bytes()[i as int] == 0u8);
            return false;
        }
        i += 1;
    }
    assert(a@ =~= zero_bytes());
    true
}

} // verus!
