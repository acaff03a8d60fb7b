//! 32-byte ledger addresses and small byte utilities.
//!
//! Every account, wallet and program on the host ledger is identified by a
//! 32-byte address.  The all-zero address doubles as the system sentinel:
//! it is the default value of uninitialized address fields and the marker
//! that a tip or rewards epoch is global rather than enclave-targeted.

use vstd::prelude::*;

verus! {

/// A 32-byte ledger address.
pub type Address = [u8; 32];

/// The all-zero address, used as the "unset" default and as the sentinel
/// for global (non-enclave) targets.
pub open spec fn zero_addr() -> Seq<u8> {
    Seq::new(32, |i: int| 0u8)
}

/// Returns the all-zero address.
pub fn zero_address() -> (r: Address)
    ensures
        r@ == zero_addr(),
{
    let r: Address = [0u8; 32];
    proof {
        assert(r@ =~= zero_addr());
    }
    r
}

/// Byte-for-byte address equality.
pub fn addr_eq(a: &Address, b: &Address) -> (r: bool)
    ensures
        r == (a@ == b@),
{
    let mut i: usize = 0;
    while i < 32
        invariant
            0 <= i <= 32,
            forall|j: int| 0 <= j < i ==> a@[j] == b@[j],
        decreases 32 - i,
    {
        if a[i] != b[i] {
            proof {
                assert(a@[i as int] != b@[i as int]);
            }
            return false;
        }
        i = i + 1;
    }
    proof {
        assert(a@ =~= b@);
    }
    true
}

/// True when `a` is the all-zero sentinel address.
pub fn is_zero_addr(a: &Address) -> (r: bool)
    ensures
        r == (a@ == zero_addr()),
{
    let z = zero_address();
    addr_eq(a, &z)
}

/// Appends all bytes of `src` to `dst`.
pub fn push_bytes(dst: &mut Vec<u8>, src: &[u8])
    ensures
        final(dst)@ == old(dst)@ + src@,
{
    let mut i: usize = 0;
    while i < src.len()
        invariant
            0 <= i <= src@.len(),
            dst@ == old(dst)@ + src@.take(i as int),
        decreases src@.len() - i,
    {
        dst.push(src[i]);
        proof {
            assert(dst@ =~= old(dst)@ + src@.take(i + 1));
        }
        i = i + 1;
    }
    proof {
        assert(dst@ =~= old(dst)@ + src@);
    }
}

} // verus!
