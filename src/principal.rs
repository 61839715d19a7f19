//! Self-authenticating principals, represented by their raw bytes.

use vstd::prelude::*;

verus! {

/// Number of bytes of a self-authenticating principal.
pub const SELF_AUTHENTICATING_LEN: usize = 29;

/// Tag byte that closes a self-authenticating principal.
pub const SELF_AUTHENTICATING_TAG: u8 = 2;

/// The self-authenticating principal of a public key (a SHA-224 digest of the key
/// followed by the tag byte).
pub uninterp spec fn self_authenticating_of(public_key: Seq<u8>) -> Seq<u8>;

/// Relies on `candid::Principal::self_authenticating`: it hashes the key with
/// SHA-224 into the first 28 bytes and ends the 29 bytes with the tag 2.
#[verifier::external_body]
pub(crate) fn self_authenticating(public_key: &Vec<u8>) -> (r: Vec<u8>)
    ensures
        r@ == self_authenticating_of(public_key@),
        r@.len() == SELF_AUTHENTICATING_LEN,
        r@[SELF_AUTHENTICATING_LEN - 1] == SELF_AUTHENTICATING_TAG,
{
    candid::Principal::self_authenticating(public_key).as_slice().to_vec()
}

/// Whether two byte strings are equal.
pub fn bytes_equal(a: &Vec<u8>, b: &Vec<u8>) -> (r: bool)
    ensures
        r == (a@ == b@),
{
    if a.len() != b.len() {
        return false;
    }
    let mut i: usize = 0;
    while i < a.len()
        invariant
            a@.len() == b@.len(),
            0 <= i <= a@.len(),
            forall|j: int| 0 <= j < i ==> a@[j] == b@[j],
        decreases a@.len() - i,
    {
        if a[i] != b[i] {
            return false;
        }
        i = i + 1;
    }
    assert(a@ =~= b@);
    true
}

} // verus!
