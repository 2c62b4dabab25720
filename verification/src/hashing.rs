use vstd::prelude::*;

verus! {

/// The Keccak-256 digest of a secret's text, as a 32-byte sequence.
///
/// The algorithm itself is outside this library; the digest is pinned down
/// only as a function of the secret's characters, which is all the protocol
/// relies on: commit and reveal sides agree because they hash the same text.
pub uninterp spec fn keccak_of(s: Seq<char>) -> Seq<u8>;

/// Relies on `anchor_lang::solana_program::keccak::hash`, which returns the
/// Keccak-256 digest of the given bytes (here: the secret's UTF-8 bytes), and
/// on `Hash::to_bytes`, which hands back the digest's 32 bytes unchanged.
/// The digest depends on the input bytes alone.
#[verifier::external_body]
pub(crate) fn keccak256(secret: &str) -> (digest: [u8; 32])
    ensures
        digest@ == keccak_of(secret@),
{
    anchor_lang::solana_program::keccak::hash(secret.as_bytes()).to_bytes()
}

/// Compares two 32-byte digests for equality.
pub fn digests_equal(a: &[u8; 32], b: &[u8; 32]) -> (r: bool)
    ensures
        r == (a@ == b@),
{
    let mut i: usize = 0;
    while i < 32
        invariant
            0 <= i <= 32,
            forall|j: int| 0 <= j < i ==> a@[j] == b@[j],
        decreases 32 - i,
    {
        if a[i] != b[i] {
            proof {
                assert(a@[i as int] != b@[i as int]);
            }
            return false;
        }
        i += 1;
    }
    proof {
        assert(a@ =~= b@);
    }
    true
}

} // verus!
