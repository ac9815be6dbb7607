//! The commitment codec: a (move, salt) pair is committed to as the
//! SHA-256 digest of the move's 4-byte big-endian wire value followed by
//! the 32-byte salt, and a reveal is verified by recomputing that digest
//! and comparing it for exact equality.

use vstd::prelude::*;

verus! {

broadcast use vstd::array::group_array_axioms;

/// The SHA-256 digest of a byte sequence. The digest is a function of the
/// bytes alone; what it is on given bytes is not stated here.
pub uninterp spec fn sha256_of(data: Seq<u8>) -> Seq<u8>;

/// Relies on soroban_sdk's `Crypto::sha256` (reached through a fresh test
/// environment): it returns the 32-byte SHA-256 digest of the given bytes,
/// a deterministic function of the bytes alone. The test environment
/// meters work against a CPU budget and panics when it runs out, which
/// hashing a few megabytes would do, so inputs are kept to at most a
/// megabyte, far under that budget; this codec only ever hashes 36 bytes.
#[verifier::external_body]
fn sha256(data: &Vec<u8>) -> (r: [u8; 32])
    requires
        data@.len() <= 1048576,
    ensures
        r@ == sha256_of(data@),
{
    let env = soroban_sdk::Env::default();
    let bytes = soroban_sdk::Bytes::from_slice(&env, data.as_slice());
    env.crypto().sha256(&bytes).to_array()
}

/// The 4-byte big-endian encoding of a move's wire value.
pub open spec fn be_bytes_of_u32(m: u32) -> Seq<u8> {
    seq![(m >> 24) as u8, (m >> 16) as u8, (m >> 8) as u8, m as u8]
}

/// The 36-byte preimage a commitment hashes: the move's wire value in
/// big-endian followed by the whole salt. Both segments are fixed width,
/// so no length prefixes are needed.
pub open spec fn preimage_of(move_id: u32, salt: Seq<u8>) -> Seq<u8> {
    be_bytes_of_u32(move_id) + salt
}

/// The digest a commitment to `(move_id, salt)` must equal.
pub open spec fn commitment_of(move_id: u32, salt: Seq<u8>) -> Seq<u8> {
    sha256_of(preimage_of(move_id, salt))
}

/// Whether `digest` is exactly the commitment to `(move_id, salt)`.
pub open spec fn commitment_matches(move_id: u32, salt: Seq<u8>, digest: Seq<u8>) -> bool {
    digest == commitment_of(move_id, salt)
}

/// Compute the commitment digest for a move and a 32-byte salt. This is
/// the same calculation an honest player performs off-chain.
pub fn calculate_commitment(move_id: u32, salt: &[u8; 32]) -> (r: [u8; 32])
    ensures
        r@ == commitment_of(move_id, salt@),
{
    let mut data: Vec<u8> = Vec::new();
    data.push((move_id >> 24) as u8);
    data.push((move_id >> 16) as u8);
    data.push((move_id >> 8) as u8);
    data.push(move_id as u8);
    let mut i: usize = 0;
    while i < 32
        invariant
            i <= 32,
            data@ == be_bytes_of_u32(move_id) + salt@.take(i as int),
        decreases 32 - i,
    {
        data.push(salt[i]);
        i = i + 1;
        proof {
            assert(data@ =~= be_bytes_of_u32(move_id) + salt@.take(i as int));
        }
    }
    proof {
        assert(data@ =~= preimage_of(move_id, salt@));
        assert(data@.len() == 36);
    }
    sha256(&data)
}

/// Byte-for-byte equality of two digests.
pub fn digest_eq(a: &[u8; 32], b: &[u8; 32]) -> (r: bool)
    ensures
        r == (a@ == b@),
{
    let mut i: usize = 0;
    while i < 32
        invariant
            i <= 32,
            forall|j: int| 0 <= j < i ==> a@[j] == b@[j],
        decreases 32 - i,
    {
        if a[i] != b[i] {
            return false;
        }
        i = i + 1;
    }
    proof {
        assert(a@ =~= b@);
    }
    true
}

/// Recompute the commitment for `(move_id, salt)` and compare it with
/// `expected` for exact equality; no partial matching.
pub fn verify_commitment(move_id: u32, salt: &[u8; 32], expected: &[u8; 32]) -> (r: bool)
    ensures
        r == commitment_matches(move_id, salt@, expected@),
{
    let actual = calculate_commitment(move_id, salt);
    digest_eq(&expected, &actual)
}

/// Round trip: a digest produced by committing to `(move_id, salt)` always
/// verifies against that same pair.
pub proof fn lemma_commit_verify_roundtrip(move_id: u32, salt: Seq<u8>)
    ensures
        commitment_matches(move_id, salt, commitment_of(move_id, salt)),
{
}

/// Sensitivity: a changed move or salt fails to verify against the
/// original commitment whenever the two pairs' digests differ. That the
/// digests of distinct pairs do differ is SHA-256 collision resistance,
/// which no contract here states; it is the hypothesis of this law, not
/// its conclusion.
pub proof fn lemma_commit_sensitivity(move_one: u32, salt_one: Seq<u8>, move_two: u32, salt_two: Seq<u8>)
    requires
        commitment_of(move_one, salt_one) != commitment_of(move_two, salt_two),
    ensures
        !commitment_matches(move_two, salt_two, commitment_of(move_one, salt_one)),
        !commitment_matches(move_one, salt_one, commitment_of(move_two, salt_two)),
{
}

} // verus!
