//! Fragment integrity digests.
//!
//! Fragments carry a hexadecimal SHA-256 digest of their bytes; the store
//! accepts a fragment only when the digest it computes matches the declared
//! one.

use vstd::prelude::*;

use sha2::{Digest, Sha256};

verus! {

/// Hexadecimal SHA-256 digest of a byte sequence, as 64 lower-case hex
/// characters. The digest is computed by an outside cryptographic library;
/// this name lets contracts speak about its result.
pub uninterp spec fn sha256_hex_of(data: Seq<u8>) -> Seq<char>;

/// Relies on sha2's `Sha256` hasher (through `Digest::digest`): the digest
/// is a deterministic function of the input bytes alone. The body formats
/// the 32 digest bytes as lower-case hexadecimal.
#[verifier::external_body]
pub fn calculate_hash(data: &[u8]) -> (r: String)
    ensures
        r@ == sha256_hex_of(data@),
{
    let digest = Sha256::digest(data);
    digest.iter().map(|b| format!("{:02x}", b)).collect::<String>()
}

/// Checks a fragment's bytes against a declared hexadecimal digest.
pub fn verify_chunk_integrity(chunk_data: &[u8], expected_hash: &str) -> (r: bool)
    ensures
        r == (sha256_hex_of(chunk_data@) == expected_hash@),
{
    let actual = calculate_hash(chunk_data);
    let expected = expected_hash.to_owned();
    actual == expected
}

} // verus!
