//! SHA-256 fingerprints rendered as lowercase hex, used to skip re-embedding
//! content that has not changed.

use vstd::prelude::*;

use sha2::Digest;

verus! {

/// The name for the SHA-256 digest of a byte sequence (FIPS 180-4).
pub uninterp spec fn sha256(data: Seq<u8>) -> Seq<u8>;

/// Calls `sha2::Sha256::digest`. Claims that the digest is `sha256(data)` and,
/// as SHA-256 always produces, 32 bytes long.
#[verifier::external_body]
fn sha256_digest(data: &[u8]) -> (res: Vec<u8>)
    ensures
        res@ == sha256(data@),
        res@.len() == 32,
{
    sha2::Sha256::digest(data).to_vec()
}

/// The lowercase hex digit of a nibble.
pub open spec fn hex_digit(n: nat) -> char {
    if n < 10 {
        ('0' as nat + n) as char
    } else {
        ('a' as nat + (n - 10)) as char
    }
}

/// Lowercase hex rendering: two characters per byte, high nibble first.
pub open spec fn hex_lower(data: Seq<u8>) -> Seq<char>
    decreases data.len(),
{
    if data.len() == 0 {
        Seq::empty()
    } else {
        hex_lower(data.drop_last()) + seq![
            hex_digit((data.last() / 16) as nat),
            hex_digit((data.last() % 16) as nat),
        ]
    }
}

pub proof fn lemma_hex_lower_len(data: Seq<u8>)
    ensures
        hex_lower(data).len() == 2 * data.len(),
    decreases data.len(),
{
    if data.len() > 0 {
        lemma_hex_lower_len(data.drop_last());
    }
}

/// Calls `hex::encode`. Claims what its documentation and source state: the
/// bytes rendered with lowercase hex digits, high nibble first.
#[verifier::external_body]
fn hex_encode(data: &[u8]) -> (res: String)
    ensures
        res@ == hex_lower(data@),
{
    hex::encode(data)
}

/// The SHA-256 digest of `bytes` as 64 lowercase hex characters.
pub fn sha256_hex(bytes: &[u8]) -> (res: String)
    ensures
        res@ == hex_lower(sha256(bytes@)),
        res@.len() == 64,
{
    let digest = sha256_digest(bytes);
    proof { lemma_hex_lower_len(digest@); }
    hex_encode(digest.as_slice())
}

} // verus!
