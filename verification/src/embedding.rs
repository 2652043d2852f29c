//! Decisions of the image-embedding job: one embedding per product picture,
//! computed from the picture's `medium.webp` variant. For each listed picture
//! the job fetches that variant, fingerprints it, and embeds only the pictures
//! whose fingerprint differs from the stored one.

use vstd::prelude::*;
use vstd::string::*;

use crate::digest::{hex_lower, sha256, sha256_hex};
use crate::photos::{medium_key, spec_image_prefix};
use crate::storage::opt_text;
use crate::text::{decimal, push_decimal, signed_decimal};

verus! {

/// What an `embed_product_images` job asks for: a product and the indices of
/// its pictures to (re-)embed.
#[derive(Debug)]
pub struct EmbedPayload {
    pub product_id: u128,
    pub image_indices: Vec<i32>,
}

/// The storage key of the `medium.webp` variant of picture `idx`.
pub open spec fn spec_medium_key(product_id: u128, idx: i32) -> Seq<char> {
    spec_image_prefix(product_id) + signed_decimal(idx as int) + "/medium.webp"@
}

/// The keys whose bytes the job fetches, one per listed picture, in order.
pub fn medium_keys(payload: &EmbedPayload) -> (keys: Vec<String>)
    ensures
        keys@.len() == payload.image_indices@.len(),
        forall|i: int| 0 <= i < keys@.len() ==> #[trigger] keys@[i]@ == spec_medium_key(
            payload.product_id,
            payload.image_indices@[i],
        ),
{
    let mut keys: Vec<String> = Vec::new();
    let n = payload.image_indices.len();
    let mut i: usize = 0;
    while i < n
        invariant
            i <= n,
            n == payload.image_indices@.len(),
            keys@.len() == i,
            forall|k: int| 0 <= k < i ==> #[trigger] keys@[k]@ == spec_medium_key(
                payload.product_id,
                payload.image_indices@[k],
            ),
        decreases n - i,
    {
        let key = medium_key(payload.product_id, payload.image_indices[i]);
        keys.push(key);
        i = i + 1;
    }
    keys
}

/// The fingerprint of a fetched `medium.webp`: the lowercase hex SHA-256 of
/// its bytes; `None` for a variant that could not be fetched.
pub open spec fn fingerprint_of(bytes: Option<Vec<u8>>) -> Option<Seq<char>> {
    match bytes {
        Some(b) => Some(hex_lower(sha256(b@))),
        None => None,
    }
}

/// The fingerprints of the fetched variants, in order.
pub fn fingerprints(fetched: &Vec<Option<Vec<u8>>>) -> (res: Vec<Option<String>>)
    ensures
        res@.len() == fetched@.len(),
        forall|i: int| 0 <= i < res@.len() ==> opt_text(#[trigger] res@[i]) == fingerprint_of(fetched@[i]),
{
    let n = fetched.len();
    let mut res: Vec<Option<String>> = Vec::new();
    let mut i: usize = 0;
    while i < n
        invariant
            i <= n,
            n == fetched@.len(),
            res@.len() == i,
            forall|k: int| 0 <= k < i ==> opt_text(#[trigger] res@[k]) == fingerprint_of(fetched@[k]),
        decreases n - i,
    {
        let f = match &fetched[i] {
            Some(b) => Some(sha256_hex(b.as_slice())),
            None => None,
        };
        res.push(f);
        i = i + 1;
    }
    res
}

/// Whether a picture is embedded: its `medium.webp` was fetched (fingerprint
/// `fetched`) and the stored fingerprint is missing or different. A picture
/// whose variant could not be fetched is skipped.
pub open spec fn needs_embedding(fetched: Option<String>, stored: Option<String>) -> bool {
    fetched is Some && opt_text(stored) != opt_text(fetched)
}

/// The positions of the pictures to embed, given for each listed picture the
/// fingerprint of its fetched `medium.webp` (`None` when it is not available)
/// and the stored fingerprint. The result lists, in increasing order, exactly
/// the positions that `needs_embedding` selects.
pub fn images_to_embed(fetched: &Vec<Option<String>>, stored: &Vec<Option<String>>) -> (res: Vec<usize>)
    requires
        fetched@.len() == stored@.len(),
    ensures
        forall|k: int| 0 <= k < res@.len() ==> #[trigger] res@[k] < fetched@.len()
            && needs_embedding(fetched@[res@[k] as int], stored@[res@[k] as int]),
        forall|j: int, k: int| 0 <= j < k < res@.len() ==> res@[j] < res@[k],
        forall|i: int| 0 <= i < fetched@.len() && needs_embedding(#[trigger] fetched@[i], stored@[i])
            ==> res@.contains(i as usize),
{
    let n = fetched.len();
    let mut res: Vec<usize> = Vec::new();
    let mut i: usize = 0;
    while i < n
        invariant
            i <= n,
            n == fetched@.len(),
            n == stored@.len(),
            forall|k: int| 0 <= k < res@.len() ==> #[trigger] res@[k] < i
                && needs_embedding(fetched@[res@[k] as int], stored@[res@[k] as int]),
            forall|j: int, k: int| 0 <= j < k < res@.len() ==> res@[j] < res@[k],
            forall|m: int| 0 <= m < i && needs_embedding(#[trigger] fetched@[m], stored@[m])
                ==> res@.contains(m as usize),
        decreases n - i,
    {
        let take = match (&fetched[i], &stored[i]) {
            (Some(h), Some(s)) => !(*s == *h),
            (Some(_), None) => true,
            (None, _) => false,
        };
        assert(take == needs_embedding(fetched@[i as int], stored@[i as int]));
        if take {
            let ghost before = res@;
            res.push(i);
            proof {
                assert forall|m: int| 0 <= m < i + 1 && needs_embedding(#[trigger] fetched@[m], stored@[m])
                    implies res@.contains(m as usize) by {
                    if m < i {
                        let k = choose|k: int| 0 <= k < before.len() && before[k] == m as usize;
                        assert(res@[k] == m as usize);
                    } else {
                        assert(res@[before.len() as int] == m as usize);
                    }
                }
            }
        }
        i = i + 1;
    }
    res
}

/// The error of an embedder answer with another number of vectors than
/// pictures sent.
pub open spec fn vector_count_error(vectors: nat, pending: nat) -> Seq<char> {
    "embed_product_images: vector count mismatch "@ + decimal(vectors) + " vs "@ + decimal(pending)
}

/// The embedder must answer one vector per picture sent; otherwise the job
/// fails and nothing is written.
pub fn check_vector_count(vectors: usize, pending: usize) -> (res: Result<(), String>)
    ensures
        res is Ok <==> vectors == pending,
        res matches Err(m) ==> m@ == vector_count_error(vectors as nat, pending as nat),
{
    if vectors == pending {
        Ok(())
    } else {
        let mut m = String::from_str("embed_product_images: vector count mismatch ");
        push_decimal(&mut m, vectors as u64);
        m.append(" vs ");
        push_decimal(&mut m, pending as u64);
        Err(m)
    }
}

} // verus!
