//! Storage-side decisions: how a failed download is classified and where a
//! public object is served from.

use vstd::prelude::*;
use vstd::string::*;

use crate::error::StorageError;

verus! {

/// Whether `needle` occurs in `s` at position `i`.
pub open spec fn occurs_at(s: Seq<char>, needle: Seq<char>, i: int) -> bool {
    0 <= i && i + needle.len() <= s.len() && s.subrange(i, i + needle.len()) == needle
}

/// Whether `needle` occurs anywhere in `s`.
pub open spec fn spec_contains(s: Seq<char>, needle: Seq<char>) -> bool {
    exists|i: int| occurs_at(s, needle, i)
}

fn occurs_at_exec(s: &str, needle: &str, i: usize) -> (res: bool)
    requires
        i + needle@.len() <= s@.len(),
    ensures
        res == occurs_at(s@, needle@, i as int),
{
    let n = s.unicode_len();
    let m = needle.unicode_len();
    let mut j: usize = 0;
    while j < m
        invariant
            n == s@.len(),
            m == needle@.len(),
            i + m <= s@.len(),
            j <= m,
            forall|k: int| 0 <= k < j ==> s@[i + k] == needle@[k],
        decreases m - j,
    {
        if s.get_char(i + j) != needle.get_char(j) {
            assert(s@.subrange(i as int, i + m)[j as int] != needle@[j as int]);
            return false;
        }
        j = j + 1;
    }
    assert(s@.subrange(i as int, i + m) =~= needle@);
    true
}

/// Substring search.
pub fn contains(s: &str, needle: &str) -> (res: bool)
    ensures
        res == spec_contains(s@, needle@),
{
    let n = s.unicode_len();
    let m = needle.unicode_len();
    if m > n {
        return false;
    }
    if m == 0 {
        assert(s@.subrange(0, 0) =~= needle@);
        assert(occurs_at(s@, needle@, 0));
        return true;
    }
    let mut i: usize = 0;
    while i <= n - m
        invariant
            n == s@.len(),
            m == needle@.len(),
            0 < m <= n,
            i <= n - m + 1,
            forall|k: int| 0 <= k < i ==> !occurs_at(s@, needle@, k),
        decreases n - m + 1 - i,
    {
        if occurs_at_exec(s, needle, i) {
            return true;
        }
        i = i + 1;
    }
    assert forall|k: int| !occurs_at(s@, needle@, k) by {
        if 0 <= k && k + m <= n {
            assert(k < i);
        }
    }
    false
}

/// A failed download is `NotFound` when the store says the key does not
/// exist (`NoSuchKey` or `404` in its description), otherwise `Internal`;
/// the message starts with `S3 get_object failed: `.
pub fn get_object_error(detail: &str) -> (e: StorageError)
    ensures
        (spec_contains(detail@, "NoSuchKey"@) || spec_contains(detail@, "404"@)) ==>
            (e matches StorageError::NotFound(m) && m@ == "S3 get_object failed: "@ + detail@),
        !(spec_contains(detail@, "NoSuchKey"@) || spec_contains(detail@, "404"@)) ==>
            (e matches StorageError::Internal(m) && m@ == "S3 get_object failed: "@ + detail@),
{
    let msg = String::from_str("S3 get_object failed: ").concat(detail);
    if contains(detail, "NoSuchKey") || contains(detail, "404") {
        StorageError::NotFound(msg)
    } else {
        StorageError::Internal(msg)
    }
}

/// `<base>/<bucket>/<key>`: the address of an object behind a public proxy.
pub fn public_object_url(base: &str, bucket: &str, key: &str) -> (url: String)
    ensures
        url@ == base@ + "/"@ + bucket@ + "/"@ + key@,
{
    String::from_str(base).concat("/").concat(bucket).concat("/").concat(key)
}

// ── Listing keys page by page ─────────────────────────────────

/// What a listing does after one page of results.
#[derive(Debug)]
pub enum ListStep {
    /// Ask for another page, passing this continuation token (if any).
    Fetch(Option<String>),
    /// The listing is complete.
    Done,
}

pub open spec fn opt_text(t: Option<String>) -> Option<Seq<char>> {
    match t {
        Some(s) => Some(s@),
        None => None,
    }
}

/// After a page: another page is fetched exactly when the store marks the
/// page as truncated, with the continuation token the store handed back.
pub fn after_page(is_truncated: Option<bool>, next_token: Option<String>) -> (step: ListStep)
    ensures
        is_truncated == Some(true) <==> step is Fetch,
        step matches ListStep::Fetch(t) ==> opt_text(t) == opt_text(next_token),
{
    if is_truncated == Some(true) {
        ListStep::Fetch(next_token)
    } else {
        ListStep::Done
    }
}

/// The keys of the objects of a page that have one, in order.
pub open spec fn page_keys(page: Seq<Option<String>>) -> Seq<Seq<char>>
    decreases page.len(),
{
    if page.len() == 0 {
        Seq::empty()
    } else {
        let rest = page_keys(page.drop_last());
        match page.last() {
            Some(k) => rest.push(k@),
            None => rest,
        }
    }
}

pub open spec fn texts(v: Seq<String>) -> Seq<Seq<char>> {
    v.map_values(|s: String| s@)
}

/// Appends to `keys` the keys of one listed page (objects without a key are
/// skipped).
pub fn append_page_keys(keys: &mut Vec<String>, page: Vec<Option<String>>)
    ensures
        texts(final(keys)@) == texts(old(keys)@) + page_keys(page@),
{
    let ghost start = texts(keys@);
    let ghost all = page@;
    for item in it: page.into_iter()
        invariant
            it.seq() == all,
            texts(keys@) == start + page_keys(all.take(it.index() as int)),
    {
        proof {
            assert(all.take(it.index() + 1).drop_last() =~= all.take(it.index() as int));
            assert(all.take(it.index() + 1).last() == item);
        }
        match item {
            Some(k) => {
                let ghost before = keys@;
                keys.push(k);
                proof {
                    assert(texts(keys@) =~= texts(before).push(keys@.last()@));
                }
            },
            None => {},
        }
    }
    proof {
        assert(all.take(all.len() as int) =~= all);
    }
}

} // verus!
