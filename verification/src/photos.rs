//! Layout of product pictures in object storage and the decisions around it.
//!
//! Each picture lives at `products/{id}/{n}/{variant}.webp`; the preview at
//! `previews/{id}/{variant}.webp`.

use vstd::prelude::*;
use vstd::string::*;

use crate::error::{ErrorView, ServiceError};
use crate::ids::{uuid_text, uuid_to_string};
use crate::images::Variant;
use crate::text::{decimal, digit_char, push_decimal, push_signed_decimal, signed_decimal, spec_ends_with, spec_starts_with, ends_with, starts_with};

verus! {

/// Content type of every stored variant.
pub const WEBP_CONTENT_TYPE: &'static str = "image/webp";

/// `products/{id}/`
pub open spec fn spec_image_prefix(product_id: u128) -> Seq<char> {
    "products/"@ + uuid_text(product_id) + "/"@
}

/// `previews/{id}/`
pub open spec fn spec_preview_prefix(product_id: u128) -> Seq<char> {
    "previews/"@ + uuid_text(product_id) + "/"@
}

pub fn image_prefix(product_id: u128) -> (s: String)
    ensures
        s@ == spec_image_prefix(product_id),
{
    let mut s = String::from_str("products/");
    let id = uuid_to_string(product_id);
    s.append(id.as_str());
    s.append("/");
    s
}

pub fn preview_prefix(product_id: u128) -> (s: String)
    ensures
        s@ == spec_preview_prefix(product_id),
{
    let mut s = String::from_str("previews/");
    let id = uuid_to_string(product_id);
    s.append(id.as_str());
    s.append("/");
    s
}

/// `products/{id}/{n}/`: the directory of one picture.
pub fn image_dir_prefix(product_id: u128, image_idx: usize) -> (s: String)
    ensures
        s@ == spec_image_prefix(product_id) + decimal(image_idx as nat) + "/"@,
{
    let mut s = image_prefix(product_id);
    push_decimal(&mut s, image_idx as u64);
    s.append("/");
    s
}

/// `products/{id}/{n}/{variant}.webp`
pub fn image_variant_key(product_id: u128, image_idx: usize, variant: Variant) -> (s: String)
    ensures
        s@ == spec_image_prefix(product_id) + decimal(image_idx as nat) + "/"@
            + variant.spec_name() + ".webp"@,
{
    let mut s = image_dir_prefix(product_id, image_idx);
    s.append(variant.name());
    s.append(".webp");
    s
}

/// `previews/{id}/{variant}.webp`
pub fn preview_variant_key(product_id: u128, variant: Variant) -> (s: String)
    ensures
        s@ == spec_preview_prefix(product_id) + variant.spec_name() + ".webp"@,
{
    let mut s = preview_prefix(product_id);
    s.append(variant.name());
    s.append(".webp");
    s
}

/// `products/{id}/{n}/medium.webp`, the variant whose bytes are embedded.
pub fn medium_key(product_id: u128, image_idx: i32) -> (s: String)
    ensures
        s@ == spec_image_prefix(product_id) + signed_decimal(image_idx as int) + "/medium.webp"@,
{
    let mut s = image_prefix(product_id);
    push_signed_decimal(&mut s, image_idx as i64);
    s.append("/medium.webp");
    s
}

// ── Reading picture indices back from keys ────────────────────

pub open spec fn is_digit(c: char) -> bool {
    '0' <= c <= '9'
}

/// The value of a run of decimal digits.
pub open spec fn digits_value(s: Seq<char>) -> nat
    decreases s.len(),
{
    if s.len() == 0 {
        0
    } else {
        digits_value(s.drop_last()) * 10 + (s.last() as nat - '0' as nat) as nat
    }
}

/// The text after an optional leading `+`.
pub open spec fn unsigned_digits(s: Seq<char>) -> Seq<char> {
    if s.len() > 0 && s[0] == '+' { s.drop_first() } else { s }
}

/// What `str::parse::<usize>` answers: an optional `+` followed by at least one
/// decimal digit, with a value that fits.
pub open spec fn parse_usize(s: Seq<char>) -> Option<usize> {
    let body = unsigned_digits(s);
    if body.len() > 0 && (forall|i: int| 0 <= i < body.len() ==> is_digit(#[trigger] body[i]))
        && digits_value(body) <= usize::MAX {
        Some(digits_value(body) as usize)
    } else {
        None
    }
}

/// A longer run of digits is worth at least as much as its prefix.
proof fn lemma_digits_value_grows(s: Seq<char>, k: int)
    requires
        0 <= k < s.len(),
    ensures
        digits_value(s.take(k + 1)) >= digits_value(s.take(k)) * 10,
        digits_value(s.take(k + 1)) == digits_value(s.take(k)) * 10 + (s[k] as nat - '0' as nat) as nat,
{
    assert(s.take(k + 1).drop_last() =~= s.take(k));
    assert(s.take(k + 1).last() == s[k]);
}

/// `str::parse::<usize>`, as std documents it for unsigned integers: an
/// optional `+` followed by at least one decimal digit, with a value that fits.
fn parse_decimal_usize(s: &str) -> (res: Option<usize>)
    ensures
        res == parse_usize(s@),
{
    let n = s.unicode_len();
    let p: usize = if n > 0 && s.get_char(0) == '+' { 1 } else { 0 };
    let ghost body = unsigned_digits(s@);
    assert(body =~= s@.subrange(p as int, n as int));
    if p == n {
        return None;
    }
    let mut acc: usize = 0;
    let mut overflow = false;
    let mut i: usize = p;
    while i < n
        invariant
            p <= i <= n,
            n == s@.len(),
            body == s@.subrange(p as int, n as int),
            body == unsigned_digits(s@),
            forall|k: int| 0 <= k < i - p ==> is_digit(#[trigger] body[k]),
            !overflow ==> acc == digits_value(body.take(i - p)),
            overflow ==> digits_value(body.take(i - p)) > usize::MAX,
        decreases n - i,
    {
        let c = s.get_char(i);
        assert(c == body[i - p]);
        if !('0' <= c && c <= '9') {
            assert(!is_digit(body[i - p]));
            return None;
        }
        proof {
            lemma_digits_value_grows(body, i - p);
        }
        let d = (c as u32 - '0' as u32) as usize;
        assert(d == (body[i - p] as nat - '0' as nat) as nat);
        let ghost v = digits_value(body.take(i - p));
        if !overflow {
            if acc > (usize::MAX - d) / 10 {
                assert(acc * 10 + d > usize::MAX) by (nonlinear_arith)
                    requires
                        acc > (usize::MAX - d) / 10,
                        d <= 9,
                ;
                overflow = true;
            } else {
                assert(acc * 10 + d <= usize::MAX) by (nonlinear_arith)
                    requires
                        acc <= (usize::MAX - d) / 10,
                        d <= 9,
                ;
                acc = acc * 10 + d;
            }
        } else {
            assert(v * 10 >= v) by (nonlinear_arith)
                requires
                    v >= 0,
            ;
        }
        i = i + 1;
    }
    assert(body.take(body.len() as int) =~= body);
    if overflow {
        None
    } else {
        Some(acc)
    }
}

/// The index of the first `/` in `s`, or its length.
pub open spec fn slash_index(s: Seq<char>) -> int
    decreases s.len(),
{
    if s.len() == 0 {
        0
    } else if s[0] == '/' {
        0
    } else {
        1 + slash_index(s.drop_first())
    }
}

proof fn lemma_slash_index(s: Seq<char>)
    ensures
        0 <= slash_index(s) <= s.len(),
        forall|i: int| 0 <= i < slash_index(s) ==> #[trigger] s[i] != '/',
        slash_index(s) < s.len() ==> s[slash_index(s)] == '/',
    decreases s.len(),
{
    if s.len() > 0 && s[0] != '/' {
        lemma_slash_index(s.drop_first());
        assert forall|i: int| 0 <= i < slash_index(s) implies #[trigger] s[i] != '/' by {
            if i > 0 {
                assert(s[i] == s.drop_first()[i - 1]);
            }
        }
        if slash_index(s) < s.len() {
            assert(s[slash_index(s)] == s.drop_first()[slash_index(s) - 1]);
        }
    }
}

/// The picture index encoded in `key` below `prefix`: the first path segment
/// after the prefix, read as a number.
pub open spec fn key_index(key: Seq<char>, prefix: Seq<char>) -> Option<usize> {
    if spec_starts_with(key, prefix) {
        let rest = key.skip(prefix.len() as int);
        parse_usize(rest.take(slash_index(rest)))
    } else {
        None
    }
}

fn index_of_key(key: &str, prefix: &str) -> (res: Option<usize>)
    ensures
        res == key_index(key@, prefix@),
{
    if !starts_with(key, prefix) {
        return None;
    }
    let n = key.unicode_len();
    let p = prefix.unicode_len();
    let ghost rest = key@.skip(p as int);
    proof { lemma_slash_index(rest); }
    let mut e: usize = p;
    while e < n && key.get_char(e) != '/'
        invariant
            p <= e <= n,
            n == key@.len(),
            p == prefix@.len(),
            rest == key@.skip(p as int),
            rest.len() == n - p,
            0 <= slash_index(rest) <= rest.len(),
            slash_index(rest) < rest.len() ==> rest[slash_index(rest)] == '/',
            forall|i: int| 0 <= i < slash_index(rest) ==> #[trigger] rest[i] != '/',
            e - p <= slash_index(rest),
        decreases n - e,
    {
        proof {
            if e - p == slash_index(rest) {
                assert(rest[e - p] == key@[e as int]);
            }
        }
        e = e + 1;
    }
    assert(e - p == slash_index(rest)) by {
        if e - p < slash_index(rest) {
            if e < n {
                assert(rest[e - p] == key@[e as int]);
            }
        }
    }
    let seg = key.substring_char(p, e);
    assert(seg@ =~= rest.take(slash_index(rest)));
    parse_decimal_usize(seg)
}

proof fn lemma_digit_char(d: nat)
    requires
        d < 10,
    ensures
        is_digit(digit_char(d)),
        digit_char(d) as nat - '0' as nat == d,
{
}

proof fn lemma_decimal_digits(n: nat)
    ensures
        decimal(n).len() > 0,
        forall|i: int| 0 <= i < decimal(n).len() ==> is_digit(#[trigger] decimal(n)[i]),
        digits_value(decimal(n)) == n,
    decreases n,
{
    if n < 10 {
        lemma_digit_char(n);
        let d = decimal(n);
        assert(d.drop_last() =~= Seq::<char>::empty());
        assert(d.last() == digit_char(n));
        assert(digits_value(d) == digits_value(d.drop_last()) * 10 + (d.last() as nat - '0' as nat) as nat);
        assert(digits_value(d) == n);
    } else {
        lemma_decimal_digits(n / 10);
        lemma_digit_char(n % 10);
        let d = decimal(n);
        assert(d.drop_last() =~= decimal(n / 10));
        assert(d.last() == digit_char(n % 10));
        assert((n / 10) * 10 + n % 10 == n) by (nonlinear_arith);
        assert(digits_value(d) == digits_value(decimal(n / 10)) * 10 + (d.last() as nat - '0' as nat) as nat);
        assert(digits_value(d) == n);
        assert forall|i: int| 0 <= i < d.len() implies is_digit(#[trigger] d[i]) by {
            if i < d.len() - 1 {
                assert(d[i] == decimal(n / 10)[i]);
            }
        }
    }
}

/// A decimal rendering parses back to the number.
pub proof fn lemma_parse_decimal(n: usize)
    ensures
        parse_usize(decimal(n as nat)) == Some(n),
{
    lemma_decimal_digits(n as nat);
    assert(decimal(n as nat)[0] != '+');
}

proof fn lemma_slash_after_digits(digits: Seq<char>, tail: Seq<char>)
    requires
        forall|i: int| 0 <= i < digits.len() ==> is_digit(#[trigger] digits[i]),
        tail.len() > 0,
        tail[0] == '/',
    ensures
        slash_index(digits + tail) == digits.len(),
    decreases digits.len(),
{
    if digits.len() == 0 {
        assert(digits + tail =~= tail);
    } else {
        assert((digits + tail).drop_first() =~= digits.drop_first() + tail);
        assert(is_digit(digits[0]));
        assert forall|i: int| 0 <= i < digits.drop_first().len() implies is_digit(#[trigger] digits.drop_first()[i]) by {
            assert(digits.drop_first()[i] == digits[i + 1]);
        }
        lemma_slash_after_digits(digits.drop_first(), tail);
    }
}

/// The key written for picture `n` of a product is read back as picture `n`.
pub proof fn lemma_variant_key_index(product_id: u128, n: usize, variant: Variant)
    ensures
        key_index(spec_image_prefix(product_id) + decimal(n as nat) + "/"@ + variant.spec_name() + ".webp"@,
            spec_image_prefix(product_id)) == Some(n),
{
    reveal_strlit("/");
    let prefix = spec_image_prefix(product_id);
    let digits = decimal(n as nat);
    let tail = "/"@ + variant.spec_name() + ".webp"@;
    let key = prefix + digits + "/"@ + variant.spec_name() + ".webp"@;
    assert(key =~= prefix + (digits + tail));
    assert(key.subrange(0, prefix.len() as int) =~= prefix);
    assert(key.skip(prefix.len() as int) =~= digits + tail);
    lemma_decimal_digits(n as nat);
    assert(tail[0] == '/');
    lemma_slash_after_digits(digits, tail);
    assert((digits + tail).take(digits.len() as int) =~= digits);
    lemma_parse_decimal(n);
}

/// Whether `s` is strictly increasing (sorted without duplicates).
pub open spec fn strictly_increasing(s: Seq<usize>) -> bool {
    forall|i: int, j: int| 0 <= i < j < s.len() ==> s[i] < s[j]
}

/// The picture indices that some key encodes below `prefix`.
pub open spec fn indices_in(keys: Seq<String>, prefix: Seq<char>, x: usize) -> bool {
    exists|i: int| 0 <= i < keys.len() && key_index(#[trigger] keys[i]@, prefix) == Some(x)
}

fn insert_sorted(v: &mut Vec<usize>, x: usize)
    requires
        strictly_increasing(old(v)@),
    ensures
        strictly_increasing(final(v)@),
        forall|y: usize| final(v)@.contains(y) <==> (old(v)@.contains(y) || y == x),
{
    let n = v.len();
    let mut p: usize = 0;
    while p < n && v[p] < x
        invariant
            n == v@.len(),
            p <= n,
            strictly_increasing(v@),
            forall|i: int| 0 <= i < p ==> v@[i] < x,
        decreases n - p,
    {
        p = p + 1;
    }
    if p < n && v[p] == x {
        return;
    }
    v.insert(p, x);
    assert forall|y: usize| v@.contains(y) <==> (old(v)@.contains(y) || y == x) by {
        if old(v)@.contains(y) {
            let k = choose|k: int| 0 <= k < old(v)@.len() && old(v)@[k] == y;
            if k < p {
                assert(v@[k] == y);
            } else {
                assert(v@[k + 1] == y);
            }
        }
        if y == x {
            assert(v@[p as int] == x);
        }
        if v@.contains(y) {
            let k = choose|k: int| 0 <= k < v@.len() && v@[k] == y;
            if k < p {
                assert(old(v)@[k] == y);
            } else if k > p {
                assert(old(v)@[k - 1] == y);
            }
        }
    }
}

/// The distinct picture indices below `prefix` that the keys encode, in
/// increasing order; keys whose first segment is not a number are skipped.
pub fn list_image_indices(keys: &Vec<String>, prefix: &str) -> (res: Vec<usize>)
    ensures
        strictly_increasing(res@),
        forall|x: usize| res@.contains(x) <==> indices_in(keys@, prefix@, x),
{
    let mut res: Vec<usize> = Vec::new();
    let mut i: usize = 0;
    while i < keys.len()
        invariant
            i <= keys@.len(),
            strictly_increasing(res@),
            forall|x: usize| res@.contains(x) <==>
                exists|j: int| 0 <= j < i && key_index(#[trigger] keys@[j]@, prefix@) == Some(x),
        decreases keys@.len() - i,
    {
        let found = index_of_key(keys[i].as_str(), prefix);
        let ghost before = res@;
        if let Some(x) = found {
            insert_sorted(&mut res, x);
        }
        assert forall|x: usize| res@.contains(x) <==>
            exists|j: int| 0 <= j < i + 1 && key_index(#[trigger] keys@[j]@, prefix@) == Some(x) by {
            if res@.contains(x) && !before.contains(x) {
                assert(key_index(keys@[i as int]@, prefix@) == Some(x));
            }
            if exists|j: int| 0 <= j < i + 1 && key_index(#[trigger] keys@[j]@, prefix@) == Some(x) {
                let j = choose|j: int| 0 <= j < i + 1 && key_index(#[trigger] keys@[j]@, prefix@) == Some(x);
                if j < i {
                    assert(before.contains(x));
                }
            }
        }
        i = i + 1;
    }
    res
}

/// The index for the next uploaded picture: one past the largest in use, or 0.
pub open spec fn spec_next_image_index(indices: Seq<usize>) -> nat
    decreases indices.len(),
{
    if indices.len() == 0 {
        0
    } else {
        let rest = spec_next_image_index(indices.drop_last());
        if indices.last() + 1 > rest { (indices.last() + 1) as nat } else { rest }
    }
}

proof fn lemma_next_index_bounds(indices: Seq<usize>)
    ensures
        forall|i: int| 0 <= i < indices.len() ==> indices[i] < spec_next_image_index(indices),
        spec_next_image_index(indices) == 0
            || exists|i: int| 0 <= i < indices.len() && spec_next_image_index(indices) == indices[i] + 1,
    decreases indices.len(),
{
    if indices.len() > 0 {
        lemma_next_index_bounds(indices.drop_last());
        assert forall|i: int| 0 <= i < indices.len() implies indices[i] < spec_next_image_index(indices) by {
            if i < indices.len() - 1 {
                assert(indices[i] == indices.drop_last()[i]);
            }
        }
        if spec_next_image_index(indices) != indices.last() + 1 && spec_next_image_index(indices) != 0 {
            let i = choose|i: int| 0 <= i < indices.drop_last().len()
                && spec_next_image_index(indices.drop_last()) == indices.drop_last()[i] + 1;
            assert(indices[i] == indices.drop_last()[i]);
        }
    }
}

/// One past the largest index in use (0 when there is none): new pictures
/// never overwrite existing ones.
pub fn next_image_index(indices: &Vec<usize>) -> (res: usize)
    requires
        forall|i: int| 0 <= i < indices@.len() ==> indices@[i] < usize::MAX,
    ensures
        res == spec_next_image_index(indices@),
        forall|i: int| 0 <= i < indices@.len() ==> indices@[i] < res,
{
    let mut best: usize = 0;
    let mut i: usize = 0;
    proof { lemma_next_index_bounds(indices@); }
    while i < indices.len()
        invariant
            i <= indices@.len(),
            forall|k: int| 0 <= k < indices@.len() ==> indices@[k] < usize::MAX,
            best == spec_next_image_index(indices@.take(i as int)),
        decreases indices@.len() - i,
    {
        assert(indices@.take(i + 1).drop_last() =~= indices@.take(i as int));
        if indices[i] + 1 > best {
            best = indices[i] + 1;
        }
        i = i + 1;
    }
    assert(indices@.take(indices@.len() as int) =~= indices@);
    best
}

/// The indices for `count` new pictures: consecutive, starting one past the
/// largest index in use, so that no existing picture is overwritten.
pub fn assign_image_indices(existing: &Vec<usize>, count: usize) -> (res: Vec<usize>)
    requires
        forall|i: int| 0 <= i < existing@.len() ==> existing@[i] < usize::MAX,
        spec_next_image_index(existing@) + count <= usize::MAX,
    ensures
        res@.len() == count,
        forall|k: int| 0 <= k < count ==> #[trigger] res@[k] == spec_next_image_index(existing@) + k,
        forall|k: int, i: int| 0 <= k < count && 0 <= i < existing@.len() ==> #[trigger] res@[k] != #[trigger] existing@[i],
{
    let start = next_image_index(existing);
    let mut res: Vec<usize> = Vec::new();
    let mut k: usize = 0;
    while k < count
        invariant
            k <= count,
            start == spec_next_image_index(existing@),
            start + count <= usize::MAX,
            forall|i: int| 0 <= i < existing@.len() ==> existing@[i] < start,
            res@.len() == k,
            forall|j: int| 0 <= j < k ==> #[trigger] res@[j] == start + j,
        decreases count - k,
    {
        res.push(start + k);
        k = k + 1;
    }
    res
}

// ── Choosing the keys of the three variants ───────────────────

/// The first position of a key ending in `suffix`.
pub open spec fn first_with_suffix(keys: Seq<String>, suffix: Seq<char>) -> Option<int>
    decreases keys.len(),
{
    if keys.len() == 0 {
        None
    } else if spec_ends_with(keys[0]@, suffix) {
        Some(0)
    } else {
        match first_with_suffix(keys.drop_first(), suffix) {
            Some(i) => Some(i + 1),
            None => None,
        }
    }
}

proof fn lemma_first_with_suffix(keys: Seq<String>, suffix: Seq<char>)
    ensures
        first_with_suffix(keys, suffix) matches Some(i) ==> 0 <= i < keys.len()
            && spec_ends_with(keys[i]@, suffix)
            && forall|j: int| 0 <= j < i ==> !spec_ends_with(#[trigger] keys[j]@, suffix),
        first_with_suffix(keys, suffix) is None ==>
            forall|j: int| 0 <= j < keys.len() ==> !spec_ends_with(#[trigger] keys[j]@, suffix),
    decreases keys.len(),
{
    if keys.len() > 0 && !spec_ends_with(keys[0]@, suffix) {
        lemma_first_with_suffix(keys.drop_first(), suffix);
        assert forall|j: int| 0 < j < keys.len() implies keys[j] == keys.drop_first()[j - 1] by {}
    }
}

fn find_suffix(keys: &Vec<String>, suffix: &str) -> (res: Option<usize>)
    ensures
        match res {
            Some(i) => first_with_suffix(keys@, suffix@) == Some(i as int),
            None => first_with_suffix(keys@, suffix@) is None,
        },
{
    proof { lemma_first_with_suffix(keys@, suffix@); }
    let mut i: usize = 0;
    while i < keys.len()
        invariant
            i <= keys@.len(),
            forall|j: int| 0 <= j < i ==> !spec_ends_with(#[trigger] keys@[j]@, suffix@),
            first_with_suffix(keys@, suffix@) matches Some(f) ==> (f >= i && 0 <= f < keys@.len()
                && spec_ends_with(keys@[f]@, suffix@)
                && forall|j: int| 0 <= j < f ==> !spec_ends_with(#[trigger] keys@[j]@, suffix@)),
            first_with_suffix(keys@, suffix@) is None ==>
                forall|j: int| 0 <= j < keys@.len() ==> !spec_ends_with(#[trigger] keys@[j]@, suffix@),
        decreases keys@.len() - i,
    {
        if ends_with(keys[i].as_str(), suffix) {
            return Some(i);
        }
        i = i + 1;
    }
    None
}

/// The first of three choices that exists.
pub open spec fn or3(a: Option<int>, b: Option<int>, c: Option<int>) -> Option<int> {
    if a is Some { a } else if b is Some { b } else { c }
}

pub open spec fn thumb_suffix() -> Seq<char> { "/thumb.webp"@ }
pub open spec fn medium_suffix() -> Seq<char> { "/medium.webp"@ }
pub open spec fn full_suffix() -> Seq<char> { "/full.webp"@ }

/// The keys (by position) of the thumb, medium and full variants of one
/// picture. A missing variant falls back to another one: thumb to medium then
/// full, medium to full then thumb, full to medium then thumb. `None` when no
/// variant is present.
pub fn select_variant_keys(keys: &Vec<String>) -> (res: Option<(usize, usize, usize)>)
    ensures
        ({
            let t = first_with_suffix(keys@, thumb_suffix());
            let m = first_with_suffix(keys@, medium_suffix());
            let f = first_with_suffix(keys@, full_suffix());
            &&& res is Some <==> (t is Some || m is Some || f is Some)
            &&& res matches Some((a, b, c)) ==> {
                &&& Some(a as int) == or3(t, m, f)
                &&& Some(b as int) == or3(m, f, t)
                &&& Some(c as int) == or3(f, m, t)
            }
        }),
{
    let t = find_suffix(keys, "/thumb.webp");
    let m = find_suffix(keys, "/medium.webp");
    let f = find_suffix(keys, "/full.webp");
    let thumb = match t { Some(i) => Some(i), None => match m { Some(i) => Some(i), None => f } };
    let medium = match m { Some(i) => Some(i), None => match f { Some(i) => Some(i), None => t } };
    let full = match f { Some(i) => Some(i), None => match m { Some(i) => Some(i), None => t } };
    match (thumb, medium, full) {
        (Some(a), Some(b), Some(c)) => Some((a, b, c)),
        _ => None,
    }
}

// ── Outcomes of storage lookups ───────────────────────────────

/// The error of a product that does not exist.
pub open spec fn product_not_found(product_id: u128) -> ErrorView {
    ErrorView::NotFound("product "@ + uuid_text(product_id) + " not found"@)
}

/// A product must exist.
pub fn require_product_exists(product_id: u128, exists: bool) -> (res: Result<(), ServiceError>)
    ensures
        res is Ok <==> exists,
        res matches Err(e) ==> e@ == product_not_found(product_id),
{
    if !exists {
        let mut m = String::from_str("product ");
        m.append(uuid_to_string(product_id).as_str());
        m.append(" not found");
        return Err(ServiceError::NotFound(m));
    }
    Ok(())
}

/// The error of a picture index with no stored keys.
pub open spec fn image_not_found(product_id: u128, image_id: usize) -> ErrorView {
    ErrorView::NotFound("image "@ + decimal(image_id as nat) + " not found for product "@
        + uuid_text(product_id))
}

/// A picture exists when at least one key is stored under its directory.
pub fn require_image_keys(product_id: u128, image_id: usize, key_count: usize) -> (res: Result<(), ServiceError>)
    ensures
        res is Ok <==> key_count > 0,
        res matches Err(e) ==> e@ == image_not_found(product_id, image_id),
{
    if key_count == 0 {
        let mut m = String::from_str("image ");
        push_decimal(&mut m, image_id as u64);
        m.append(" not found for product ");
        m.append(uuid_to_string(product_id).as_str());
        return Err(ServiceError::NotFound(m));
    }
    Ok(())
}

/// The error of a product without a preview.
pub open spec fn preview_not_found(product_id: u128) -> ErrorView {
    ErrorView::NotFound("preview for product "@ + uuid_text(product_id) + " not found"@)
}

/// A preview exists when at least one key is stored under its directory.
pub fn require_preview_keys(product_id: u128, key_count: usize) -> (res: Result<(), ServiceError>)
    ensures
        res is Ok <==> key_count > 0,
        res matches Err(e) ==> e@ == preview_not_found(product_id),
{
    if key_count == 0 {
        let mut m = String::from_str("preview for product ");
        m.append(uuid_to_string(product_id).as_str());
        m.append(" not found");
        return Err(ServiceError::NotFound(m));
    }
    Ok(())
}

/// The keys of the three variants, or `NotFound` when none is stored.
pub fn variant_keys_or_not_found(keys: &Vec<String>) -> (res: Result<(usize, usize, usize), ServiceError>)
    ensures
        match res {
            Ok(t) => select_variant_keys_spec(keys@) == Some(t),
            Err(e) => select_variant_keys_spec(keys@) is None
                && e@ == ErrorView::NotFound("image variants not found"@),
        },
{
    match select_variant_keys(keys) {
        Some(t) => Ok(t),
        None => Err(ServiceError::NotFound(String::from_str("image variants not found"))),
    }
}

/// When all three variants are stored, each is served from its own key.
pub proof fn lemma_own_variant_when_present(keys: Seq<String>)
    requires
        first_with_suffix(keys, thumb_suffix()) is Some,
        first_with_suffix(keys, medium_suffix()) is Some,
        first_with_suffix(keys, full_suffix()) is Some,
    ensures
        select_variant_keys_spec(keys) == Some((
            first_with_suffix(keys, thumb_suffix())->0 as usize,
            first_with_suffix(keys, medium_suffix())->0 as usize,
            first_with_suffix(keys, full_suffix())->0 as usize,
        )),
{
}

/// What `select_variant_keys` answers.
pub open spec fn select_variant_keys_spec(keys: Seq<String>) -> Option<(usize, usize, usize)> {
    let t = first_with_suffix(keys, thumb_suffix());
    let m = first_with_suffix(keys, medium_suffix());
    let f = first_with_suffix(keys, full_suffix());
    if t is Some || m is Some || f is Some {
        Some((or3(t, m, f)->0 as usize, or3(m, f, t)->0 as usize, or3(f, m, t)->0 as usize))
    } else {
        None
    }
}

} // verus!
