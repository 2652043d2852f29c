//! Product identifiers (UUIDs, held as their 128-bit value) and their text.

use vstd::prelude::*;
use vstd::string::*;

use crate::digest::hex_digit;
use crate::text::cat2;

verus! {

/// 16 to the power `e`.
pub open spec fn pow16(e: nat) -> nat
    decreases e,
{
    if e == 0 { 1 } else { 16 * pow16((e - 1) as nat) }
}

/// The `i`-th hex digit (0 = most significant) of a 128-bit value.
pub open spec fn uuid_nibble(id: u128, i: int) -> char {
    hex_digit(((id as nat) / pow16((31 - i) as nat)) % 16)
}

/// The 32 hex digits of a 128-bit value, most significant first.
pub open spec fn uuid_hex(id: u128) -> Seq<char> {
    Seq::new(32, |i: int| uuid_nibble(id, i))
}

/// The hyphenated lowercase form `xxxxxxxx-xxxx-xxxx-xxxx-xxxxxxxxxxxx`.
pub open spec fn uuid_text(id: u128) -> Seq<char> {
    let h = uuid_hex(id);
    h.subrange(0, 8) + seq!['-'] + h.subrange(8, 12) + seq!['-'] + h.subrange(12, 16)
        + seq!['-'] + h.subrange(16, 20) + seq!['-'] + h.subrange(20, 32)
}

/// Calls `uuid::Uuid::from_u128(id).to_string()`. Claims what the crate
/// documents for `Display`: the hyphenated lowercase form of the value's
/// big-endian bytes, which `Uuid::parse_str` reads back as the same value.
#[verifier::external_body]
pub(crate) fn uuid_to_string(id: u128) -> (s: String)
    ensures
        s@ == uuid_text(id),
        uuid_parse(s@) is Ok && uuid_parse(s@)->Ok_0 == id,
{
    uuid::Uuid::from_u128(id).to_string()
}

/// The name for what `uuid::Uuid::parse_str` gives for a text: the value
/// (`as_u128`) or the text of its error.
pub uninterp spec fn uuid_parse(s: Seq<char>) -> Result<u128, Seq<char>>;

/// Calls `uuid::Uuid::parse_str(s)`. Claims that the outcome, taken as the
/// 128-bit value or the error's text, is `uuid_parse(s)`, and, as the crate
/// documents, that the hyphenated lowercase form of a value parses back to
/// that value; which other texts are accepted is not spelled out here.
#[verifier::external_body]
pub(crate) fn parse_uuid(s: &str) -> (res: Result<u128, String>)
    ensures
        match res {
            Ok(v) => uuid_parse(s@) == Ok::<u128, Seq<char>>(v),
            Err(e) => uuid_parse(s@) == Err::<u128, Seq<char>>(e@),
        },
        forall|v: u128| s@ == #[trigger] uuid_text(v) ==> (res is Ok && res->Ok_0 == v),
{
    match uuid::Uuid::parse_str(s) {
        Ok(u) => Ok(u.as_u128()),
        Err(e) => Err(e.to_string()),
    }
}

/// The text form of a product id; it reads back as the same id.
pub fn product_id_text(id: u128) -> (s: String)
    ensures
        s@ == uuid_text(id),
        uuid_parse(s@) == Ok::<u128, Seq<char>>(id),
{
    uuid_to_string(id)
}

/// Reads a product id from its text; a text that is not a UUID is refused
/// with `invalid product id: ` and the reason.
pub fn parse_product_id(s: &str) -> (res: Result<u128, String>)
    ensures
        res matches Ok(v) ==> uuid_parse(s@) == Ok::<u128, Seq<char>>(v),
        res matches Err(m) ==> uuid_parse(s@) is Err && m@ == "invalid product id: "@ + uuid_parse(s@)->Err_0,
        forall|v: u128| s@ == #[trigger] uuid_text(v) ==> res == Ok::<u128, String>(v),
{
    match parse_uuid(s) {
        Ok(v) => Ok(v),
        Err(e) => Err(cat2("invalid product id: ", e.as_str())),
    }
}

} // verus!
