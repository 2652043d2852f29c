//! Value objects: single-field rules that request validation builds on.

use vstd::prelude::*;
use vstd::string::*;

use crate::domain::Decimal;
use crate::error::{err_of, ErrorView, ServiceError};
use crate::text::{blank, cat2, is_blank};

verus! {

/// Earliest accepted year of release.
pub const MIN_YEAR_OF_RELEASE: i32 = 1900;

/// Latest accepted year of release.
pub const MAX_YEAR_OF_RELEASE: i32 = 2100;

/// Longest accepted product name, in characters.
pub const MAX_PRODUCT_NAME_CHARS: usize = 255;

/// The error of a measurement that is not strictly positive.
pub open spec fn not_positive_error(field: Seq<char>) -> ErrorView {
    ErrorView::BadRequest(field + " must be positive"@)
}

/// A measurement in centimetres that is strictly positive.
pub struct PositiveMeasurement {
    pub value: Decimal,
}

impl PositiveMeasurement {
    /// Accepts `value` when it is greater than zero; `field` names it in the error.
    pub fn parse(value: Decimal, field: &str) -> (res: Result<PositiveMeasurement, ServiceError>)
        ensures
            res is Ok <==> value.spec_is_positive(),
            res matches Ok(m) ==> m.value == value,
            res matches Err(e) ==> e@ == not_positive_error(field@),
    {
        if value.is_positive() {
            Ok(PositiveMeasurement { value })
        } else {
            Err(ServiceError::BadRequest(cat2(field, " must be positive")))
        }
    }
}

/// The error of a year outside the accepted range.
pub open spec fn year_error() -> ErrorView {
    ErrorView::BadRequest("year_of_release must be between 1900 and 2100"@)
}

/// A year of release within `MIN_YEAR_OF_RELEASE..=MAX_YEAR_OF_RELEASE`.
pub struct YearOfRelease {
    pub year: i32,
}

impl YearOfRelease {
    pub open spec fn spec_valid(year: i32) -> bool {
        MIN_YEAR_OF_RELEASE <= year <= MAX_YEAR_OF_RELEASE
    }

    pub fn parse(year: i32) -> (res: Result<YearOfRelease, ServiceError>)
        ensures
            res is Ok <==> Self::spec_valid(year),
            res matches Ok(y) ==> y.year == year,
            res matches Err(e) ==> e@ == year_error(),
    {
        if MIN_YEAR_OF_RELEASE <= year && year <= MAX_YEAR_OF_RELEASE {
            Ok(YearOfRelease { year })
        } else {
            Err(ServiceError::BadRequest(String::from_str("year_of_release must be between 1900 and 2100")))
        }
    }
}

/// The error of a blank product name.
pub open spec fn empty_name_error() -> ErrorView {
    ErrorView::BadRequest("product name must not be empty"@)
}

/// The error of an over-long product name.
pub open spec fn long_name_error() -> ErrorView {
    ErrorView::BadRequest("product name must be at most 255 characters"@)
}

/// The outcome of checking a product name.
pub open spec fn product_name_outcome(name: Seq<char>) -> Result<(), ErrorView> {
    if is_blank(name) {
        Err(empty_name_error())
    } else if name.len() > MAX_PRODUCT_NAME_CHARS {
        Err(long_name_error())
    } else {
        Ok(())
    }
}

/// A product name: not blank and at most `MAX_PRODUCT_NAME_CHARS` characters.
pub struct ProductName;

impl ProductName {
    pub fn parse(name: &str) -> (res: Result<ProductName, ServiceError>)
        ensures
            err_of(res) == product_name_outcome(name@),
    {
        if blank(name) {
            Err(ServiceError::BadRequest(String::from_str("product name must not be empty")))
        } else if name.unicode_len() > MAX_PRODUCT_NAME_CHARS {
            Err(ServiceError::BadRequest(String::from_str("product name must be at most 255 characters")))
        } else {
            Ok(ProductName)
        }
    }
}

/// The error of a negative purchase price.
pub open spec fn negative_price_error() -> ErrorView {
    ErrorView::BadRequest("purchase_price must not be negative"@)
}

/// A purchase price: zero or more.
pub struct PurchasePrice {
    pub value: Decimal,
}

impl PurchasePrice {
    pub fn parse(value: Decimal) -> (res: Result<PurchasePrice, ServiceError>)
        ensures
            res is Ok <==> value.spec_is_non_negative(),
            res matches Ok(p) ==> p.value == value,
            res matches Err(e) ==> e@ == negative_price_error(),
    {
        if value.is_non_negative() {
            Ok(PurchasePrice { value })
        } else {
            Err(ServiceError::BadRequest(String::from_str("purchase_price must not be negative")))
        }
    }
}

/// The error of a malformed currency code.
pub open spec fn currency_error() -> ErrorView {
    ErrorView::BadRequest("currency must be a 3-letter uppercase ISO 4217 code"@)
}

/// Whether `code` is three uppercase ASCII letters.
pub open spec fn valid_currency(code: Seq<char>) -> bool {
    code.len() == 3 && forall|i: int| 0 <= i < 3 ==> 'A' <= #[trigger] code[i] <= 'Z'
}

/// A currency code: three uppercase ASCII letters, as ISO 4217 codes are.
pub struct CurrencyCode;

impl CurrencyCode {
    pub fn parse(code: &str) -> (res: Result<CurrencyCode, ServiceError>)
        ensures
            res is Ok <==> valid_currency(code@),
            res matches Err(e) ==> e@ == currency_error(),
    {
        let n = code.unicode_len();
        let mut ok = n == 3;
        let mut i: usize = 0;
        while ok && i < n
            invariant
                n == code@.len(),
                i <= n,
                ok ==> n == 3,
                ok ==> forall|j: int| 0 <= j < i ==> 'A' <= #[trigger] code@[j] <= 'Z',
                !ok ==> !valid_currency(code@),
            decreases n - i,
        {
            let c = code.get_char(i);
            if !('A' <= c && c <= 'Z') {
                ok = false;
            }
            i = i + 1;
        }
        if ok {
            Ok(CurrencyCode)
        } else {
            Err(ServiceError::BadRequest(String::from_str("currency must be a 3-letter uppercase ISO 4217 code")))
        }
    }
}

} // verus!
