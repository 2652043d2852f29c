//! Validation of product requests: common details, type-specific details,
//! sizes against the category's size group, and the request-level fields.

use vstd::prelude::*;
use vstd::string::*;

use crate::domain::{
    CreateProductDetailsRequest, CreateProductRequest, Decimal, ProductType, SizeGroup, SizeInput,
    TypeDetailsInput, UpdateProductRequest,
};
use crate::error::{err_of, first_err, outcome, ErrorView, ServiceError};
use crate::text::{blank, cat2, cat4, cat5, is_blank};
use crate::values::{
    currency_error, negative_price_error, not_positive_error, product_name_outcome, valid_currency,
    year_error, CurrencyCode, PositiveMeasurement, ProductName, PurchasePrice, YearOfRelease,
};

verus! {

// ── Measurements ──────────────────────────────────────────────

/// The outcome of checking an optional measurement: absent or positive.
pub open spec fn measure_outcome(v: Option<Decimal>, field: Seq<char>) -> Result<(), ErrorView> {
    match v {
        Some(d) => if d.spec_is_positive() { Ok(()) } else { Err(not_positive_error(field)) },
        None => Ok(()),
    }
}

fn check_measure(v: &Option<Decimal>, field: &str) -> (res: Result<(), ServiceError>)
    ensures
        outcome(res) == measure_outcome(*v, field@),
{
    if let Some(d) = v {
        PositiveMeasurement::parse(*d, field)?;
    }
    Ok(())
}

// ── Type details ──────────────────────────────────────────────

/// The error of details whose product type differs from the category's.
pub open spec fn type_mismatch_error(got: ProductType, expected: ProductType) -> ErrorView {
    ErrorView::BadRequest("type_details product_type '"@ + got.spec_debug_name()
        + "' does not match category product_type '"@ + expected.spec_debug_name() + "'"@)
}

/// The details must describe the product type that the category holds.
pub fn validate_type_matches_category(input: &TypeDetailsInput, expected: &ProductType) -> (res: Result<(), ServiceError>)
    ensures
        res is Ok <==> input.spec_product_type() == *expected,
        res matches Err(e) ==> e@ == type_mismatch_error(input.spec_product_type(), *expected),
{
    let got = input.product_type();
    if got != *expected {
        let a = cat5(
            "type_details product_type '",
            got.debug_name(),
            "' does not match category product_type '",
            expected.debug_name(),
            "'",
        );
        return Err(ServiceError::BadRequest(a));
    }
    Ok(())
}

/// The outcome of checking type-specific details: the footwear insole length
/// and the bag width, height and depth, when given, must be positive (checked
/// in that order).
pub open spec fn type_details_outcome(input: TypeDetailsInput) -> Result<(), ErrorView> {
    match input {
        TypeDetailsInput::Footwear { insole_length_cm, .. } =>
            measure_outcome(insole_length_cm, "insole_length_cm"@),
        TypeDetailsInput::Bags { width_cm, height_cm, depth_cm, .. } =>
            first_err(measure_outcome(width_cm, "bag width_cm"@),
                first_err(measure_outcome(height_cm, "bag height_cm"@),
                    measure_outcome(depth_cm, "bag depth_cm"@))),
        _ => Ok(()),
    }
}

pub fn validate_type_details(input: &TypeDetailsInput) -> (res: Result<(), ServiceError>)
    ensures
        outcome(res) == type_details_outcome(*input),
{
    match input {
        TypeDetailsInput::Clothing { .. } => {},
        TypeDetailsInput::Footwear { insole_length_cm, .. } => {
            check_measure(insole_length_cm, "insole_length_cm")?;
        },
        TypeDetailsInput::Bags { width_cm, height_cm, depth_cm, .. } => {
            check_measure(width_cm, "bag width_cm")?;
            check_measure(height_cm, "bag height_cm")?;
            check_measure(depth_cm, "bag depth_cm")?;
        },
        TypeDetailsInput::Jewelry { .. } | TypeDetailsInput::Accessories => {},
    }
    Ok(())
}

// ── Common details ────────────────────────────────────────────

/// The error of a collaboration without a name.
pub open spec fn collab_error() -> ErrorView {
    ErrorView::BadRequest("collab_name is required when is_collab is true"@)
}

/// The outcome of checking the year of release, when given.
pub open spec fn year_outcome(year: Option<i32>) -> Result<(), ErrorView> {
    match year {
        Some(y) => if YearOfRelease::spec_valid(y) { Ok(()) } else { Err(year_error()) },
        None => Ok(()),
    }
}

/// The outcome of the collaboration rule: a collaboration needs a non-blank name.
pub open spec fn collab_outcome(is_collab: Option<bool>, collab_name: Option<Seq<char>>) -> Result<(), ErrorView> {
    if is_collab == Some(true) {
        match collab_name {
            Some(n) => if is_blank(n) { Err(collab_error()) } else { Ok(()) },
            None => Err(collab_error()),
        }
    } else {
        Ok(())
    }
}

pub open spec fn opt_view(s: Option<String>) -> Option<Seq<char>> {
    match s {
        Some(v) => Some(v@),
        None => None,
    }
}

/// The outcome of checking the common details: the year first, then the collaboration.
pub open spec fn common_details_outcome(input: CreateProductDetailsRequest) -> Result<(), ErrorView> {
    first_err(year_outcome(input.year_of_release),
        collab_outcome(input.is_collab, opt_view(input.collab_name)))
}

pub fn validate_common_details(input: &CreateProductDetailsRequest) -> (res: Result<(), ServiceError>)
    ensures
        outcome(res) == common_details_outcome(*input),
{
    if let Some(year) = input.year_of_release {
        YearOfRelease::parse(year)?;
    }
    let collab = match input.is_collab {
        Some(b) => b,
        None => false,
    };
    if collab {
        let named = match &input.collab_name {
            Some(name) => !blank(name.as_str()),
            None => false,
        };
        if !named {
            return Err(ServiceError::BadRequest(String::from_str("collab_name is required when is_collab is true")));
        }
    }
    Ok(())
}

// ── Request-level fields ──────────────────────────────────────

pub open spec fn price_outcome(price: Option<Decimal>) -> Result<(), ErrorView> {
    match price {
        Some(p) => if p.spec_is_non_negative() { Ok(()) } else { Err(negative_price_error()) },
        None => Ok(()),
    }
}

pub open spec fn currency_outcome(currency: Option<Seq<char>>) -> Result<(), ErrorView> {
    match currency {
        Some(c) => if valid_currency(c) { Ok(()) } else { Err(currency_error()) },
        None => Ok(()),
    }
}

/// The outcome of checking a create request: name, then price, then currency.
pub open spec fn create_product_outcome(req: CreateProductRequest) -> Result<(), ErrorView> {
    first_err(product_name_outcome(req.name@),
        first_err(price_outcome(req.purchase_price), currency_outcome(opt_view(req.currency))))
}

/// The outcome of checking an update request: the name, price and currency that are given.
pub open spec fn update_product_outcome(req: UpdateProductRequest) -> Result<(), ErrorView> {
    first_err(
        match req.name { Some(n) => product_name_outcome(n@), None => Ok(()) },
        first_err(price_outcome(req.purchase_price), currency_outcome(opt_view(req.currency))))
}

fn check_price_and_currency(price: &Option<Decimal>, currency: &Option<String>) -> (res: Result<(), ServiceError>)
    ensures
        outcome(res) == first_err(price_outcome(*price), currency_outcome(opt_view(*currency))),
{
    if let Some(p) = price {
        PurchasePrice::parse(*p)?;
    }
    if let Some(c) = currency {
        CurrencyCode::parse(c.as_str())?;
    }
    Ok(())
}

pub fn validate_create_product(req: &CreateProductRequest) -> (res: Result<(), ServiceError>)
    ensures
        outcome(res) == create_product_outcome(*req),
{
    ProductName::parse(req.name.as_str())?;
    check_price_and_currency(&req.purchase_price, &req.currency)
}

pub fn validate_update_product(req: &UpdateProductRequest) -> (res: Result<(), ServiceError>)
    ensures
        outcome(res) == update_product_outcome(*req),
{
    if let Some(name) = &req.name {
        ProductName::parse(name.as_str())?;
    }
    check_price_and_currency(&req.purchase_price, &req.currency)
}

// ── Sizes ─────────────────────────────────────────────────────

/// The fields of a size, in the order in which they are checked.
pub enum SizeField {
    Value,
    Value2,
    System,
    Measurement,
}

/// Whether a size group requires a field, forbids it, or leaves it free.
pub enum SizeRule {
    Required,
    Forbidden,
    Free,
}

/// The size rules of each group.
pub open spec fn size_rule(group: SizeGroup, field: SizeField) -> SizeRule {
    match group {
        SizeGroup::Letter => match field {
            SizeField::Value => SizeRule::Required,
            _ => SizeRule::Forbidden,
        },
        SizeGroup::LetterOrNumeric | SizeGroup::Shoe | SizeGroup::Ring => match field {
            SizeField::Value => SizeRule::Required,
            SizeField::System => SizeRule::Free,
            _ => SizeRule::Forbidden,
        },
        SizeGroup::WaistLength => match field {
            SizeField::Value => SizeRule::Required,
            SizeField::Value2 => SizeRule::Free,
            _ => SizeRule::Forbidden,
        },
        SizeGroup::MeasurementCm => match field {
            SizeField::Measurement => SizeRule::Required,
            _ => SizeRule::Forbidden,
        },
        SizeGroup::Hat => match field {
            SizeField::Value2 | SizeField::System => SizeRule::Forbidden,
            _ => SizeRule::Free,
        },
        SizeGroup::Dimensions | SizeGroup::OneSize => SizeRule::Forbidden,
    }
}

pub open spec fn size_field_name(field: SizeField) -> Seq<char> {
    match field {
        SizeField::Value => "size_value"@,
        SizeField::Value2 => "size_value2"@,
        SizeField::System => "size_system"@,
        SizeField::Measurement => "measurement_cm"@,
    }
}

pub open spec fn size_field_present(input: SizeInput, field: SizeField) -> bool {
    match field {
        SizeField::Value => input.size_value is Some,
        SizeField::Value2 => input.size_value2 is Some,
        SizeField::System => input.size_system is Some,
        SizeField::Measurement => input.measurement_cm is Some,
    }
}

/// The error of a missing required field.
pub open spec fn required_error(name: Seq<char>, group: SizeGroup) -> ErrorView {
    ErrorView::BadRequest(name + " is required for size group '"@ + group.spec_debug_name() + "'"@)
}

/// The error of a field that the group does not allow.
pub open spec fn forbidden_error(name: Seq<char>, group: SizeGroup) -> ErrorView {
    ErrorView::BadRequest(name + " is not applicable for size group '"@ + group.spec_debug_name() + "'"@)
}

/// The outcome of checking one field against its group's rule.
pub open spec fn size_field_outcome(input: SizeInput, group: SizeGroup, field: SizeField) -> Result<(), ErrorView> {
    match size_rule(group, field) {
        SizeRule::Required => if size_field_present(input, field) { Ok(()) } else {
            Err(required_error(size_field_name(field), group))
        },
        SizeRule::Forbidden => if size_field_present(input, field) {
            Err(forbidden_error(size_field_name(field), group))
        } else { Ok(()) },
        SizeRule::Free => Ok(()),
    }
}

/// The outcome of checking a size: the fields in order value, value2, system,
/// measurement against the group's rules, then a given measurement must be positive.
pub open spec fn size_outcome(input: SizeInput, group: SizeGroup) -> Result<(), ErrorView> {
    first_err(size_field_outcome(input, group, SizeField::Value),
    first_err(size_field_outcome(input, group, SizeField::Value2),
    first_err(size_field_outcome(input, group, SizeField::System),
    first_err(size_field_outcome(input, group, SizeField::Measurement),
        measure_outcome(input.measurement_cm, "measurement_cm"@)))))
}

/// A field that the size group requires must be present.
pub fn require_field<T>(field: &Option<T>, name: &str, group: &SizeGroup) -> (res: Result<(), ServiceError>)
    ensures
        res is Ok <==> field is Some,
        res matches Err(e) ==> e@ == required_error(name@, *group),
{
    if field.is_none() {
        return Err(ServiceError::BadRequest(cat4(name, " is required for size group '", group.debug_name(), "'")));
    }
    Ok(())
}

/// A field that the size group does not allow must be absent.
pub fn forbid_field<T>(field: &Option<T>, name: &str, group: &SizeGroup) -> (res: Result<(), ServiceError>)
    ensures
        res is Ok <==> field is None,
        res matches Err(e) ==> e@ == forbidden_error(name@, *group),
{
    if field.is_some() {
        return Err(ServiceError::BadRequest(cat4(name, " is not applicable for size group '", group.debug_name(), "'")));
    }
    Ok(())
}

fn require_measurement(field: &Option<Decimal>, group: &SizeGroup) -> (res: Result<(), ServiceError>)
    ensures
        res is Ok <==> field is Some,
        res matches Err(e) ==> e@ == required_error("measurement_cm"@, *group),
{
    require_field(field, "measurement_cm", group)
}

fn forbid_measurement(field: &Option<Decimal>, group: &SizeGroup) -> (res: Result<(), ServiceError>)
    ensures
        res is Ok <==> field is None,
        res matches Err(e) ==> e@ == forbidden_error("measurement_cm"@, *group),
{
    forbid_field(field, "measurement_cm", group)
}

/// Checks a size against the size group of the product's category.
pub fn validate_size_input(input: &SizeInput, size_group: &SizeGroup) -> (res: Result<(), ServiceError>)
    ensures
        outcome(res) == size_outcome(*input, *size_group),
{
    match size_group {
        SizeGroup::Letter => {
            require_field(&input.size_value, "size_value", size_group)?;
            forbid_field(&input.size_value2, "size_value2", size_group)?;
            forbid_field(&input.size_system, "size_system", size_group)?;
            forbid_measurement(&input.measurement_cm, size_group)?;
        },
        SizeGroup::LetterOrNumeric => {
            require_field(&input.size_value, "size_value", size_group)?;
            forbid_field(&input.size_value2, "size_value2", size_group)?;
            forbid_measurement(&input.measurement_cm, size_group)?;
        },
        SizeGroup::WaistLength => {
            require_field(&input.size_value, "size_value", size_group)?;
            forbid_field(&input.size_system, "size_system", size_group)?;
            forbid_measurement(&input.measurement_cm, size_group)?;
        },
        SizeGroup::Shoe | SizeGroup::Ring => {
            require_field(&input.size_value, "size_value", size_group)?;
            forbid_field(&input.size_value2, "size_value2", size_group)?;
            forbid_measurement(&input.measurement_cm, size_group)?;
        },
        SizeGroup::MeasurementCm => {
            forbid_field(&input.size_value, "size_value", size_group)?;
            forbid_field(&input.size_value2, "size_value2", size_group)?;
            forbid_field(&input.size_system, "size_system", size_group)?;
            require_measurement(&input.measurement_cm, size_group)?;
        },
        SizeGroup::Hat => {
            forbid_field(&input.size_value2, "size_value2", size_group)?;
            forbid_field(&input.size_system, "size_system", size_group)?;
        },
        SizeGroup::Dimensions | SizeGroup::OneSize => {
            forbid_field(&input.size_value, "size_value", size_group)?;
            forbid_field(&input.size_value2, "size_value2", size_group)?;
            forbid_field(&input.size_system, "size_system", size_group)?;
            forbid_measurement(&input.measurement_cm, size_group)?;
        },
    }
    check_measure(&input.measurement_cm, "measurement_cm")
}

/// A measurement, when given, is positive.
pub open spec fn positive_or_absent(m: Option<Decimal>) -> bool {
    m matches Some(d) ==> d.spec_is_positive()
}

/// Which sizes each size group accepts, field by field: a letter size is a
/// value alone; letter-or-numeric, shoe and ring sizes are a value with any
/// size system; a waist/length size is a value with an optional second value;
/// a measured size is a positive measurement alone; a hat size has no second
/// value nor system; dimension and one-size groups take no size at all.
pub proof fn lemma_size_acceptance(input: SizeInput, group: SizeGroup)
    ensures
        size_outcome(input, group) is Ok <==> (match group {
            SizeGroup::Letter => input.size_value is Some && input.size_value2 is None
                && input.size_system is None && input.measurement_cm is None,
            SizeGroup::LetterOrNumeric | SizeGroup::Shoe | SizeGroup::Ring => input.size_value is Some
                && input.size_value2 is None && input.measurement_cm is None,
            SizeGroup::WaistLength => input.size_value is Some && input.size_system is None
                && input.measurement_cm is None,
            SizeGroup::MeasurementCm => input.size_value is None && input.size_value2 is None
                && input.size_system is None && input.measurement_cm is Some
                && positive_or_absent(input.measurement_cm),
            SizeGroup::Hat => input.size_value2 is None && input.size_system is None
                && positive_or_absent(input.measurement_cm),
            SizeGroup::Dimensions | SizeGroup::OneSize => input.size_value is None
                && input.size_value2 is None && input.size_system is None && input.measurement_cm is None,
        }),
{
}

/// For the letter-or-numeric, shoe and ring groups the size system is free:
/// changing it never changes the outcome.
pub proof fn lemma_size_system_free(input: SizeInput, system: Option<String>, group: SizeGroup)
    requires
        group is LetterOrNumeric || group is Shoe || group is Ring,
    ensures
        size_outcome(SizeInput { size_system: system, ..input }, group) == size_outcome(input, group),
{
}

/// A size without a value in a group that needs one is refused for exactly
/// that reason, whatever else it carries.
pub proof fn lemma_size_value_required(input: SizeInput, group: SizeGroup)
    requires
        input.size_value is None,
        group is Letter || group is LetterOrNumeric || group is WaistLength || group is Shoe || group is Ring,
    ensures
        size_outcome(input, group) == Err::<(), ErrorView>(required_error("size_value"@, group)),
{
}

/// Which type details are accepted: footwear with a positive insole length
/// (when given), bags with positive width, height and depth (each when
/// given); clothing, jewelry and accessories always.
pub proof fn lemma_type_details_acceptance(input: TypeDetailsInput)
    ensures
        type_details_outcome(input) is Ok <==> (match input {
            TypeDetailsInput::Footwear { insole_length_cm, .. } => positive_or_absent(insole_length_cm),
            TypeDetailsInput::Bags { width_cm, height_cm, depth_cm, .. } => positive_or_absent(width_cm)
                && positive_or_absent(height_cm) && positive_or_absent(depth_cm),
            _ => true,
        }),
{
}

/// Which common details are accepted: a year of release, when given, within
/// 1900..=2100, and a collaboration only with a name that is not blank.
pub proof fn lemma_common_details_acceptance(input: CreateProductDetailsRequest)
    ensures
        common_details_outcome(input) is Ok <==> {
            &&& (input.year_of_release matches Some(y) ==> 1900 <= y <= 2100)
            &&& (input.is_collab == Some(true) ==> (input.collab_name matches Some(n) && !is_blank(n@)))
        },
{
}

/// Which create requests are accepted: a name that is not blank and has at
/// most 255 characters, a price (when given) that is not negative, and a
/// currency (when given) of three uppercase letters.
pub proof fn lemma_create_product_acceptance(req: CreateProductRequest)
    ensures
        create_product_outcome(req) is Ok <==> {
            &&& !is_blank(req.name@) && req.name@.len() <= 255
            &&& (req.purchase_price matches Some(p) ==> p.spec_is_non_negative())
            &&& (req.currency matches Some(c) ==> valid_currency(c@))
        },
{
}

/// Which update requests are accepted: only the fields given are checked,
/// by the same rules as at creation.
pub proof fn lemma_update_product_acceptance(req: UpdateProductRequest)
    ensures
        update_product_outcome(req) is Ok <==> {
            &&& (req.name matches Some(n) ==> !is_blank(n@) && n@.len() <= 255)
            &&& (req.purchase_price matches Some(p) ==> p.spec_is_non_negative())
            &&& (req.currency matches Some(c) ==> valid_currency(c@))
        },
{
}

} // verus!
