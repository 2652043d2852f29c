//! Decisions of the catalogue services that follow a repository lookup:
//! which answer a missing or deleted entity gives, which categories a
//! product may be filed under, and the checks that run against a category.

use vstd::prelude::*;
use vstd::string::*;

use crate::domain::{Category, CreateProductRequest, UpdateProductDetailsRequest, UpdateProductRequest};
use crate::error::{err_of, first_err, outcome, ErrorView, ServiceError};
use crate::text::{decimal, push_decimal, push_signed_decimal, signed_decimal};
use crate::validate::{
    common_details_outcome, size_outcome, type_details_outcome, type_mismatch_error,
    validate_common_details, validate_size_input, validate_type_details,
    validate_type_matches_category,
};

verus! {

/// `<entity> id=<id> not found`
pub open spec fn entity_not_found(entity: Seq<char>, id: i32) -> ErrorView {
    ErrorView::NotFound(entity + " id="@ + signed_decimal(id as int) + " not found"@)
}

fn entity_not_found_error(entity: &str, id: i32) -> (e: ServiceError)
    ensures
        e@ == entity_not_found(entity@, id),
{
    let mut m = String::from_str(entity);
    m.append(" id=");
    push_signed_decimal(&mut m, id as i64);
    m.append(" not found");
    ServiceError::NotFound(m)
}

/// The entity that a lookup by id found, or `NotFound` naming it.
pub fn found_or_not_found<T>(found: Option<T>, entity: &str, id: i32) -> (res: Result<T, ServiceError>)
    ensures
        res is Ok <==> found is Some,
        res matches Ok(v) ==> found == Some(v),
        res matches Err(e) ==> e@ == entity_not_found(entity@, id),
{
    match found {
        Some(v) => Ok(v),
        None => Err(entity_not_found_error(entity, id)),
    }
}

/// A delete that removed nothing is `NotFound`.
pub fn deleted_or_not_found(deleted: bool, entity: &str, id: i32) -> (res: Result<(), ServiceError>)
    ensures
        res is Ok <==> deleted,
        res matches Err(e) ==> e@ == entity_not_found(entity@, id),
{
    if !deleted {
        return Err(entity_not_found_error(entity, id));
    }
    Ok(())
}

// ── Categories ────────────────────────────────────────────────

/// `category <id> not found`
pub open spec fn category_missing(category_id: i32) -> ErrorView {
    ErrorView::BadRequest("category "@ + signed_decimal(category_id as int) + " not found"@)
}

/// `category <id> is not a leaf category; select a specific subcategory`
pub open spec fn category_not_leaf(category_id: i32) -> ErrorView {
    ErrorView::BadRequest("category "@ + signed_decimal(category_id as int)
        + " is not a leaf category; select a specific subcategory"@)
}

/// The category a product refers to must exist.
pub fn require_category(category_id: i32, found: Option<Category>) -> (res: Result<Category, ServiceError>)
    ensures
        res is Ok <==> found is Some,
        res matches Ok(c) ==> found == Some(c),
        res matches Err(e) ==> e@ == category_missing(category_id),
{
    match found {
        Some(c) => Ok(c),
        None => {
            let mut m = String::from_str("category ");
            push_signed_decimal(&mut m, category_id as i64);
            m.append(" not found");
            Err(ServiceError::BadRequest(m))
        },
    }
}

/// Products are filed only under categories without children.
pub fn require_leaf_category(category_id: i32, has_children: bool) -> (res: Result<(), ServiceError>)
    ensures
        res is Ok <==> !has_children,
        res matches Err(e) ==> e@ == category_not_leaf(category_id),
{
    if has_children {
        let mut m = String::from_str("category ");
        push_signed_decimal(&mut m, category_id as i64);
        m.append(" is not a leaf category; select a specific subcategory");
        return Err(ServiceError::BadRequest(m));
    }
    Ok(())
}

/// `parent category id=<id> not found`
pub open spec fn parent_missing(parent_id: i32) -> ErrorView {
    ErrorView::BadRequest("parent category id="@ + signed_decimal(parent_id as int) + " not found"@)
}

/// The parent given for a category must exist.
pub fn require_parent_category(parent_id: i32, parent_exists: bool) -> (res: Result<(), ServiceError>)
    ensures
        res is Ok <==> parent_exists,
        res matches Err(e) ==> e@ == parent_missing(parent_id),
{
    if !parent_exists {
        let mut m = String::from_str("parent category id=");
        push_signed_decimal(&mut m, parent_id as i64);
        m.append(" not found");
        return Err(ServiceError::BadRequest(m));
    }
    Ok(())
}

/// A category cannot become its own parent.
pub fn check_not_own_parent(category_id: i32, parent_id: Option<i32>) -> (res: Result<(), ServiceError>)
    ensures
        res is Ok <==> parent_id != Some(category_id),
        res matches Err(e) ==> e@ == ErrorView::BadRequest("category cannot be its own parent"@),
{
    if let Some(pid) = parent_id {
        if pid == category_id {
            return Err(ServiceError::BadRequest(String::from_str("category cannot be its own parent")));
        }
    }
    Ok(())
}

/// A category with children cannot be deleted.
pub fn check_deletable_category(has_children: bool) -> (res: Result<(), ServiceError>)
    ensures
        res is Ok <==> !has_children,
        res matches Err(e) ==> e@ == ErrorView::Conflict("cannot delete category that has child categories"@),
{
    if has_children {
        return Err(ServiceError::Conflict(String::from_str("cannot delete category that has child categories")));
    }
    Ok(())
}

// ── Products ──────────────────────────────────────────────────

/// An optimistic-lock delete that matched no row is a stale version.
pub fn soft_delete_outcome(deleted: bool) -> (res: Result<(), ServiceError>)
    ensures
        res is Ok <==> deleted,
        res matches Err(e) ==> e@ == ErrorView::StaleVersion,
{
    if !deleted {
        return Err(ServiceError::StaleVersion);
    }
    Ok(())
}

/// The checks a new product's details undergo once its leaf category is
/// known, in order: common details, product type, type details, size.
pub open spec fn create_against_category_outcome(req: CreateProductRequest, category: Category) -> Result<(), ErrorView> {
    first_err(common_details_outcome(req.details),
    first_err(if req.details.type_details.spec_product_type() == category.product_type { Ok(()) } else {
        Err(type_mismatch_error(req.details.type_details.spec_product_type(), category.product_type))
    },
    first_err(type_details_outcome(req.details.type_details),
        size_outcome(req.details.size, category.size_group))))
}

pub fn validate_create_against_category(req: &CreateProductRequest, category: &Category) -> (res: Result<(), ServiceError>)
    ensures
        outcome(res) == create_against_category_outcome(*req, *category),
{
    validate_common_details(&req.details)?;
    validate_type_matches_category(&req.details.type_details, &category.product_type)?;
    validate_type_details(&req.details.type_details)?;
    validate_size_input(&req.details.size, &category.size_group)
}

/// An update needs its category looked up when it changes the type details
/// or the size.
pub open spec fn spec_update_needs_category(req: UpdateProductRequest) -> bool {
    match req.details {
        Some(d) => d.type_details is Some || d.size is Some,
        None => false,
    }
}

pub fn update_needs_category(req: &UpdateProductRequest) -> (b: bool)
    ensures
        b == spec_update_needs_category(*req),
{
    match &req.details {
        Some(d) => d.type_details.is_some() || d.size.is_some(),
        None => false,
    }
}

/// The category against which an update is checked: the new one when the
/// request moves the product, otherwise its current one.
pub fn update_category_id(requested: Option<i32>, current: i32) -> (id: i32)
    ensures
        id == match requested { Some(c) => c, None => current },
{
    match requested {
        Some(c) => c,
        None => current,
    }
}

/// The checks an update's details undergo against the category: with type
/// details, the product type, the type details and then a given size; with
/// only a size, the size.
pub open spec fn update_against_category_outcome(d: UpdateProductDetailsRequest, category: Category) -> Result<(), ErrorView> {
    match d.type_details {
        Some(td) => first_err(
            if td.spec_product_type() == category.product_type { Ok(()) } else {
                Err(type_mismatch_error(td.spec_product_type(), category.product_type))
            },
            first_err(type_details_outcome(td),
                match d.size { Some(s) => size_outcome(s, category.size_group), None => Ok(()) })),
        None => match d.size {
            Some(s) => size_outcome(s, category.size_group),
            None => Ok(()),
        },
    }
}

pub fn validate_update_against_category(details: &UpdateProductDetailsRequest, category: &Category) -> (res: Result<(), ServiceError>)
    ensures
        outcome(res) == update_against_category_outcome(*details, *category),
{
    if let Some(td) = &details.type_details {
        validate_type_matches_category(td, &category.product_type)?;
        validate_type_details(td)?;
        if let Some(size) = &details.size {
            validate_size_input(size, &category.size_group)?;
        }
    } else if let Some(size) = &details.size {
        validate_size_input(size, &category.size_group)?;
    }
    Ok(())
}

/// Creating a product checks its size against the category's size group:
/// once the common details, the product type and the type details pass, the
/// outcome is the size check's; and creation succeeds only when every check,
/// the size check included, passes.
pub proof fn lemma_create_checks_size(req: CreateProductRequest, category: Category)
    ensures
        common_details_outcome(req.details) is Ok
            && req.details.type_details.spec_product_type() == category.product_type
            && type_details_outcome(req.details.type_details) is Ok
            ==> create_against_category_outcome(req, category) == size_outcome(req.details.size, category.size_group),
        create_against_category_outcome(req, category) is Ok ==> {
            &&& common_details_outcome(req.details) is Ok
            &&& req.details.type_details.spec_product_type() == category.product_type
            &&& type_details_outcome(req.details.type_details) is Ok
            &&& size_outcome(req.details.size, category.size_group) is Ok
        },
{
}

/// An update that gives a size has it checked against the category's size
/// group, whether or not it also gives type details: once the type checks
/// (if any) pass, the outcome is the size check's; an update succeeds only
/// when the size it gives is accepted.
pub proof fn lemma_update_checks_size(d: UpdateProductDetailsRequest, category: Category)
    ensures
        d.size is Some && (d.type_details matches Some(td) ==> td.spec_product_type() == category.product_type
            && type_details_outcome(td) is Ok)
            ==> update_against_category_outcome(d, category) == size_outcome(d.size->0, category.size_group),
        update_against_category_outcome(d, category) is Ok && d.size is Some
            ==> size_outcome(d.size->0, category.size_group) is Ok,
        update_against_category_outcome(d, category) is Ok && d.type_details is Some
            ==> type_details_outcome(d.type_details->0) is Ok
                && d.type_details->0.spec_product_type() == category.product_type,
        d.size is None && d.type_details is None ==> update_against_category_outcome(d, category) is Ok,
{
}

// ── Semantic search ───────────────────────────────────────────

/// Number of results when the request names none.
pub fn default_top_k() -> (k: i64)
    ensures
        k == 10,
{
    10
}

/// Filters of a semantic search request.
#[derive(Debug)]
pub struct SemanticSearchFilters {
    pub category: Option<String>,
    pub brand: Option<String>,
    pub tags: Vec<String>,
    pub size: Option<String>,
    pub condition: Option<String>,
    pub price_min: Option<i64>,
    pub price_max: Option<i64>,
}

impl SemanticSearchFilters {
    /// No filter at all.
    pub fn empty() -> (f: SemanticSearchFilters)
        ensures
            f.category is None && f.brand is None && f.tags@.len() == 0,
            f.size is None && f.condition is None,
            f.price_min is None && f.price_max is None,
    {
        SemanticSearchFilters {
            category: None,
            brand: None,
            tags: Vec::new(),
            size: None,
            condition: None,
            price_min: None,
            price_max: None,
        }
    }
}

/// The error of a query vector of the wrong dimension.
pub open spec fn vector_dim_error(got: nat, expected: nat) -> ErrorView {
    ErrorView::BadRequest("invalid_vector_dim: got "@ + decimal(got) + ", expected "@ + decimal(expected))
}

/// The outcome of checking a semantic search request: the vector's dimension
/// first, then `top_k` within `(0, 100]`.
pub open spec fn semantic_search_outcome(vector_len: nat, dim: nat, top_k: i64) -> Result<(), ErrorView> {
    if vector_len != dim {
        Err(vector_dim_error(vector_len, dim))
    } else if top_k <= 0 || top_k > 100 {
        Err(ErrorView::BadRequest("top_k must be in (0, 100]"@))
    } else {
        Ok(())
    }
}

pub fn validate_semantic_search(vector_len: usize, dim: usize, top_k: i64) -> (res: Result<(), ServiceError>)
    ensures
        outcome(res) == semantic_search_outcome(vector_len as nat, dim as nat, top_k),
{
    if vector_len != dim {
        let mut m = String::from_str("invalid_vector_dim: got ");
        push_decimal(&mut m, vector_len as u64);
        m.append(", expected ");
        push_decimal(&mut m, dim as u64);
        return Err(ServiceError::BadRequest(m));
    }
    if top_k <= 0 || top_k > 100 {
        return Err(ServiceError::BadRequest(String::from_str("top_k must be in (0, 100]")));
    }
    Ok(())
}

} // verus!
