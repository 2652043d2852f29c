use product_service::domain::{Category, ProductType, SizeGroup, TypeDetailsInput, UpdateProductDetailsRequest, UpdateProductRequest};
use product_service::error::ServiceError;
use product_service::rows::{extract_type_details, insert_currency, insert_flag, insert_status, update_miss, update_type_columns, UpdateMiss};
use product_service::domain::Decimal;
use product_service::services::{
    check_deletable_category, check_not_own_parent, default_top_k, deleted_or_not_found,
    found_or_not_found, require_category, require_leaf_category, require_parent_category,
    soft_delete_outcome, update_category_id, update_needs_category, validate_semantic_search,
    SemanticSearchFilters,
};

fn msg(e: ServiceError) -> String {
    match e {
        ServiceError::BadRequest(m) | ServiceError::NotFound(m) | ServiceError::Conflict(m) | ServiceError::Internal(m) => m,
        ServiceError::StaleVersion => "stale".to_string(),
    }
}

#[test]
fn lookups_and_deletes_report_missing_entities() {
    assert_eq!(found_or_not_found(Some(3), "brand", 7).unwrap(), 3);
    match found_or_not_found::<i32>(None, "brand", 7) {
        Err(e @ ServiceError::NotFound(_)) => assert_eq!(msg(e), "brand id=7 not found"),
        _ => panic!("expected not found"),
    }
    assert!(deleted_or_not_found(true, "season", 1).is_ok());
    assert_eq!(msg(deleted_or_not_found(false, "style tag", -4).unwrap_err()), "style tag id=-4 not found");
}

#[test]
fn categories_must_be_existing_leaves() {
    let cat = Category { id: 9, product_type: ProductType::Bags, size_group: SizeGroup::Dimensions };
    assert_eq!(require_category(9, Some(cat)).unwrap().id, 9);
    assert_eq!(msg(require_category(9, None).unwrap_err()), "category 9 not found");
    assert!(require_leaf_category(9, false).is_ok());
    assert_eq!(
        msg(require_leaf_category(9, true).unwrap_err()),
        "category 9 is not a leaf category; select a specific subcategory"
    );
}

#[test]
fn category_hierarchy_rules() {
    assert_eq!(msg(check_not_own_parent(4, Some(4)).unwrap_err()), "category cannot be its own parent");
    assert!(check_not_own_parent(4, Some(2)).is_ok());
    assert!(check_not_own_parent(4, None).is_ok());
    assert_eq!(msg(require_parent_category(2, false).unwrap_err()), "parent category id=2 not found");
    match check_deletable_category(true) {
        Err(ServiceError::Conflict(m)) => assert_eq!(m, "cannot delete category that has child categories"),
        _ => panic!("expected conflict"),
    }
    assert!(check_deletable_category(false).is_ok());
}

#[test]
fn stale_deletes_are_reported() {
    assert!(matches!(soft_delete_outcome(false), Err(ServiceError::StaleVersion)));
    assert!(soft_delete_outcome(true).is_ok());
    assert!(matches!(update_miss(true), UpdateMiss::StaleVersion));
    assert!(matches!(update_miss(false), UpdateMiss::NotFound));
}

#[test]
fn updates_look_up_categories_only_when_needed() {
    let plain = UpdateProductRequest { name: Some("x".to_string()), category_id: None, purchase_price: None, currency: None, details: None };
    assert!(!update_needs_category(&plain));
    let sized = UpdateProductRequest {
        name: None,
        category_id: Some(3),
        purchase_price: None,
        currency: None,
        details: Some(UpdateProductDetailsRequest { year_of_release: None, is_collab: None, collab_name: None, type_details: None, size: None }),
    };
    assert!(!update_needs_category(&sized));
    assert_eq!(update_category_id(Some(3), 8), 3);
    assert_eq!(update_category_id(None, 8), 8);
}

#[test]
fn semantic_search_requests_are_checked() {
    assert_eq!(default_top_k(), 10);
    assert!(validate_semantic_search(1024, 1024, 10).is_ok());
    assert!(validate_semantic_search(1024, 1024, 100).is_ok());
    assert_eq!(msg(validate_semantic_search(3, 1024, 10).unwrap_err()), "invalid_vector_dim: got 3, expected 1024");
    assert_eq!(msg(validate_semantic_search(1024, 1024, 0).unwrap_err()), "top_k must be in (0, 100]");
    assert_eq!(msg(validate_semantic_search(1024, 1024, 101).unwrap_err()), "top_k must be in (0, 100]");
    let f = SemanticSearchFilters::empty();
    assert!(f.tags.is_empty() && f.category.is_none());
}

#[test]
fn type_details_fill_their_own_columns() {
    let bag = TypeDetailsInput::Bags {
        width_cm: Some(Decimal::new(30, 0)),
        height_cm: None,
        depth_cm: Some(Decimal::new(5, 0)),
        handle_type: Some("top".to_string()),
        bag_size_label: None,
    };
    let c = extract_type_details(&bag);
    assert_eq!(c.width_cm.unwrap().mantissa, 30);
    assert!(c.height_cm.is_none());
    assert_eq!(c.handle_type.as_deref(), Some("top"));
    assert!(c.fit.is_none() && c.metal.is_none());
    let jewel = TypeDetailsInput::Jewelry { metal: Some("gold".to_string()), stone: None, clasp_type: None };
    assert_eq!(extract_type_details(&jewel).metal.as_deref(), Some("gold"));
    let none = update_type_columns(&None);
    assert!(none.fit.is_none() && none.width_cm.is_none() && none.clasp_type.is_none());
}

#[test]
fn insert_defaults() {
    assert_eq!(insert_status(&None), "intake");
    assert_eq!(insert_status(&Some("ready".to_string())), "ready");
    assert_eq!(insert_currency(&None), "RSD");
    assert_eq!(insert_currency(&Some("EUR".to_string())), "EUR");
    assert!(!insert_flag(None));
    assert!(insert_flag(Some(true)));
}
