use product_service::domain::{
    Category, CreateProductDetailsRequest, CreateProductRequest, Decimal, ProductType, SizeGroup,
    SizeInput, TypeDetailsInput, UpdateProductDetailsRequest, UpdateProductRequest,
};
use product_service::error::ServiceError;
use product_service::services::{validate_create_against_category, validate_update_against_category};
use product_service::validate::{
    forbid_field, require_field, validate_common_details, validate_create_product,
    validate_size_input, validate_type_details, validate_type_matches_category,
    validate_update_product,
};

fn bad_request(r: Result<(), ServiceError>) -> String {
    match r {
        Err(ServiceError::BadRequest(m)) => m,
        _ => panic!("expected a bad request"),
    }
}

fn size(v: Option<&str>, v2: Option<&str>, sys: Option<&str>, cm: Option<Decimal>) -> SizeInput {
    SizeInput {
        size_value: v.map(|s| s.to_string()),
        size_value2: v2.map(|s| s.to_string()),
        size_system: sys.map(|s| s.to_string()),
        measurement_cm: cm,
    }
}

fn details(year: Option<i32>, collab: Option<bool>, name: Option<&str>) -> CreateProductDetailsRequest {
    CreateProductDetailsRequest {
        year_of_release: year,
        is_collab: collab,
        collab_name: name.map(|s| s.to_string()),
        type_details: TypeDetailsInput::Clothing { fit: None },
        size: size(Some("M"), None, None, None),
    }
}

fn create(name: &str, price: Option<Decimal>, currency: Option<&str>) -> CreateProductRequest {
    CreateProductRequest {
        name: name.to_string(),
        category_id: 1,
        purchase_price: price,
        currency: currency.map(|s| s.to_string()),
        details: details(None, None, None),
    }
}

#[test]
fn letter_sizes_need_a_value_and_nothing_else() {
    assert!(validate_size_input(&size(Some("M"), None, None, None), &SizeGroup::Letter).is_ok());
    assert_eq!(
        bad_request(validate_size_input(&size(None, None, None, None), &SizeGroup::Letter)),
        "size_value is required for size group 'Letter'"
    );
    assert_eq!(
        bad_request(validate_size_input(&size(Some("M"), None, Some("eu"), None), &SizeGroup::Letter)),
        "size_system is not applicable for size group 'Letter'"
    );
}

#[test]
fn letter_or_numeric_allows_a_system() {
    assert!(validate_size_input(&size(Some("38"), None, Some("eu"), None), &SizeGroup::LetterOrNumeric).is_ok());
    assert_eq!(
        bad_request(validate_size_input(&size(Some("38"), Some("2"), None, None), &SizeGroup::LetterOrNumeric)),
        "size_value2 is not applicable for size group 'LetterOrNumeric'"
    );
}

#[test]
fn waist_length_allows_a_second_value() {
    assert!(validate_size_input(&size(Some("32"), Some("34"), None, None), &SizeGroup::WaistLength).is_ok());
    assert_eq!(
        bad_request(validate_size_input(&size(Some("32"), None, None, Some(Decimal::new(5, 0))), &SizeGroup::WaistLength)),
        "measurement_cm is not applicable for size group 'WaistLength'"
    );
}

#[test]
fn measurement_group_needs_a_positive_measurement() {
    assert!(validate_size_input(&size(None, None, None, Some(Decimal::new(125, 1))), &SizeGroup::MeasurementCm).is_ok());
    assert_eq!(
        bad_request(validate_size_input(&size(None, None, None, None), &SizeGroup::MeasurementCm)),
        "measurement_cm is required for size group 'MeasurementCm'"
    );
    assert_eq!(
        bad_request(validate_size_input(&size(None, None, None, Some(Decimal::new(0, 0))), &SizeGroup::MeasurementCm)),
        "measurement_cm must be positive"
    );
    assert_eq!(
        bad_request(validate_size_input(&size(Some("L"), None, None, Some(Decimal::new(3, 0))), &SizeGroup::MeasurementCm)),
        "size_value is not applicable for size group 'MeasurementCm'"
    );
}

#[test]
fn hat_sizes_are_free_but_limited() {
    assert!(validate_size_input(&size(None, None, None, None), &SizeGroup::Hat).is_ok());
    assert!(validate_size_input(&size(Some("57"), None, None, Some(Decimal::new(57, 0))), &SizeGroup::Hat).is_ok());
    assert_eq!(
        bad_request(validate_size_input(&size(None, None, None, Some(Decimal::new(-1, 0))), &SizeGroup::Hat)),
        "measurement_cm must be positive"
    );
}

#[test]
fn one_size_and_dimensions_take_no_size() {
    assert!(validate_size_input(&size(None, None, None, None), &SizeGroup::OneSize).is_ok());
    assert_eq!(
        bad_request(validate_size_input(&size(Some("S"), None, None, None), &SizeGroup::Dimensions)),
        "size_value is not applicable for size group 'Dimensions'"
    );
    assert!(validate_size_input(&size(Some("7"), None, None, None), &SizeGroup::Ring).is_ok());
    assert!(validate_size_input(&size(Some("42"), None, Some("eu"), None), &SizeGroup::Shoe).is_ok());
}

#[test]
fn field_helpers_report_the_field() {
    assert!(require_field(&Some(1), "x", &SizeGroup::Hat).is_ok());
    assert_eq!(
        bad_request(require_field::<i32>(&None, "x", &SizeGroup::Hat)),
        "x is required for size group 'Hat'"
    );
    assert_eq!(
        bad_request(forbid_field(&Some(1), "y", &SizeGroup::Ring)),
        "y is not applicable for size group 'Ring'"
    );
}

#[test]
fn type_must_match_category() {
    let td = TypeDetailsInput::Footwear { shoe_width: None, insole_length_cm: None };
    assert!(validate_type_matches_category(&td, &ProductType::Footwear).is_ok());
    assert_eq!(
        bad_request(validate_type_matches_category(&td, &ProductType::Bags)),
        "type_details product_type 'Footwear' does not match category product_type 'Bags'"
    );
}

#[test]
fn bag_dimensions_are_checked_in_order() {
    let td = TypeDetailsInput::Bags {
        width_cm: Some(Decimal::new(30, 0)),
        height_cm: Some(Decimal::new(0, 0)),
        depth_cm: Some(Decimal::new(-2, 0)),
        handle_type: None,
        bag_size_label: None,
    };
    assert_eq!(bad_request(validate_type_details(&td)), "bag height_cm must be positive");
    let shoe = TypeDetailsInput::Footwear { shoe_width: None, insole_length_cm: Some(Decimal::new(-5, 1)) };
    assert_eq!(bad_request(validate_type_details(&shoe)), "insole_length_cm must be positive");
    assert!(validate_type_details(&TypeDetailsInput::Accessories).is_ok());
}

#[test]
fn collaborations_need_a_name() {
    assert!(validate_common_details(&details(Some(1999), Some(true), Some("X"))).is_ok());
    assert_eq!(
        bad_request(validate_common_details(&details(None, Some(true), Some("   ")))),
        "collab_name is required when is_collab is true"
    );
    assert_eq!(
        bad_request(validate_common_details(&details(None, Some(true), None))),
        "collab_name is required when is_collab is true"
    );
    assert!(validate_common_details(&details(None, Some(false), None)).is_ok());
}

#[test]
fn year_of_release_is_checked_first() {
    assert_eq!(
        bad_request(validate_common_details(&details(Some(1850), Some(true), None))),
        "year_of_release must be between 1900 and 2100"
    );
}

#[test]
fn create_request_checks_name_price_currency() {
    assert!(validate_create_product(&create("Silk scarf", Some(Decimal::new(0, 0)), Some("RSD"))).is_ok());
    assert_eq!(
        bad_request(validate_create_product(&create("  ", Some(Decimal::new(-1, 0)), None))),
        "product name must not be empty"
    );
    assert_eq!(
        bad_request(validate_create_product(&create("Coat", Some(Decimal::new(-1, 0)), Some("rsd")))),
        "purchase_price must not be negative"
    );
    assert_eq!(
        bad_request(validate_create_product(&create("Coat", None, Some("EURO")))),
        "currency must be a 3-letter uppercase ISO 4217 code"
    );
    let long = "a".repeat(256);
    assert_eq!(
        bad_request(validate_create_product(&create(&long, None, None))),
        "product name must be at most 255 characters"
    );
}

#[test]
fn update_request_checks_only_given_fields() {
    let req = UpdateProductRequest {
        name: None,
        category_id: None,
        purchase_price: None,
        currency: Some("usd".to_string()),
        details: None,
    };
    assert_eq!(
        bad_request(validate_update_product(&req)),
        "currency must be a 3-letter uppercase ISO 4217 code"
    );
    let ok = UpdateProductRequest { name: None, category_id: None, purchase_price: None, currency: None, details: None };
    assert!(validate_update_product(&ok).is_ok());
}

#[test]
fn create_details_are_checked_against_the_category() {
    let cat = Category { id: 5, product_type: ProductType::Clothing, size_group: SizeGroup::Letter };
    assert!(validate_create_against_category(&create("Dress", None, None), &cat).is_ok());
    let shoes = Category { id: 6, product_type: ProductType::Footwear, size_group: SizeGroup::Shoe };
    assert_eq!(
        bad_request(validate_create_against_category(&create("Dress", None, None), &shoes)),
        "type_details product_type 'Clothing' does not match category product_type 'Footwear'"
    );
}

#[test]
fn update_details_check_size_even_without_type() {
    let cat = Category { id: 5, product_type: ProductType::Clothing, size_group: SizeGroup::OneSize };
    let d = UpdateProductDetailsRequest {
        year_of_release: None,
        is_collab: None,
        collab_name: None,
        type_details: None,
        size: Some(size(Some("M"), None, None, None)),
    };
    assert_eq!(
        bad_request(validate_update_against_category(&d, &cat)),
        "size_value is not applicable for size group 'OneSize'"
    );
}
