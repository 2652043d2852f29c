use product_service::error::ServiceError;
use product_service::ids::{parse_product_id, product_id_text};
use product_service::images::Variant;
use product_service::photos::{
    assign_image_indices, image_dir_prefix, image_prefix, image_variant_key, list_image_indices,
    medium_key, next_image_index, preview_prefix, preview_variant_key, require_image_keys,
    require_preview_keys, require_product_exists, select_variant_keys, variant_keys_or_not_found,
};
use product_service::storage::{after_page, append_page_keys, contains, get_object_error, public_object_url, ListStep};
use product_service::error::StorageError;

const ID_TEXT: &str = "67e55044-10b1-426f-9247-bb680e5fe0c8";
const ID: u128 = 0x67e5504410b1426f9247bb680e5fe0c8;

fn keys(v: &[&str]) -> Vec<String> {
    v.iter().map(|s| s.to_string()).collect()
}

#[test]
fn uuid_text_round_trips() {
    assert_eq!(product_id_text(ID), ID_TEXT);
    assert_eq!(parse_product_id(ID_TEXT).unwrap(), ID);
    let err = parse_product_id("not-a-uuid").unwrap_err();
    assert!(err.starts_with("invalid product id: "));
}

#[test]
fn storage_layout() {
    assert_eq!(image_prefix(ID), format!("products/{ID_TEXT}/"));
    assert_eq!(preview_prefix(ID), format!("previews/{ID_TEXT}/"));
    assert_eq!(image_dir_prefix(ID, 12), format!("products/{ID_TEXT}/12/"));
    assert_eq!(image_variant_key(ID, 0, Variant::Thumb), format!("products/{ID_TEXT}/0/thumb.webp"));
    assert_eq!(preview_variant_key(ID, Variant::Full), format!("previews/{ID_TEXT}/full.webp"));
    assert_eq!(medium_key(ID, 3), format!("products/{ID_TEXT}/3/medium.webp"));
}

#[test]
fn indices_are_sorted_and_unique() {
    let prefix = image_prefix(ID);
    let ks = keys(&[
        &format!("{prefix}3/thumb.webp"),
        &format!("{prefix}0/full.webp"),
        &format!("{prefix}3/full.webp"),
        &format!("{prefix}x/full.webp"),
        &format!("{prefix}+7/full.webp"),
        "other/1/full.webp",
        &format!("{prefix}10"),
    ]);
    assert_eq!(list_image_indices(&ks, &prefix), vec![0, 3, 7, 10]);
}

#[test]
fn next_index_follows_the_largest() {
    assert_eq!(next_image_index(&vec![]), 0);
    assert_eq!(next_image_index(&vec![0, 4, 2]), 5);
    assert_eq!(assign_image_indices(&vec![0, 1, 5], 3), vec![6, 7, 8]);
    assert_eq!(assign_image_indices(&vec![], 2), vec![0, 1]);
}

#[test]
fn variants_fall_back_to_what_exists() {
    let all = keys(&["a/0/full.webp", "a/0/thumb.webp", "a/0/medium.webp"]);
    assert_eq!(select_variant_keys(&all), Some((1, 2, 0)));
    let only_full = keys(&["a/0/full.webp"]);
    assert_eq!(select_variant_keys(&only_full), Some((0, 0, 0)));
    let thumb_full = keys(&["a/0/thumb.webp", "a/0/full.webp"]);
    assert_eq!(select_variant_keys(&thumb_full), Some((0, 1, 1)));
    let thumb_only = keys(&["a/0/thumb.webp"]);
    assert_eq!(select_variant_keys(&thumb_only), Some((0, 0, 0)));
    let none = keys(&["a/0/big.png"]);
    assert_eq!(select_variant_keys(&none), None);
    match variant_keys_or_not_found(&none) {
        Err(ServiceError::NotFound(m)) => assert_eq!(m, "image variants not found"),
        _ => panic!("expected not found"),
    }
}

#[test]
fn missing_things_are_not_found() {
    match require_product_exists(ID, false) {
        Err(ServiceError::NotFound(m)) => assert_eq!(m, format!("product {ID_TEXT} not found")),
        _ => panic!("expected not found"),
    }
    assert!(require_product_exists(ID, true).is_ok());
    match require_image_keys(ID, 4, 0) {
        Err(ServiceError::NotFound(m)) => assert_eq!(m, format!("image 4 not found for product {ID_TEXT}")),
        _ => panic!("expected not found"),
    }
    assert!(require_image_keys(ID, 4, 3).is_ok());
    match require_preview_keys(ID, 0) {
        Err(ServiceError::NotFound(m)) => assert_eq!(m, format!("preview for product {ID_TEXT} not found")),
        _ => panic!("expected not found"),
    }
}

#[test]
fn download_errors_are_classified() {
    assert!(contains("abc NoSuchKey def", "NoSuchKey"));
    assert!(!contains("abc", "abcd"));
    assert!(contains("abc", ""));
    match get_object_error("service error: NoSuchKey") {
        StorageError::NotFound(m) => assert_eq!(m, "S3 get_object failed: service error: NoSuchKey"),
        _ => panic!("expected not found"),
    }
    assert!(matches!(get_object_error("status 404"), StorageError::NotFound(_)));
    match get_object_error("timeout") {
        StorageError::Internal(m) => assert_eq!(m, "S3 get_object failed: timeout"),
        _ => panic!("expected internal"),
    }
    assert_eq!(public_object_url("https://cdn", "images", "a/b.webp"), "https://cdn/images/a/b.webp");
}

#[test]
fn storage_errors_describe_themselves() {
    assert_eq!(StorageError::NotFound("k".to_string()).message(), "Storage not found: k");
    assert_eq!(StorageError::PermissionDenied("k".to_string()).message(), "Storage permission denied: k");
    assert_eq!(StorageError::Internal("k".to_string()).message(), "Storage error: k");
}

#[test]
fn truncated_listing_fetches_next_page_with_token() {
    match after_page(Some(true), Some("tok".to_string())) {
        ListStep::Fetch(t) => assert_eq!(t.as_deref(), Some("tok")),
        ListStep::Done => panic!("expected another page"),
    }
    assert!(matches!(after_page(Some(false), Some("tok".to_string())), ListStep::Done));
    assert!(matches!(after_page(None, None), ListStep::Done));
}

#[test]
fn page_keys_skip_objects_without_key() {
    let mut keys = vec!["a".to_string()];
    append_page_keys(&mut keys, vec![Some("b".to_string()), None, Some("c".to_string())]);
    assert_eq!(keys, vec!["a".to_string(), "b".to_string(), "c".to_string()]);
}

#[test]
fn index_segments_parse_like_unsigned_integers() {
    let prefix = image_prefix(ID);
    let ks = keys(&[
        &format!("products/{ID_TEXT}/+4/thumb.webp"),
        &format!("products/{ID_TEXT}/99999999999999999999999/thumb.webp"),
        &format!("products/{ID_TEXT}/-1/thumb.webp"),
        &format!("products/{ID_TEXT}/+/thumb.webp"),
        &format!("products/{ID_TEXT}/1a/thumb.webp"),
        &format!("products/{ID_TEXT}/018446744073709551615/thumb.webp"),
    ]);
    assert_eq!(list_image_indices(&ks, &prefix), vec![4, 18446744073709551615]);
}
