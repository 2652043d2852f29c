use product_service::digest::sha256_hex;
use product_service::embedder::rows_to_write;
use product_service::embedding::{
    check_vector_count, fingerprints, images_to_embed, medium_keys, EmbedPayload,
};

const ID: u128 = 0x67e5504410b1426f9247bb680e5fe0c8;

#[test]
fn medium_keys_follow_the_storage_layout() {
    let payload = EmbedPayload { product_id: ID, image_indices: vec![0, 2] };
    assert_eq!(
        medium_keys(&payload),
        vec![
            "products/67e55044-10b1-426f-9247-bb680e5fe0c8/0/medium.webp".to_string(),
            "products/67e55044-10b1-426f-9247-bb680e5fe0c8/2/medium.webp".to_string(),
        ]
    );
}

#[test]
fn fingerprints_hash_fetched_bytes_only() {
    let f = fingerprints(&vec![Some(b"hello".to_vec()), None]);
    assert_eq!(f, vec![Some(sha256_hex(b"hello")), None]);
    assert_eq!(f[0].as_ref().unwrap().len(), 64);
}

#[test]
fn unchanged_and_missing_pictures_are_skipped() {
    let fetched = vec![Some("a".to_string()), None, Some("b".to_string()), Some("c".to_string())];
    let stored = vec![Some("a".to_string()), Some("x".to_string()), Some("old".to_string()), None];
    assert_eq!(images_to_embed(&fetched, &stored), vec![2, 3]);
}

#[test]
fn nothing_pending_when_all_unchanged() {
    let fetched = vec![Some("a".to_string())];
    let stored = vec![Some("a".to_string())];
    assert!(images_to_embed(&fetched, &stored).is_empty());
}

#[test]
fn vector_count_mismatch_is_an_error() {
    assert_eq!(check_vector_count(3, 3), Ok(()));
    assert_eq!(
        check_vector_count(2, 3),
        Err("embed_product_images: vector count mismatch 2 vs 3".to_string())
    );
}

#[test]
fn text_tick_counts_only_written_rows() {
    assert_eq!(rows_to_write(4, 4), 4);
    assert_eq!(rows_to_write(3, 4), 0);
}
