use product_service::domain::UploadFile;
use product_service::error::ServiceError;
use product_service::uploads::{
    pick_preview_file, resolve_extension, validate_files_not_empty, validate_positive_i32,
    validate_upload_file, validate_upload_files, MAX_IMAGE_SIZE,
};

fn file(len: usize, content_type: &str) -> UploadFile {
    UploadFile { data: vec![7u8; len], content_type: content_type.to_string() }
}

fn message<T>(r: Result<T, ServiceError>) -> String {
    match r {
        Err(ServiceError::BadRequest(m)) => m,
        _ => panic!("expected a bad request"),
    }
}

#[test]
fn positive_ids_pass_through() {
    assert_eq!(validate_positive_i32(5, "id").unwrap(), 5);
    assert_eq!(message(validate_positive_i32(0, "purchase_location id")), "purchase_location id must be positive");
    assert_eq!(message(validate_positive_i32(-3, "id")), "id must be positive");
}

#[test]
fn extensions_of_accepted_types() {
    assert_eq!(resolve_extension("image/jpeg").unwrap(), "jpg");
    assert_eq!(resolve_extension("image/png").unwrap(), "png");
    assert_eq!(resolve_extension("image/webp").unwrap(), "webp");
    assert_eq!(
        message(resolve_extension("image/gif")),
        "unsupported content type: image/gif. Allowed: image/jpeg, image/png, image/webp"
    );
}

#[test]
fn size_limit_is_inclusive() {
    let ok = validate_upload_file(file(MAX_IMAGE_SIZE, "image/png")).unwrap();
    assert_eq!(ok.extension, "png");
    assert_eq!(ok.data.len(), MAX_IMAGE_SIZE);
    assert_eq!(
        message(validate_upload_file(file(MAX_IMAGE_SIZE + 1, "image/png"))),
        "file exceeds max size of 10485760 bytes"
    );
}

#[test]
fn file_lists_must_not_be_empty() {
    assert!(validate_files_not_empty(1).is_ok());
    assert_eq!(message(validate_files_not_empty(0)), "no files provided");
    assert_eq!(message(validate_upload_files(vec![])), "no files provided");
}

#[test]
fn first_bad_file_decides() {
    let r = validate_upload_files(vec![file(3, "image/jpeg"), file(3, "text/plain"), file(3, "x")]);
    assert_eq!(
        message(r),
        "unsupported content type: text/plain. Allowed: image/jpeg, image/png, image/webp"
    );
    let ok = validate_upload_files(vec![file(3, "image/jpeg"), file(4, "image/webp")]).unwrap();
    assert_eq!(ok.len(), 2);
    assert_eq!(ok[0].extension, "jpg");
    assert_eq!(ok[1].extension, "webp");
    assert_eq!(ok[1].data.len(), 4);
}

#[test]
fn preview_uses_the_first_file() {
    let f = pick_preview_file(vec![file(1, "image/png"), file(2, "image/jpeg")]).unwrap();
    assert_eq!(f.content_type, "image/png");
    assert_eq!(message(pick_preview_file(vec![])), "no file provided");
}
