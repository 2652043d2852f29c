use product_service::domain::UploadFile;
use product_service::jobs::{
    backfill_indices, dispatch_kind, missing_indices, parse_delete_images, parse_upload_images, parse_upload_preview,
    retry_decision, upload_images_job, upload_preview_job, JobKind, JobRow, RetryDecision,
};

const ID_TEXT: &str = "67e55044-10b1-426f-9247-bb680e5fe0c8";
const ID: u128 = 0x67e5504410b1426f9247bb680e5fe0c8;

fn row(product: Option<&str>, blobs: Option<Vec<Vec<u8>>>, types: Option<Vec<&str>>) -> JobRow {
    JobRow {
        id: 1,
        kind: "upload_product_images".to_string(),
        payload_product_id: product.map(|s| s.to_string()),
        blobs,
        blob_types: types.map(|v| v.into_iter().map(|s| s.to_string()).collect()),
        attempts: 0,
        max_attempts: 5,
    }
}

fn err<T>(r: Result<T, String>) -> String {
    match r {
        Err(m) => m,
        Ok(_) => panic!("expected an error"),
    }
}

#[test]
fn images_job_is_read_in_order() {
    let r = row(Some(ID_TEXT), Some(vec![vec![1], vec![2, 3]]), Some(vec!["image/png", "image/jpeg"]));
    let (id, files) = parse_upload_images(&r).unwrap();
    assert_eq!(id, ID);
    assert_eq!(files.len(), 2);
    assert_eq!(files[1].data, vec![2, 3]);
    assert_eq!(files[1].content_type, "image/jpeg");
}

#[test]
fn images_job_errors() {
    assert_eq!(err(parse_upload_images(&row(None, None, None))), "payload.product_id missing or not a string");
    assert!(err(parse_upload_images(&row(Some("nope"), None, None))).starts_with("payload.product_id invalid uuid: "));
    assert_eq!(err(parse_upload_images(&row(Some(ID_TEXT), None, None))), "blobs column is null");
    assert_eq!(err(parse_upload_images(&row(Some(ID_TEXT), Some(vec![]), None))), "blob_types column is null");
    assert_eq!(
        err(parse_upload_images(&row(Some(ID_TEXT), Some(vec![vec![1]]), Some(vec![])))),
        "blobs/blob_types length mismatch: 1 vs 0"
    );
    assert_eq!(err(parse_upload_images(&row(Some(ID_TEXT), Some(vec![]), Some(vec![])))), "no files in job");
}

#[test]
fn preview_job_needs_exactly_one_blob() {
    let r = row(Some(ID_TEXT), Some(vec![vec![9]]), Some(vec!["image/webp"]));
    let (id, f) = parse_upload_preview(&r).unwrap();
    assert_eq!(id, ID);
    assert_eq!(f.data, vec![9]);
    let two = row(Some(ID_TEXT), Some(vec![vec![9], vec![8]]), Some(vec!["image/webp"]));
    assert_eq!(err(parse_upload_preview(&two)), "preview job expects exactly 1 blob, got 2 blobs and 1 types");
}

#[test]
fn delete_job_needs_only_the_product() {
    assert_eq!(parse_delete_images(&row(Some(ID_TEXT), None, None)).unwrap(), ID);
}

#[test]
fn stored_upload_jobs_read_back_as_written() {
    let files = vec![
        UploadFile { data: vec![1, 2], content_type: "image/png".to_string() },
        UploadFile { data: vec![3], content_type: "image/webp".to_string() },
    ];
    let job = upload_images_job(ID, files);
    assert_eq!(job.kind, "upload_product_images");
    assert_eq!(job.payload_product_id, ID_TEXT);
    let r = JobRow {
        id: 4,
        kind: job.kind,
        payload_product_id: Some(job.payload_product_id),
        blobs: Some(job.blobs),
        blob_types: Some(job.blob_types),
        attempts: 0,
        max_attempts: 5,
    };
    let (id, back) = parse_upload_images(&r).unwrap();
    assert_eq!(id, ID);
    assert_eq!(back[0].data, vec![1, 2]);
    assert_eq!(back[1].content_type, "image/webp");

    let p = upload_preview_job(ID, UploadFile { data: vec![5], content_type: "image/jpeg".to_string() });
    assert_eq!(p.kind, "upload_product_preview");
    let r = JobRow {
        id: 5,
        kind: p.kind,
        payload_product_id: Some(p.payload_product_id),
        blobs: Some(p.blobs),
        blob_types: Some(p.blob_types),
        attempts: 0,
        max_attempts: 5,
    };
    let (_, f) = parse_upload_preview(&r).unwrap();
    assert_eq!(f.content_type, "image/jpeg");
}

#[test]
fn kinds_select_handlers() {
    assert_eq!(dispatch_kind("upload_product_images").unwrap(), JobKind::UploadProductImages);
    assert_eq!(dispatch_kind("upload_product_preview").unwrap(), JobKind::UploadProductPreview);
    assert_eq!(dispatch_kind("delete_product_images").unwrap(), JobKind::DeleteProductImages);
    assert_eq!(dispatch_kind("embed_product_images").unwrap(), JobKind::EmbedProductImages);
    assert_eq!(err(dispatch_kind("resize")), "unknown job kind: resize");
}

#[test]
fn failures_back_off_exponentially_then_stop() {
    assert!(matches!(retry_decision(0, 5), RetryDecision::Retry { attempts: 1, backoff_secs: 60 }));
    assert!(matches!(retry_decision(1, 5), RetryDecision::Retry { attempts: 2, backoff_secs: 120 }));
    assert!(matches!(retry_decision(3, 5), RetryDecision::Retry { attempts: 4, backoff_secs: 480 }));
    assert!(matches!(retry_decision(4, 5), RetryDecision::FailedPermanently { attempts: 5 }));
    assert!(matches!(retry_decision(0, 1), RetryDecision::FailedPermanently { attempts: 1 }));
}

#[test]
fn backfill_finds_missing_pictures() {
    assert_eq!(missing_indices(5, &vec![0, 2, 7]), vec![1, 3, 4]);
    assert_eq!(missing_indices(3, &vec![0, 1, 2]), Vec::<i32>::new());
    assert_eq!(missing_indices(0, &vec![]), Vec::<i32>::new());
    assert_eq!(missing_indices(-2, &vec![]), Vec::<i32>::new());
}

#[test]
fn a_job_at_minus_one_attempts_retries_after_thirty_seconds() {
    assert!(matches!(retry_decision(-1, 5), RetryDecision::Retry { attempts: 0, backoff_secs: 30 }));
    assert!(matches!(retry_decision(4, 5), RetryDecision::FailedPermanently { attempts: 5 }));
}

#[test]
fn backfill_enqueues_only_when_something_is_missing() {
    assert_eq!(backfill_indices(4, &vec![0, 2]), Some(vec![1, 3]));
    assert_eq!(backfill_indices(2, &vec![1, 0]), None);
    assert_eq!(backfill_indices(0, &vec![]), None);
}
