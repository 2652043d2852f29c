//! Validation of uploaded image files and of positive identifiers.

use vstd::prelude::*;
use vstd::string::*;

use crate::domain::UploadFile;
use crate::error::{err_of, ErrorView, ServiceError};
use crate::text::{cat2, cat3, str_eq};

verus! {

/// Largest accepted upload, in bytes (10 MiB).
pub const MAX_IMAGE_SIZE: usize = 10485760;

/// The error of a non-positive identifier.
pub open spec fn not_positive_id_error(field: Seq<char>) -> ErrorView {
    ErrorView::BadRequest(field + " must be positive"@)
}

/// Accepts a strictly positive integer and hands it back.
pub fn validate_positive_i32(value: i32, field_name: &str) -> (res: Result<i32, ServiceError>)
    ensures
        res is Ok <==> value > 0,
        res matches Ok(v) ==> v == value,
        res matches Err(e) ==> e@ == not_positive_id_error(field_name@),
{
    if value <= 0 {
        return Err(ServiceError::BadRequest(cat2(field_name, " must be positive")));
    }
    Ok(value)
}

/// The error of an upload request without files.
pub open spec fn no_files_error() -> ErrorView {
    ErrorView::BadRequest("no files provided"@)
}

/// At least one file must be given.
pub fn validate_files_not_empty(files_len: usize) -> (res: Result<(), ServiceError>)
    ensures
        res is Ok <==> files_len > 0,
        res matches Err(e) ==> e@ == no_files_error(),
{
    if files_len == 0 {
        return Err(ServiceError::BadRequest(String::from_str("no files provided")));
    }
    Ok(())
}

/// The file extension stored for each accepted content type.
pub open spec fn extension_of(content_type: Seq<char>) -> Option<Seq<char>> {
    if content_type == "image/jpeg"@ {
        Some("jpg"@)
    } else if content_type == "image/png"@ {
        Some("png"@)
    } else if content_type == "image/webp"@ {
        Some("webp"@)
    } else {
        None
    }
}

/// The error of a content type that is not accepted.
pub open spec fn unsupported_type_error(content_type: Seq<char>) -> ErrorView {
    ErrorView::BadRequest("unsupported content type: "@ + content_type
        + ". Allowed: image/jpeg, image/png, image/webp"@)
}

/// The error of a file over `MAX_IMAGE_SIZE`.
pub open spec fn too_large_error() -> ErrorView {
    ErrorView::BadRequest("file exceeds max size of 10485760 bytes"@)
}

/// Maps an accepted content type to its extension.
pub fn resolve_extension(content_type: &str) -> (res: Result<&'static str, ServiceError>)
    ensures
        res is Ok <==> extension_of(content_type@) is Some,
        res matches Ok(ext) ==> Some(ext@) == extension_of(content_type@),
        res matches Err(e) ==> e@ == unsupported_type_error(content_type@),
{
    if str_eq(content_type, "image/jpeg") {
        Ok("jpg")
    } else if str_eq(content_type, "image/png") {
        Ok("png")
    } else if str_eq(content_type, "image/webp") {
        Ok("webp")
    } else {
        Err(ServiceError::BadRequest(cat3(
            "unsupported content type: ",
            content_type,
            ". Allowed: image/jpeg, image/png, image/webp",
        )))
    }
}

/// An uploaded file that passed validation, with the extension of its type.
#[derive(Debug)]
pub struct ValidatedUploadFile {
    pub data: Vec<u8>,
    pub content_type: String,
    pub extension: &'static str,
}

/// The outcome of validating one file: the size limit first, then the type.
pub open spec fn upload_outcome(data_len: nat, content_type: Seq<char>) -> Result<(), ErrorView> {
    if data_len > MAX_IMAGE_SIZE {
        Err(too_large_error())
    } else if extension_of(content_type) is None {
        Err(unsupported_type_error(content_type))
    } else {
        Ok(())
    }
}

/// Whether a validated file is exactly the given upload with its extension.
pub open spec fn validated_from(v: ValidatedUploadFile, data: Seq<u8>, content_type: Seq<char>) -> bool {
    &&& v.data@ == data
    &&& v.content_type@ == content_type
    &&& extension_of(content_type) == Some(v.extension@)
}

pub fn validate_upload_file(file: UploadFile) -> (res: Result<ValidatedUploadFile, ServiceError>)
    ensures
        err_of(res) == upload_outcome(file.data@.len(), file.content_type@),
        res matches Ok(v) ==> validated_from(v, file.data@, file.content_type@),
{
    if file.data.len() > MAX_IMAGE_SIZE {
        return Err(ServiceError::BadRequest(String::from_str("file exceeds max size of 10485760 bytes")));
    }
    let extension = resolve_extension(file.content_type.as_str())?;
    Ok(ValidatedUploadFile { data: file.data, content_type: file.content_type, extension })
}

/// The outcome of validating a list of files: none is an error, otherwise the
/// first file that fails decides.
pub open spec fn uploads_outcome(files: Seq<UploadFile>) -> Result<(), ErrorView> {
    if files.len() == 0 {
        Err(no_files_error())
    } else {
        first_failure(files)
    }
}

/// The outcome of the first file in `files` that fails, or `Ok`.
pub open spec fn first_failure(files: Seq<UploadFile>) -> Result<(), ErrorView>
    decreases files.len(),
{
    if files.len() == 0 {
        Ok(())
    } else {
        match first_failure(files.drop_last()) {
            Err(e) => Err(e),
            Ok(()) => upload_outcome(files.last().data@.len(), files.last().content_type@),
        }
    }
}

proof fn lemma_failure_persists(files: Seq<UploadFile>, j: int)
    requires
        0 <= j <= files.len(),
        first_failure(files.take(j)) is Err,
    ensures
        first_failure(files) == first_failure(files.take(j)),
    decreases files.len() - j,
{
    if j < files.len() {
        assert(files.take(j + 1).drop_last() =~= files.take(j));
        lemma_failure_persists(files, j + 1);
    } else {
        assert(files.take(j) =~= files);
    }
}

/// Validates every file, in order.
pub fn validate_upload_files(files: Vec<UploadFile>) -> (res: Result<Vec<ValidatedUploadFile>, ServiceError>)
    ensures
        err_of(res) == uploads_outcome(files@),
        res matches Ok(v) ==> v@.len() == files@.len() && forall|i: int| 0 <= i < files@.len()
            ==> validated_from(#[trigger] v@[i], files@[i].data@, files@[i].content_type@),
{
    validate_files_not_empty(files.len())?;
    let ghost all = files@;
    let mut out: Vec<ValidatedUploadFile> = Vec::new();
    for f in it: files.into_iter()
        invariant
            it.seq() == all,
            all.len() > 0,
            first_failure(all.take(it.index() as int)) is Ok,
            out@.len() == it.index(),
            forall|i: int| 0 <= i < it.index() ==>
                validated_from(#[trigger] out@[i], all[i].data@, all[i].content_type@),
    {
        let ghost i = it.index() as int;
        proof {
            assert(all.take(i + 1).drop_last() =~= all.take(i));
            assert(all.take(i + 1).last() == f);
        }
        match validate_upload_file(f) {
            Ok(v) => out.push(v),
            Err(e) => {
                proof {
                    lemma_failure_persists(all, i + 1);
                }
                return Err(e);
            },
        }
    }
    proof {
        assert(all.take(all.len() as int) =~= all);
    }
    Ok(out)
}

/// The file of a preview upload: the first one given; none is an error.
pub fn pick_preview_file(files: Vec<UploadFile>) -> (res: Result<UploadFile, ServiceError>)
    ensures
        res is Ok <==> files@.len() > 0,
        res matches Ok(f) ==> f == files@[0],
        res matches Err(e) ==> e@ == ErrorView::BadRequest("no file provided"@),
{
    let mut files = files;
    if files.len() == 0 {
        return Err(ServiceError::BadRequest(String::from_str("no file provided")));
    }
    Ok(files.swap_remove(0))
}

/// Which files are accepted: at most 10485760 bytes of JPEG, PNG or WebP; a
/// file over the limit is refused as too large whatever its type.
pub proof fn lemma_upload_acceptance(data_len: nat, content_type: Seq<char>)
    ensures
        upload_outcome(data_len, content_type) is Ok <==> data_len <= 10485760 && (content_type
            == "image/jpeg"@ || content_type == "image/png"@ || content_type == "image/webp"@),
        data_len > 10485760 ==> upload_outcome(data_len, content_type) == Err::<(), ErrorView>(too_large_error()),
{
}

} // verus!
