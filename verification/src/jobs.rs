//! The background job queue's own logic: what a job row carries, how the
//! upload and delete jobs are read back, which handler a kind selects, and
//! what happens to a job that failed.

use vstd::prelude::*;
use vstd::string::*;

use vstd::arithmetic::power2::{lemma2_to64, lemma2_to64_rest, lemma_pow2_strictly_increases, lemma_pow2_unfold, pow2};

use crate::domain::UploadFile;
use crate::ids::{parse_uuid, uuid_parse, uuid_text, uuid_to_string};
use crate::text::{cat2, decimal, push_decimal, str_eq};

verus! {

pub const KIND_UPLOAD_PRODUCT_IMAGES: &'static str = "upload_product_images";
pub const KIND_UPLOAD_PRODUCT_PREVIEW: &'static str = "upload_product_preview";
pub const KIND_DELETE_PRODUCT_IMAGES: &'static str = "delete_product_images";
pub const KIND_EMBED_PRODUCT_IMAGES: &'static str = "embed_product_images";

/// A job row as the handlers read it. `payload_product_id` is the payload's
/// `product_id` member when it is a string.
#[derive(Debug)]
pub struct JobRow {
    pub id: i64,
    pub kind: String,
    pub payload_product_id: Option<String>,
    pub blobs: Option<Vec<Vec<u8>>>,
    pub blob_types: Option<Vec<String>>,
    pub attempts: i32,
    pub max_attempts: i32,
}

/// The handler that a job kind selects.
#[derive(PartialEq, Eq, Structural, Clone, Copy, Debug)]
pub enum JobKind {
    UploadProductImages,
    UploadProductPreview,
    DeleteProductImages,
    EmbedProductImages,
}

pub open spec fn spec_job_kind(kind: Seq<char>) -> Option<JobKind> {
    if kind == "upload_product_images"@ {
        Some(JobKind::UploadProductImages)
    } else if kind == "upload_product_preview"@ {
        Some(JobKind::UploadProductPreview)
    } else if kind == "delete_product_images"@ {
        Some(JobKind::DeleteProductImages)
    } else if kind == "embed_product_images"@ {
        Some(JobKind::EmbedProductImages)
    } else {
        None
    }
}

/// Selects the handler of a job kind; an unknown kind is an error naming it.
pub fn dispatch_kind(kind: &str) -> (res: Result<JobKind, String>)
    ensures
        match res {
            Ok(k) => spec_job_kind(kind@) == Some(k),
            Err(m) => spec_job_kind(kind@) is None && m@ == "unknown job kind: "@ + kind@,
        },
{
    if str_eq(kind, KIND_UPLOAD_PRODUCT_IMAGES) {
        Ok(JobKind::UploadProductImages)
    } else if str_eq(kind, KIND_UPLOAD_PRODUCT_PREVIEW) {
        Ok(JobKind::UploadProductPreview)
    } else if str_eq(kind, KIND_DELETE_PRODUCT_IMAGES) {
        Ok(JobKind::DeleteProductImages)
    } else if str_eq(kind, KIND_EMBED_PRODUCT_IMAGES) {
        Ok(JobKind::EmbedProductImages)
    } else {
        Err(cat2("unknown job kind: ", kind))
    }
}

// ── Reading jobs back ─────────────────────────────────────────

pub open spec fn missing_id_message() -> Seq<char> {
    "payload.product_id missing or not a string"@
}

/// The product a job's payload names, or why it names none.
pub open spec fn job_product(payload_product_id: Option<String>) -> Result<u128, Seq<char>> {
    match payload_product_id {
        None => Err(missing_id_message()),
        Some(s) => match uuid_parse(s@) {
            Ok(v) => Ok(v),
            Err(e) => Err("payload.product_id invalid uuid: "@ + e),
        },
    }
}

fn product_of(payload_product_id: &Option<String>) -> (res: Result<u128, String>)
    ensures
        match res {
            Ok(v) => job_product(*payload_product_id) == Ok::<u128, Seq<char>>(v),
            Err(m) => job_product(*payload_product_id) == Err::<u128, Seq<char>>(m@),
        },
{
    match payload_product_id {
        None => Err(String::from_str("payload.product_id missing or not a string")),
        Some(s) => match parse_uuid(s.as_str()) {
            Ok(v) => Ok(v),
            Err(e) => Err(cat2("payload.product_id invalid uuid: ", e.as_str())),
        },
    }
}

pub open spec fn bytes_view(v: Seq<Vec<u8>>) -> Seq<Seq<u8>> {
    v.map_values(|b: Vec<u8>| b@)
}

pub open spec fn strings_view(v: Seq<String>) -> Seq<Seq<char>> {
    v.map_values(|s: String| s@)
}

/// An upload file as data and content type.
pub type FileView = (Seq<u8>, Seq<char>);

pub open spec fn files_view(files: Seq<UploadFile>) -> Seq<FileView> {
    files.map_values(|f: UploadFile| (f.data@, f.content_type@))
}

/// Pairs the n-th blob with the n-th content type.
pub open spec fn zip_files(blobs: Seq<Seq<u8>>, types: Seq<Seq<char>>) -> Seq<FileView> {
    Seq::new(blobs.len(), |i: int| (blobs[i], types[i]))
}

pub open spec fn mismatch_message(blobs: nat, types: nat) -> Seq<char> {
    "blobs/blob_types length mismatch: "@ + decimal(blobs) + " vs "@ + decimal(types)
}

/// What an `upload_product_images` job carries, or why it cannot be read: the
/// product, then both blob columns, which must pair up and not be empty.
pub open spec fn images_job(job: JobRow) -> Result<(u128, Seq<FileView>), Seq<char>> {
    match job_product(job.payload_product_id) {
        Err(m) => Err(m),
        Ok(id) => match job.blobs {
            None => Err("blobs column is null"@),
            Some(blobs) => match job.blob_types {
                None => Err("blob_types column is null"@),
                Some(types) => if blobs@.len() != types@.len() {
                    Err(mismatch_message(blobs@.len(), types@.len()))
                } else if blobs@.len() == 0 {
                    Err("no files in job"@)
                } else {
                    Ok((id, zip_files(bytes_view(blobs@), strings_view(types@))))
                },
            },
        },
    }
}

fn copy_bytes(v: &Vec<u8>) -> (res: Vec<u8>)
    ensures
        res@ == v@,
{
    let c = v.clone();
    assert(c@ =~= v@);
    c
}

/// Reads an `upload_product_images` job.
pub fn parse_upload_images(job: &JobRow) -> (res: Result<(u128, Vec<UploadFile>), String>)
    ensures
        match res {
            Ok((id, files)) => images_job(*job) == Ok::<(u128, Seq<FileView>), Seq<char>>((id, files_view(files@))),
            Err(m) => images_job(*job) == Err::<(u128, Seq<FileView>), Seq<char>>(m@),
        },
{
    let product_id = product_of(&job.payload_product_id)?;
    let blobs = match &job.blobs {
        Some(b) => b,
        None => return Err(String::from_str("blobs column is null")),
    };
    let blob_types = match &job.blob_types {
        Some(t) => t,
        None => return Err(String::from_str("blob_types column is null")),
    };
    if blobs.len() != blob_types.len() {
        let mut m = String::from_str("blobs/blob_types length mismatch: ");
        push_decimal(&mut m, blobs.len() as u64);
        m.append(" vs ");
        push_decimal(&mut m, blob_types.len() as u64);
        return Err(m);
    }
    if blobs.len() == 0 {
        return Err(String::from_str("no files in job"));
    }
    let mut files: Vec<UploadFile> = Vec::new();
    let mut i: usize = 0;
    let ghost target = zip_files(bytes_view(blobs@), strings_view(blob_types@));
    while i < blobs.len()
        invariant
            i <= blobs@.len(),
            blobs@.len() == blob_types@.len(),
            target == zip_files(bytes_view(blobs@), strings_view(blob_types@)),
            files@.len() == i,
            forall|j: int| 0 <= j < i ==> (#[trigger] files@[j]).data@ == blobs@[j]@
                && files@[j].content_type@ == blob_types@[j]@,
        decreases blobs@.len() - i,
    {
        let data = copy_bytes(&blobs[i]);
        let content_type = blob_types[i].clone();
        files.push(UploadFile { data, content_type });
        i = i + 1;
    }
    assert(files_view(files@) =~= target);
    Ok((product_id, files))
}

pub open spec fn preview_count_message(blobs: nat, types: nat) -> Seq<char> {
    "preview job expects exactly 1 blob, got "@ + decimal(blobs) + " blobs and "@ + decimal(types) + " types"@
}

/// What an `upload_product_preview` job carries: exactly one blob and type.
pub open spec fn preview_job(job: JobRow) -> Result<(u128, FileView), Seq<char>> {
    match job_product(job.payload_product_id) {
        Err(m) => Err(m),
        Ok(id) => match job.blobs {
            None => Err("blobs column is null"@),
            Some(blobs) => match job.blob_types {
                None => Err("blob_types column is null"@),
                Some(types) => if blobs@.len() != 1 || types@.len() != 1 {
                    Err(preview_count_message(blobs@.len(), types@.len()))
                } else {
                    Ok((id, (blobs@[0]@, types@[0]@)))
                },
            },
        },
    }
}

/// Reads an `upload_product_preview` job.
pub fn parse_upload_preview(job: &JobRow) -> (res: Result<(u128, UploadFile), String>)
    ensures
        match res {
            Ok((id, f)) => preview_job(*job) == Ok::<(u128, FileView), Seq<char>>((id, (f.data@, f.content_type@))),
            Err(m) => preview_job(*job) == Err::<(u128, FileView), Seq<char>>(m@),
        },
{
    let product_id = product_of(&job.payload_product_id)?;
    let blobs = match &job.blobs {
        Some(b) => b,
        None => return Err(String::from_str("blobs column is null")),
    };
    let blob_types = match &job.blob_types {
        Some(t) => t,
        None => return Err(String::from_str("blob_types column is null")),
    };
    if blobs.len() != 1 || blob_types.len() != 1 {
        let mut m = String::from_str("preview job expects exactly 1 blob, got ");
        push_decimal(&mut m, blobs.len() as u64);
        m.append(" blobs and ");
        push_decimal(&mut m, blob_types.len() as u64);
        m.append(" types");
        return Err(m);
    }
    let file = UploadFile { data: copy_bytes(&blobs[0]), content_type: blob_types[0].clone() };
    Ok((product_id, file))
}

/// Reads a `delete_product_images` job: only the product.
pub fn parse_delete_images(job: &JobRow) -> (res: Result<u128, String>)
    ensures
        match res {
            Ok(id) => job_product(job.payload_product_id) == Ok::<u128, Seq<char>>(id),
            Err(m) => job_product(job.payload_product_id) == Err::<u128, Seq<char>>(m@),
        },
{
    product_of(&job.payload_product_id)
}

// ── Writing jobs ──────────────────────────────────────────────

/// A job to be stored: its kind, the payload's product id and the blobs.
#[derive(Debug)]
pub struct NewJob {
    pub kind: String,
    pub payload_product_id: String,
    pub blobs: Vec<Vec<u8>>,
    pub blob_types: Vec<String>,
}

/// The job that uploads `files` for a product: each file's bytes and content
/// type go to the blob columns at the same position.
pub fn upload_images_job(product_id: u128, files: Vec<UploadFile>) -> (job: NewJob)
    ensures
        job.kind@ == "upload_product_images"@,
        job.payload_product_id@ == uuid_text(product_id),
        job.blobs@.len() == files@.len(),
        job.blob_types@.len() == files@.len(),
        forall|i: int| 0 <= i < files@.len() ==> (#[trigger] job.blobs@[i])@ == files@[i].data@
            && job.blob_types@[i]@ == files@[i].content_type@,
        files@.len() > 0 ==> forall|id: i64, max_attempts: i32|
            #[trigger] images_job(stored_row(job, id, max_attempts)) == Ok::<(u128, Seq<FileView>), Seq<char>>(
                (product_id, files_view(files@)),
            ),
{
    let ghost all = files@;
    let mut blobs: Vec<Vec<u8>> = Vec::new();
    let mut blob_types: Vec<String> = Vec::new();
    for f in it: files.into_iter()
        invariant
            it.seq() == all,
            blobs@.len() == it.index(),
            blob_types@.len() == it.index(),
            forall|i: int| 0 <= i < it.index() ==> (#[trigger] blobs@[i])@ == all[i].data@
                && blob_types@[i]@ == all[i].content_type@,
    {
        blobs.push(f.data);
        blob_types.push(f.content_type);
    }
    let job = NewJob {
        kind: String::from_str(KIND_UPLOAD_PRODUCT_IMAGES),
        payload_product_id: uuid_to_string(product_id),
        blobs,
        blob_types,
    };
    proof {
        if all.len() > 0 {
            assert forall|id: i64, max_attempts: i32|
                #[trigger] images_job(stored_row(job, id, max_attempts)) == Ok::<(u128, Seq<FileView>), Seq<char>>(
                    (product_id, files_view(all)),
                ) by {
                lemma_images_job_roundtrip(product_id, all, job, id, max_attempts);
            }
        }
    }
    job
}

/// The job that uploads a preview: one blob and its content type.
pub fn upload_preview_job(product_id: u128, file: UploadFile) -> (job: NewJob)
    ensures
        job.kind@ == "upload_product_preview"@,
        job.payload_product_id@ == uuid_text(product_id),
        job.blobs@.len() == 1 && job.blob_types@.len() == 1,
        job.blobs@[0]@ == file.data@ && job.blob_types@[0]@ == file.content_type@,
        forall|id: i64, max_attempts: i32|
            #[trigger] preview_job(stored_row(job, id, max_attempts)) == Ok::<(u128, FileView), Seq<char>>(
                (product_id, (file.data@, file.content_type@)),
            ),
{
    let ghost fv = (file.data@, file.content_type@);
    let mut blobs: Vec<Vec<u8>> = Vec::new();
    blobs.push(file.data);
    let mut blob_types: Vec<String> = Vec::new();
    blob_types.push(file.content_type);
    let job = NewJob {
        kind: String::from_str(KIND_UPLOAD_PRODUCT_PREVIEW),
        payload_product_id: uuid_to_string(product_id),
        blobs,
        blob_types,
    };
    proof {
        assert forall|id: i64, max_attempts: i32|
            #[trigger] preview_job(stored_row(job, id, max_attempts)) == Ok::<(u128, FileView), Seq<char>>(
                (product_id, fv),
            ) by {
            lemma_preview_job_roundtrip(product_id, file, job, id, max_attempts);
        }
    }
    job
}

/// The row that a stored job is read back as, before any attempt.
pub open spec fn stored_row(job: NewJob, id: i64, max_attempts: i32) -> JobRow {
    JobRow {
        id,
        kind: job.kind,
        payload_product_id: Some(job.payload_product_id),
        blobs: Some(job.blobs),
        blob_types: Some(job.blob_types),
        attempts: 0,
        max_attempts,
    }
}

/// Reading back an image-upload job gives the product and the files it was
/// made from, in order, whenever there is at least one file.
pub proof fn lemma_images_job_roundtrip(product_id: u128, files: Seq<UploadFile>, job: NewJob, id: i64, max_attempts: i32)
    requires
        files.len() > 0,
        job.payload_product_id@ == uuid_text(product_id),
        uuid_parse(uuid_text(product_id)) == Ok::<u128, Seq<char>>(product_id),
        job.blobs@.len() == files.len(),
        job.blob_types@.len() == files.len(),
        forall|i: int| 0 <= i < files.len() ==> (#[trigger] job.blobs@[i])@ == files[i].data@
            && job.blob_types@[i]@ == files[i].content_type@,
    ensures
        images_job(stored_row(job, id, max_attempts)) == Ok::<(u128, Seq<FileView>), Seq<char>>((product_id, files_view(files))),
{
    assert(zip_files(bytes_view(job.blobs@), strings_view(job.blob_types@)) =~= files_view(files));
}

/// Reading back a preview-upload job gives the product and the file.
pub proof fn lemma_preview_job_roundtrip(product_id: u128, file: UploadFile, job: NewJob, id: i64, max_attempts: i32)
    requires
        job.payload_product_id@ == uuid_text(product_id),
        uuid_parse(uuid_text(product_id)) == Ok::<u128, Seq<char>>(product_id),
        job.blobs@.len() == 1 && job.blob_types@.len() == 1,
        job.blobs@[0]@ == file.data@ && job.blob_types@[0]@ == file.content_type@,
    ensures
        preview_job(stored_row(job, id, max_attempts)) == Ok::<(u128, FileView), Seq<char>>((product_id, (file.data@, file.content_type@))),
{
}

// ── Failed jobs ───────────────────────────────────────────────

/// What becomes of a job whose handler failed.
#[derive(Debug)]
pub enum RetryDecision {
    /// No attempts are left: the job is marked failed.
    FailedPermanently { attempts: i32 },
    /// The job runs again after `backoff_secs` seconds.
    Retry { attempts: i32, backoff_secs: i64 },
}

/// Largest attempt number whose back-off (`2^n * 30` seconds) fits an `i64`.
pub const MAX_BACKOFF_ATTEMPT: i32 = 58;

/// After a failed attempt the count grows by one; when it reaches the
/// maximum the job fails for good, otherwise it is retried after
/// `2^attempts * 30` seconds.
pub fn retry_decision(attempts: i32, max_attempts: i32) -> (res: RetryDecision)
    requires
        -1 <= attempts,
        attempts + 1 < max_attempts ==> attempts + 1 <= MAX_BACKOFF_ATTEMPT,
        attempts < i32::MAX,
    ensures
        attempts + 1 >= max_attempts ==> res == (RetryDecision::FailedPermanently { attempts: (attempts + 1) as i32 }),
        attempts + 1 < max_attempts ==> res == (RetryDecision::Retry {
            attempts: (attempts + 1) as i32,
            backoff_secs: (pow2((attempts + 1) as nat) * 30) as i64,
        }),
{
    let next = attempts + 1;
    if next >= max_attempts {
        return RetryDecision::FailedPermanently { attempts: next };
    }
    let mut p: i64 = 1;
    let mut k: i32 = 0;
    proof {
        lemma2_to64();
        lemma2_to64_rest();
    }
    while k < next
        invariant
            0 <= k <= next,
            next <= 58,
            p == pow2(k as nat),
            pow2(58) == 0x400000000000000,
        decreases next - k,
    {
        proof {
            lemma_pow2_unfold((k + 1) as nat);
            if k + 1 < 58 {
                lemma_pow2_strictly_increases((k + 1) as nat, 58);
            }
        }
        p = p * 2;
        k = k + 1;
    }
    RetryDecision::Retry { attempts: next, backoff_secs: p * 30 }
}

/// Retries wait longer and longer: the back-off doubles with each attempt.
pub proof fn lemma_backoff_doubles(n: nat)
    ensures
        pow2(n + 1) * 30 == 2 * (pow2(n) * 30),
{
    lemma_pow2_unfold(n + 1);
}

// ── Backfilling missing embeddings ────────────────────────────

/// The picture indices `0..image_count` that have no embedding yet, in order.
pub open spec fn spec_missing_indices(image_count: int, existing: Seq<i32>) -> Seq<i32>
    decreases image_count,
{
    if image_count <= 0 {
        Seq::empty()
    } else {
        let rest = spec_missing_indices(image_count - 1, existing);
        if existing.contains((image_count - 1) as i32) { rest } else { rest.push((image_count - 1) as i32) }
    }
}

pub fn missing_indices(image_count: i32, existing: &Vec<i32>) -> (res: Vec<i32>)
    ensures
        res@ == spec_missing_indices(image_count as int, existing@),
{
    let mut res: Vec<i32> = Vec::new();
    let mut i: i32 = 0;
    while i < image_count
        invariant
            0 <= i,
            i <= image_count || image_count < 0,
            image_count < 0 ==> i == 0,
            res@ == spec_missing_indices(i as int, existing@),
        decreases image_count - i,
    {
        let mut found = false;
        let mut j: usize = 0;
        while j < existing.len()
            invariant
                j <= existing@.len(),
                found == exists|k: int| 0 <= k < j && existing@[k] == i,
            decreases existing@.len() - j,
        {
            if existing[j] == i {
                found = true;
            }
            j = j + 1;
        }
        assert(found == existing@.contains(i));
        if !found {
            res.push(i);
        }
        i = i + 1;
    }
    proof {
        if image_count < 0 {
            assert(spec_missing_indices(image_count as int, existing@) == Seq::<i32>::empty());
        }
    }
    res
}

/// What a backfill does for one product: enqueue an embedding job for the
/// pictures `0..image_count` that have no embedding yet, or nothing when none
/// is missing.
pub fn backfill_indices(image_count: i32, existing: &Vec<i32>) -> (res: Option<Vec<i32>>)
    ensures
        spec_missing_indices(image_count as int, existing@).len() == 0 ==> res is None,
        spec_missing_indices(image_count as int, existing@).len() > 0 ==> (res matches Some(v)
            && v@ == spec_missing_indices(image_count as int, existing@)),
{
    let missing = missing_indices(image_count, existing);
    if missing.len() == 0 {
        None
    } else {
        Some(missing)
    }
}

/// A backfill enqueues exactly the pictures that lack an embedding.
pub proof fn lemma_missing_indices_exact(image_count: int, existing: Seq<i32>, x: i32)
    requires
        image_count <= i32::MAX,
    ensures
        spec_missing_indices(image_count, existing).contains(x) <==>
            (0 <= x < image_count && !existing.contains(x)),
    decreases image_count,
{
    if image_count > 0 {
        lemma_missing_indices_exact(image_count - 1, existing, x);
        let rest = spec_missing_indices(image_count - 1, existing);
        if !existing.contains((image_count - 1) as i32) {
            let pushed = rest.push((image_count - 1) as i32);
            assert(pushed.last() == (image_count - 1) as i32);
            if pushed.contains(x) && x != image_count - 1 {
                let k = choose|k: int| 0 <= k < pushed.len() && #[trigger] pushed[k] == x;
                if k < rest.len() {
                    assert(rest[k] == x);
                }
            }
            if rest.contains(x) {
                let k = choose|k: int| 0 <= k < rest.len() && #[trigger] rest[k] == x;
                assert(pushed[k] == x);
            }
        }
    }
}

} // verus!
