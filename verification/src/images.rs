//! Image processing: decode an uploaded picture (jpeg/png/webp and other
//! formats the `image` crate recognises), shrink it to fit each of three fixed
//! variants, and hand each variant to an encoder.

use vstd::prelude::*;
use vstd::string::*;

use image::DynamicImage;

use crate::error::{ErrorView, ServiceError};
use crate::text::{cat2, spec_starts_with};

verus! {

/// A decoded raster image of the `image` crate (opaque here).
#[verifier::external_type_specification]
#[verifier::external_body]
pub struct ExDynamicImage(image::DynamicImage);

/// The three stored sizes of every product picture.
#[derive(Clone, Copy, Debug, PartialEq, Eq, Structural)]
pub enum Variant {
    Thumb,
    Medium,
    Full,
}

impl Variant {
    /// The longest edge, in pixels, that the variant may have.
    pub open spec fn spec_max_edge(self) -> u32 {
        match self {
            Variant::Thumb => 256,
            Variant::Medium => 800,
            Variant::Full => 1920,
        }
    }

    /// The name under which the variant is stored.
    pub open spec fn spec_name(self) -> Seq<char> {
        match self {
            Variant::Thumb => "thumb"@,
            Variant::Medium => "medium"@,
            Variant::Full => "full"@,
        }
    }

    pub fn max_edge(self) -> (n: u32)
        ensures
            n == self.spec_max_edge(),
    {
        match self {
            Variant::Thumb => 256,
            Variant::Medium => 800,
            Variant::Full => 1920,
        }
    }

    pub fn name(self) -> (s: &'static str)
        ensures
            s@ == self.spec_name(),
    {
        match self {
            Variant::Thumb => "thumb",
            Variant::Medium => "medium",
            Variant::Full => "full",
        }
    }

    /// All variants, smallest first.
    pub fn all() -> (v: [Variant; 3])
        ensures
            v@ == seq![Variant::Thumb, Variant::Medium, Variant::Full],
    {
        [Variant::Thumb, Variant::Medium, Variant::Full]
    }
}

/// The variants grow strictly in size, and their names differ.
pub proof fn lemma_variants_ordered()
    ensures
        Variant::Thumb.spec_max_edge() < Variant::Medium.spec_max_edge(),
        Variant::Medium.spec_max_edge() < Variant::Full.spec_max_edge(),
{
}

/// One encoded variant of a picture.
#[derive(Debug)]
pub struct VariantBytes {
    pub variant: Variant,
    pub data: Vec<u8>,
}

/// A decoded picture together with the width and height, in pixels, that the
/// `image` crate reports for it.
pub struct Picture {
    image: DynamicImage,
    width: u32,
    height: u32,
}

impl Picture {
    pub closed spec fn spec_width(&self) -> u32 {
        self.width
    }

    pub closed spec fn spec_height(&self) -> u32 {
        self.height
    }

    /// The decoded image held by the picture.
    pub closed spec fn spec_image(&self) -> DynamicImage {
        self.image
    }

    /// Whether both edges are at most `edge` pixels long.
    pub open spec fn fits(&self, edge: u32) -> bool {
        self.spec_width() <= edge && self.spec_height() <= edge
    }

    /// The decoded image.
    pub fn image(&self) -> (img: &DynamicImage)
        ensures
            *img == self.spec_image(),
    {
        &self.image
    }

    pub fn width(&self) -> (w: u32)
        ensures
            w == self.spec_width(),
    {
        self.width
    }

    pub fn height(&self) -> (h: u32)
        ensures
            h == self.spec_height(),
    {
        self.height
    }
}

/// The name for whether the `image` crate decodes `raw`: whether it recognises
/// the format from the leading bytes and its decoder accepts the content.
pub uninterp spec fn decodes_as_image(raw: Seq<u8>) -> bool;

/// The name for the width and height, in pixels, of the image that the
/// `image` crate decodes from `raw`.
pub uninterp spec fn decoded_size(raw: Seq<u8>) -> (u32, u32);

/// Why decoding failed, with the `image` crate's description.
#[derive(Debug)]
pub enum DecodeFailure {
    /// The format could not be probed.
    Probe(String),
    /// The content could not be decoded.
    Decode(String),
}

/// Calls `image::ImageReader::new(Cursor::new(raw)).with_guessed_format()`,
/// then `decode()`, and reads the image's `width()` and `height()`. Claims
/// that it succeeds exactly when `decodes_as_image(raw)`, and that the size
/// read is `decoded_size(raw)`: decoding is a function of the bytes. The error
/// texts are the crate's and nothing is stated about them or about the pixels.
#[verifier::external_body]
fn decode_image(raw: &[u8]) -> (res: Result<Picture, DecodeFailure>)
    ensures
        res is Ok <==> decodes_as_image(raw@),
        res matches Ok(p) ==> (p.spec_width(), p.spec_height()) == decoded_size(raw@),
{
    let reader = match image::ImageReader::new(std::io::Cursor::new(raw)).with_guessed_format() {
        Ok(r) => r,
        Err(e) => return Err(DecodeFailure::Probe(e.to_string())),
    };
    match reader.decode() {
        Ok(image) => Ok(Picture { width: image.width(), height: image.height(), image }),
        Err(e) => Err(DecodeFailure::Decode(e.to_string())),
    }
}

/// Calls `DynamicImage::clone`, which copies the pixels; the copy keeps the
/// recorded width and height.
#[verifier::external_body]
fn copy_picture(p: &Picture) -> (res: Picture)
    ensures
        res.spec_width() == p.spec_width(),
        res.spec_height() == p.spec_height(),
{
    Picture { image: p.image.clone(), width: p.width, height: p.height }
}

/// Calls `DynamicImage::resize(max_edge, max_edge, FilterType::Lanczos3)` and
/// reads the result's `width()` and `height()`. Claims what the crate
/// documents for `resize` ("scaled to the maximum possible size that fits
/// within the bounds", keeping the aspect ratio) and what `resize_dimensions`
/// computes from it: neither edge exceeds `max_edge`; a picture that does not
/// fit is scaled down so that one edge is exactly `max_edge` and no edge of a
/// non-empty picture grows. The aspect ratio itself, a float, is not stated.
#[verifier::external_body]
fn resize_lanczos3(p: &Picture, max_edge: u32) -> (res: Picture)
    requires
        max_edge >= 1,
    ensures
        res.fits(max_edge),
        !p.fits(max_edge) ==> (res.spec_width() == max_edge || res.spec_height() == max_edge),
        !p.fits(max_edge) && p.spec_width() >= 1 && p.spec_height() >= 1 ==> (res.spec_width()
            <= p.spec_width() && res.spec_height() <= p.spec_height()),
{
    let image = p.image.resize(max_edge, max_edge, image::imageops::FilterType::Lanczos3);
    Picture { width: image.width(), height: image.height(), image }
}

/// The picture itself when both edges fit within `max_edge` (never
/// upscaled), otherwise the picture scaled down to fit.
fn resize_to_fit(p: &Picture, max_edge: u32) -> (res: Picture)
    requires
        max_edge >= 1,
    ensures
        fitted(res, p.spec_width(), p.spec_height(), max_edge),
{
    if p.width <= max_edge && p.height <= max_edge {
        return copy_picture(p);
    }
    resize_lanczos3(p, max_edge)
}

/// Whether a decoding error carries one of the two messages it can have.
pub open spec fn decode_error(e: ErrorView) -> bool {
    e matches ErrorView::BadRequest(m) && (spec_starts_with(m, "image format probe failed: "@)
        || spec_starts_with(m, "image decode failed: "@))
}

/// Whether `p` is a `width` x `height` source fitted to `edge`: it fits the
/// edge; a source that already fits keeps its size (never upscaled); one that
/// does not is scaled down until one edge is exactly `edge`, and no edge of a
/// non-empty source grows.
pub open spec fn fitted(p: Picture, width: u32, height: u32, edge: u32) -> bool {
    &&& p.fits(edge)
    &&& (width <= edge && height <= edge) ==> (p.spec_width() == width && p.spec_height() == height)
    &&& !(width <= edge && height <= edge) ==> (p.spec_width() == edge || p.spec_height() == edge)
    &&& (width >= 1 && height >= 1) ==> (p.spec_width() <= width && p.spec_height() <= height)
}

/// Whether `vb` holds what `encode` made of the `width` x `height` source
/// fitted to the edge of its variant.
pub open spec fn encoded_variant<F: Fn(&Picture) -> Vec<u8>>(encode: F, vb: VariantBytes, width: u32, height: u32) -> bool {
    exists|p: &Picture| {
        &&& #[trigger] call_ensures(encode, (p,), vb.data)
        &&& fitted(*p, width, height, vb.variant.spec_max_edge())
    }
}

/// Decodes `raw` and produces the three variants, in the order thumb, medium,
/// full: the decoded picture (of size `decoded_size(raw)`) fitted to each
/// variant's edge (never upscaled) and encoded by `encode`.
pub fn build_variants<F: Fn(&Picture) -> Vec<u8>>(raw: &[u8], encode: F) -> (res: Result<Vec<VariantBytes>, ServiceError>)
    requires
        forall|p: &Picture| call_requires(encode, (p,)),
    ensures
        res is Ok <==> decodes_as_image(raw@),
        res matches Err(e) ==> decode_error(e@),
        res matches Ok(v) ==> {
            &&& v@.len() == 3
            &&& v@[0].variant == Variant::Thumb
            &&& v@[1].variant == Variant::Medium
            &&& v@[2].variant == Variant::Full
            &&& forall|i: int| #![trigger v@[i]] 0 <= i < 3 ==> encoded_variant(
                encode,
                v@[i],
                decoded_size(raw@).0,
                decoded_size(raw@).1,
            )
        },
{
    let img = match decode_image(raw) {
        Ok(img) => img,
        Err(DecodeFailure::Probe(t)) => {
            let m = cat2("image format probe failed: ", t.as_str());
            assert(m@.subrange(0, "image format probe failed: "@.len() as int) =~= "image format probe failed: "@);
            return Err(ServiceError::BadRequest(m));
        },
        Err(DecodeFailure::Decode(t)) => {
            let m = cat2("image decode failed: ", t.as_str());
            assert(m@.subrange(0, "image decode failed: "@.len() as int) =~= "image decode failed: "@);
            return Err(ServiceError::BadRequest(m));
        },
    };
    let ghost w = img.spec_width();
    let ghost h = img.spec_height();
    let variants = Variant::all();
    let mut out: Vec<VariantBytes> = Vec::new();
    let mut i: usize = 0;
    while i < 3
        invariant
            i <= 3,
            variants@ == seq![Variant::Thumb, Variant::Medium, Variant::Full],
            forall|p: &Picture| call_requires(encode, (p,)),
            w == img.spec_width(),
            h == img.spec_height(),
            out@.len() == i,
            forall|j: int| 0 <= j < i ==> #[trigger] out@[j].variant == variants@[j],
            forall|j: int| #![trigger out@[j]] 0 <= j < i ==> encoded_variant(encode, out@[j], w, h),
        decreases 3 - i,
    {
        let v = variants[i];
        let resized = resize_to_fit(&img, v.max_edge());
        let data = encode(&resized);
        assert(call_ensures(encode, (&resized,), data));
        out.push(VariantBytes { variant: v, data });
        assert(out@[i as int].data == data);
        assert(encoded_variant(encode, out@[i as int], w, h));
        i = i + 1;
    }
    Ok(out)
}

} // verus!
