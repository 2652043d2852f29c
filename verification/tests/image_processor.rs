use std::io::Cursor;

use image::codecs::png::{CompressionType, FilterType, PngEncoder};
use image::{ImageBuffer, ImageEncoder, Rgba};
use product_service::error::ServiceError;
use product_service::images::{build_variants, Picture, Variant};

fn make_png(w: u32, h: u32) -> Vec<u8> {
    let buf: ImageBuffer<Rgba<u8>, Vec<u8>> =
        ImageBuffer::from_fn(w, h, |x, _| Rgba([(x % 256) as u8, 0, 0, 255]));
    let mut out = Vec::new();
    PngEncoder::new_with_quality(Cursor::new(&mut out), CompressionType::Uncompressed, FilterType::NoFilter)
        .write_image(buf.as_raw(), w, h, image::ExtendedColorType::Rgba8)
        .unwrap();
    out
}

fn encode_webp(p: &Picture) -> Vec<u8> {
    let rgba = p.image().to_rgba8();
    let encoder = webp::Encoder::from_rgba(&rgba, rgba.width(), rgba.height());
    encoder.encode(85.0).to_vec()
}

fn dimensions_of(p: &Picture) -> Vec<u8> {
    assert_eq!((p.width(), p.height()), (p.image().width(), p.image().height()));
    let mut out = p.image().width().to_be_bytes().to_vec();
    out.extend_from_slice(&p.image().height().to_be_bytes());
    out
}

fn dims(data: &[u8]) -> (u32, u32) {
    (
        u32::from_be_bytes([data[0], data[1], data[2], data[3]]),
        u32::from_be_bytes([data[4], data[5], data[6], data[7]]),
    )
}

#[test]
fn produces_three_non_empty_variants() {
    let png = make_png(1000, 500);
    let variants = build_variants(&png, encode_webp).unwrap();
    assert_eq!(variants.len(), 3);
    assert!(variants.iter().all(|v| !v.data.is_empty()));
}

#[test]
fn rejects_garbage_input() {
    assert!(build_variants(b"not an image", encode_webp).is_err());
}

#[test]
fn small_image_does_not_upscale() {
    let png = make_png(100, 80);
    let variants = build_variants(&png, encode_webp).unwrap();
    // Full variant should remain roughly the source size — not upscaled to 1920
    assert!(variants.iter().all(|v| !v.data.is_empty()));
}

#[test]
fn variants_come_in_size_order() {
    let png = make_png(1000, 500);
    let variants = build_variants(&png, dimensions_of).unwrap();
    assert_eq!(variants[0].variant, Variant::Thumb);
    assert_eq!(variants[1].variant, Variant::Medium);
    assert_eq!(variants[2].variant, Variant::Full);
    assert_eq!(dims(&variants[0].data), (256, 128));
    assert_eq!(dims(&variants[1].data), (800, 400));
    assert_eq!(dims(&variants[2].data), (1000, 500));
}

#[test]
fn small_image_keeps_its_size_in_every_variant() {
    let png = make_png(100, 80);
    let variants = build_variants(&png, dimensions_of).unwrap();
    for v in &variants {
        assert_eq!(dims(&v.data), (100, 80));
    }
}

#[test]
fn image_on_an_edge_limit_is_not_resized() {
    let png = make_png(256, 100);
    let variants = build_variants(&png, dimensions_of).unwrap();
    assert_eq!(dims(&variants[0].data), (256, 100));
}

#[test]
fn garbage_is_a_bad_request_naming_the_failed_step() {
    match build_variants(b"not an image", dimensions_of) {
        Err(ServiceError::BadRequest(m)) => {
            assert!(m.starts_with("image decode failed: ") || m.starts_with("image format probe failed: "))
        }
        _ => panic!("expected a bad request"),
    }
}

#[test]
fn variant_edges_and_names() {
    assert_eq!(Variant::Thumb.max_edge(), 256);
    assert_eq!(Variant::Medium.max_edge(), 800);
    assert_eq!(Variant::Full.max_edge(), 1920);
    assert_eq!(Variant::Thumb.name(), "thumb");
    assert_eq!(Variant::Medium.name(), "medium");
    assert_eq!(Variant::Full.name(), "full");
    assert_eq!(Variant::all(), [Variant::Thumb, Variant::Medium, Variant::Full]);
}

#[test]
fn full_variant_shrinks_a_wide_picture() {
    let png = make_png(2000, 100);
    let variants = build_variants(&png, dimensions_of).unwrap();
    assert_eq!(dims(&variants[0].data), (256, 13));
    assert_eq!(dims(&variants[1].data), (800, 40));
    assert_eq!(dims(&variants[2].data), (1920, 96));
}
