use image::imageops::FilterType;
use image::{DynamicImage, GenericImageView, ImageFormat, ImageOutputFormat, RgbImage};
use rust_formatter::{
    get_neet_config, get_upsc_config, next_quality, transcode, Codec, DocumentFormat,
    DocumentFormatter, DocumentKind, FormatError, MAX_DIMENSION, QUALITY_CEILING, QUALITY_FLOOR,
};
use std::io::Cursor;

/// A picture with fine-grained noise, so that JPEG has something to spend bytes on.
fn noisy_image(width: u32, height: u32, seed: u32) -> DynamicImage {
    let mut state = seed;
    let img = RgbImage::from_fn(width, height, |x, y| {
        state = state.wrapping_mul(1103515245).wrapping_add(12345);
        let n = (state >> 16) as u8;
        image::Rgb([n, (x % 256) as u8 ^ n, (y % 256) as u8])
    });
    DynamicImage::ImageRgb8(img)
}

fn smooth_image(width: u32, height: u32) -> DynamicImage {
    let img = RgbImage::from_fn(width, height, |x, y| {
        image::Rgb([(x * 255 / width) as u8, (y * 255 / height) as u8, 128])
    });
    DynamicImage::ImageRgb8(img)
}

fn encode(img: &DynamicImage, format: ImageOutputFormat) -> Vec<u8> {
    let mut out = Vec::new();
    img.write_to(&mut Cursor::new(&mut out), format).unwrap();
    out
}

fn rule(width: u32, height: u32, format: Codec, quality: u8, max_size: u32) -> DocumentFormat {
    DocumentFormat { width, height, dpi: 300, format, quality, max_size }
}

fn decay_schedule() -> Vec<u8> {
    let mut q = QUALITY_CEILING;
    let mut seen = vec![q];
    while q > QUALITY_FLOOR {
        q = next_quality(q);
        seen.push(q);
    }
    seen
}

#[test]
fn decay_schedule_from_ceiling() {
    let expected: Vec<u8> = vec![
        95, 85, 76, 68, 61, 54, 48, 43, 38, 34, 30, 27, 24, 21, 18, 16, 14, 12, 10,
    ];
    assert_eq!(decay_schedule(), expected);
}

#[test]
fn decay_reaches_floor_within_bound() {
    let schedule = decay_schedule();
    assert!(schedule.len() - 1 <= 22);
    assert_eq!(*schedule.last().unwrap(), 10);
}

#[test]
fn decay_never_goes_below_floor() {
    assert_eq!(next_quality(10), 10);
    assert_eq!(next_quality(11), 10);
    assert_eq!(next_quality(0), 10);
    assert_eq!(next_quality(12), 10);
    assert_eq!(next_quality(100), 90);
    assert_eq!(next_quality(255), 229);
}

#[test]
fn document_kind_from_tag() {
    assert_eq!(DocumentKind::from_tag("photo"), DocumentKind::Photo);
    assert_eq!(DocumentKind::from_tag("signature"), DocumentKind::Signature);
    assert_eq!(DocumentKind::from_tag("documents"), DocumentKind::Documents);
    assert_eq!(DocumentKind::from_tag("Photo"), DocumentKind::Documents);
    assert_eq!(DocumentKind::from_tag(""), DocumentKind::Documents);
}

#[test]
fn unknown_tag_resolves_like_documents() {
    let config = get_upsc_config();
    assert_eq!(*config.resolve("passport"), *config.resolve("documents"));
    assert_eq!(*config.resolve("passport"), config.formats.documents);
    assert_eq!(*config.resolve("photo"), config.formats.photo);
    assert_eq!(*config.resolve("signature"), config.formats.signature);
    assert_eq!(*config.resolve("aadhaar"), config.formats.documents);
}

#[test]
fn codec_from_name() {
    assert_eq!(Codec::from_name("PNG"), Codec::Png);
    assert_eq!(Codec::from_name("JPEG"), Codec::Jpeg);
    assert_eq!(Codec::from_name("png"), Codec::Jpeg);
    assert_eq!(Codec::from_name("WEBP"), Codec::Jpeg);
}

#[test]
fn upsc_profile_values() {
    let config = get_upsc_config();
    assert_eq!(config.name, "UPSC");
    assert_eq!(config.code, "upsc");
    assert_eq!(config.max_file_size, 2048);
    assert_eq!(config.formats.photo, rule(300, 400, Codec::Jpeg, 85, 200));
    assert_eq!(config.formats.signature, DocumentFormat { height: 100, max_size: 50, ..rule(300, 400, Codec::Jpeg, 85, 200) });
    assert_eq!(config.formats.documents, DocumentFormat { dpi: 200, ..rule(800, 1200, Codec::Jpeg, 80, 500) });
    assert_eq!(config.allowed_formats, vec!["image/jpeg", "image/png"]);
    assert_eq!(config.document_types, vec!["photo", "signature", "aadhaar", "marksheet"]);
}

#[test]
fn neet_profile_values() {
    let config = get_neet_config();
    assert_eq!(config.name, "NEET");
    assert_eq!(config.code, "neet");
    assert_eq!(config.max_file_size, 1024);
    assert_eq!(config.formats.photo, DocumentFormat { dpi: 200, ..rule(200, 230, Codec::Jpeg, 80, 100) });
    assert_eq!(config.formats.signature, DocumentFormat { dpi: 200, ..rule(200, 80, Codec::Jpeg, 80, 30) });
    assert_eq!(config.formats.documents, DocumentFormat { dpi: 150, ..rule(600, 800, Codec::Jpeg, 75, 300) });
    assert_eq!(config.document_types, vec!["photo", "signature", "class10_marksheet", "class12_marksheet"]);
}

#[test]
fn format_before_config_fails_without_decoding() {
    let formatter = DocumentFormatter::new();
    assert_eq!(formatter.format_document(b"not an image", "photo", "a.jpg"), Err(FormatError::NoConfig));
    let valid = encode(&smooth_image(40, 30), ImageOutputFormat::Png);
    assert_eq!(formatter.format_document(&valid, "photo", "a.png"), Err(FormatError::NoConfig));
}

#[test]
fn undecodable_bytes_fail_with_decode_error() {
    let mut formatter = DocumentFormatter::new();
    formatter.set_config(get_upsc_config());
    assert_eq!(formatter.format_document(b"not an image", "photo", "a.jpg"), Err(FormatError::Decode));
    assert_eq!(formatter.format_document(&[], "photo", "a.jpg"), Err(FormatError::Decode));
}

#[test]
fn jpeg_output_has_rule_dimensions() {
    let input = encode(&noisy_image(160, 90, 7), ImageOutputFormat::Png);
    let out = transcode(&input, &rule(75, 130, Codec::Jpeg, 85, 200)).unwrap();
    assert_eq!(image::guess_format(&out).unwrap(), ImageFormat::Jpeg);
    let back = image::load_from_memory(&out).unwrap();
    assert_eq!(back.dimensions(), (75, 130));
}

#[test]
fn fitting_first_encode_is_returned_as_is() {
    let source = smooth_image(120, 80);
    let input = encode(&source, ImageOutputFormat::Png);
    let out = transcode(&input, &rule(60, 40, Codec::Jpeg, 85, 200)).unwrap();
    let expected = encode(&source.resize_exact(60, 40, FilterType::Lanczos3), ImageOutputFormat::Jpeg(85));
    assert_eq!(out, expected);
}

#[test]
fn over_budget_output_fits_or_is_at_floor() {
    let source = noisy_image(400, 300, 11);
    let input = encode(&source, ImageOutputFormat::Png);
    let resized = source.resize_exact(400, 300, FilterType::Lanczos3);
    let first = encode(&resized, ImageOutputFormat::Jpeg(85));
    assert!(first.len() > 10 * 1024);
    let out = transcode(&input, &rule(400, 300, Codec::Jpeg, 85, 10)).unwrap();
    let at_floor = encode(&resized, ImageOutputFormat::Jpeg(10));
    assert!(out.len() <= 10 * 1024 || out == at_floor);
    assert_ne!(out, first);
}

#[test]
fn unreachable_budget_returns_floor_encoding() {
    let source = noisy_image(200, 200, 3);
    let input = encode(&source, ImageOutputFormat::Png);
    let out = transcode(&input, &rule(200, 200, Codec::Jpeg, 85, 0)).unwrap();
    let resized = source.resize_exact(200, 200, FilterType::Lanczos3);
    assert_eq!(out, encode(&resized, ImageOutputFormat::Jpeg(10)));
}

#[test]
fn png_over_budget_returns_first_encoding_every_time() {
    let source = noisy_image(100, 100, 5);
    let input = encode(&source, ImageOutputFormat::Jpeg(90));
    let png_rule = rule(120, 90, Codec::Png, 85, 1);
    let first = transcode(&input, &png_rule).unwrap();
    let second = transcode(&input, &png_rule).unwrap();
    assert!(first.len() > 1024);
    assert_eq!(first, second);
    assert_eq!(image::guess_format(&first).unwrap(), ImageFormat::Png);
    let decoded = image::load_from_memory(&input).unwrap();
    let expected = encode(&decoded.resize_exact(120, 90, FilterType::Lanczos3), ImageOutputFormat::Png);
    assert_eq!(first, expected);
}

#[test]
fn upsc_photo_scenario() {
    let input = encode(&noisy_image(1200, 900, 42), ImageOutputFormat::Jpeg(95));
    let mut formatter = DocumentFormatter::new();
    formatter.set_config(get_upsc_config());
    assert!(formatter.admits("photo"));
    let out = formatter.format_document(&input, "photo", "photo.jpg").unwrap();
    assert_eq!(image::guess_format(&out).unwrap(), ImageFormat::Jpeg);
    assert_eq!(image::load_from_memory(&out).unwrap().dimensions(), (300, 400));
    assert!(out.len() <= 200 * 1024);
}

#[test]
fn tight_signature_budget_is_met() {
    let input = encode(&noisy_image(900, 300, 9), ImageOutputFormat::Png);
    let mut formatter = DocumentFormatter::new();
    formatter.set_config(get_neet_config());
    let out = formatter.format_document(&input, "signature", "sig.png").unwrap();
    assert_eq!(image::load_from_memory(&out).unwrap().dimensions(), (200, 80));
    assert!(out.len() <= 30 * 1024);
}

#[test]
fn oversized_rule_is_not_admitted() {
    let mut config = get_upsc_config();
    config.formats.documents.width = MAX_DIMENSION + 1;
    assert!(!config.formats.documents.within_limits());
    assert!(config.formats.photo.within_limits());
    let mut formatter = DocumentFormatter::new();
    assert!(formatter.admits("anything"));
    formatter.set_config(config);
    assert!(!formatter.admits("marksheet"));
    assert!(formatter.admits("photo"));
}
