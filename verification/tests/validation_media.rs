//! Tests of input validation, hashing, and media-format helpers.

use verichain_core::media::{MediaProcessor, MAX_FILE_SIZE_IMAGE_MB};
use verichain_core::validation::{MAX_CHUNK_SIZE, MAX_IMAGE_SIZE, MIN_CHUNK_SIZE, MIN_IMAGE_SIZE};
use verichain_core::{
    calculate_hash, calculate_optimal_batch_size, calculate_optimal_chunk_size,
    get_model_input_shape, handle_get_supported_formats, handle_validate_image_format,
    is_supported_format, validate_batch_size, validate_chunk_id, validate_file_format,
    validate_image_data, validate_social_media_url, verify_chunk_integrity, CoreError,
    ImageValidationError, MediaInput, SocialMediaParser, SocialMediaPlatform,
};

const PNG_MAGIC: [u8; 8] = [0x89, 0x50, 0x4E, 0x47, 0x0D, 0x0A, 0x1A, 0x0A];

fn png_image(len: usize) -> Vec<u8> {
    let mut v = vec![0u8; len];
    v[..8].copy_from_slice(&PNG_MAGIC);
    v
}

#[test]
fn sha256_known_vectors() {
    assert_eq!(
        calculate_hash(b"abc"),
        "ba7816bf8f01cfea414140de5dae2223b00361a396177a9cb410ff61f20015ad"
    );
    assert_eq!(
        calculate_hash(b""),
        "e3b0c44298fc1c149afbf4c8996fb92427ae41e4649b934ca495991b7852b855"
    );
}

#[test]
fn chunk_integrity_matches_bytes() {
    let data = vec![1u8, 2, 3, 4];
    let good = calculate_hash(&data);
    assert!(verify_chunk_integrity(&data, &good));
    assert!(!verify_chunk_integrity(&data, &calculate_hash(b"other")));
    assert!(!verify_chunk_integrity(&data, "not-a-digest"));
}

#[test]
fn image_validation_cases() {
    assert!(matches!(
        validate_image_data(&[]),
        Err(ImageValidationError::Empty)
    ));
    assert!(matches!(
        validate_image_data(&PNG_MAGIC),
        Err(ImageValidationError::TooSmall)
    ));
    assert!(matches!(
        validate_image_data(&png_image(MAX_IMAGE_SIZE + 1)),
        Err(ImageValidationError::TooLarge)
    ));
    assert!(matches!(
        validate_image_data(&vec![0u8; MIN_IMAGE_SIZE]),
        Err(ImageValidationError::UnsupportedFormat)
    ));
    assert!(validate_image_data(&png_image(MIN_IMAGE_SIZE)).is_ok());
    // A JPEG signature is accepted too.
    let mut jpeg = vec![0u8; MIN_IMAGE_SIZE];
    jpeg[0] = 0xFF;
    jpeg[1] = 0xD8;
    jpeg[2] = 0xFF;
    assert!(validate_image_data(&jpeg).is_ok());
}

#[test]
fn format_signature_detection() {
    assert!(is_supported_format(&png_image(16)));
    let mut jpeg = vec![0u8; 8];
    jpeg[0] = 0xFF;
    jpeg[1] = 0xD8;
    jpeg[2] = 0xFF;
    assert!(is_supported_format(&jpeg));
    assert!(!is_supported_format(&[0xFF, 0xD8, 0xFF])); // shorter than 8 bytes
    assert!(!is_supported_format(&vec![0u8; 16]));
}

#[test]
fn handle_level_validation() {
    assert!(handle_validate_image_format(png_image(MIN_IMAGE_SIZE)));
    assert!(!handle_validate_image_format(vec![0u8; 4]));
    assert_eq!(handle_get_supported_formats(), vec!["PNG", "JPEG", "JPG"]);
}

#[test]
fn chunk_id_and_batch_size_validation() {
    assert!(validate_chunk_id(0, 3).is_ok());
    assert!(validate_chunk_id(2, 3).is_ok());
    assert!(matches!(
        validate_chunk_id(3, 3),
        Err(CoreError::InvalidOrdinal(3))
    ));
    assert!(matches!(
        validate_batch_size(0),
        Err(CoreError::InvalidBatchSize)
    ));
    assert!(validate_batch_size(1).is_ok());
    assert!(validate_batch_size(200).is_ok());
    assert!(matches!(
        validate_batch_size(201),
        Err(CoreError::InvalidBatchSize)
    ));
}

#[test]
fn batch_size_policy() {
    assert_eq!(calculate_optimal_batch_size(0), 50);
    assert_eq!(calculate_optimal_batch_size(200), 50);
    assert_eq!(calculate_optimal_batch_size(201), 75);
    assert_eq!(calculate_optimal_batch_size(350), 75);
    assert_eq!(calculate_optimal_batch_size(351), 100);
    assert_eq!(calculate_optimal_batch_size(u32::MAX), 100);
}

#[test]
fn chunk_size_policy() {
    assert_eq!(calculate_optimal_chunk_size(1000), 1000);
    assert_eq!(calculate_optimal_chunk_size(MAX_CHUNK_SIZE), MAX_CHUNK_SIZE);
    // One byte over the cap splits into two fragments of half the payload.
    assert_eq!(
        calculate_optimal_chunk_size(MAX_CHUNK_SIZE + 1),
        (MAX_CHUNK_SIZE + 1) / 2
    );
    let picked = calculate_optimal_chunk_size(100 * MAX_CHUNK_SIZE + 17);
    assert!(MIN_CHUNK_SIZE <= picked && picked <= MAX_CHUNK_SIZE);
}

#[test]
fn media_type_from_extension() {
    assert!(MediaProcessor::validate_media_type("photo.jpg"));
    assert!(MediaProcessor::validate_media_type("photo.JPEG"));
    assert!(MediaProcessor::validate_media_type("clip.Mp4"));
    assert!(!MediaProcessor::validate_media_type("notes.txt"));
    assert!(!MediaProcessor::validate_media_type("archive"));
    assert_eq!(MediaProcessor::get_media_type("a.png"), "image");
    assert_eq!(MediaProcessor::get_media_type("a.MOV"), "video");
    assert_eq!(MediaProcessor::get_media_type("a.doc"), "unknown");
    assert_eq!(MediaProcessor::get_file_extension("a.b.mov"), "mov");
}

#[test]
fn media_file_size_limit() {
    let small = vec![0u8; 1024];
    assert!(MediaProcessor::validate_file_size(&small, MAX_FILE_SIZE_IMAGE_MB));
    let exactly = vec![0u8; 2 * 1024 * 1024];
    assert!(MediaProcessor::validate_file_size(&exactly, 2));
    let over = vec![0u8; 2 * 1024 * 1024 + 1];
    assert!(!MediaProcessor::validate_file_size(&over, 2));
}

#[test]
fn media_input_accessors() {
    let input = MediaInput::new("clip.part1.mp4".to_string(), vec![1, 2, 3]);
    assert_eq!(input.get_file_extension(), Some("mp4"));
    assert_eq!(input.get_file_size(), 3);
    assert!(input.metadata.is_none());
    let tagged = MediaInput::with_metadata(
        "noext".to_string(),
        vec![],
        "from-camera".to_string(),
    );
    // A name without a dot yields the whole name, like splitting on dots.
    assert_eq!(tagged.get_file_extension(), Some("noext"));
    assert_eq!(tagged.metadata.as_deref(), Some("from-camera"));
}

#[test]
fn analysis_extension_whitelist() {
    for name in ["a.jpg", "b.JPEG", "c.png", "d.webp", "e.gif", "f.mp4", "g.avi", "h.mov", "i.webm", "j.mkv"] {
        assert!(validate_file_format(name), "{name}");
    }
    assert!(!validate_file_format("a.txt"));
    assert!(!validate_file_format("a."));
}

#[test]
fn url_scheme_validation() {
    assert!(SocialMediaParser::validate_url("http://example.com/x"));
    assert!(SocialMediaParser::validate_url("https://example.com/x"));
    assert!(!SocialMediaParser::validate_url("ftp://example.com/x"));
    assert!(!SocialMediaParser::validate_url("example.com"));
}

#[test]
fn platform_url_validation() {
    assert!(validate_social_media_url(
        "https://www.youtube.com/watch?v=x",
        &SocialMediaPlatform::YouTube
    ));
    assert!(validate_social_media_url(
        "https://youtu.be/x",
        &SocialMediaPlatform::YouTube
    ));
    assert!(!validate_social_media_url(
        "https://example.com/x",
        &SocialMediaPlatform::YouTube
    ));
    assert!(validate_social_media_url(
        "https://instagram.com/p/1",
        &SocialMediaPlatform::Instagram
    ));
    assert!(validate_social_media_url(
        "https://www.tiktok.com/@u/video/1",
        &SocialMediaPlatform::TikTok
    ));
    assert!(validate_social_media_url(
        "https://x.com/u/status/1",
        &SocialMediaPlatform::Twitter
    ));
    assert!(validate_social_media_url(
        "https://fb.com/p/1",
        &SocialMediaPlatform::Facebook
    ));
    assert!(validate_social_media_url(
        "https://medium.com/@u",
        &SocialMediaPlatform::Other("blog".to_string())
    ));
    assert!(!validate_social_media_url(
        "medium.com/@u",
        &SocialMediaPlatform::Other("blog".to_string())
    ));
}

#[test]
fn input_shape_constant() {
    assert_eq!(get_model_input_shape(), (3, 224, 224));
}

#[test]
fn performance_report_renders_marks() {
    let mut perf = verichain_core::PerformanceMonitor::new(100);
    perf.checkpoint("validation".to_string(), 150);
    perf.checkpoint("inference".to_string(), 400);
    assert_eq!(perf.total_cycles(500), 400);
    let report = perf.get_report(500);
    assert_eq!(
        report,
        "Performance Report (Total cycles: 400)\nvalidation: 50 cycles\ninference: 250 cycles\n"
    );
    let empty = verichain_core::PerformanceMonitor::new(7);
    assert_eq!(empty.get_report(7), "Performance Report (Total cycles: 0)\n");
}
