//! Media inputs, detection results, and media-format helpers.
//!
//! Confidence values are fixed-point, like every tensor element:
//! [`crate::tensor::SCALE`] units equal one.

use vstd::prelude::*;

use crate::text::{
    eq_ignore_case, file_extension, spec_contains_str, spec_ext_start, contains_str,
    starts_with_str, str_eq_ignore_case,
};
use vstd::string::StringExecFns;

use crate::errors::CoreError;
use crate::tensor::{clip_i64, div_toward_zero, global_avg_pool, sum_of};

verus! {

/// Width of the model's input image, in pixels.
pub const MODEL_INPUT_WIDTH: u32 = 224;

/// Height of the model's input image, in pixels.
pub const MODEL_INPUT_HEIGHT: u32 = 224;

/// Largest accepted image payload, in whole mebibytes.
pub const MAX_FILE_SIZE_IMAGE_MB: u32 = 2;

/// Largest accepted video payload, in whole mebibytes.
pub const MAX_FILE_SIZE_VIDEO_MB: u32 = 2;

/// Confidence above which media counts as manipulated, in fixed point
/// (one half).
pub const MODEL_CONFIDENCE_THRESHOLD: i64 = 32768;

/// Kind of media a result speaks about.
#[derive(Debug, Clone, Copy, PartialEq, Eq, Structural)]
pub enum MediaType {
    /// A single image.
    Image,
    /// A video.
    Video,
    /// A video fetched from a social platform.
    SocialMediaVideo,
}

/// Outcome of one analysis.
#[derive(Debug, Clone)]
pub struct DetectionResult {
    /// Whether the winning class is the manipulated one.
    pub is_deepfake: bool,
    /// Probability of the winning class, in fixed point.
    pub confidence: i64,
    /// Kind of media analyzed.
    pub media_type: MediaType,
    /// Wall-clock duration attached by the caller; the core sets zero.
    pub processing_time_ms: u64,
    /// How many frames the analysis covered, if frame-based.
    pub frames_analyzed: Option<usize>,
    /// Free-form metadata attached by the caller; the core sets none.
    pub metadata: Option<String>,
}

/// Outcome of one frame of a frame-based analysis.
#[derive(Debug, Clone)]
pub struct FrameResult {
    /// Position of the frame in the submitted sequence.
    pub frame_index: usize,
    /// Probability of the winning class for this frame, in fixed point.
    pub confidence: i64,
    /// Whether this frame's winning class is the manipulated one.
    pub is_deepfake: bool,
    /// Millisecond timestamp the frame stands at.
    pub timestamp_ms: u64,
}

/// A media payload handed in for analysis.
#[derive(Debug, Clone)]
pub struct MediaInput {
    /// Name of the uploaded file.
    pub filename: String,
    /// The payload bytes.
    pub data: Vec<u8>,
    /// Free-form metadata from the uploader.
    pub metadata: Option<String>,
}

impl MediaInput {
    /// Builds an input without metadata.
    pub fn new(filename: String, data: Vec<u8>) -> (r: Self)
        ensures
            r.filename == filename,
            r.data == data,
            r.metadata is None,
    {
        Self { filename, data, metadata: None }
    }

    /// Builds an input carrying metadata.
    pub fn with_metadata(filename: String, data: Vec<u8>, metadata: String) -> (r: Self)
        ensures
            r.filename == filename,
            r.data == data,
            r.metadata == Some(metadata),
    {
        Self { filename, data, metadata: Some(metadata) }
    }

    /// The file name's extension: what follows its last dot, or the whole
    /// name when it holds no dot.
    pub fn get_file_extension(&self) -> (r: Option<&str>)
        ensures
            r matches Some(e) && e@ == self.filename@.subrange(
                spec_ext_start(self.filename@),
                self.filename@.len() as int,
            ),
    {
        Some(file_extension(self.filename.as_str()))
    }

    /// The payload size in bytes.
    pub fn get_file_size(&self) -> (r: usize)
        ensures
            r == self.data@.len(),
    {
        self.data.len()
    }
}

/// The platform a social-media URL belongs to.
#[derive(Debug, Clone)]
pub enum SocialMediaPlatform {
    YouTube,
    Instagram,
    TikTok,
    Twitter,
    Facebook,
    /// Any other platform, by name.
    Other(String),
}

/// A social-media analysis request: the source URL plus frames already
/// extracted by the caller.
#[derive(Debug, Clone)]
pub struct SocialMediaInput {
    /// Where the media came from.
    pub url: String,
    /// Which platform the URL belongs to.
    pub platform: SocialMediaPlatform,
    /// Frames extracted from the media, one payload per frame.
    pub frames: Vec<Vec<u8>>,
    /// Free-form metadata from the caller.
    pub metadata: Option<String>,
}

/// Media fetched from a social platform by an outside extractor.
#[derive(Debug, Clone)]
pub struct MediaExtractionResult {
    /// The fetched payload.
    pub media_data: Vec<u8>,
    /// What kind of media was fetched.
    pub media_type: MediaType,
    /// The URL it was fetched from.
    pub original_url: String,
    /// The platform it was fetched from.
    pub platform: SocialMediaPlatform,
    /// Free-form metadata from the extractor.
    pub metadata: Option<String>,
}

/// Whether an extension names a supported image format.
pub open spec fn spec_is_image_ext(e: Seq<char>) -> bool {
    ||| eq_ignore_case(e, "jpg"@)
    ||| eq_ignore_case(e, "jpeg"@)
    ||| eq_ignore_case(e, "png"@)
}

/// Whether an extension names a supported video format.
pub open spec fn spec_is_video_ext(e: Seq<char>) -> bool {
    ||| eq_ignore_case(e, "mp4"@)
    ||| eq_ignore_case(e, "mov"@)
}

/// The extension of a file name.
pub open spec fn spec_extension(name: Seq<char>) -> Seq<char> {
    name.subrange(spec_ext_start(name), name.len() as int)
}

/// Media-format helpers keyed on file names.
pub struct MediaProcessor;

impl MediaProcessor {
    /// Whether the file name's extension names a supported image or video
    /// format, up to ASCII case.
    pub fn validate_media_type(filename: &str) -> (r: bool)
        ensures
            r == (spec_is_image_ext(spec_extension(filename@)) || spec_is_video_ext(
                spec_extension(filename@),
            )),
    {
        let ext = file_extension(filename);
        str_eq_ignore_case(ext, "jpg") || str_eq_ignore_case(ext, "jpeg") || str_eq_ignore_case(
            ext,
            "png",
        ) || str_eq_ignore_case(ext, "mp4") || str_eq_ignore_case(ext, "mov")
    }

    /// Whether the payload fits in `max_size_mb` whole mebibytes.
    pub fn validate_file_size(data: &[u8], max_size_mb: u32) -> (r: bool)
        ensures
            r == (data@.len() <= max_size_mb as int * 1048576),
    {
        data.len() as u64 <= (max_size_mb as u64) * 1048576
    }

    /// Classifies a file name as `"image"`, `"video"` or `"unknown"` by its
    /// extension.
    pub fn get_media_type(filename: &str) -> (r: String)
        ensures
            r@ == (if spec_is_image_ext(spec_extension(filename@)) {
                "image"@
            } else if spec_is_video_ext(spec_extension(filename@)) {
                "video"@
            } else {
                "unknown"@
            }),
    {
        let ext = file_extension(filename);
        if str_eq_ignore_case(ext, "jpg") || str_eq_ignore_case(ext, "jpeg")
            || str_eq_ignore_case(ext, "png") {
            String::from_str("image")
        } else if str_eq_ignore_case(ext, "mp4") || str_eq_ignore_case(ext, "mov") {
            String::from_str("video")
        } else {
            String::from_str("unknown")
        }
    }

    /// The file name's extension.
    pub fn get_file_extension(filename: &str) -> (r: &str)
        ensures
            r@ == spec_extension(filename@),
    {
        file_extension(filename)
    }
}

/// URL helpers for media fetched from social platforms. Fetching itself is
/// an outside collaborator's job; the core only checks shapes of URLs.
pub struct SocialMediaParser;

impl SocialMediaParser {
    /// Whether the URL starts with an HTTP or HTTPS scheme.
    pub fn validate_url(url: &str) -> (r: bool)
        ensures
            r == ((url@.len() >= 7 && url@.subrange(0, 7) == "http://"@) || (url@.len() >= 8
                && url@.subrange(0, 8) == "https://"@)),
    {
        proof {
            reveal_strlit("http://");
            reveal_strlit("https://");
        }
        starts_with_str(url, "http://") || starts_with_str(url, "https://")
    }
}

/// Whether `url` belongs to `platform`: it must mention one of the
/// platform's domains; for an unlisted platform it must carry an HTTP or
/// HTTPS scheme.
pub open spec fn spec_url_matches_platform(url: Seq<char>, platform: SocialMediaPlatform) -> bool {
    match platform {
        SocialMediaPlatform::YouTube => spec_contains_str(url, "youtube.com"@)
            || spec_contains_str(url, "youtu.be"@),
        SocialMediaPlatform::Instagram => spec_contains_str(url, "instagram.com"@),
        SocialMediaPlatform::TikTok => spec_contains_str(url, "tiktok.com"@),
        SocialMediaPlatform::Twitter => spec_contains_str(url, "twitter.com"@)
            || spec_contains_str(url, "x.com"@),
        SocialMediaPlatform::Facebook => spec_contains_str(url, "facebook.com"@)
            || spec_contains_str(url, "fb.com"@),
        SocialMediaPlatform::Other(_) => (url.len() >= 7 && url.subrange(0, 7) == "http://"@) || (
        url.len() >= 8 && url.subrange(0, 8) == "https://"@),
    }
}

/// Checks that a URL plausibly belongs to the platform it was declared for.
pub fn validate_social_media_url(url: &str, platform: &SocialMediaPlatform) -> (r: bool)
    ensures
        r == spec_url_matches_platform(url@, *platform),
{
    proof {
        reveal_strlit("http://");
        reveal_strlit("https://");
    }
    match platform {
        SocialMediaPlatform::YouTube => contains_str(url, "youtube.com") || contains_str(
            url,
            "youtu.be",
        ),
        SocialMediaPlatform::Instagram => contains_str(url, "instagram.com"),
        SocialMediaPlatform::TikTok => contains_str(url, "tiktok.com"),
        SocialMediaPlatform::Twitter => contains_str(url, "twitter.com") || contains_str(
            url,
            "x.com",
        ),
        SocialMediaPlatform::Facebook => contains_str(url, "facebook.com") || contains_str(
            url,
            "fb.com",
        ),
        SocialMediaPlatform::Other(_) => starts_with_str(url, "http://") || starts_with_str(
            url,
            "https://",
        ),
    }
}

/// Whether the file name's extension is one the analysis endpoints accept,
/// up to ASCII case.
pub fn validate_file_format(filename: &str) -> (r: bool)
    ensures
        r == {
            let e = spec_extension(filename@);
            ||| eq_ignore_case(e, "jpg"@)
            ||| eq_ignore_case(e, "jpeg"@)
            ||| eq_ignore_case(e, "png"@)
            ||| eq_ignore_case(e, "webp"@)
            ||| eq_ignore_case(e, "gif"@)
            ||| eq_ignore_case(e, "mp4"@)
            ||| eq_ignore_case(e, "avi"@)
            ||| eq_ignore_case(e, "mov"@)
            ||| eq_ignore_case(e, "webm"@)
            ||| eq_ignore_case(e, "mkv"@)
        },
{
    let ext = file_extension(filename);
    str_eq_ignore_case(ext, "jpg") || str_eq_ignore_case(ext, "jpeg") || str_eq_ignore_case(
        ext,
        "png",
    ) || str_eq_ignore_case(ext, "webp") || str_eq_ignore_case(ext, "gif") || str_eq_ignore_case(
        ext,
        "mp4",
    ) || str_eq_ignore_case(ext, "avi") || str_eq_ignore_case(ext, "mov") || str_eq_ignore_case(
        ext,
        "webm",
    ) || str_eq_ignore_case(ext, "mkv")
}

/// The model's input layout: channels, height, width.
pub fn get_model_input_shape() -> (r: (u32, u32, u32))
    ensures
        r == (3u32, MODEL_INPUT_HEIGHT, MODEL_INPUT_WIDTH),
{
    (3, MODEL_INPUT_HEIGHT, MODEL_INPUT_WIDTH)
}


/// Number of set flags in a sequence.
pub open spec fn count_true(s: Seq<bool>) -> int
    decreases s.len(),
{
    if s.len() == 0 {
        0
    } else {
        count_true(s.drop_last()) + if s.last() {
            1int
        } else {
            0int
        }
    }
}

/// Aggregates per-frame outcomes into one video outcome: the mean winning
/// confidence, and whether more than three tenths of the frames were
/// flagged as manipulated. Fails when no frames were analyzed or the two
/// lists disagree in length.
pub fn aggregate_frames(confidences: &Vec<i64>, deepfake_flags: &Vec<bool>) -> (r: Result<
    (i64, bool),
    CoreError,
>)
    ensures
        r is Ok <==> confidences@.len() == deepfake_flags@.len() && confidences@.len() > 0,
        r matches Ok(p) ==> p.0 == clip_i64(
            div_toward_zero(sum_of(confidences@), confidences@.len() as int),
        ) && p.1 == (10 * count_true(deepfake_flags@) > 3 * deepfake_flags@.len()),
        r matches Err(e) ==> e == CoreError::ShapeMismatch,
{
    if confidences.len() != deepfake_flags.len() || confidences.len() == 0 {
        return Err(CoreError::ShapeMismatch);
    }
    let mean = match global_avg_pool(confidences) {
        Ok(v) => v[0],
        Err(e) => {
            return Err(e);
        },
    };
    let mut count: u64 = 0;
    let mut i: usize = 0;
    while i < deepfake_flags.len()
        invariant
            i <= deepfake_flags@.len(),
            count == count_true(deepfake_flags@.take(i as int)),
            count <= i,
        decreases deepfake_flags@.len() - i,
    {
        proof {
            assert(deepfake_flags@.take(i + 1).drop_last() =~= deepfake_flags@.take(i as int));
        }
        if deepfake_flags[i] {
            count = count + 1;
        }
        i = i + 1;
    }
    proof {
        assert(deepfake_flags@.take(deepfake_flags@.len() as int) =~= deepfake_flags@);
    }
    let flagged = 10u128 * (count as u128) > 3u128 * (deepfake_flags.len() as u128);
    Ok((mean, flagged))
}


} // verus!
