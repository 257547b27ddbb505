//! Request-level helpers for the analysis endpoints.

use vstd::prelude::*;

use crate::validation::{is_png, is_jpeg, validate_image_data, MAX_IMAGE_SIZE, MIN_IMAGE_SIZE};
use vstd::string::StringExecFns;

verus! {

/// Whether an uploaded buffer passes image validation: non-empty, within
/// the accepted size range, and a supported container signature.
pub fn handle_validate_image_format(image_data: Vec<u8>) -> (r: bool)
    ensures
        r == (MIN_IMAGE_SIZE <= image_data@.len() <= MAX_IMAGE_SIZE && (is_png(image_data@)
            || is_jpeg(image_data@))),
{
    validate_image_data(image_data.as_slice()).is_ok()
}

/// The image container formats the analysis endpoints accept.
pub fn handle_get_supported_formats() -> (r: Vec<String>)
    ensures
        r@.len() == 3,
        r@[0]@ == "PNG"@,
        r@[1]@ == "JPEG"@,
        r@[2]@ == "JPG"@,
{
    let mut v: Vec<String> = Vec::new();
    v.push(String::from_str("PNG"));
    v.push(String::from_str("JPEG"));
    v.push(String::from_str("JPG"));
    v
}

} // verus!
