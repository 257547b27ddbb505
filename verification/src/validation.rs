//! Input validation: image headers, fragment ordinals, batch sizes.

use vstd::prelude::*;

use crate::errors::CoreError;

verus! {

/// Largest accepted image, in bytes.
pub const MAX_IMAGE_SIZE: usize = 10 * 1024 * 1024;

/// Smallest accepted image, in bytes.
pub const MIN_IMAGE_SIZE: usize = 1024;

/// Smallest accepted assembly batch.
pub const MIN_BATCH_SIZE: u32 = 1;

/// Largest accepted assembly batch.
pub const MAX_BATCH_SIZE: u32 = 200;

/// Largest fragment size the upload planner will pick, in bytes.
pub const MAX_CHUNK_SIZE: usize = 800 * 1024;

/// Smallest fragment size the upload planner will pick, in bytes.
pub const MIN_CHUNK_SIZE: usize = 100 * 1024;

/// Whether the bytes begin with the PNG signature.
pub open spec fn is_png(data: Seq<u8>) -> bool {
    &&& data.len() >= 8
    &&& data[0] == 0x89u8
    &&& data[1] == 0x50u8
    &&& data[2] == 0x4Eu8
    &&& data[3] == 0x47u8
    &&& data[4] == 0x0Du8
    &&& data[5] == 0x0Au8
    &&& data[6] == 0x1Au8
    &&& data[7] == 0x0Au8
}

/// Whether the bytes begin with the JPEG signature.
pub open spec fn is_jpeg(data: Seq<u8>) -> bool {
    &&& data.len() >= 3
    &&& data[0] == 0xFFu8
    &&& data[1] == 0xD8u8
    &&& data[2] == 0xFFu8
}

/// Why an image buffer was rejected.
#[derive(Debug, Clone, Copy, PartialEq, Eq, Structural)]
pub enum ImageValidationError {
    /// The buffer holds no bytes.
    Empty,
    /// The buffer is shorter than [`MIN_IMAGE_SIZE`].
    TooSmall,
    /// The buffer is longer than [`MAX_IMAGE_SIZE`].
    TooLarge,
    /// The buffer starts with neither a PNG nor a JPEG signature.
    UnsupportedFormat,
}

/// Recognizes the supported image container signatures (PNG and JPEG);
/// anything shorter than eight bytes is rejected.
pub fn is_supported_format(data: &[u8]) -> (r: bool)
    ensures
        r == (data@.len() >= 8 && (is_png(data@) || is_jpeg(data@))),
{
    if data.len() < 8 {
        return false;
    }
    if data[0] == 0x89 && data[1] == 0x50 && data[2] == 0x4E && data[3] == 0x47 && data[4] == 0x0D
        && data[5] == 0x0A && data[6] == 0x1A && data[7] == 0x0A {
        return true;
    }
    data[0] == 0xFF && data[1] == 0xD8 && data[2] == 0xFF
}

/// Checks that an image buffer is non-empty, within the accepted size
/// range, and starts with a supported container signature.
pub fn validate_image_data(data: &[u8]) -> (r: Result<(), ImageValidationError>)
    ensures
        match r {
            Ok(()) => MIN_IMAGE_SIZE <= data@.len() <= MAX_IMAGE_SIZE && (is_png(data@) || is_jpeg(
                data@,
            )),
            Err(e) => e == (if data@.len() == 0 {
                ImageValidationError::Empty
            } else if data@.len() < MIN_IMAGE_SIZE {
                ImageValidationError::TooSmall
            } else if data@.len() > MAX_IMAGE_SIZE {
                ImageValidationError::TooLarge
            } else {
                ImageValidationError::UnsupportedFormat
            }),
        },
        r is Ok <==> MIN_IMAGE_SIZE <= data@.len() <= MAX_IMAGE_SIZE && (is_png(data@) || is_jpeg(
            data@,
        )),
{
    if data.len() == 0 {
        return Err(ImageValidationError::Empty);
    }
    if data.len() < MIN_IMAGE_SIZE {
        return Err(ImageValidationError::TooSmall);
    }
    if data.len() > MAX_IMAGE_SIZE {
        return Err(ImageValidationError::TooLarge);
    }
    if !is_supported_format(data) {
        return Err(ImageValidationError::UnsupportedFormat);
    }
    Ok(())
}

/// Rejects a fragment ordinal at or beyond the declared fragment count.
pub fn validate_chunk_id(chunk_id: u32, total_chunks: u32) -> (r: Result<(), CoreError>)
    ensures
        r is Ok <==> chunk_id < total_chunks,
        r matches Err(e) ==> e == CoreError::InvalidOrdinal(chunk_id),
{
    if chunk_id >= total_chunks {
        return Err(CoreError::InvalidOrdinal(chunk_id));
    }
    Ok(())
}

/// Rejects a batch size outside `[MIN_BATCH_SIZE, MAX_BATCH_SIZE]`.
pub fn validate_batch_size(batch_size: u32) -> (r: Result<(), CoreError>)
    ensures
        r is Ok <==> MIN_BATCH_SIZE <= batch_size <= MAX_BATCH_SIZE,
        r matches Err(e) ==> e == CoreError::InvalidBatchSize,
{
    if batch_size < MIN_BATCH_SIZE {
        return Err(CoreError::InvalidBatchSize);
    }
    if batch_size > MAX_BATCH_SIZE {
        return Err(CoreError::InvalidBatchSize);
    }
    Ok(())
}

/// Default assembly batch size for a declared fragment count: larger counts
/// get larger batches, capped to bound per-call work.
pub fn calculate_optimal_batch_size(total_chunks: u32) -> (r: u32)
    ensures
        r == (if total_chunks <= 200 {
            50u32
        } else if total_chunks <= 350 {
            75u32
        } else {
            100u32
        }),
        MIN_BATCH_SIZE <= r <= MAX_BATCH_SIZE,
{
    if total_chunks <= 200 {
        50
    } else if total_chunks <= 350 {
        75
    } else {
        100
    }
}

/// Number of fragments needed to cover `total_size` bytes at
/// [`MAX_CHUNK_SIZE`] bytes each, rounding up.
pub open spec fn chunk_count_for(total_size: usize) -> int {
    total_size as int / MAX_CHUNK_SIZE as int + if total_size as int % MAX_CHUNK_SIZE as int
        == 0 {
        0int
    } else {
        1int
    }
}

/// Fragment size to cut a payload of `total_size` bytes into: the whole
/// payload when it fits one fragment, otherwise an even cut clamped to
/// `[MIN_CHUNK_SIZE, MAX_CHUNK_SIZE]`.
pub fn calculate_optimal_chunk_size(total_size: usize) -> (r: usize)
    ensures
        total_size <= MAX_CHUNK_SIZE ==> r == total_size,
        total_size > MAX_CHUNK_SIZE ==> {
            let even = total_size as int / chunk_count_for(total_size);
            r == (if even < MIN_CHUNK_SIZE as int {
                MIN_CHUNK_SIZE as int
            } else if even > MAX_CHUNK_SIZE as int {
                MAX_CHUNK_SIZE as int
            } else {
                even
            })
        },
{
    if total_size <= MAX_CHUNK_SIZE {
        return total_size;
    }
    let num_chunks = total_size / MAX_CHUNK_SIZE + (if total_size % MAX_CHUNK_SIZE == 0 {
        0
    } else {
        1
    });
    let optimal = total_size / num_chunks;
    if optimal < MIN_CHUNK_SIZE {
        MIN_CHUNK_SIZE
    } else if optimal > MAX_CHUNK_SIZE {
        MAX_CHUNK_SIZE
    } else {
        optimal
    }
}

} // verus!
