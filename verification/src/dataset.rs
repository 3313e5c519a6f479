//! Indexed, resolution-normalized access to the stored training pairs.
//!
//! The sample count is a fixed configured contract: the epoch and batch
//! arithmetic of the trainer depends on it, so a missing or undecodable
//! file at a valid index is fatal to the run (the caller propagates it; the
//! length never silently shrinks). Decoding the files is I/O and stays with
//! the caller; the resampling of a decoded image to the canonical 224 x 224
//! resolution lives here.

use crate::img::RgbBuf;
use vstd::prelude::*;

verus! {

/// The stored dataset: a directory holding `truth/{index}.png` and
/// `transformed/{index}.png` for every index below `count`.
pub struct ImageSet {
    pub path: String,
    pub count: usize,
}

impl ImageSet {
    pub fn new(path: String, count: usize) -> (s: Self)
        ensures
            s.count == count,
            s.path@ == path@,
    {
        ImageSet { path, count }
    }

    /// The fixed configured sample count.
    pub fn len(&self) -> (n: usize)
        ensures
            n == self.count,
    {
        self.count
    }
}

#[verifier::external_type_specification]
#[verifier::external_body]
pub struct ExDynamicImage(image::DynamicImage);

/// Relies on image::DynamicImage::resize_exact with the Lanczos3 filter:
/// the result has exactly the requested dimensions; and on into_rgb8 /
/// into_raw: three bytes per pixel, row-major.
#[verifier::external_body]
pub fn normalize_to_224(img: image::DynamicImage) -> (r: RgbBuf)
    ensures
        r.wf(),
        r.width == 224,
        r.height == 224,
{
    let resized = img.resize_exact(224, 224, image::imageops::FilterType::Lanczos3);
    let rgb = resized.into_rgb8();
    RgbBuf { width: 224, height: 224, pixels: rgb.into_raw() }
}

} // verus!
