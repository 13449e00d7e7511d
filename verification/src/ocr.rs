//! The image pre-processing pipeline: rescale a captured lossless image
//! to a target height and re-encode it for transport to a text
//! recognition engine.

use vstd::prelude::*;
use crate::error::OpError;
use crate::imageio::base64_encode;
use crate::imageio::base64_std;
use crate::imageio::decode_png;
use crate::imageio::encode_jpeg;
use crate::imageio::height_of;
use crate::imageio::img_height;
use crate::imageio::img_width;
use crate::imageio::jpeg_encoded;
use crate::imageio::png_decoded;
use crate::imageio::resize_gaussian;
use crate::imageio::resized;
use crate::imageio::rgb8_of;
use crate::imageio::to_rgb8;
use crate::imageio::width_of;

verus! {

/// The width the pipeline scales to: the original width divided by the
/// uniform scale factor height ÷ target height — that is,
/// width · target height ÷ height, rounded down — saturated at the
/// largest representable width.
pub open spec fn spec_scaled_width(width: nat, height: nat, target_height: nat) -> nat {
    let exact = width * target_height / height;
    if exact > u32::MAX as nat {
        u32::MAX as nat
    } else {
        exact
    }
}

/// Computes the dimensions the pipeline hands to the resize step: the
/// height becomes the target height exactly, and the width is divided by
/// the same uniform scale factor, so the aspect ratio is preserved up to
/// rounding.
pub fn scaled_dimensions(width: u32, height: u32, target_height: u32) -> (r: (u32, u32))
    requires
        height > 0,
        target_height > 0,
    ensures
        r.0 as nat == spec_scaled_width(width as nat, height as nat, target_height as nat),
        r.1 == target_height,
{
    proof {
        assert((width as nat) * (target_height as nat) <= (u32::MAX as nat) * (u32::MAX as nat))
            by (nonlinear_arith)
            requires
                width <= u32::MAX,
                target_height <= u32::MAX,
        ;
    }
    let prod: u64 = (width as u64) * (target_height as u64);
    let q: u64 = prod / (height as u64);
    if q > u32::MAX as u64 {
        (u32::MAX, target_height)
    } else {
        (q as u32, target_height)
    }
}

/// The scaled width is the exactly-rational width rounded down: as long
/// as it needs no saturation, it is the unique w' with
/// w'·height ≤ width·target < (w' + 1)·height, so the dimensions handed
/// to the resize step preserve the input aspect ratio within one pixel
/// of rounding.
pub proof fn lemma_scaled_dimensions_aspect(width: nat, height: nat, target_height: nat)
    requires
        height > 0,
        width * target_height / height <= u32::MAX as nat,
    ensures
        spec_scaled_width(width, height, target_height) * height <= width * target_height,
        width * target_height < (spec_scaled_width(width, height, target_height) + 1) * height,
{
    let p = width * target_height;
    let q = p / height;
    let m = p % height;
    vstd::arithmetic::div_mod::lemma_fundamental_div_mod(p as int, height as int);
    vstd::arithmetic::div_mod::lemma_mod_bound(p as int, height as int);
    assert(q * height <= p && p < (q + 1) * height) by (nonlinear_arith)
        requires
            p == height * q + m,
            0 <= m < height,
    ;
}

/// What the whole pipeline returns for given input bytes and target
/// height: a zero target is rejected before any division; bytes that are
/// not a valid PNG are a decode failure; otherwise the image is
/// normalized to RGB, resized into the scaled dimensions, re-encoded as
/// JPEG (an encoder failure is an encoding failure), and the JPEG bytes
/// are base64-encoded.
pub open spec fn spec_prepare(bytes: Seq<u8>, target_height: u32) -> Result<Seq<char>, OpError> {
    if target_height == 0 {
        Err(OpError::InvalidTarget)
    } else {
        match png_decoded(bytes) {
            None => Err(OpError::Decode),
            Some(abs) => {
                let rgb = rgb8_of(abs);
                let scaled_width = spec_scaled_width(
                    width_of(rgb),
                    height_of(rgb),
                    target_height as nat,
                );
                match jpeg_encoded(resized(rgb, scaled_width, target_height as nat)) {
                    None => Err(OpError::Encoding),
                    Some(jpeg) => Ok(base64_std(jpeg)),
                }
            },
        }
    }
}

/// Converts one captured lossless image into recognition-engine input:
/// decode, drop alpha, rescale to the target height preserving aspect
/// ratio, re-encode as lossy JPEG, and wrap in text-safe base64.
///
/// The result is pinned to `spec_prepare`, a function of the input bytes
/// and the target height alone, so the pipeline is deterministic.
pub fn prepare_screenshot_for_ocr(bytes_png: &Vec<u8>, target_height: u32) -> (r: Result<
    String,
    OpError,
>)
    ensures
        (r matches Ok(text) ==> spec_prepare(bytes_png@, target_height) == Ok::<
            Seq<char>,
            OpError,
        >(text@)),
        (r matches Err(e) ==> spec_prepare(bytes_png@, target_height) == Err::<
            Seq<char>,
            OpError,
        >(e)),
        target_height == 0 ==> r == Err::<String, OpError>(OpError::InvalidTarget),
        target_height > 0 && png_decoded(bytes_png@) is None ==> r == Err::<String, OpError>(
            OpError::Decode,
        ),
{
    if target_height == 0 {
        return Err(OpError::InvalidTarget);
    }
    let decoded = match decode_png(bytes_png) {
        None => {
            return Err(OpError::Decode);
        },
        Some(img) => img,
    };
    let rgb = to_rgb8(&decoded);
    let width = img_width(&rgb);
    let height = img_height(&rgb);
    let (scaled_width, scaled_height) = scaled_dimensions(width, height, target_height);
    let scaled = resize_gaussian(&rgb, scaled_width, scaled_height);
    match encode_jpeg(&scaled) {
        None => Err(OpError::Encoding),
        Some(jpeg) => Ok(base64_encode(&jpeg)),
    }
}

/// The pipeline is deterministic: two results that the contract of
/// `prepare_screenshot_for_ocr` admits for identical arguments are
/// identical.
pub proof fn lemma_prepare_deterministic(
    bytes: Seq<u8>,
    target_height: u32,
    r1: Result<Seq<char>, OpError>,
    r2: Result<Seq<char>, OpError>,
)
    requires
        r1 == spec_prepare(bytes, target_height),
        r2 == spec_prepare(bytes, target_height),
    ensures
        r1 == r2,
{
}

} // verus!
