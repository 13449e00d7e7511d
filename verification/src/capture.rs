//! The verified half of window capture: validating a captured raw pixel
//! buffer against its reported dimensions and re-encoding it losslessly.
//!
//! The capture call itself acts on an OS window and lives in the outer
//! shell; it hands the raw buffer it obtained to `encode_capture`.

use vstd::prelude::*;
use crate::error::OpError;
use crate::imageio::png_encoded;
use crate::imageio::rgba_from_raw;
use crate::imageio::rgba_raw;
use crate::imageio::encode_png;

verus! {

/// One captured window image: dimensions and a contiguous row-major
/// pixel array, 4 bytes per pixel (RGB plus an alpha channel, the alpha
/// expected opaque but not validated).
pub struct RawPixelBuffer {
    pub width: u32,
    pub height: u32,
    pub pixels: Vec<u8>,
}

impl RawPixelBuffer {
    /// The pixel array holds exactly width × height × 4 bytes.
    pub open spec fn well_formed(self) -> bool {
        self.pixels@.len() == 4 * self.width * self.height
    }

    /// Validates a captured buffer against its reported dimensions. A
    /// pixel count inconsistent with the dimensions is an unrecoverable
    /// capture error, never a partial result.
    pub fn new(width: u32, height: u32, pixels: Vec<u8>) -> (r: Result<RawPixelBuffer, OpError>)
        ensures
            r is Ok <==> pixels@.len() == 4 * width * height,
            (r matches Ok(buf) ==> buf.well_formed() && buf.width == width && buf.height == height
                && buf.pixels@ == pixels@),
            (r matches Err(e) ==> e == OpError::Capture),
    {
        proof {
            assert(4 * (width as nat) * (height as nat) <= 4 * (u32::MAX as nat) * (
            u32::MAX as nat)) by (nonlinear_arith)
                requires
                    width <= u32::MAX,
                    height <= u32::MAX,
            ;
        }
        let expected: u128 = 4u128 * (width as u128) * (height as u128);
        if pixels.len() as u128 == expected {
            Ok(RawPixelBuffer { width, height, pixels })
        } else {
            Err(OpError::Capture)
        }
    }
}

/// What encoding one captured buffer returns: a buffer inconsistent with
/// its dimensions is a capture failure; otherwise the image built over
/// the raw RGBA pixels is encoded as lossless PNG, and an encoder
/// failure is an encoding failure.
pub open spec fn spec_encode_capture(width: u32, height: u32, pixels: Seq<u8>) -> Result<
    Seq<u8>,
    OpError,
> {
    if pixels.len() != 4 * width * height {
        Err(OpError::Capture)
    } else {
        match png_encoded(rgba_raw(width as nat, height as nat, pixels)) {
            None => Err(OpError::Encoding),
            Some(bytes) => Ok(bytes),
        }
    }
}

/// Validates one captured raw buffer and encodes it into a lossless PNG
/// container, preserving exact pixel fidelity for downstream consumers.
pub fn encode_capture(width: u32, height: u32, pixels: Vec<u8>) -> (r: Result<Vec<u8>, OpError>)
    ensures
        (r matches Ok(bytes) ==> spec_encode_capture(width, height, pixels@) == Ok::<
            Seq<u8>,
            OpError,
        >(bytes@)),
        (r matches Err(e) ==> spec_encode_capture(width, height, pixels@) == Err::<
            Seq<u8>,
            OpError,
        >(e)),
        pixels@.len() != 4 * width * height ==> r == Err::<Vec<u8>, OpError>(OpError::Capture),
{
    let buf = match RawPixelBuffer::new(width, height, pixels) {
        Err(e) => {
            return Err(e);
        },
        Ok(buf) => buf,
    };
    let img = match rgba_from_raw(buf.width, buf.height, buf.pixels) {
        None => {
            return Err(OpError::Capture);
        },
        Some(img) => img,
    };
    match encode_png(&img) {
        None => Err(OpError::Encoding),
        Some(bytes) => Ok(bytes),
    }
}

} // verus!
