//! Trusted boundary to the image and base64 codecs.
//!
//! Every call into the codec crates goes through one of the wrappers
//! here. What a codec computes is far too large to write out, but each
//! result is a function of the wrapper's arguments alone, so each gets a
//! name: an uninterpreted spec function that the wrapper's contract
//! applies. Verified code then reasons about the pipeline as a
//! composition of those names.
//!
//! A decoded image is opaque: nothing is assumed of what it holds beyond
//! the facts stated here. Its whole abstract state (color layout and
//! pixel contents) is summarised by `img_abs`, and its dimensions are
//! read off that state by `width_of` and `height_of`.

use vstd::prelude::*;

verus! {

#[verifier::external_type_specification]
#[verifier::external_body]
pub struct ExDynamicImage(image::DynamicImage);

/// The abstract state of an in-memory image: everything its codec
/// operations depend on (color layout and pixel contents), as one
/// sequence of bytes. Two images with the same abstract state encode,
/// convert and resize identically.
pub uninterp spec fn img_abs(img: image::DynamicImage) -> Seq<u8>;

/// The pixel width recorded in an image's abstract state.
pub uninterp spec fn width_of(abs: Seq<u8>) -> nat;

/// The pixel height recorded in an image's abstract state.
pub uninterp spec fn height_of(abs: Seq<u8>) -> nat;

/// What decoding a byte sequence as PNG yields: `None` when the bytes
/// are not a well-formed PNG image, otherwise the abstract state of the
/// decoded image.
pub uninterp spec fn png_decoded(bytes: Seq<u8>) -> Option<Seq<u8>>;

/// The abstract state of an image after conversion to three-channel RGB
/// (any alpha channel dropped).
pub uninterp spec fn rgb8_of(abs: Seq<u8>) -> Seq<u8>;

/// The abstract state of an image after an aspect-ratio-preserving
/// resize into the given bounds with the Gaussian filter.
pub uninterp spec fn resized(abs: Seq<u8>, nwidth: nat, nheight: nat) -> Seq<u8>;

/// What encoding an image as JPEG yields: `None` on encoder failure,
/// otherwise the encoded bytes.
pub uninterp spec fn jpeg_encoded(abs: Seq<u8>) -> Option<Seq<u8>>;

/// What encoding an image as PNG yields: `None` on encoder failure,
/// otherwise the encoded bytes.
pub uninterp spec fn png_encoded(abs: Seq<u8>) -> Option<Seq<u8>>;

/// The abstract state of the image built over a raw row-major RGBA
/// buffer with the given dimensions.
pub uninterp spec fn rgba_raw(width: nat, height: nat, pixels: Seq<u8>) -> Seq<u8>;

/// What encoding a byte sequence with the standard base64 alphabet
/// (padded, unwrapped) yields.
pub uninterp spec fn base64_std(bytes: Seq<u8>) -> Seq<char>;

/// Relies on `image::load_from_memory_with_format` with the PNG format:
/// whether the bytes decode, and to what image, depends on the bytes
/// alone, and the PNG decoder rejects images with a zero width or
/// height, so a decoded image's dimensions are positive.
#[verifier::external_body]
pub(crate) fn decode_png(bytes: &Vec<u8>) -> (r: Option<image::DynamicImage>)
    ensures
        r is Some <==> png_decoded(bytes@) is Some,
        (r matches Some(img) ==> Some(img_abs(img)) == png_decoded(bytes@) && width_of(
            img_abs(img),
        ) > 0 && height_of(img_abs(img)) > 0),
{
    image::load_from_memory_with_format(bytes.as_slice(), image::ImageFormat::Png).ok()
}

/// Relies on `image::DynamicImage::width`, a pure read of the image's
/// pixel width.
#[verifier::external_body]
pub(crate) fn img_width(img: &image::DynamicImage) -> (w: u32)
    ensures
        w as nat == width_of(img_abs(*img)),
{
    img.width()
}

/// Relies on `image::DynamicImage::height`, a pure read of the image's
/// pixel height.
#[verifier::external_body]
pub(crate) fn img_height(img: &image::DynamicImage) -> (h: u32)
    ensures
        h as nat == height_of(img_abs(*img)),
{
    img.height()
}

/// Relies on `image::DynamicImage::to_rgb8`, which converts to
/// three-channel RGB, dropping any alpha channel and keeping the
/// dimensions, and on the RGB `DynamicImage` constructor.
#[verifier::external_body]
pub(crate) fn to_rgb8(img: &image::DynamicImage) -> (r: image::DynamicImage)
    ensures
        img_abs(r) == rgb8_of(img_abs(*img)),
        width_of(img_abs(r)) == width_of(img_abs(*img)),
        height_of(img_abs(r)) == height_of(img_abs(*img)),
{
    image::DynamicImage::from(img.to_rgb8())
}

/// Relies on `image::DynamicImage::resize` with the Gaussian filter: the
/// result depends on the image and the two bounds alone.
#[verifier::external_body]
pub(crate) fn resize_gaussian(img: &image::DynamicImage, nwidth: u32, nheight: u32) -> (r:
    image::DynamicImage)
    ensures
        img_abs(r) == resized(img_abs(*img), nwidth as nat, nheight as nat),
{
    img.resize(nwidth, nheight, image::imageops::FilterType::Gaussian)
}

/// Relies on `image::DynamicImage::write_to` with the JPEG format: the
/// bytes it writes depend on the image alone.
#[verifier::external_body]
pub(crate) fn encode_jpeg(img: &image::DynamicImage) -> (r: Option<Vec<u8>>)
    ensures
        r is Some <==> jpeg_encoded(img_abs(*img)) is Some,
        (r matches Some(bytes) ==> Some(bytes@) == jpeg_encoded(img_abs(*img))),
{
    let mut out: Vec<u8> = Vec::new();
    let res = img.write_to(&mut std::io::Cursor::new(&mut out), image::ImageFormat::Jpeg);
    match res {
        Ok(()) => Some(out),
        Err(_) => None,
    }
}

/// Relies on `image::DynamicImage::write_to` with the PNG format: the
/// bytes it writes depend on the image alone.
#[verifier::external_body]
pub(crate) fn encode_png(img: &image::DynamicImage) -> (r: Option<Vec<u8>>)
    ensures
        r is Some <==> png_encoded(img_abs(*img)) is Some,
        (r matches Some(bytes) ==> Some(bytes@) == png_encoded(img_abs(*img))),
{
    let mut out: Vec<u8> = Vec::new();
    let res = img.write_to(&mut std::io::Cursor::new(&mut out), image::ImageFormat::Png);
    match res {
        Ok(()) => Some(out),
        Err(_) => None,
    }
}

/// Relies on `image::RgbaImage::from_raw`, which accepts a buffer
/// holding at least width × height × 4 bytes (4 bytes per RGBA pixel),
/// and on the RGBA `DynamicImage` constructor. The built image has
/// exactly the given dimensions.
#[verifier::external_body]
pub(crate) fn rgba_from_raw(width: u32, height: u32, pixels: Vec<u8>) -> (r: Option<
    image::DynamicImage,
>)
    ensures
        4 * (width as nat) * (height as nat) == pixels@.len() ==> r is Some,
        (r matches Some(img) ==> img_abs(img) == rgba_raw(width as nat, height as nat, pixels@)
            && width_of(img_abs(img)) == width as nat && height_of(img_abs(img))
            == height as nat),
{
    match image::RgbaImage::from_raw(width, height, pixels) {
        Some(buf) => Some(image::DynamicImage::ImageRgba8(buf)),
        None => None,
    }
}

/// Relies on the base64 engine with the standard alphabet and padding:
/// the encoding depends on the bytes alone, and four output characters
/// stand for every full or partial group of three input bytes.
#[verifier::external_body]
pub(crate) fn base64_encode(bytes: &Vec<u8>) -> (r: String)
    ensures
        r@ == base64_std(bytes@),
        r@.len() == 4 * ((bytes@.len() + 2) / 3),
{
    base64::Engine::encode(&base64::prelude::BASE64_STANDARD, bytes.as_slice())
}

} // verus!
