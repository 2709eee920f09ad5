//! Trusted boundary to the two pure encoders the subsystem leans on:
//! base64 text encoding and JPEG compression.  Each result is a function of
//! the arguments alone, named by an uninterpreted spec function; everything
//! built on top of these names is verified.
use vstd::prelude::*;

verus! {

/// Largest input length the base64 boundary accepts; far below the point
/// where the encoder's output length could overflow `usize`.
pub const MAX_B64_INPUT: usize = 0x4000_0000;

/// The base64 text (standard alphabet, padded) of a byte sequence.
pub uninterp spec fn b64_of(bytes: Seq<u8>) -> Seq<char>;

/// The JPEG encoding of a raw RGB8 pixel buffer of the given dimensions at
/// the given quality.
pub uninterp spec fn jpeg_of(pixels: Seq<u8>, width: u32, height: u32, quality: u8) -> Seq<u8>;

/// Relies on base64's `Engine::encode` with the `STANDARD` engine: the
/// output depends on the input bytes alone, and with padding its length is
/// four characters for every started group of three bytes.
#[verifier::external_body]
pub(crate) fn b64_encode(bytes: &[u8]) -> (r: String)
    requires
        bytes@.len() <= MAX_B64_INPUT,
    ensures
        r@ == b64_of(bytes@),
        r@.len() == 4 * ((bytes@.len() + 2) / 3),
{
    base64::Engine::encode(&base64::engine::general_purpose::STANDARD, bytes)
}

/// Relies on image's `ImageBuffer::from_raw` (Some exactly when the buffer
/// holds the raw pixels for the dimensions) and `JpegEncoder::encode_image`
/// at the given quality: the encoded bytes depend on the pixels, the
/// dimensions and the quality alone.  The encoder fails exactly when a
/// dimension is zero or above 65535 — writing into an in-memory buffer
/// cannot fail — so with a matching pixel buffer this returns Some on
/// precisely the in-range dimensions.
#[verifier::external_body]
pub(crate) fn jpeg_encode_rgb(pixels: Vec<u8>, width: u32, height: u32, quality: u8) -> (r: Option<
    Vec<u8>,
>)
    requires
        pixels@.len() == 3 * width * height,
    ensures
        r matches Some(j) ==> j@ == jpeg_of(pixels@, width, height, quality),
        (r is Some) <==> (1 <= width <= 65535 && 1 <= height <= 65535),
{
    let img = match image::ImageBuffer::<image::Rgb<u8>, Vec<u8>>::from_raw(width, height, pixels) {
        Some(i) => i,
        None => return None,
    };
    let mut cur = std::io::Cursor::new(Vec::new());
    match image::codecs::jpeg::JpegEncoder::new_with_quality(&mut cur, quality).encode_image(&img) {
        Ok(()) => Some(cur.into_inner()),
        Err(_) => None,
    }
}

} // verus!
