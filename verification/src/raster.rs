//! Raster conversion: PNG/JPEG bytes in, WebP bytes out.
//!
//! Decoding and WebP encoding are done by outside libraries. Both are
//! deterministic functions of their inputs, so their results are named
//! by uninterpreted spec functions: `raster_pixels` for what the decoder
//! yields and `webp_encoding` for what the encoder emits. The conversion
//! pipeline is verified against those names, which makes its output a
//! function of the input bytes alone.
use vstd::prelude::*;

use crate::error::ConversionError;
use crate::pixel::PixelBuffer;
use crate::WEBP_QUALITY;

verus! {

/// The pixels a raster image decodes to: `None` when the bytes are not a
/// decodable image, otherwise the width, the height and the RGBA bytes.
pub uninterp spec fn raster_pixels(bytes: Seq<u8>) -> Option<(nat, nat, Seq<u8>)>;

/// The WebP stream that lossy encoding of an RGBA buffer at the given
/// quality emits.
pub uninterp spec fn webp_encoding(width: nat, height: nat, data: Seq<u8>, quality: u8) -> Seq<u8>;

#[verifier::external_type_specification]
#[verifier::external_body]
pub struct ExImageError(image::ImageError);

/// Relies on `image::load_from_memory`: the format is guessed from the
/// content and decoded, a deterministic function of the bytes alone, and
/// `DynamicImage::into_rgba8` yields exactly `width * height * 4` bytes.
#[verifier::external_body]
fn decode_raster(bytes: &Vec<u8>) -> (r: Result<PixelBuffer, image::ImageError>)
    ensures
        r is Ok <==> raster_pixels(bytes@) is Some,
        r matches Ok(img) ==> raster_pixels(bytes@) == Some(
            ((img.width as nat), (img.height as nat), img.data@),
        ) && img.wf(),
{
    let img = image::load_from_memory(bytes.as_slice())?;
    let width = img.width();
    let height = img.height();
    let data = img.into_rgba8().into_raw();
    Ok(PixelBuffer { width, height, data })
}

/// The dimensions the WebP encoder accepts: both sides between 1 and
/// 16383 pixels.
pub open spec fn webp_dims_ok(width: nat, height: nat) -> bool {
    &&& 1 <= width <= 16383
    &&& 1 <= height <= 16383
}

/// Relies on `webp::Encoder::from_rgba` and `webp::Encoder::encode`:
/// lossy WebP encoding of an RGBA buffer, a deterministic function of the
/// pixels and the quality. The encoder panics on a short buffer, on
/// dimensions outside 1..=16383 and on a quality above 100, so those
/// inputs are excluded here.
#[verifier::external_body]
fn encode_webp(img: &PixelBuffer, quality: u8) -> (r: Vec<u8>)
    requires
        img.wf(),
        webp_dims_ok(img.width as nat, img.height as nat),
        quality <= 100,
    ensures
        r@ == webp_encoding(img.width as nat, img.height as nat, img.data@, quality),
{
    let encoder = webp::Encoder::from_rgba(img.data.as_slice(), img.width, img.height);
    let memory = encoder.encode(quality.into());
    memory.to_vec()
}

/// The WebP stream the raster converter produces for the given input
/// bytes, or `None` when they do not decode to an image the encoder
/// accepts.
pub open spec fn raster_output(bytes: Seq<u8>) -> Option<Seq<u8>> {
    match raster_pixels(bytes) {
        Some(pix) => if webp_dims_ok(pix.0, pix.1) {
            Some(webp_encoding(pix.0, pix.1, pix.2, WEBP_QUALITY))
        } else {
            None
        },
        None => None,
    }
}

/// Converts one raster image: decodes the bytes with the format guessed
/// from their content, and re-encodes the pixels as lossy WebP at the
/// fixed quality.
///
/// Returns the WebP stream exactly when the bytes decode to an image the
/// encoder accepts, and `Decode` otherwise; nothing is written anywhere.
pub fn convert_raster(bytes: &Vec<u8>) -> (r: Result<Vec<u8>, ConversionError>)
    ensures
        (match raster_output(bytes@) {
            Some(out) => r matches Ok(v) && v@ == out,
            None => r == Err::<Vec<u8>, ConversionError>(ConversionError::Decode),
        }),
{
    let img = match decode_raster(bytes) {
        Ok(img) => img,
        Err(_) => {
            return Err(ConversionError::Decode);
        },
    };
    if img.width < 1 || img.width > 16383 || img.height < 1 || img.height > 16383 {
        return Err(ConversionError::Decode);
    }
    Ok(encode_webp(&img, WEBP_QUALITY))
}

/// Law: raster conversion is deterministic. The same input bytes always
/// produce the same WebP stream, so running the conversion twice over an
/// unchanged tree rewrites byte-identical output files.
pub proof fn lemma_raster_deterministic(bytes: Seq<u8>, out1: Seq<u8>, out2: Seq<u8>)
    requires
        raster_output(bytes) == Some(out1),
        raster_output(bytes) == Some(out2),
    ensures
        out1 == out2,
{
}

} // verus!
