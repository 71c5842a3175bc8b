//! Vector conversion: SVG text in, PNG bytes out.
//!
//! Parsing yields the document's intrinsic size, a deterministic
//! function of the text alone, named by `svg_intrinsic_size`. The
//! rendered pixels come out of an opaque document tree, so they carry no
//! name; what is verified of them is their dimensions. PNG encoding of a
//! pixel buffer is again a deterministic function of plain values, named
//! by `png_encoding`.
use vstd::prelude::*;

use crate::error::ConversionError;
use crate::pixel::PixelBuffer;

verus! {

/// The intrinsic size an SVG document declares: `None` when the text is
/// not parsable SVG, otherwise its width and height in whole pixels,
/// both at least 1.
pub uninterp spec fn svg_intrinsic_size(text: Seq<char>) -> Option<(nat, nat)>;

/// The PNG stream that encoding a premultiplied RGBA buffer emits.
pub uninterp spec fn png_encoding(width: nat, height: nat, data: Seq<u8>) -> Seq<u8>;

#[verifier::external_type_specification]
#[verifier::external_body]
pub struct ExSvgTree(resvg::usvg::Tree);

#[verifier::external_type_specification]
#[verifier::external_body]
pub struct ExSvgError(resvg::usvg::Error);

/// A parsed SVG document together with its intrinsic pixel size.
pub struct SvgDoc {
    /// The parsed document tree, opaque to the contracts.
    pub tree: resvg::usvg::Tree,
    /// The intrinsic width in pixels, at least 1.
    pub width: u32,
    /// The intrinsic height in pixels, at least 1.
    pub height: u32,
}

/// Relies on `usvg::Tree::from_str` with default options: parsing and
/// the intrinsic size depend on the SVG text alone (the default options
/// load no system fonts), and `Size::to_int_size` rounds each side to a
/// whole number of pixels, never below 1.
#[verifier::external_body]
fn parse_svg(text: &str) -> (r: Result<SvgDoc, resvg::usvg::Error>)
    ensures
        r is Ok <==> svg_intrinsic_size(text@) is Some,
        r matches Ok(doc) ==> svg_intrinsic_size(text@) == Some(
            ((doc.width as nat), (doc.height as nat)),
        ) && doc.width >= 1 && doc.height >= 1,
{
    let options = resvg::usvg::Options::default();
    let tree = resvg::usvg::Tree::from_str(text, &options)?;
    let size = tree.size().to_int_size();
    let width = size.width();
    let height = size.height();
    Ok(SvgDoc { tree, width, height })
}

/// Relies on `tiny_skia::Pixmap::new` and `resvg::render`: a fresh
/// pixmap of the document's intrinsic size holds `width * height * 4`
/// premultiplied RGBA bytes, and rendering with the identity transform
/// fills it without changing its size. `None` only when the pixmap
/// cannot be made (a side of 0 or a size beyond the library's limit);
/// with both sides between 1 and 16383 the allocation always succeeds.
#[verifier::external_body]
fn rasterize_svg(doc: &SvgDoc) -> (r: Option<PixelBuffer>)
    ensures
        r matches Some(img) ==> img.width == doc.width && img.height == doc.height && img.wf(),
        1 <= doc.width <= 16383 && 1 <= doc.height <= 16383 ==> r is Some,
{
    let mut pixmap = resvg::tiny_skia::Pixmap::new(doc.width, doc.height)?;
    resvg::render(&doc.tree, resvg::tiny_skia::Transform::default(), &mut pixmap.as_mut());
    Some(PixelBuffer { width: doc.width, height: doc.height, data: pixmap.take() })
}

/// Relies on `tiny_skia::Pixmap::from_vec` and `Pixmap::encode_png`:
/// PNG encoding of a premultiplied RGBA buffer, a deterministic function
/// of the pixels and the dimensions. A well-formed buffer encodes
/// whenever each side is between 1 and 536870911: `from_vec` demands a
/// row of width*4 bytes counted in a 32-bit signed integer and a length
/// equal to width*height*4, and the encoder writes 8-bit RGBA of a
/// non-zero size into a vector, which cannot fail.
#[verifier::external_body]
fn encode_png(img: &PixelBuffer) -> (r: Option<Vec<u8>>)
    ensures
        r matches Some(v) ==> v@ == png_encoding(img.width as nat, img.height as nat, img.data@),
        img.wf() && 1 <= img.width <= 536870911 && 1 <= img.height <= 536870911 ==> r is Some,
{
    let size = resvg::tiny_skia::IntSize::from_wh(img.width, img.height)?;
    let pixmap = resvg::tiny_skia::Pixmap::from_vec(img.data.clone(), size)?;
    pixmap.encode_png().ok()
}

/// Converts one vector image: parses the text as SVG, rasterizes it at
/// its intrinsic size with the identity transform, and encodes the
/// pixels as PNG (the output file still gets the `.webp` name, a quirk
/// kept on purpose).
///
/// Unparsable text is rejected with `Decode`; success is owed whenever
/// the intrinsic size is at most 16383 pixels on each side; on success
/// the output is the PNG encoding of a buffer with exactly the
/// document's intrinsic dimensions; nothing is written anywhere.
pub fn convert_vector(text: &str) -> (r: Result<Vec<u8>, ConversionError>)
    ensures
        (match svg_intrinsic_size(text@) {
            Some(dims) => {
                &&& match r {
                    Ok(v) => exists|data: Seq<u8>|
                        data.len() == dims.0 * dims.1 * 4 && v@ == #[trigger] png_encoding(
                            dims.0,
                            dims.1,
                            data,
                        ),
                    Err(e) => e == ConversionError::Decode,
                }
                &&& (1 <= dims.0 <= 16383 && 1 <= dims.1 <= 16383) ==> r is Ok
            },
            None => r == Err::<Vec<u8>, ConversionError>(ConversionError::Decode),
        }),
{
    let doc = match parse_svg(text) {
        Ok(doc) => doc,
        Err(_) => {
            return Err(ConversionError::Decode);
        },
    };
    let img = match rasterize_svg(&doc) {
        Some(img) => img,
        None => {
            return Err(ConversionError::Decode);
        },
    };
    match encode_png(&img) {
        Some(v) => {
            proof {
                let dims = svg_intrinsic_size(text@).unwrap();
                assert(v@ == png_encoding(dims.0, dims.1, img.data@));
            }
            Ok(v)
        },
        None => Err(ConversionError::Decode),
    }
}

} // verus!
