//! The two converters on real image bytes, end to end in memory.
use webp_batch::error::ConversionError;
use webp_batch::raster::convert_raster;
use webp_batch::vector::convert_vector;

fn png_bytes(width: u32, height: u32) -> Vec<u8> {
    let img = image::RgbaImage::from_pixel(width, height, image::Rgba([10, 200, 30, 255]));
    let mut buf = std::io::Cursor::new(Vec::new());
    image::DynamicImage::ImageRgba8(img)
        .write_to(&mut buf, image::ImageFormat::Png)
        .unwrap();
    buf.into_inner()
}

fn jpeg_bytes(width: u32, height: u32) -> Vec<u8> {
    let img = image::RgbImage::from_pixel(width, height, image::Rgb([120, 60, 200]));
    let mut buf = std::io::Cursor::new(Vec::new());
    image::DynamicImage::ImageRgb8(img)
        .write_to(&mut buf, image::ImageFormat::Jpeg)
        .unwrap();
    buf.into_inner()
}

const SVG_64: &str = "<svg xmlns=\"http://www.w3.org/2000/svg\" width=\"64\" height=\"64\">\
<rect x=\"8\" y=\"8\" width=\"48\" height=\"48\" fill=\"#3050ff\"/></svg>";

#[test]
fn png_becomes_webp_with_same_dimensions() {
    let out = convert_raster(&png_bytes(3, 2)).unwrap();
    assert_eq!(image::guess_format(&out).unwrap(), image::ImageFormat::WebP);
    let decoded = image::load_from_memory(&out).unwrap();
    assert_eq!(decoded.width(), 3);
    assert_eq!(decoded.height(), 2);
}

#[test]
fn jpeg_becomes_webp_with_same_dimensions() {
    let out = convert_raster(&jpeg_bytes(5, 7)).unwrap();
    assert_eq!(image::guess_format(&out).unwrap(), image::ImageFormat::WebP);
    let decoded = image::load_from_memory(&out).unwrap();
    assert_eq!(decoded.width(), 5);
    assert_eq!(decoded.height(), 7);
}

#[test]
fn corrupt_raster_bytes_are_a_decode_error() {
    let err = convert_raster(&vec![1u8, 2, 3, 4, 5]).unwrap_err();
    assert_eq!(err, ConversionError::Decode);
    // A JPEG header with a truncated, damaged body fails the same way.
    let mut broken = jpeg_bytes(5, 7);
    broken.truncate(24);
    let err = convert_raster(&broken).unwrap_err();
    assert_eq!(err, ConversionError::Decode);
}

#[test]
fn raster_conversion_is_deterministic() {
    let input = png_bytes(9, 4);
    let first = convert_raster(&input).unwrap();
    let second = convert_raster(&input).unwrap();
    assert_eq!(first, second);
}

#[test]
fn svg_becomes_png_at_its_declared_size() {
    let out = convert_vector(SVG_64).unwrap();
    assert_eq!(image::guess_format(&out).unwrap(), image::ImageFormat::Png);
    let decoded = image::load_from_memory(&out).unwrap();
    assert_eq!(decoded.width(), 64);
    assert_eq!(decoded.height(), 64);
}

#[test]
fn svg_size_may_round_up_to_a_pixel() {
    let svg = "<svg xmlns=\"http://www.w3.org/2000/svg\" width=\"2.6\" height=\"1\"></svg>";
    let out = convert_vector(svg).unwrap();
    let decoded = image::load_from_memory(&out).unwrap();
    assert_eq!(decoded.width(), 3);
    assert_eq!(decoded.height(), 1);
}

#[test]
fn unparsable_svg_is_a_decode_error() {
    let err = convert_vector("this is not markup").unwrap_err();
    assert_eq!(err, ConversionError::Decode);
    let err = convert_vector("<svg").unwrap_err();
    assert_eq!(err, ConversionError::Decode);
}

#[test]
fn vector_conversion_is_deterministic() {
    let first = convert_vector(SVG_64).unwrap();
    let second = convert_vector(SVG_64).unwrap();
    assert_eq!(first, second);
}

#[test]
fn converted_pixels_survive_the_round_trip() {
    // The rectangle's fill must come back from the encoded PNG; this
    // fails if any stage hands its input through unchanged.
    let out = convert_vector(SVG_64).unwrap();
    let decoded = image::load_from_memory(&out).unwrap().into_rgba8();
    let center = decoded.get_pixel(32, 32);
    assert_eq!(center.0, [0x30, 0x50, 0xff, 0xff]);
    let corner = decoded.get_pixel(1, 1);
    assert_eq!(corner.0[3], 0);
}
