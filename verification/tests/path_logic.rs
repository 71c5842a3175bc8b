//! Path mapping, extension dispatch and error texts on concrete values.
use webp_batch::driver::{classify_extension, eligible_name, plan_path, FormatKind};
use webp_batch::error::ConversionError;
use webp_batch::paths::{extension, file_name, file_stem, parent_dir, resolve_output};

fn bytes(s: &str) -> Vec<u8> {
    s.as_bytes().to_vec()
}

#[test]
fn nested_path_is_mirrored() {
    let plan = plan_path(&bytes("images/x/y/pic.png")).unwrap();
    assert_eq!(plan.kind, FormatKind::Raster);
    assert_eq!(plan.out.dir, bytes("output/images/x/y"));
    assert_eq!(plan.out.file, bytes("output/images/x/y/pic.webp"));
}

#[test]
fn svg_path_gets_webp_name() {
    let plan = plan_path(&bytes("images/icons/logo.svg")).unwrap();
    assert_eq!(plan.kind, FormatKind::Vector);
    assert_eq!(plan.out.dir, bytes("output/images/icons"));
    assert_eq!(plan.out.file, bytes("output/images/icons/logo.webp"));
}

#[test]
fn jpeg_paths_are_raster() {
    let plan = plan_path(&bytes("images/photos/a.jpg")).unwrap();
    assert_eq!(plan.kind, FormatKind::Raster);
    assert_eq!(plan.out.file, bytes("output/images/photos/a.webp"));
    let plan = plan_path(&bytes("images/photos/b.jpeg")).unwrap();
    assert_eq!(plan.kind, FormatKind::Raster);
    assert_eq!(plan.out.file, bytes("output/images/photos/b.webp"));
}

#[test]
fn unrecognized_extension_is_rejected() {
    let err = plan_path(&bytes("images/anim.gif")).unwrap_err();
    assert_eq!(err, ConversionError::UnsupportedFormat);
}

#[test]
fn uppercase_extension_is_rejected() {
    // The extension match is case-sensitive.
    let err = plan_path(&bytes("images/pic.PNG")).unwrap_err();
    assert_eq!(err, ConversionError::UnsupportedFormat);
}

#[test]
fn missing_extension_is_rejected() {
    let err = plan_path(&bytes("images/noext")).unwrap_err();
    assert_eq!(err, ConversionError::MissingExtension);
    let err = plan_path(&bytes("images/.hidden")).unwrap_err();
    assert_eq!(err, ConversionError::MissingExtension);
}

#[test]
fn classify_matches_the_recognized_set() {
    assert_eq!(classify_extension(&bytes("svg")), Some(FormatKind::Vector));
    assert_eq!(classify_extension(&bytes("png")), Some(FormatKind::Raster));
    assert_eq!(classify_extension(&bytes("jpg")), Some(FormatKind::Raster));
    assert_eq!(classify_extension(&bytes("jpeg")), Some(FormatKind::Raster));
    assert_eq!(classify_extension(&bytes("gif")), None);
    assert_eq!(classify_extension(&bytes("")), None);
}

#[test]
fn path_parts_follow_stem_and_extension_rules() {
    let p = bytes("images/a/b/pic.png");
    assert_eq!(parent_dir(&p), bytes("images/a/b"));
    assert_eq!(file_name(&p), bytes("pic.png"));
    assert_eq!(file_stem(&p), bytes("pic"));
    assert_eq!(extension(&p), Some(bytes("png")));

    let bare = bytes("pic.png");
    assert_eq!(parent_dir(&bare), bytes(""));
    assert_eq!(file_name(&bare), bytes("pic.png"));

    let dotfile = bytes("images/.bashrc");
    assert_eq!(extension(&dotfile), None);
    assert_eq!(file_stem(&dotfile), bytes(".bashrc"));

    let trailing_dot = bytes("images/foo.");
    assert_eq!(extension(&trailing_dot), Some(bytes("")));
    assert_eq!(file_stem(&trailing_dot), bytes("foo"));
}

#[test]
fn resolve_output_mirrors_and_renames() {
    let loc = resolve_output(&bytes("images/x/y/pic.png")).unwrap();
    assert_eq!(loc.dir, bytes("output/images/x/y"));
    assert_eq!(loc.file, bytes("output/images/x/y/pic.webp"));

    let loc = resolve_output(&bytes("pic.png")).unwrap();
    assert_eq!(loc.dir, bytes("output/"));
    assert_eq!(loc.file, bytes("output//pic.webp"));

    let err = resolve_output(&bytes("images/dir/")).unwrap_err();
    assert_eq!(err, ConversionError::MissingExtension);
    let err = resolve_output(&bytes("")).unwrap_err();
    assert_eq!(err, ConversionError::MissingExtension);
}

#[test]
fn eligible_names_need_a_stem_and_a_dot() {
    assert!(eligible_name(&bytes("logo.svg")));
    assert!(eligible_name(&bytes("a.")));
    assert!(!eligible_name(&bytes(".hidden")));
    assert!(!eligible_name(&bytes(".svg")));
    assert!(!eligible_name(&bytes("plain")));
    assert!(!eligible_name(&bytes("a")));
    assert!(!eligible_name(&bytes("")));
}

#[test]
fn error_texts_name_the_cause() {
    assert_eq!(ConversionError::Enumeration.text(), "cannot read directory entry");
    assert_eq!(ConversionError::Decode.text(), "cannot decode image");
    assert_eq!(ConversionError::Io.text(), "cannot read or write file");
    assert_eq!(ConversionError::UnsupportedFormat.text(), "wrong format");
    assert_eq!(ConversionError::MissingExtension.text(), "missing file extension");
}
