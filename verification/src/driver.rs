//! Per-file driver decisions: which converter handles a path, and where
//! its output goes.
//!
//! The choice goes by the extension alone, with a case-sensitive exact
//! match: `svg` is vector input, `png`, `jpg` and `jpeg` are raster
//! input, anything else is unsupported, and a path without an extension
//! is rejected without crashing the run.
use vstd::prelude::*;

use crate::error::ConversionError;
use crate::paths::{
    ext_of, extension, name_of, output_dir_of, output_file_of, resolve_output, OutputLocation,
    DOT,
};

verus! {

/// Which converter a recognized file is handed to.
#[derive(Clone, Copy, Debug, PartialEq, Eq, Structural)]
pub enum FormatKind {
    /// SVG markup, parsed and rasterized at its intrinsic size.
    Vector,
    /// PNG or JPEG bytes, decoded by content and re-encoded as WebP.
    Raster,
}

/// The extension naming vector input: `svg`.
pub open spec fn svg_ext() -> Seq<u8> {
    seq![115u8, 118u8, 103u8]
}

/// The extensions naming raster input: `png`, `jpg` and `jpeg`.
pub open spec fn is_raster_ext(e: Seq<u8>) -> bool {
    ||| e == seq![112u8, 110u8, 103u8]
    ||| e == seq![106u8, 112u8, 103u8]
    ||| e == seq![106u8, 112u8, 101u8, 103u8]
}

/// The converter for extension `e`, or `None` when `e` is recognized by
/// no converter.
pub open spec fn classify_spec(e: Seq<u8>) -> Option<FormatKind> {
    if e == svg_ext() {
        Some(FormatKind::Vector)
    } else if is_raster_ext(e) {
        Some(FormatKind::Raster)
    } else {
        None
    }
}

/// True when two byte vectors hold the same bytes.
fn bytes_eq(a: &Vec<u8>, b: &Vec<u8>) -> (r: bool)
    ensures
        r <==> a@ == b@,
{
    if a.len() != b.len() {
        assert(a@ != b@);
        return false;
    }
    let n = a.len();
    let mut k: usize = 0;
    while k < n
        invariant
            k <= n,
            n == a@.len() == b@.len(),
            forall|j: int| 0 <= j < k ==> a@[j] == b@[j],
        decreases n - k,
    {
        if a[k] != b[k] {
            return false;
        }
        k = k + 1;
    }
    assert(a@ =~= b@);
    true
}

/// A byte vector holding the given three bytes.
fn bytes3(a: u8, b: u8, c: u8) -> (r: Vec<u8>)
    ensures
        r@ == seq![a, b, c],
{
    let mut r: Vec<u8> = Vec::new();
    r.push(a);
    r.push(b);
    r.push(c);
    assert(r@ =~= seq![a, b, c]);
    r
}

/// The converter for extension `ext`, as `classify_spec` gives it.
pub fn classify_extension(ext: &Vec<u8>) -> (r: Option<FormatKind>)
    ensures
        r == classify_spec(ext@),
{
    let svg = bytes3(115, 118, 103);
    if bytes_eq(ext, &svg) {
        return Some(FormatKind::Vector);
    }
    let png = bytes3(112, 110, 103);
    if bytes_eq(ext, &png) {
        return Some(FormatKind::Raster);
    }
    let jpg = bytes3(106, 112, 103);
    if bytes_eq(ext, &jpg) {
        return Some(FormatKind::Raster);
    }
    let mut jpeg = bytes3(106, 112, 101);
    jpeg.push(103);
    assert(jpeg@ =~= seq![106u8, 112u8, 101u8, 103u8]);
    if bytes_eq(ext, &jpeg) {
        return Some(FormatKind::Raster);
    }
    None
}

/// Everything the driver decides about one enumerated path: the converter
/// to run and the output location to write to.
#[derive(Debug)]
pub struct ConversionPlan {
    /// The converter chosen by the path's extension.
    pub kind: FormatKind,
    /// The mirrored output directory and file for the path.
    pub out: OutputLocation,
}

/// An extension exists only inside a non-empty file name.
proof fn lemma_ext_needs_name(p: Seq<u8>)
    requires
        ext_of(p) is Some,
    ensures
        name_of(p).len() > 0,
{
    crate::paths::lemma_last_index(name_of(p), DOT);
}

/// Decides how one enumerated path is converted.
///
/// A path without an extension is rejected with `MissingExtension`; one
/// whose extension no converter recognizes is rejected with
/// `UnsupportedFormat`; otherwise the plan names the chosen converter and
/// the mirrored output location.
pub fn plan_path(path: &Vec<u8>) -> (r: Result<ConversionPlan, ConversionError>)
    ensures
        (match ext_of(path@) {
            Some(e) => match classify_spec(e) {
                Some(k) => r matches Ok(plan) && plan.kind == k && plan.out.dir@ == output_dir_of(
                    path@,
                ) && plan.out.file@ == output_file_of(path@),
                None => r == Err::<ConversionPlan, ConversionError>(
                    ConversionError::UnsupportedFormat,
                ),
            },
            None => r == Err::<ConversionPlan, ConversionError>(ConversionError::MissingExtension),
        }),
{
    let ext = match extension(path) {
        Some(e) => e,
        None => {
            return Err(ConversionError::MissingExtension);
        },
    };
    let kind = match classify_extension(&ext) {
        Some(k) => k,
        None => {
            return Err(ConversionError::UnsupportedFormat);
        },
    };
    proof {
        lemma_ext_needs_name(path@);
    }
    let out = match resolve_output(path) {
        Ok(loc) => loc,
        Err(_) => {
            // Unreachable: a path with an extension has a non-empty name.
            assert(name_of(path@).len() > 0);
            assert(false);
            return Err(ConversionError::MissingExtension);
        },
    };
    Ok(ConversionPlan { kind, out })
}

/// The enumeration filter on file names: a name qualifies when it does
/// not start with a dot and a dot follows its first byte, so that a stem
/// and an extension both exist.
pub open spec fn eligible_name_spec(n: Seq<u8>) -> bool {
    &&& n.len() >= 2
    &&& n[0] != DOT
    &&& exists|i: int| 1 <= i < n.len() && #[trigger] n[i] == DOT
}

/// True when file name `name` qualifies for enumeration, as
/// `eligible_name_spec` says.
pub fn eligible_name(name: &Vec<u8>) -> (r: bool)
    ensures
        r <==> eligible_name_spec(name@),
{
    if name.len() < 2 {
        return false;
    }
    if name[0] == DOT {
        return false;
    }
    let n = name.len();
    let mut k: usize = 1;
    while k < n
        invariant
            1 <= k <= n,
            n == name@.len(),
            n >= 2,
            name@[0] != DOT,
            forall|j: int| 1 <= j < k ==> name@[j] != DOT,
        decreases n - k,
    {
        if name[k] == DOT {
            assert((1 <= k as int) && ((k as int) < name@.len()) && (name@[k as int] == DOT));
            assert(eligible_name_spec(name@));
            return true;
        }
        k = k + 1;
    }
    false
}

} // verus!
