//! Path model: byte-level view of filesystem paths.
//!
//! A path is a sequence of bytes with `/` as the component separator.
//! The functions here mirror the usual stem/extension conventions: the
//! file name is everything after the last separator, the extension is
//! everything after the last dot of the name provided that dot is not
//! its first byte, and the stem is what precedes that dot.
use vstd::prelude::*;

use crate::error::ConversionError;

verus! {

/// The path component separator.
pub const SEP: u8 = 47;

/// The byte that separates a file stem from its extension.
pub const DOT: u8 = 46;

/// Index of the last occurrence of `b` in `p`, or -1 if `b` does not occur.
pub open spec fn last_index(p: Seq<u8>, b: u8) -> int
    decreases p.len(),
{
    if p.len() == 0 {
        -1
    } else if p.last() == b {
        p.len() - 1
    } else {
        last_index(p.drop_last(), b)
    }
}

/// `last_index` stays within bounds and, when non-negative, points at the
/// last occurrence of `b`.
pub proof fn lemma_last_index(p: Seq<u8>, b: u8)
    ensures
        -1 <= last_index(p, b) < p.len(),
        last_index(p, b) >= 0 ==> p[last_index(p, b)] == b,
        forall|j: int| last_index(p, b) < j < p.len() ==> p[j] != b,
    decreases p.len(),
{
    if p.len() > 0 && p.last() != b {
        lemma_last_index(p.drop_last(), b);
        assert forall|j: int| last_index(p, b) < j < p.len() implies p[j] != b by {
            if j < p.len() - 1 {
                assert(p.drop_last()[j] == p[j]);
            }
        }
    }
}

/// A byte that occurs nowhere in `p` has no last occurrence.
pub proof fn lemma_last_index_absent(p: Seq<u8>, b: u8)
    requires
        forall|j: int| 0 <= j < p.len() ==> p[j] != b,
    ensures
        last_index(p, b) == -1,
    decreases p.len(),
{
    if p.len() > 0 {
        assert forall|j: int| 0 <= j < p.drop_last().len() implies p.drop_last()[j] != b by {
            assert(p.drop_last()[j] == p[j]);
        }
        lemma_last_index_absent(p.drop_last(), b);
    }
}

/// A position holding `b` with nothing but other bytes after it is the
/// last occurrence of `b`.
pub proof fn lemma_last_index_found(p: Seq<u8>, b: u8, i: int)
    requires
        0 <= i < p.len(),
        p[i] == b,
        forall|j: int| i < j < p.len() ==> p[j] != b,
    ensures
        last_index(p, b) == i,
    decreases p.len(),
{
    if i == p.len() - 1 {
    } else {
        assert(p.drop_last()[i] == p[i]);
        assert forall|j: int| i < j < p.drop_last().len() implies p.drop_last()[j] != b by {
            assert(p.drop_last()[j] == p[j]);
        }
        lemma_last_index_found(p.drop_last(), b, i);
    }
}

/// The directory part of `p`: everything before the last separator, or
/// empty when `p` has no separator.
pub open spec fn parent_of(p: Seq<u8>) -> Seq<u8> {
    if last_index(p, SEP) >= 0 {
        p.subrange(0, last_index(p, SEP))
    } else {
        Seq::empty()
    }
}

/// The file name of `p`: everything after the last separator, or the
/// whole of `p` when it has no separator.
pub open spec fn name_of(p: Seq<u8>) -> Seq<u8> {
    p.subrange(last_index(p, SEP) + 1, p.len() as int)
}

/// The extension of `p`: what follows the last dot of the file name,
/// unless that dot is missing or is the name's first byte (a dotfile
/// has no extension).
pub open spec fn ext_of(p: Seq<u8>) -> Option<Seq<u8>> {
    let n = name_of(p);
    let j = last_index(n, DOT);
    if j >= 1 {
        Some(n.subrange(j + 1, n.len() as int))
    } else {
        None
    }
}

/// The stem of `p`: the file name with its extension (and the dot before
/// it) removed; the whole name when there is no extension.
pub open spec fn stem_of(p: Seq<u8>) -> Seq<u8> {
    let n = name_of(p);
    let j = last_index(n, DOT);
    if j >= 1 {
        n.subrange(0, j)
    } else {
        n
    }
}

/// The root directory every output file is written under.
pub open spec fn output_root() -> Seq<u8> {
    seq![111u8, 117u8, 116u8, 112u8, 117u8, 116u8, 47u8]
}

/// The extension given to every output file.
pub open spec fn webp_suffix() -> Seq<u8> {
    seq![46u8, 119u8, 101u8, 98u8, 112u8]
}

/// The mirrored output directory for input `p`: the output root followed
/// by `p`'s directory part.
pub open spec fn output_dir_of(p: Seq<u8>) -> Seq<u8> {
    output_root() + parent_of(p)
}

/// The full output path for input `p`: its mirrored directory, a
/// separator, its stem and the output extension.
pub open spec fn output_file_of(p: Seq<u8>) -> Seq<u8> {
    output_dir_of(p) + seq![SEP] + stem_of(p) + webp_suffix()
}

/// Law: whatever the input path, its output path lies under the output
/// root and ends in the output extension.
pub proof fn lemma_output_path_shape(p: Seq<u8>)
    ensures
        output_file_of(p).len() >= output_root().len() + webp_suffix().len(),
        output_file_of(p).subrange(0, output_root().len() as int) == output_root(),
        output_file_of(p).subrange(
            output_file_of(p).len() - webp_suffix().len(),
            output_file_of(p).len() as int,
        ) == webp_suffix(),
{
    let f = output_file_of(p);
    assert(f.subrange(0, output_root().len() as int) =~= output_root());
    assert(f.subrange(f.len() - webp_suffix().len(), f.len() as int) =~= webp_suffix());
}

/// Index of the last occurrence of `b` in `v`, or `None` if `b` does not
/// occur.
pub fn find_last(v: &Vec<u8>, b: u8) -> (r: Option<usize>)
    ensures
        match r {
            Some(i) => i < v@.len() && last_index(v@, b) == i,
            None => last_index(v@, b) == -1,
        },
{
    let mut i: usize = v.len();
    while i > 0
        invariant
            i <= v@.len(),
            forall|j: int| i <= j < v@.len() ==> v@[j] != b,
        decreases i,
    {
        i = i - 1;
        if v[i] == b {
            proof {
                lemma_last_index_found(v@, b, i as int);
            }
            return Some(i);
        }
    }
    proof {
        lemma_last_index_absent(v@, b);
    }
    None
}

/// The bytes of `v` from `start` (inclusive) to `end` (exclusive).
pub fn bytes_range(v: &Vec<u8>, start: usize, end: usize) -> (r: Vec<u8>)
    requires
        start <= end <= v@.len(),
    ensures
        r@ == v@.subrange(start as int, end as int),
{
    let mut r: Vec<u8> = Vec::new();
    let mut k: usize = start;
    while k < end
        invariant
            start <= k <= end <= v@.len(),
            r@ == v@.subrange(start as int, k as int),
        decreases end - k,
    {
        r.push(v[k]);
        assert(r@ =~= v@.subrange(start as int, k + 1 as int));
        k = k + 1;
    }
    r
}

/// Appends all of `src` to `dst`.
pub fn append_bytes(dst: &mut Vec<u8>, src: &Vec<u8>)
    ensures
        final(dst)@ == old(dst)@ + src@,
{
    dst.extend_from_slice(src.as_slice());
    assert(dst@ =~= old(dst)@ + src@);
}

/// The directory part of `path`, as `parent_of` gives it.
pub fn parent_dir(path: &Vec<u8>) -> (r: Vec<u8>)
    ensures
        r@ == parent_of(path@),
{
    match find_last(path, SEP) {
        Some(i) => bytes_range(path, 0, i),
        None => Vec::new(),
    }
}

/// The file name of `path`, as `name_of` gives it.
pub fn file_name(path: &Vec<u8>) -> (r: Vec<u8>)
    ensures
        r@ == name_of(path@),
{
    proof {
        lemma_last_index(path@, SEP);
    }
    let n = path.len();
    match find_last(path, SEP) {
        Some(i) => {
            assert(i < n);
            bytes_range(path, i + 1, n)
        },
        None => {
            let r = bytes_range(path, 0, path.len());
            assert(r@ =~= name_of(path@));
            r
        },
    }
}

/// The extension of `path`, as `ext_of` gives it.
pub fn extension(path: &Vec<u8>) -> (r: Option<Vec<u8>>)
    ensures
        match r {
            Some(e) => ext_of(path@) == Some(e@),
            None => ext_of(path@) is None,
        },
{
    let name = file_name(path);
    match find_last(&name, DOT) {
        Some(j) if j >= 1 => {
            let n = name.len();
            assert(j < n);
            Some(bytes_range(&name, j + 1, n))
        },
        _ => None,
    }
}

/// The stem of `path`, as `stem_of` gives it.
pub fn file_stem(path: &Vec<u8>) -> (r: Vec<u8>)
    ensures
        r@ == stem_of(path@),
{
    let name = file_name(path);
    match find_last(&name, DOT) {
        Some(j) if j >= 1 => bytes_range(&name, 0, j),
        _ => {
            let r = bytes_range(&name, 0, name.len());
            assert(r@ =~= stem_of(path@));
            r
        },
    }
}

/// Where one converted file goes: the mirrored directory that must exist
/// and the full path of the file written into it.
#[derive(Debug)]
pub struct OutputLocation {
    /// The directory to create before writing, `output/` plus the input's
    /// directory part.
    pub dir: Vec<u8>,
    /// The full output path: the directory, the input's stem and the
    /// output extension.
    pub file: Vec<u8>,
}

/// The output root as bytes, `output/`.
fn output_root_bytes() -> (r: Vec<u8>)
    ensures
        r@ == output_root(),
{
    let mut r: Vec<u8> = Vec::new();
    r.push(111);
    r.push(117);
    r.push(116);
    r.push(112);
    r.push(117);
    r.push(116);
    r.push(47);
    assert(r@ =~= output_root());
    r
}

/// The output extension as bytes, `.webp`.
fn webp_suffix_bytes() -> (r: Vec<u8>)
    ensures
        r@ == webp_suffix(),
{
    let mut r: Vec<u8> = Vec::new();
    r.push(46);
    r.push(119);
    r.push(101);
    r.push(98);
    r.push(112);
    assert(r@ =~= webp_suffix());
    r
}

/// Computes the mirrored output location for `path`.
///
/// Fails only when `path` has no file name at all (it is empty or ends in
/// a separator), in which case no stem exists to name the output file.
pub fn resolve_output(path: &Vec<u8>) -> (r: Result<OutputLocation, ConversionError>)
    ensures
        r is Ok <==> name_of(path@).len() > 0,
        r matches Ok(loc) ==> loc.dir@ == output_dir_of(path@) && loc.file@ == output_file_of(
            path@,
        ),
        r matches Err(e) ==> e == ConversionError::MissingExtension,
{
    let name = file_name(path);
    if name.len() == 0 {
        return Err(ConversionError::MissingExtension);
    }
    let mut dir = output_root_bytes();
    let parent = parent_dir(path);
    append_bytes(&mut dir, &parent);
    let mut file: Vec<u8> = Vec::new();
    append_bytes(&mut file, &dir);
    file.push(SEP);
    let stem = file_stem(path);
    append_bytes(&mut file, &stem);
    let suffix = webp_suffix_bytes();
    append_bytes(&mut file, &suffix);
    assert(file@ =~= output_file_of(path@));
    Ok(OutputLocation { dir, file })
}

} // verus!
