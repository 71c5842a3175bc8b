//! Error taxonomy of the conversion pipeline.
//!
//! Every failure is local to a single file: callers report the error and
//! move on to the next enumerated path.
use vstd::prelude::*;

verus! {

/// What went wrong while handling one file.
#[derive(Clone, Copy, Debug, PartialEq, Eq, Structural)]
pub enum ConversionError {
    /// A directory could not be traversed during enumeration.
    Enumeration,
    /// The source bytes are not a decodable image, or the decoded image
    /// cannot be re-encoded (for example, its dimensions exceed what the
    /// target format allows).
    Decode,
    /// A file read, file write or directory creation failed.
    Io,
    /// The file's extension is not one of the recognized formats.
    UnsupportedFormat,
    /// The file has no extension at all, so no converter can be chosen.
    MissingExtension,
}

impl ConversionError {
    /// The diagnostic text for this error, as printed next to the
    /// offending path on the console.
    pub open spec fn text_spec(self) -> Seq<char> {
        match self {
            ConversionError::Enumeration => "cannot read directory entry"@,
            ConversionError::Decode => "cannot decode image"@,
            ConversionError::Io => "cannot read or write file"@,
            ConversionError::UnsupportedFormat => "wrong format"@,
            ConversionError::MissingExtension => "missing file extension"@,
        }
    }

    /// Returns the diagnostic text for this error.
    pub fn text(&self) -> (r: &'static str)
        ensures
            r@ == self.text_spec(),
    {
        match self {
            ConversionError::Enumeration => "cannot read directory entry",
            ConversionError::Decode => "cannot decode image",
            ConversionError::Io => "cannot read or write file",
            ConversionError::UnsupportedFormat => "wrong format",
            ConversionError::MissingExtension => "missing file extension",
        }
    }
}

} // verus!
