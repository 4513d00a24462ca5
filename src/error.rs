//! Errors of model loading.

use vstd::prelude::*;

verus! {

/// Why a model could not be loaded. A load that fails returns no partial model.
#[derive(Clone, Copy, Debug, PartialEq, Eq, Structural)]
pub enum LoadError {
    /// The document or one of its buffers is malformed, or a reference in it
    /// points outside the data it names.
    Parse,
    /// A primitive lacks its positions or its indices.
    MissingAttribute,
    /// Image bytes could not be decoded.
    Decode,
    /// The MIME type or the content of an image names no known format.
    UnsupportedFormat,
    /// A file could not be opened or read.
    Io,
    /// The GPU ran out of resources.
    Allocation,
}

/// A short description of each error.
pub open spec fn description(e: LoadError) -> Seq<char> {
    match e {
        LoadError::Parse => "malformed scene document"@,
        LoadError::MissingAttribute => "required vertex attribute missing"@,
        LoadError::Decode => "image could not be decoded"@,
        LoadError::UnsupportedFormat => "unsupported image format"@,
        LoadError::Io => "file could not be read"@,
        LoadError::Allocation => "GPU resources exhausted"@,
    }
}

impl LoadError {
    pub fn describe(&self) -> (r: String)
        ensures
            r@ == description(*self),
    {
        match self {
            LoadError::Parse => String::from_str("malformed scene document"),
            LoadError::MissingAttribute => String::from_str("required vertex attribute missing"),
            LoadError::Decode => String::from_str("image could not be decoded"),
            LoadError::UnsupportedFormat => String::from_str("unsupported image format"),
            LoadError::Io => String::from_str("file could not be read"),
            LoadError::Allocation => String::from_str("GPU resources exhausted"),
        }
    }
}

} // verus!
