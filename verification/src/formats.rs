//! Storage kinds and encoding formats, with the fallible decodes used at the
//! persistence boundary.
//!
//! Records are stored with small integer codes for these enums.  A stored code
//! outside the known range means corrupted or forward-incompatible data, so
//! decoding a code is fallible rather than a process abort.

use vstd::prelude::*;
use crate::errors::ResolveError;

verus! {

/// How a record's locator is to be interpreted: a relative path on durable
/// storage, or an inline base64-encoded PNG payload.
#[derive(Clone, Copy, Debug, PartialEq, Eq, Structural)]
pub enum ImageType {
    Local,
    Base64,
}

/// The encoding used for a record's stored bytes.
#[derive(Clone, Copy, Debug, PartialEq, Eq, Structural)]
pub enum ImageFormat {
    PNG,
    GIF,
    JPEG,
}

/// The file extension belonging to each encoding format.
pub open spec fn ext_of(fmt: ImageFormat) -> Seq<char> {
    match fmt {
        ImageFormat::PNG => "png"@,
        ImageFormat::GIF => "gif"@,
        ImageFormat::JPEG => "jpg"@,
    }
}

impl ImageType {
    /// Decodes a stored storage-kind code; out-of-range codes are corrupted
    /// persisted data and come back as `PersistenceFailure`.
    pub fn from_i32(i: i32) -> (r: Result<ImageType, ResolveError>)
        ensures
            i == 0 ==> r == Ok::<ImageType, ResolveError>(ImageType::Local),
            i == 1 ==> r == Ok::<ImageType, ResolveError>(ImageType::Base64),
            !(0 <= i <= 1) ==> r == Err::<ImageType, ResolveError>(ResolveError::PersistenceFailure),
    {
        match i {
            0 => Ok(ImageType::Local),
            1 => Ok(ImageType::Base64),
            _ => Err(ResolveError::PersistenceFailure),
        }
    }
}

impl ImageFormat {
    /// Decodes a stored format code; out-of-range codes are corrupted
    /// persisted data and come back as `PersistenceFailure`.
    pub fn from_i32(i: i32) -> (r: Result<ImageFormat, ResolveError>)
        ensures
            i == 0 ==> r == Ok::<ImageFormat, ResolveError>(ImageFormat::PNG),
            i == 1 ==> r == Ok::<ImageFormat, ResolveError>(ImageFormat::GIF),
            i == 2 ==> r == Ok::<ImageFormat, ResolveError>(ImageFormat::JPEG),
            !(0 <= i <= 2) ==> r == Err::<ImageFormat, ResolveError>(ResolveError::PersistenceFailure),
    {
        match i {
            0 => Ok(ImageFormat::PNG),
            1 => Ok(ImageFormat::GIF),
            2 => Ok(ImageFormat::JPEG),
            _ => Err(ResolveError::PersistenceFailure),
        }
    }

    /// The file extension written into a file-backed locator.
    pub fn as_str(&self) -> (r: &'static str)
        ensures
            r@ == ext_of(*self),
    {
        match *self {
            ImageFormat::PNG => "png",
            ImageFormat::GIF => "gif",
            ImageFormat::JPEG => "jpg",
        }
    }
}

} // verus!
