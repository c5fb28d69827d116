//! The persisted metadata model: `Image` rows and the `NewImage` insert
//! payload.
//!
//! A row describes either an original upload (`parent_id == None`) or a
//! variant derived from one.  `width`/`height` are the actual pixel
//! dimensions of the stored content; `wanted_width`/`wanted_height` are the
//! dimensions that were requested when a variant was created, kept separately
//! because the codec may not land exactly on the requested size.  Rows are
//! write-once: nothing here mutates a record after it is built.

use vstd::prelude::*;
use vstd::string::StringExecFns;
use crate::formats::{ImageFormat, ImageType};

verus! {

/// A persisted image record.
#[derive(Clone, Debug)]
pub struct Image {
    /// Unique identifier, assigned by the record store at insert time.
    pub id: i64,
    /// How `path` is to be read: a durable-storage path or an inline payload.
    pub host_type: ImageType,
    /// The locator: a relative path if `Local`, a base64 PNG payload if `Base64`.
    pub path: String,
    /// Actual stored width in pixels.
    pub width: i32,
    /// Actual stored height in pixels.
    pub height: i32,
    /// Provenance back-reference: the record this one was derived from.
    pub parent_id: Option<i64>,
    /// The height originally requested when this variant was created.
    pub wanted_height: Option<i32>,
    /// The width originally requested when this variant was created.
    pub wanted_width: Option<i32>,
    /// The encoding of the stored bytes.
    pub format: ImageFormat,
}

/// The fields of a record that has not been assigned an id yet.
#[derive(Clone, Debug)]
pub struct NewImage {
    pub host_type: ImageType,
    pub path: String,
    pub width: i32,
    pub height: i32,
    pub parent_id: Option<i64>,
    pub wanted_height: Option<i32>,
    pub wanted_width: Option<i32>,
    pub format: ImageFormat,
}

/// What holds of every persisted record: positive actual dimensions, and the
/// wanted dimensions either both present or both absent.
pub open spec fn record_wf(img: Image) -> bool {
    &&& img.width > 0
    &&& img.height > 0
    &&& (img.wanted_width is Some <==> img.wanted_height is Some)
}

/// The same well-formedness, for a record that is about to be inserted.
pub open spec fn new_record_wf(img: NewImage) -> bool {
    &&& img.width > 0
    &&& img.height > 0
    &&& (img.wanted_width is Some <==> img.wanted_height is Some)
}

impl Image {
    /// Renders the locator for a presentation layer: inline payloads become a
    /// `data:` URI, file-backed records are the stored path itself.
    pub fn get_path(&self) -> (r: String)
        ensures
            self.host_type == ImageType::Local ==> r@ == self.path@,
            self.host_type == ImageType::Base64 ==> r@ == "data:image/png;base64,"@ + self.path@,
    {
        match self.host_type {
            ImageType::Local => self.path.clone(),
            ImageType::Base64 => String::from_str("data:image/png;base64,").concat(self.path.as_str()),
        }
    }

    /// The encoding of this record's stored bytes.
    pub fn get_format(&self) -> (r: ImageFormat)
        ensures
            r == self.format,
    {
        self.format
    }
}

impl NewImage {
    /// A blank payload for an externally created original: a locator of the
    /// given kind, no dimensions filled in yet, and a PNG format code.
    pub fn new(typ: ImageType, path: &str) -> (r: NewImage)
        ensures
            r.host_type == typ,
            r.path@ == path@,
            r.width == 0,
            r.height == 0,
            r.parent_id is None,
            r.wanted_height is None,
            r.wanted_width is None,
            r.format == ImageFormat::PNG,
    {
        NewImage {
            host_type: typ,
            path: path.to_owned(),
            width: 0,
            height: 0,
            parent_id: None,
            wanted_height: None,
            wanted_width: None,
            format: ImageFormat::PNG,
        }
    }
}

} // verus!
