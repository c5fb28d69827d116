//! Derived-image ("variant") resolution.
//!
//! An image-heavy application keeps many resized variants of each uploaded
//! picture.  This library holds the verified core of that machinery: the
//! metadata model for stored images, the storage-placement policy that decides
//! between inlining small images and file-backing large ones, the fuzzy lookup
//! that finds an already-produced variant, and the resolver that ties them
//! together around an externally run image codec.

use vstd::prelude::*;

pub mod errors;
pub mod formats;
pub mod records;
pub mod repo;
pub mod resolver;
pub mod paths;
pub mod store;
