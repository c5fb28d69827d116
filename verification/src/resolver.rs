//! The variant resolver: given a parent record and a requested size, return
//! a record that satisfies the request, creating and persisting one when no
//! stored variant matches.
//!
//! The image codec (decode, resize, encode) and the base64 rendering of an
//! inline payload are external capabilities run by the surrounding
//! application.  The resolver here is the decision core: `resolve_cached`
//! answers a request from what is already stored, and when it misses the
//! application runs the codec and hands the produced content to
//! `get_with_size_produced`, which places, persists and returns the new
//! record.  Any failure aborts the request; nothing is retried here.

use vstd::prelude::*;
use vstd::string::StringExecFns;
use crate::errors::ResolveError;
use crate::formats::{ext_of, ImageFormat, ImageType};
use crate::paths::{dec_str_of_i64, i64_to_string, locator_view, now_unix_secs, variant_locators};
use crate::records::{new_record_wf, record_wf, Image, NewImage};
use crate::repo::{best_match_of, child_matches, find, find_from_image, repo_wf, Repo};
use crate::store::Store;

verus! {

/// The side of the small-image box: a variant strictly smaller than this on
/// both axes is inlined rather than written to durable storage.
pub const SMALL_DIM_LIMIT: u32 = 200;

/// What the codec produced for a missed request: the actual dimensions the
/// resize landed on, the bytes encoded in the target format (used when the
/// variant is file-backed), and the base64 rendering of the PNG encoding
/// (used when it is inlined).
pub struct ProducedVariant {
    /// Actual width of the resized image.
    pub width: u32,
    /// Actual height of the resized image.
    pub height: u32,
    /// The image encoded in the requested storage format.
    pub file_bytes: Vec<u8>,
    /// The PNG encoding of the image, rendered as base64 text.
    pub inline_base64: String,
}

/// The storage-placement law: a variant strictly smaller than the small-image
/// box on both axes is inlined as base64 PNG; any other variant is
/// file-backed.
pub open spec fn placement_ok(c: Image) -> bool {
    if c.width < SMALL_DIM_LIMIT as i32 && c.height < SMALL_DIM_LIMIT as i32 {
        c.host_type == ImageType::Base64 && c.format == ImageFormat::PNG
    } else {
        c.host_type == ImageType::Local
    }
}

/// Whether the parent already satisfies the request: neither of its actual
/// dimensions exceeds the requested box, so no downscale is needed and the
/// resolver never upscales.
pub open spec fn no_downscale(p: Image, w: i32, h: i32) -> bool {
    p.width <= w && p.height <= h
}

/// Whether freshly produced content must be inlined: strictly inside the
/// small-image box on both axes.
pub fn needs_inline(width: u32, height: u32) -> (r: bool)
    ensures
        r == (width < SMALL_DIM_LIMIT && height < SMALL_DIM_LIMIT),
{
    width < SMALL_DIM_LIMIT && height < SMALL_DIM_LIMIT
}

/// What holds of the fields of a freshly placed variant built from `prod`
/// under the given locator suffix and target format: the actual dimensions
/// are the produced ones; content strictly inside the small-image box keeps
/// its base64 PNG rendering inline in the locator and touches no storage;
/// anything else is file-backed under a locator that embeds its dimensions
/// and the suffix, with the produced bytes written to the store under that
/// locator (with the leading dot restored).
pub open spec fn placed_fields_ok(
    prod: ProducedVariant,
    store0: Store,
    store1: Store,
    suffix: Seq<char>,
    fmt: ImageFormat,
    host_type: ImageType,
    path: Seq<char>,
    width: i32,
    height: i32,
    format: ImageFormat,
) -> bool {
    &&& width == prod.width as i32
    &&& height == prod.height as i32
    &&& if prod.width < SMALL_DIM_LIMIT && prod.height < SMALL_DIM_LIMIT {
        &&& host_type == ImageType::Base64
        &&& format == ImageFormat::PNG
        &&& path == prod.inline_base64@
        &&& store1 == store0
    } else {
        &&& host_type == ImageType::Local
        &&& format == fmt
        &&& (exists|secs: nat|
            path == #[trigger] locator_view(
                prod.width as nat,
                prod.height as nat,
                secs,
                suffix,
                ext_of(fmt),
            ))
        &&& store1.files@.len() == store0.files@.len() + 1
        &&& store1.files@.drop_last() == store0.files@
        &&& store1.files@.last().0@ == "."@ + path
        &&& store1.files@.last().1 == prod.file_bytes
    }
}

/// What holds of a fresh variant row `c` of parent `p`: its fields are a
/// placement of `prod` under a locator suffix naming the parent and the
/// parent's own format.
pub open spec fn variant_content_ok(
    p: Image,
    prod: ProducedVariant,
    store0: Store,
    store1: Store,
    c: Image,
) -> bool {
    placed_fields_ok(
        prod,
        store0,
        store1,
        "orig_"@ + dec_str_of_i64(p.id as int),
        p.format,
        c.host_type,
        c.path@,
        c.width,
        c.height,
        c.format,
    )
}

/// The cache side of resolution: a parent needing no downscale answers the
/// request itself, otherwise exactly the lookup's pick is returned.
pub open spec fn lookup_post(
    p: Image,
    w: i32,
    h: i32,
    repo: Repo,
    r: Result<Option<Image>, ResolveError>,
) -> bool {
    &&& r is Ok
    &&& (no_downscale(p, w, h) ==> r == Ok::<Option<Image>, ResolveError>(Some(p)))
    &&& (!no_downscale(p, w, h) ==> (match r {
        Ok(o) => o == best_match_of(repo.rows@, p.id, w, h),
        Err(_) => false,
    }))
}

/// The creation side of resolution: on success the result is the freshly
/// inserted row, carrying the request as its wanted dimensions, the parent
/// as provenance and the produced content as its actual one; the only
/// failure is exhaustion of the id space, which leaves the repository as it
/// was (a file-backed write may survive as an orphaned store entry).
pub open spec fn create_post(
    p: Image,
    w: i32,
    h: i32,
    prod: ProducedVariant,
    repo0: Repo,
    store0: Store,
    repo1: Repo,
    store1: Store,
    r: Result<Image, ResolveError>,
) -> bool {
    &&& (r matches Ok(c) ==> {
        &&& c.id == repo0.next_id
        &&& c.parent_id == Some(p.id)
        &&& c.wanted_width == Some(w)
        &&& c.wanted_height == Some(h)
        &&& record_wf(c)
        &&& placement_ok(c)
        &&& repo1.rows@ == repo0.rows@.push(c)
        &&& repo1.next_id == repo0.next_id + 1
        &&& variant_content_ok(p, prod, store0, store1, c)
    })
    &&& (r matches Err(e) ==> {
        &&& e == ResolveError::PersistenceFailure
        &&& repo0.next_id == i64::MAX
        &&& repo1 == repo0
    })
    &&& (repo0.next_id < i64::MAX ==> r is Ok)
}

/// The resolver's full effect: a parent needing no downscale comes back
/// unchanged and nothing is touched; when a stored child matches, exactly
/// the lookup's pick comes back and nothing is touched; otherwise the
/// produced content is placed and persisted as `create_post` says.
pub open spec fn resolve_post(
    p: Image,
    w: i32,
    h: i32,
    prod: ProducedVariant,
    repo0: Repo,
    store0: Store,
    repo1: Repo,
    store1: Store,
    r: Result<Image, ResolveError>,
) -> bool {
    &&& (no_downscale(p, w, h) ==> r == Ok::<Image, ResolveError>(p) && repo1 == repo0 && store1
        == store0)
    &&& (!no_downscale(p, w, h) ==> {
        if best_match_of(repo0.rows@, p.id, w, h) is Some {
            &&& r matches Ok(c) && Some(c) == best_match_of(repo0.rows@, p.id, w, h)
            &&& repo1 == repo0
            &&& store1 == store0
        } else {
            create_post(p, w, h, prod, repo0, store0, repo1, store1, r)
        }
    })
}

impl NewImage {
    /// The storage-placement policy: decides where produced content lives
    /// and builds the insert payload.  Content strictly inside the
    /// small-image box keeps its base64 PNG rendering inline in the locator;
    /// anything else has its encoded bytes written to the store under a
    /// locator that embeds the dimensions, the wall-clock time and the given
    /// suffix.
    pub fn create_from_dynamic_image(
        prod: ProducedVariant,
        suffix: &str,
        fmt: ImageFormat,
        store: &mut Store,
    ) -> (r: NewImage)
        requires
            1 <= prod.width <= i32::MAX,
            1 <= prod.height <= i32::MAX,
        ensures
            r.parent_id is None,
            r.wanted_width is None,
            r.wanted_height is None,
            placed_fields_ok(
                prod,
                *old(store),
                *final(store),
                suffix@,
                fmt,
                r.host_type,
                r.path@,
                r.width,
                r.height,
                r.format,
            ),
    {
        let w = prod.width;
        let h = prod.height;
        if needs_inline(w, h) {
            NewImage {
                host_type: ImageType::Base64,
                path: prod.inline_base64,
                width: w as i32,
                height: h as i32,
                parent_id: None,
                wanted_height: None,
                wanted_width: None,
                format: ImageFormat::PNG,
            }
        } else {
            let secs = now_unix_secs();
            let (disk_path, locator) = variant_locators(w, h, secs, suffix, fmt.as_str());
            let ghost old_files = store.files@;
            store.put(disk_path, prod.file_bytes);
            proof {
                assert(store.files@.drop_last() =~= old_files);
            }
            NewImage {
                host_type: ImageType::Local,
                path: locator,
                width: w as i32,
                height: h as i32,
                parent_id: None,
                wanted_height: None,
                wanted_width: None,
                format: fmt,
            }
        }
    }

    /// Builds the insert payload for a variant of `img` from produced
    /// content: runs the placement policy under the parent's format and a
    /// suffix naming the parent, then records the request as the wanted
    /// dimensions and the parent as provenance.
    pub fn create_from_image_with_size(
        img: &Image,
        width: i32,
        height: i32,
        prod: ProducedVariant,
        store: &mut Store,
    ) -> (r: NewImage)
        requires
            1 <= prod.width <= i32::MAX,
            1 <= prod.height <= i32::MAX,
        ensures
            r.parent_id == Some(img.id),
            r.wanted_width == Some(width),
            r.wanted_height == Some(height),
            new_record_wf(r),
            placed_fields_ok(
                prod,
                *old(store),
                *final(store),
                "orig_"@ + dec_str_of_i64(img.id as int),
                img.format,
                r.host_type,
                r.path@,
                r.width,
                r.height,
                r.format,
            ),
    {
        let suffix = String::from_str("orig_").concat(i64_to_string(img.id).as_str());
        let fmt = img.get_format();
        let n = NewImage::create_from_dynamic_image(prod, suffix.as_str(), fmt, store);
        NewImage {
            host_type: n.host_type,
            path: n.path,
            width: n.width,
            height: n.height,
            parent_id: Some(img.id),
            wanted_height: Some(height),
            wanted_width: Some(width),
            format: n.format,
        }
    }
}

impl Image {
    /// The cache side of a request: a parent that is already no larger than
    /// the requested box comes back unchanged (the resolver never upscales);
    /// otherwise the stored children are searched under the fuzzy match
    /// rule, largest first.  `None` means the caller must produce content
    /// and finish through `get_with_size_produced`.
    pub fn resolve_cached(&self, repo: &Repo, width: i32, height: i32) -> (r: Result<
        Option<Image>,
        ResolveError,
    >)
        ensures
            lookup_post(*self, width, height, *repo, r),
    {
        if self.width > width || self.height > height {
            find_from_image(repo, self.id, width, height)
        } else {
            Ok(Some(self.duplicate()))
        }
    }

    /// The creation side of a request that missed: places the produced
    /// content, persists the new row, and returns the record re-read by id
    /// from the repository, so the result is the canonical persisted state.
    pub fn get_with_size_produced(
        &self,
        repo: &mut Repo,
        store: &mut Store,
        width: i32,
        height: i32,
        prod: ProducedVariant,
    ) -> (r: Result<Image, ResolveError>)
        requires
            repo_wf(*old(repo)),
            1 <= prod.width <= i32::MAX,
            1 <= prod.height <= i32::MAX,
        ensures
            repo_wf(*final(repo)),
            create_post(
                *self,
                width,
                height,
                prod,
                *old(repo),
                *old(store),
                *final(repo),
                *final(store),
                r,
            ),
    {
        let ghost store0 = *store;
        let ghost prod0 = prod;
        let new_image = NewImage::create_from_image_with_size(self, width, height, prod, store);
        let ghost ni = new_image;
        let img_id = match Image::create_from(repo, new_image) {
            Ok(id) => id,
            Err(e) => {
                return Err(e);
            },
        };
        match find(repo, img_id) {
            Ok(Some(x)) => {
                proof {
                    let rows1 = repo.rows@;
                    let i = choose|i: int| 0 <= i < rows1.len() && rows1[i] == x;
                    if i + 1 < rows1.len() {
                        assert(rows1[i] == old(repo).rows@[i]);
                        assert(old(repo).rows@[i].id < old(repo).next_id);
                        assert(false);
                    }
                    assert(x == rows1.last());
                    assert(placed_fields_ok(
                        prod0,
                        store0,
                        *store,
                        "orig_"@ + dec_str_of_i64(self.id as int),
                        self.format,
                        x.host_type,
                        x.path@,
                        x.width,
                        x.height,
                        x.format,
                    ));
                    assert(variant_content_ok(*self, prod0, store0, *store, x));
                    assert(placement_ok(x));
                }
                Ok(x)
            },
            Ok(None) => {
                proof {
                    assert(repo.rows@.last().id == img_id);
                    assert(false);
                }
                Err(ResolveError::NotFound)
            },
            Err(e) => {
                proof {
                    assert(false);
                }
                Err(e)
            },
        }
    }

    /// Resolves this record at the requested size.  A parent that is already
    /// no larger than the request comes back unchanged; otherwise a stored
    /// matching child is returned if one exists, and the produced content is
    /// placed, persisted and re-read by id if not.  `prod` is the codec's
    /// output for this request, used only on a miss.
    pub fn get_with_size(
        &self,
        repo: &mut Repo,
        store: &mut Store,
        width: i32,
        height: i32,
        prod: ProducedVariant,
    ) -> (r: Result<Image, ResolveError>)
        requires
            repo_wf(*old(repo)),
            1 <= prod.width <= i32::MAX,
            1 <= prod.height <= i32::MAX,
        ensures
            repo_wf(*final(repo)),
            resolve_post(
                *self,
                width,
                height,
                prod,
                *old(repo),
                *old(store),
                *final(repo),
                *final(store),
                r,
            ),
    {
        match self.resolve_cached(repo, width, height) {
            Ok(Some(hit)) => Ok(hit),
            Ok(None) => self.get_with_size_produced(repo, store, width, height, prod),
            Err(e) => {
                proof {
                    assert(false);
                }
                Err(e)
            },
        }
    }
}

/// Resolution is idempotent for a sequential caller: two successful
/// `get_with_size` calls for the same parent and requested size return the
/// same record, the second call's lookup finding what the first returned or
/// inserted, so no second variant is created.
pub proof fn lemma_resolve_idempotent(
    p: Image,
    w: i32,
    h: i32,
    prod1: ProducedVariant,
    prod2: ProducedVariant,
    repo0: Repo,
    store0: Store,
    repo1: Repo,
    store1: Store,
    c1: Image,
    repo2: Repo,
    store2: Store,
    c2: Image,
)
    requires
        resolve_post(p, w, h, prod1, repo0, store0, repo1, store1, Ok(c1)),
        resolve_post(p, w, h, prod2, repo1, store1, repo2, store2, Ok(c2)),
    ensures
        c2 == c1,
        c2.id == c1.id,
{
    if no_downscale(p, w, h) {
    } else if best_match_of(repo0.rows@, p.id, w, h) is Some {
    } else {
        let rows1 = repo1.rows@;
        assert(rows1 == repo0.rows@.push(c1));
        assert(rows1.len() == repo0.rows@.len() + 1);
        assert(rows1.drop_last() =~= repo0.rows@);
        assert(rows1.last() == c1);
        assert(child_matches(c1, p.id, w, h));
        assert(best_match_of(rows1, p.id, w, h) == Some(c1));
    }
}

} // verus!
