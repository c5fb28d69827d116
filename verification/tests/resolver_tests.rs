use image_variants::errors::ResolveError;
use image_variants::formats::{ImageFormat, ImageType};
use image_variants::records::{Image, NewImage};
use image_variants::repo::{find, Repo};
use image_variants::resolver::{needs_inline, ProducedVariant};
use image_variants::store::Store;

/// Inserts an original of the given size, file-backed under the uploads
/// root, with its encoded bytes present in the store.
fn seed_original(repo: &mut Repo, store: &mut Store, w: i32, h: i32, fmt: ImageFormat) -> Image {
    let locator = format!("/assets/uploads/orig.{}", fmt.as_str());
    store.put(format!(".{}", locator), vec![0xAAu8, 0xBB, 0xCC]);
    let payload = NewImage {
        host_type: ImageType::Local,
        path: locator,
        width: w,
        height: h,
        parent_id: None,
        wanted_height: None,
        wanted_width: None,
        format: fmt,
    };
    let id = Image::create_from(repo, payload).unwrap();
    find(repo, id).unwrap().unwrap()
}

fn produced(w: u32, h: u32, file_bytes: Vec<u8>, inline_base64: &str) -> ProducedVariant {
    ProducedVariant {
        width: w,
        height: h,
        file_bytes,
        inline_base64: inline_base64.to_string(),
    }
}

#[test]
fn small_variant_is_inlined_then_cache_hit() {
    let mut repo = Repo::new();
    let mut store = Store::new();
    let orig = seed_original(&mut repo, &mut store, 800, 600, ImageFormat::PNG);
    assert!(orig.parent_id.is_none());

    // the first request misses: no child is stored yet
    assert!(orig.resolve_cached(&repo, 100, 80).unwrap().is_none());

    // the codec fits 800x600 within 100x80 as 100x75; both axes are under
    // the small-image box, so the variant is inlined
    assert!(needs_inline(100, 75));
    let child = orig
        .get_with_size_produced(&mut repo, &mut store, 100, 80, produced(100, 75, vec![], "cGF5bG9hZA=="))
        .unwrap();
    assert_eq!(child.parent_id, Some(orig.id));
    assert_eq!(child.wanted_width, Some(100));
    assert_eq!(child.wanted_height, Some(80));
    assert_eq!((child.width, child.height), (100, 75));
    assert_eq!(child.host_type, ImageType::Base64);
    assert_eq!(child.get_format(), ImageFormat::PNG);
    assert_eq!(child.get_path(), "data:image/png;base64,cGF5bG9hZA==");

    // nothing was written to durable storage for an inline variant
    assert_eq!(store.files.len(), 1);

    // the second identical request hits the stored variant: same id, no new
    // row
    let rows_before = repo.rows.len();
    let again = orig.resolve_cached(&repo, 100, 80).unwrap().unwrap();
    assert_eq!(again.id, child.id);
    assert_eq!(repo.rows.len(), rows_before);
}

#[test]
fn large_variant_is_file_backed_with_dimensions_in_path() {
    let mut repo = Repo::new();
    let mut store = Store::new();
    let orig = seed_original(&mut repo, &mut store, 800, 600, ImageFormat::PNG);

    assert!(orig.resolve_cached(&repo, 640, 480).unwrap().is_none());
    assert!(!needs_inline(640, 480));
    let child = orig
        .get_with_size_produced(&mut repo, &mut store, 640, 480, produced(640, 480, vec![1, 2, 3], ""))
        .unwrap();
    assert_eq!((child.width, child.height), (640, 480));
    assert_eq!(child.parent_id, Some(orig.id));
    assert_eq!(child.host_type, ImageType::Local);
    assert_eq!(child.get_format(), ImageFormat::PNG);

    let path = child.get_path();
    assert!(path.starts_with("/assets/uploads/640_480-"));
    assert!(path.ends_with(&format!("-orig_{}.png", orig.id)));

    // the produced bytes were written under the locator, with the leading
    // dot restored
    let stored = store.get(&format!(".{}", path)).unwrap();
    assert_eq!(stored, vec![1, 2, 3]);
}

#[test]
fn file_backed_variant_keeps_parent_format() {
    let mut repo = Repo::new();
    let mut store = Store::new();
    let orig = seed_original(&mut repo, &mut store, 800, 600, ImageFormat::JPEG);

    let child = orig
        .get_with_size_produced(&mut repo, &mut store, 400, 300, produced(400, 300, vec![9], ""))
        .unwrap();
    assert_eq!(child.get_format(), ImageFormat::JPEG);
    assert!(child.get_path().ends_with(".jpg"));
}

#[test]
fn no_axis_exceeding_request_short_circuits() {
    let mut repo = Repo::new();
    let mut store = Store::new();
    let orig = seed_original(&mut repo, &mut store, 800, 600, ImageFormat::PNG);

    let rows_before = repo.rows.len();
    let back = orig.resolve_cached(&repo, 1000, 1000).unwrap().unwrap();
    assert_eq!(back.id, orig.id);
    assert_eq!((back.width, back.height), (800, 600));
    assert!(back.parent_id.is_none());
    assert_eq!(repo.rows.len(), rows_before);
}

#[test]
fn one_axis_exceeding_request_needs_a_variant() {
    let mut repo = Repo::new();
    let mut store = Store::new();
    let orig = seed_original(&mut repo, &mut store, 800, 600, ImageFormat::PNG);

    // the width fits the request, the height does not: the lookup runs and
    // misses
    assert!(orig.resolve_cached(&repo, 900, 300).unwrap().is_none());
    let child = orig
        .get_with_size_produced(&mut repo, &mut store, 900, 300, produced(400, 300, vec![5], ""))
        .unwrap();
    assert_eq!(child.wanted_width, Some(900));
    assert_eq!(child.wanted_height, Some(300));
    assert_eq!((child.width, child.height), (400, 300));
}

#[test]
fn placement_threshold_is_strict_on_both_axes() {
    let mut repo = Repo::new();
    let mut store = Store::new();
    let orig = seed_original(&mut repo, &mut store, 4000, 20, ImageFormat::PNG);

    // exactly 200 wide is file-backed even when only 1 pixel tall
    assert!(!needs_inline(200, 1));
    let child = orig
        .get_with_size_produced(&mut repo, &mut store, 200, 1, produced(200, 1, vec![4], ""))
        .unwrap();
    assert_eq!(child.host_type, ImageType::Local);

    // one short of the box on both axes is inlined
    assert!(needs_inline(199, 199));
    let child2 = orig
        .get_with_size_produced(&mut repo, &mut store, 199, 199, produced(199, 1, vec![], "QQ=="))
        .unwrap();
    assert_eq!(child2.host_type, ImageType::Base64);
    assert_eq!(child2.get_format(), ImageFormat::PNG);
}

#[test]
fn get_with_size_creates_then_reuses() {
    let mut repo = Repo::new();
    let mut store = Store::new();
    let orig = seed_original(&mut repo, &mut store, 800, 600, ImageFormat::PNG);

    // first call misses and persists the produced variant
    let first = orig
        .get_with_size(&mut repo, &mut store, 100, 80, produced(100, 75, vec![], "Zmlyc3Q="))
        .unwrap();
    assert_eq!(first.parent_id, Some(orig.id));
    let rows_after_first = repo.rows.len();

    // the second identical call ignores its produced content and returns the
    // stored record: same id, no new row
    let second = orig
        .get_with_size(&mut repo, &mut store, 100, 80, produced(100, 75, vec![], "c2Vjb25k"))
        .unwrap();
    assert_eq!(second.id, first.id);
    assert_eq!(second.get_path(), first.get_path());
    assert_eq!(repo.rows.len(), rows_after_first);

    // a parent already small enough comes back unchanged through the same
    // entry point
    let back = orig
        .get_with_size(&mut repo, &mut store, 2000, 2000, produced(1, 1, vec![], ""))
        .unwrap();
    assert_eq!(back.id, orig.id);
}

#[test]
fn exhausted_id_space_is_a_persistence_failure() {
    let mut repo = Repo::new();
    let mut store = Store::new();
    let orig = seed_original(&mut repo, &mut store, 800, 600, ImageFormat::PNG);
    repo.next_id = i64::MAX;
    let err = orig
        .get_with_size_produced(&mut repo, &mut store, 100, 80, produced(100, 75, vec![], "QQ=="))
        .unwrap_err();
    assert_eq!(err, ResolveError::PersistenceFailure);
    // the repository is untouched by the failed insert
    assert_eq!(repo.rows.len(), 1);
}
