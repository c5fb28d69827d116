//! The record store: an injected, in-memory repository of `Image` rows with
//! the exact query semantics the resolver depends on.
//!
//! The resolver treats persistence as an external collaborator reached
//! through this repository value; ids are assigned here at insert time and an
//! inserted row is immediately visible to subsequent finds.

use vstd::prelude::*;
use crate::errors::ResolveError;
use crate::records::{record_wf, new_record_wf, Image, NewImage};

verus! {

/// An in-memory repository of persisted records.
pub struct Repo {
    /// The rows, in insertion order.
    pub rows: Vec<Image>,
    /// The id the next inserted row will receive; larger than every stored id.
    pub next_id: i64,
}

/// Repository well-formedness: every row is a well-formed record, ids are
/// pairwise distinct, and `next_id` is above them all.
pub open spec fn repo_wf(repo: Repo) -> bool {
    &&& forall|i: int| 0 <= i < repo.rows@.len() ==> record_wf(#[trigger] repo.rows@[i])
    &&& forall|i: int| 0 <= i < repo.rows@.len() ==> (#[trigger] repo.rows@[i]).id < repo.next_id
    &&& forall|i: int, j: int|
        0 <= i < repo.rows@.len() && 0 <= j < repo.rows@.len() && i != j
            ==> (#[trigger] repo.rows@[i]).id != (#[trigger] repo.rows@[j]).id
}

/// The fuzzy match rule for a stored child of `uid` against a request for
/// `w` by `h`: either the row has no wanted size and one of its actual
/// dimensions lines up, or one of its wanted dimensions lines up.
pub open spec fn child_matches(c: Image, uid: i64, w: i32, h: i32) -> bool {
    &&& c.parent_id == Some(uid)
    &&& {
        ||| (c.wanted_width is None && (c.width == w || c.height == h))
        ||| c.wanted_width == Some(w)
        ||| c.wanted_height == Some(h)
    }
}

/// The lookup's ordering: `a` comes no later than `b` when rows are sorted by
/// width descending and then height descending.
pub open spec fn size_geq(a: Image, b: Image) -> bool {
    a.width > b.width || (a.width == b.width && a.height >= b.height)
}

/// Whether `a` comes strictly before `b` in the (width desc, height desc)
/// order.
pub open spec fn size_gt(a: Image, b: Image) -> bool {
    a.width > b.width || (a.width == b.width && a.height > b.height)
}

/// The row the lookup returns, pinned exactly: scanning in insertion order,
/// the first matching row that no later matching row strictly exceeds in the
/// (width desc, height desc) order.
pub open spec fn best_match_of(rows: Seq<Image>, uid: i64, w: i32, h: i32) -> Option<Image>
    decreases rows.len(),
{
    if rows.len() == 0 {
        None
    } else {
        let rest = best_match_of(rows.drop_last(), uid, w, h);
        if !child_matches(rows.last(), uid, w, h) {
            rest
        } else {
            match rest {
                None => Some(rows.last()),
                Some(b) => if size_gt(rows.last(), b) {
                    Some(rows.last())
                } else {
                    Some(b)
                },
            }
        }
    }
}

/// The row a lookup must return: a matching row that every matching row is
/// below or equal to in the (width desc, height desc) order.
pub open spec fn is_best_match(rows: Seq<Image>, c: Image, uid: i64, w: i32, h: i32) -> bool {
    &&& exists|i: int| 0 <= i < rows.len() && rows[i] == c
    &&& child_matches(c, uid, w, h)
    &&& forall|j: int|
        0 <= j < rows.len() && child_matches(#[trigger] rows[j], uid, w, h) ==> size_geq(c, rows[j])
}

impl Repo {
    /// An empty repository; the first insert will hand out id 1.
    pub fn new() -> (r: Repo)
        ensures
            r.rows@ =~= Seq::<Image>::empty(),
            r.next_id == 1,
            repo_wf(r),
    {
        Repo { rows: Vec::new(), next_id: 1 }
    }
}

impl Image {
    /// An exact copy of this record, field by field.
    pub fn duplicate(&self) -> (r: Image)
        ensures
            r == *self,
    {
        Image {
            id: self.id,
            host_type: self.host_type,
            path: self.path.clone(),
            width: self.width,
            height: self.height,
            parent_id: self.parent_id,
            wanted_height: self.wanted_height,
            wanted_width: self.wanted_width,
            format: self.format,
        }
    }

    /// Persists a new record, assigning it the next free id.  The inserted
    /// row is immediately visible to `find` and `find_from_image`.  The one
    /// failure is exhaustion of the id space.
    pub fn create_from(repo: &mut Repo, new: NewImage) -> (r: Result<i64, ResolveError>)
        requires
            repo_wf(*old(repo)),
            new_record_wf(new),
        ensures
            repo_wf(*final(repo)),
            old(repo).next_id < i64::MAX ==> {
                &&& r matches Ok(id) && id == old(repo).next_id
                &&& final(repo).rows@ =~= old(repo).rows@.push(Image {
                    id: old(repo).next_id,
                    host_type: new.host_type,
                    path: new.path,
                    width: new.width,
                    height: new.height,
                    parent_id: new.parent_id,
                    wanted_height: new.wanted_height,
                    wanted_width: new.wanted_width,
                    format: new.format,
                })
                &&& final(repo).next_id == old(repo).next_id + 1
            },
            old(repo).next_id == i64::MAX ==> r == Err::<i64, ResolveError>(
                ResolveError::PersistenceFailure,
            ) && *final(repo) == *old(repo),
    {
        if repo.next_id == i64::MAX {
            return Err(ResolveError::PersistenceFailure);
        }
        let id = repo.next_id;
        let row = Image {
            id,
            host_type: new.host_type,
            path: new.path,
            width: new.width,
            height: new.height,
            parent_id: new.parent_id,
            wanted_height: new.wanted_height,
            wanted_width: new.wanted_width,
            format: new.format,
        };
        repo.rows.push(row);
        repo.next_id = id + 1;
        Ok(id)
    }
}

/// Whether a row satisfies the fuzzy match rule, decided executably.
fn child_matches_exec(c: &Image, uid: i64, w: i32, h: i32) -> (b: bool)
    ensures
        b == child_matches(*c, uid, w, h),
{
    let parent_ok = match c.parent_id {
        Some(p) => p == uid,
        None => false,
    };
    if !parent_ok {
        return false;
    }
    let no_wanted = match c.wanted_width {
        Some(_) => false,
        None => true,
    };
    if no_wanted && (c.width == w || c.height == h) {
        return true;
    }
    let ww = match c.wanted_width {
        Some(x) => x == w,
        None => false,
    };
    let wh = match c.wanted_height {
        Some(y) => y == h,
        None => false,
    };
    ww || wh
}

/// Looks a record up by id.
pub fn find(repo: &Repo, uid: i64) -> (r: Result<Option<Image>, ResolveError>)
    ensures
        r is Ok,
        (match r {
            Ok(Some(c)) => c.id == uid && exists|i: int|
                0 <= i < repo.rows@.len() && repo.rows@[i] == c,
            Ok(None) => forall|i: int|
                0 <= i < repo.rows@.len() ==> (#[trigger] repo.rows@[i]).id != uid,
            Err(_) => false,
        }),
{
    let n = repo.rows.len();
    let mut i: usize = 0;
    while i < n
        invariant
            n == repo.rows@.len(),
            0 <= i <= n,
            forall|j: int| 0 <= j < i ==> (#[trigger] repo.rows@[j]).id != uid,
        decreases n - i,
    {
        if repo.rows[i].id == uid {
            return Ok(Some(repo.rows[i].duplicate()));
        }
        i += 1;
    }
    Ok(None)
}

/// The lookup behind the resolver's cache check: among the stored children of
/// `uid` that satisfy the fuzzy match rule, returns one that is first in the
/// (width desc, height desc) order, or `None` when no row matches.
pub fn find_from_image(repo: &Repo, uid: i64, w: i32, h: i32) -> (r: Result<
    Option<Image>,
    ResolveError,
>)
    ensures
        r is Ok,
        (match r {
            Ok(found) => found == best_match_of(repo.rows@, uid, w, h),
            Err(_) => false,
        }),
        (match r {
            Ok(Some(c)) => is_best_match(repo.rows@, c, uid, w, h),
            Ok(None) => forall|i: int|
                0 <= i < repo.rows@.len() ==> !child_matches(#[trigger] repo.rows@[i], uid, w, h),
            Err(_) => false,
        }),
{
    let n = repo.rows.len();
    let mut i: usize = 0;
    let mut best: Option<usize> = None;
    proof {
        assert(repo.rows@.take(0) =~= Seq::<Image>::empty());
    }
    while i < n
        invariant
            n == repo.rows@.len(),
            0 <= i <= n,
            (match best {
                Some(b) => {
                    &&& b < i
                    &&& child_matches(repo.rows@[b as int], uid, w, h)
                    &&& best_match_of(repo.rows@.take(i as int), uid, w, h) == Some(
                        repo.rows@[b as int],
                    )
                    &&& forall|j: int|
                        0 <= j < i && child_matches(#[trigger] repo.rows@[j], uid, w, h)
                            ==> size_geq(repo.rows@[b as int], repo.rows@[j])
                },
                None => {
                    &&& best_match_of(repo.rows@.take(i as int), uid, w, h) is None
                    &&& forall|j: int|
                        0 <= j < i ==> !child_matches(#[trigger] repo.rows@[j], uid, w, h)
                },
            }),
        decreases n - i,
    {
        proof {
            assert(repo.rows@.take(i + 1).drop_last() =~= repo.rows@.take(i as int));
            assert(repo.rows@.take(i + 1).last() == repo.rows@[i as int]);
        }
        if child_matches_exec(&repo.rows[i], uid, w, h) {
            match best {
                None => {
                    best = Some(i);
                },
                Some(b) => {
                    let cand = &repo.rows[i];
                    let cur = &repo.rows[b];
                    let strictly_larger = cand.width > cur.width || (cand.width == cur.width
                        && cand.height > cur.height);
                    if strictly_larger {
                        best = Some(i);
                    }
                },
            }
        }
        i += 1;
    }
    proof {
        assert(repo.rows@.take(n as int) =~= repo.rows@);
    }
    match best {
        Some(b) => Ok(Some(repo.rows[b].duplicate())),
        None => Ok(None),
    }
}

} // verus!
