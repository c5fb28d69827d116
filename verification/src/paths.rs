//! Locator construction for file-backed variants.
//!
//! A file-backed variant is written under the uploads root at a path that
//! embeds its actual dimensions, a creation timestamp, an opaque suffix
//! naming the source, and the format's file extension.  The record keeps the
//! same locator without the leading dot, so it can be served directly.

use vstd::prelude::*;
use vstd::string::StringExecFns;

verus! {

/// The decimal rendering of an unsigned integer.
pub uninterp spec fn dec_str_of(n: nat) -> Seq<char>;

/// Relies on `core::fmt`'s `Display` for `u64`: the result is the decimal
/// rendering of `n`, a function of `n` alone.
#[verifier::external_body]
fn u64_to_string(n: u64) -> (r: String)
    ensures
        r@ == dec_str_of(n as nat),
{
    format!("{}", n)
}

/// The decimal rendering of a signed integer.
pub uninterp spec fn dec_str_of_i64(n: int) -> Seq<char>;

/// Relies on `core::fmt`'s `Display` for `i64`: the result is the decimal
/// rendering of `n`, a function of `n` alone.
#[verifier::external_body]
pub(crate) fn i64_to_string(n: i64) -> (r: String)
    ensures
        r@ == dec_str_of_i64(n as int),
{
    format!("{}", n)
}

/// Relies on `std::time::SystemTime::now`: the wall clock, read as whole
/// seconds since the epoch (zero if the clock is set before it).  Nothing
/// holds of the value returned.
#[verifier::external_body]
pub fn now_unix_secs() -> u64 {
    match std::time::SystemTime::now().duration_since(std::time::UNIX_EPOCH) {
        Ok(d) => d.as_secs(),
        Err(_) => 0,
    }
}

/// The stored locator of a file-backed variant: the uploads-root path that
/// embeds the dimensions, the timestamp, the suffix and the extension.
pub open spec fn locator_view(
    w: nat,
    h: nat,
    secs: nat,
    suffix: Seq<char>,
    ext: Seq<char>,
) -> Seq<char> {
    "/assets/uploads/"@ + dec_str_of(w) + "_"@ + dec_str_of(h) + "-"@ + dec_str_of(secs) + "-"@
        + suffix + "."@ + ext
}

/// Builds the pair of locators for a fresh file-backed variant: the on-disk
/// path (with the leading dot) and the stored locator (without it).
pub fn variant_locators(w: u32, h: u32, secs: u64, suffix: &str, ext: &str) -> (r: (String, String))
    ensures
        r.0@ == "."@ + locator_view(w as nat, h as nat, secs as nat, suffix@, ext@),
        r.1@ == locator_view(w as nat, h as nat, secs as nat, suffix@, ext@),
{
    let mut tail = u64_to_string(w as u64);
    tail.append("_");
    tail.append(u64_to_string(h as u64).as_str());
    tail.append("-");
    tail.append(u64_to_string(secs).as_str());
    tail.append("-");
    tail.append(suffix);
    tail.append(".");
    tail.append(ext);
    let locator = String::from_str("/assets/uploads/").concat(tail.as_str());
    let disk_path = String::from_str(".").concat(locator.as_str());
    proof {
        assert(locator@ =~= locator_view(w as nat, h as nat, secs as nat, suffix@, ext@));
        assert(disk_path@ =~= "."@ + locator_view(w as nat, h as nat, secs as nat, suffix@, ext@));
    }
    (disk_path, locator)
}

} // verus!
