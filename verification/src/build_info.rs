//! Information about the build.

use vstd::prelude::*;

verus! {

/// The compiler version to report: the one configured at build time, or
/// `stable` when none was.
pub fn rustc_version(configured: Option<&'static str>) -> (r: &'static str)
    ensures
        configured matches Some(v) ==> r == v,
        configured is None ==> r@ == "stable"@,
{
    match configured {
        Some(v) => v,
        None => "stable",
    }
}

} // verus!
