//! Pages of listings.
use vstd::prelude::*;

verus! {

/// Items per page when a request does not say.
pub const DEFAULT_LIMIT: i64 = 10;

/// The limit and offset of a listing: as requested, or 10 items from the
/// start when not given.
pub fn page_bounds(limit: Option<i64>, offset: Option<i64>) -> (r: (i64, i64))
    ensures
        r.0 == match limit {
            Some(l) => l,
            None => DEFAULT_LIMIT,
        },
        r.1 == match offset {
            Some(o) => o,
            None => 0,
        },
{
    let l = match limit {
        Some(l) => l,
        None => DEFAULT_LIMIT,
    };
    let o = match offset {
        Some(o) => o,
        None => 0,
    };
    (l, o)
}

} // verus!
