//! Paging of the listings of reviews, comments and reports.

use vstd::prelude::*;

verus! {

/// The number of entries on one page of a listing.
pub const PAGE_SIZE: u64 = 10;

/// How many entries a listing skips for page `page` of 10 entries: pages
/// below 1 count as page 1.
pub fn page_skip(page: u64) -> (r: u64)
    requires
        page <= u64::MAX / 10,
    ensures
        r == (if page < 1 {
            0
        } else {
            (page - 1) * 10
        }),
{
    let p = if page < 1 {
        1
    } else {
        page
    };
    (p - 1) * 10
}

} // verus!
