//! The page of a library listing: which rows it covers and how many pages
//! the listing has.

use vstd::prelude::*;

verus! {

/// The rows of one page: the page number and size after clamping, and how
/// many rows precede the page.
#[derive(Debug, Clone, Copy, PartialEq, Eq)]
pub struct PageWindow {
    pub page: u64,
    pub limit: u64,
    pub offset: i64,
}

/// `x` clamped into `lo..=hi`.
pub open spec fn clamp(x: int, lo: int, hi: int) -> int {
    if x < lo {
        lo
    } else if x > hi {
        hi
    } else {
        x
    }
}

/// The page asked for, with the page number clamped into 1..=1000, the page
/// size into 1..=100, and the offset of its first row.
pub fn page_window(page: u64, limit: u64) -> (w: PageWindow)
    ensures
        w.page == clamp(page as int, 1, 1000),
        w.limit == clamp(limit as int, 1, 100),
        w.offset == (w.page - 1) * w.limit,
{
    let page = if page < 1 {
        1
    } else if page > 1000 {
        1000
    } else {
        page
    };
    let limit = if limit < 1 {
        1
    } else if limit > 100 {
        100
    } else {
        limit
    };
    assert((page - 1) * limit <= 999 * 100) by (nonlinear_arith)
        requires
            1 <= page <= 1000,
            1 <= limit <= 100,
    ;
    let offset = ((page - 1) * limit) as i64;
    PageWindow { page, limit, offset }
}

/// The number of pages of `limit` rows that `total` rows fill: the
/// quotient rounded up.
pub open spec fn pages_for(total: int, limit: int) -> int {
    -((-total) / limit)
}

/// How many pages a listing of `total_items` rows has at `limit` rows per
/// page. The count is exact integer arithmetic; the listing's total is a
/// row count, at most `i64::MAX`.
pub fn total_pages(total_items: i64, limit: u64) -> (r: i64)
    requires
        1 <= limit <= 100,
    ensures
        r == pages_for(total_items as int, limit as int),
{
    let t = total_items as i128;
    let l = limit as i128;
    if t >= 0 {
        let q = (t + l - 1) / l;
        proof {
            lemma_ceil_nonneg(t as int, l as int);
        }
        q as i64
    } else {
        let q = (-t) / l;
        proof {
            lemma_div_bounds(-t as int, l as int);
        }
        (-q) as i64
    }
}

/// For a non-negative total, rounding the quotient up adds `limit - 1`
/// before dividing, and never exceeds the total.
proof fn lemma_ceil_nonneg(t: int, l: int)
    requires
        t >= 0,
        l >= 1,
    ensures
        (t + l - 1) / l == -((-t) / l),
        0 <= (t + l - 1) / l <= t || t == 0,
{
    let q = (-t) / l;
    let r = (-t) % l;
    assert(-t == q * l + r && 0 <= r < l) by {
        vstd::arithmetic::div_mod::lemma_fundamental_div_mod(-t, l);
    }
    let q2 = (t + l - 1) / l;
    let r2 = (t + l - 1) % l;
    assert(t + l - 1 == q2 * l + r2 && 0 <= r2 < l) by {
        vstd::arithmetic::div_mod::lemma_fundamental_div_mod(t + l - 1, l);
    }
    assert(q2 == -q) by (nonlinear_arith)
        requires
            -t == q * l + r,
            0 <= r < l,
            t + l - 1 == q2 * l + r2,
            0 <= r2 < l,
            l >= 1,
    ;
    assert(0 <= q2 <= t || t == 0) by (nonlinear_arith)
        requires
            t + l - 1 == q2 * l + r2,
            0 <= r2 < l,
            l >= 1,
            t >= 0,
    ;
}

/// A quotient of positive numbers lies between zero and the dividend.
proof fn lemma_div_bounds(t: int, l: int)
    requires
        t > 0,
        l >= 1,
    ensures
        0 <= t / l <= t,
{
    let q = t / l;
    let r = t % l;
    assert(t == q * l + r && 0 <= r < l) by {
        vstd::arithmetic::div_mod::lemma_fundamental_div_mod(t, l);
    }
    assert(0 <= q <= t) by (nonlinear_arith)
        requires
            t == q * l + r,
            0 <= r < l,
            l >= 1,
            t > 0,
    ;
}

} // verus!
