//! Requests of the library service and the checks they must pass.

use crate::library::model::{GameLibraryStatus, LibraryGame};
use crate::library::paging::PageWindow;
use crate::text::{lemma_texts_push, texts};
use vstd::prelude::*;

verus! {

/// Adds a game to the caller's library, or changes its status there.
#[derive(Debug, Clone, Copy, PartialEq, Eq)]
pub struct AddUpdateGameRequest {
    pub game_id: i32,
    pub status: GameLibraryStatus,
}

impl AddUpdateGameRequest {
    /// The fields that break their rule: `game_id` must be at least 1.
    pub fn invalid_fields(&self) -> (r: Vec<String>)
        ensures
            texts(r@) == if self.game_id < 1 {
                seq!["game_id"@]
            } else {
                Seq::<Seq<char>>::empty()
            },
    {
        let mut r: Vec<String> = Vec::new();
        if self.game_id < 1 {
            r.push(String::from_str("game_id"));
        }
        assert(texts(r@) =~= if self.game_id < 1 {
            seq!["game_id"@]
        } else {
            Seq::<Seq<char>>::empty()
        });
        r
    }
}

/// The page a library listing starts at when none is asked for.
pub fn default_page() -> (r: u64)
    ensures
        r == 1,
{
    1
}

/// The page size of a library listing when none is asked for.
pub fn default_limit() -> (r: u64)
    ensures
        r == 50,
{
    50
}

/// Which part of a user's library to list.
#[derive(Debug, Clone, Copy, PartialEq, Eq)]
pub struct LibraryFilterQuery {
    pub status: Option<GameLibraryStatus>,
    pub page: u64,
    pub limit: u64,
}

/// The fields of a library query that break their range: `page` must lie
/// in 1..=1000 and `limit` in 1..=100.
pub open spec fn filter_query_violations(page: u64, limit: u64) -> Seq<Seq<char>> {
    (if page < 1 || page > 1000 {
        seq!["page"@]
    } else {
        Seq::<Seq<char>>::empty()
    }) + (if limit < 1 || limit > 100 {
        seq!["limit"@]
    } else {
        Seq::<Seq<char>>::empty()
    })
}

impl LibraryFilterQuery {
    /// A query with the default page and page size.
    pub fn new(status: Option<GameLibraryStatus>) -> (r: Self)
        ensures
            r.status == status,
            r.page == 1,
            r.limit == 50,
    {
        LibraryFilterQuery { status, page: default_page(), limit: default_limit() }
    }

    /// The fields that break their range, in declaration order.
    pub fn invalid_fields(&self) -> (r: Vec<String>)
        ensures
            texts(r@) == filter_query_violations(self.page, self.limit),
    {
        let mut r: Vec<String> = Vec::new();
        if self.page < 1 || self.page > 1000 {
            r.push(String::from_str("page"));
        }
        let ghost first = r@;
        if self.limit < 1 || self.limit > 100 {
            r.push(String::from_str("limit"));
            proof {
                lemma_texts_push(first, r@.last());
            }
        }
        assert(texts(r@) =~= filter_query_violations(self.page, self.limit));
        r
    }
}

/// One page of a user's library, with the counts a client pages by.
#[derive(Debug, Clone, PartialEq, Eq)]
pub struct LibraryPagedResponse {
    pub items: Vec<LibraryGame>,
    pub total_items: i64,
    pub total_pages: i64,
    pub page: i64,
    pub limit: i64,
}

impl LibraryPagedResponse {
    /// The page `window` of a listing with `total_items` games in all.
    pub fn new(items: Vec<LibraryGame>, total_items: i64, total_pages: i64, window: PageWindow) -> (r: Self)
        requires
            window.page <= 1000,
            window.limit <= 100,
        ensures
            r.items == items,
            r.total_items == total_items,
            r.total_pages == total_pages,
            r.page == window.page,
            r.limit == window.limit,
    {
        LibraryPagedResponse {
            items,
            total_items,
            total_pages,
            page: window.page as i64,
            limit: window.limit as i64,
        }
    }
}


/// A library query names `page` among its invalid fields exactly when the
/// page lies outside 1..=1000, and `limit` exactly when the page size lies
/// outside 1..=100.
pub proof fn law_query_bounds(page: u64, limit: u64)
    ensures
        filter_query_violations(page, limit).contains("page"@) <==> (page < 1 || page > 1000),
        filter_query_violations(page, limit).contains("limit"@) <==> (limit < 1 || limit > 100),
        filter_query_violations(page, limit).len() == 0 <==> (1 <= page <= 1000 && 1 <= limit <= 100),
{
    reveal_strlit("page");
    reveal_strlit("limit");
    assert("page"@ != "limit"@) by {
        assert("page"@.len() != "limit"@.len());
    }
    let v = filter_query_violations(page, limit);
    if page < 1 || page > 1000 {
        assert(v[0] == "page"@);
    }
    if limit < 1 || limit > 100 {
        assert(v[v.len() - 1] == "limit"@);
    }
}

} // verus!
