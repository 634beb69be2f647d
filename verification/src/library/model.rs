//! Games in a user's library.

use crate::text::{owned, str_eq};
use vstd::prelude::*;

verus! {

/// Where a game stands in a user's library. A game is owned unless said
/// otherwise.
#[derive(Debug, Clone, Copy, PartialEq, Eq, Structural, Hash)]
pub enum GameLibraryStatus {
    Owned,
    Playing,
    Wishlist,
    Completed,
    Dropped,
}

impl Default for GameLibraryStatus {
    fn default() -> (r: Self)
        ensures
            r == GameLibraryStatus::Owned,
    {
        GameLibraryStatus::Owned
    }
}

/// A game in a user's library. `user_id` holds the user's UUID as a number;
/// the times are milliseconds since the Unix epoch.
/// The name a status is stored under in the database.
pub open spec fn status_db_text(s: GameLibraryStatus) -> Seq<char> {
    match s {
        GameLibraryStatus::Owned => "OWNED"@,
        GameLibraryStatus::Playing => "PLAYING"@,
        GameLibraryStatus::Wishlist => "WISHLIST"@,
        GameLibraryStatus::Completed => "COMPLETED"@,
        GameLibraryStatus::Dropped => "DROPPED"@,
    }
}

/// The status a stored name denotes, if any.
pub open spec fn status_db_parse(t: Seq<char>) -> Option<GameLibraryStatus> {
    if t == "OWNED"@ {
        Some(GameLibraryStatus::Owned)
    } else if t == "PLAYING"@ {
        Some(GameLibraryStatus::Playing)
    } else if t == "WISHLIST"@ {
        Some(GameLibraryStatus::Wishlist)
    } else if t == "COMPLETED"@ {
        Some(GameLibraryStatus::Completed)
    } else if t == "DROPPED"@ {
        Some(GameLibraryStatus::Dropped)
    } else {
        None
    }
}

impl GameLibraryStatus {
    /// The name this status is stored under.
    pub fn as_db_value(&self) -> (s: String)
        ensures
            s@ == status_db_text(*self),
    {
        match self {
            GameLibraryStatus::Owned => owned("OWNED"),
            GameLibraryStatus::Playing => owned("PLAYING"),
            GameLibraryStatus::Wishlist => owned("WISHLIST"),
            GameLibraryStatus::Completed => owned("COMPLETED"),
            GameLibraryStatus::Dropped => owned("DROPPED"),
        }
    }

    /// Reads a stored status name; any other text denotes no status.
    pub fn from_db_value(s: &str) -> (r: Option<GameLibraryStatus>)
        ensures
            r == status_db_parse(s@),
    {
        if str_eq(s, "OWNED") {
            Some(GameLibraryStatus::Owned)
        } else if str_eq(s, "PLAYING") {
            Some(GameLibraryStatus::Playing)
        } else if str_eq(s, "WISHLIST") {
            Some(GameLibraryStatus::Wishlist)
        } else if str_eq(s, "COMPLETED") {
            Some(GameLibraryStatus::Completed)
        } else if str_eq(s, "DROPPED") {
            Some(GameLibraryStatus::Dropped)
        } else {
            None
        }
    }
}

/// A stored status reads back as the same status, and different statuses
/// are stored under different names.
pub proof fn law_status_reads_back(s: GameLibraryStatus, t: GameLibraryStatus)
    ensures
        status_db_parse(status_db_text(s)) == Some(s),
        s != t ==> status_db_text(s) != status_db_text(t),
{
    reveal_strlit("OWNED");
    reveal_strlit("PLAYING");
    reveal_strlit("WISHLIST");
    reveal_strlit("COMPLETED");
    reveal_strlit("DROPPED");
    assert("OWNED"@[0] == 'O');
    assert("PLAYING"@[0] == 'P');
    assert("WISHLIST"@[0] == 'W');
    assert("COMPLETED"@[0] == 'C');
    assert("DROPPED"@[0] == 'D');
}

#[derive(Debug, Clone, Copy, PartialEq, Eq)]
pub struct UserGame {
    pub user_id: u128,
    pub game_id: i32,
    pub status: GameLibraryStatus,
    pub added_at: i64,
    pub last_updated: i64,
}

/// A game as listed in a library page.
#[derive(Debug, Clone, Copy, PartialEq, Eq)]
pub struct LibraryGame {
    pub game_id: i32,
    pub status: GameLibraryStatus,
    pub added_at: i64,
    pub last_updated: i64,
}

} // verus!
