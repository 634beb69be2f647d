//! Ratings and reviews.

use crate::text::{owned, str_eq};
use vstd::prelude::*;

verus! {

/// How strongly the author of a review recommends a game.
#[derive(Debug, Clone, Copy, PartialEq, Eq, Structural)]
pub enum Rating {
    NotRecommended,
    Okay,
    Good,
    HighlyRecommended,
}

/// The name a rating is stored and exchanged under: upper snake case.
pub open spec fn rating_db_text(r: Rating) -> Seq<char> {
    match r {
        Rating::NotRecommended => "NOT_RECOMMENDED"@,
        Rating::Okay => "OKAY"@,
        Rating::Good => "GOOD"@,
        Rating::HighlyRecommended => "HIGHLY_RECOMMENDED"@,
    }
}

/// The rating a text names, in its upper snake case spelling.
pub open spec fn rating_parse(s: Seq<char>) -> Option<Rating> {
    if s == "NOT_RECOMMENDED"@ {
        Some(Rating::NotRecommended)
    } else if s == "OKAY"@ {
        Some(Rating::Okay)
    } else if s == "GOOD"@ {
        Some(Rating::Good)
    } else if s == "HIGHLY_RECOMMENDED"@ {
        Some(Rating::HighlyRecommended)
    } else {
        None
    }
}

/// A text that names no rating.
#[derive(Debug, Clone, PartialEq, Eq)]
pub struct RatingParseError(pub String);

impl RatingParseError {
    /// The error's text, as its `Display` writes it.
    pub fn message(&self) -> (s: String)
        ensures
            s@ == "invalid rating: "@ + self.0@,
    {
        String::from_str("invalid rating: ").concat(self.0.as_str())
    }
}

impl Rating {
    /// The name this rating is stored under, in upper snake case.
    pub fn as_db_value(&self) -> (s: String)
        ensures
            s@ == rating_db_text(*self),
    {
        match self {
            Rating::NotRecommended => String::from_str("NOT_RECOMMENDED"),
            Rating::Okay => String::from_str("OKAY"),
            Rating::Good => String::from_str("GOOD"),
            Rating::HighlyRecommended => String::from_str("HIGHLY_RECOMMENDED"),
        }
    }

    /// Reads a rating from its upper snake case name.
    pub fn from_str(s: &str) -> (r: Result<Rating, RatingParseError>)
        ensures
            match r {
                Ok(v) => rating_parse(s@) == Some(v),
                Err(e) => rating_parse(s@) is None && e.0@ == s@,
            },
    {
        if str_eq(s, "NOT_RECOMMENDED") {
            Ok(Rating::NotRecommended)
        } else if str_eq(s, "OKAY") {
            Ok(Rating::Okay)
        } else if str_eq(s, "GOOD") {
            Ok(Rating::Good)
        } else if str_eq(s, "HIGHLY_RECOMMENDED") {
            Ok(Rating::HighlyRecommended)
        } else {
            Err(RatingParseError(owned(s)))
        }
    }
}

/// Every rating's stored name reads back as the same rating, and distinct
/// ratings are stored under distinct names.
pub proof fn law_ratings_read_back(r: Rating, q: Rating)
    ensures
        rating_parse(rating_db_text(r)) == Some(r),
        r != q ==> rating_db_text(r) != rating_db_text(q),
{
    reveal_strlit("OKAY");
    reveal_strlit("GOOD");
    reveal_strlit("NOT_RECOMMENDED");
    reveal_strlit("HIGHLY_RECOMMENDED");
    assert("NOT_RECOMMENDED"@[0] == 'N');
    assert("OKAY"@[0] == 'O');
    assert("GOOD"@[0] == 'G');
    assert("HIGHLY_RECOMMENDED"@[0] == 'H');
}

/// A review of a game by a user. `id` holds the 12 bytes of the document's
/// object id, `user_id` the user's UUID as a number; the times are
/// milliseconds since the Unix epoch. Deleted reviews are kept, marked.
#[derive(Debug, Clone, PartialEq, Eq)]
pub struct Review {
    pub id: Option<[u8; 12]>,
    pub game_id: i32,
    pub user_id: u128,
    pub username: String,
    pub rating: Rating,
    pub text: Option<String>,
    pub created_at: i64,
    pub updated_at: i64,
    pub version: i64,
    pub deleted: bool,
}

impl Review {
    /// A new review, not yet stored: no id, version 0, not deleted, updated
    /// when created.
    pub fn new(
        game_id: i32,
        user_id: u128,
        username: String,
        rating: Rating,
        text: Option<String>,
        created_at: i64,
    ) -> (r: Self)
        ensures
            r == (Review {
                id: None,
                game_id,
                user_id,
                username,
                rating,
                text,
                created_at,
                updated_at: created_at,
                version: 0,
                deleted: false,
            }),
    {
        Review {
            id: None,
            game_id,
            user_id,
            username,
            rating,
            text,
            created_at,
            updated_at: created_at,
            version: 0,
            deleted: false,
        }
    }
}

} // verus!
