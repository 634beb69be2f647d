//! Requests and responses of the review service.

use crate::adapters::{hex_lower, object_id_to_hex};
use crate::review::model::{Rating, Review};
use crate::text::texts;
use vstd::prelude::*;

verus! {

/// The fields of a review request that break their rule: a text, when
/// given, must have at least 10 characters.
pub open spec fn review_request_violations(text: Option<String>) -> Seq<Seq<char>> {
    match text {
        Some(t) => if t@.len() < 10 {
            seq!["text"@]
        } else {
            Seq::<Seq<char>>::empty()
        },
        None => Seq::<Seq<char>>::empty(),
    }
}

/// Creates the caller's review of a game or replaces its rating and text.
#[derive(Debug, Clone, PartialEq, Eq)]
pub struct CreateUpdateReviewRequest {
    pub game_id: i32,
    pub rating: Rating,
    pub text: Option<String>,
}

impl CreateUpdateReviewRequest {
    /// The fields that break their rule.
    pub fn invalid_fields(&self) -> (r: Vec<String>)
        ensures
            texts(r@) == review_request_violations(self.text),
    {
        let mut r: Vec<String> = Vec::new();
        if let Some(t) = &self.text {
            if t.as_str().unicode_len() < 10 {
                r.push(String::from_str("text"));
            }
        }
        assert(texts(r@) =~= review_request_violations(self.text));
        r
    }
}

/// Which reviews of a game to list.
#[derive(Debug, Clone, Copy, PartialEq, Eq)]
pub struct ReviewQuery {
    pub page: u64,
    pub rating: Option<Rating>,
}

/// A review as listed for a game.
#[derive(Debug, Clone, PartialEq, Eq)]
pub struct GameReviewResponse {
    pub id: String,
    pub user_id: u128,
    pub username: String,
    pub rating: Rating,
    pub text: Option<String>,
    pub created_at: i64,
    pub updated_at: i64,
}

impl GameReviewResponse {
    /// The listing entry of a stored review; its id in hexadecimal.
    pub fn from(value: Review) -> (r: Self)
        requires
            value.id is Some,
        ensures
            r.id@ == hex_lower(value.id->0@),
            r.user_id == value.user_id,
            r.username == value.username,
            r.rating == value.rating,
            r.text == value.text,
            r.created_at == value.created_at,
            r.updated_at == value.updated_at,
    {
        let id = match value.id {
            Some(id) => object_id_to_hex(id),
            None => String::new(),
        };
        GameReviewResponse {
            id,
            user_id: value.user_id,
            username: value.username,
            rating: value.rating,
            text: value.text,
            created_at: value.created_at,
            updated_at: value.updated_at,
        }
    }
}

/// How many reviews of a game give each rating.
#[derive(Debug, Clone, Copy, PartialEq, Eq)]
pub struct GameRatingStatsResponse {
    pub highly_recommended_count: i64,
    pub good_count: i64,
    pub okay_count: i64,
    pub not_recommended_count: i64,
}

impl GameRatingStatsResponse {
    pub fn new(
        highly_recommended_count: i64,
        good_count: i64,
        okay_count: i64,
        not_recommended_count: i64,
    ) -> (r: Self)
        ensures
            r == (GameRatingStatsResponse {
                highly_recommended_count,
                good_count,
                okay_count,
                not_recommended_count,
            }),
    {
        GameRatingStatsResponse { highly_recommended_count, good_count, okay_count, not_recommended_count }
    }
}

/// A user's review of a game.
#[derive(Debug, Clone, PartialEq, Eq)]
pub struct ReviewSimpleResponse {
    pub id: String,
    pub game_id: i32,
    pub user_id: u128,
    pub username: String,
    pub rating: Rating,
    pub text: Option<String>,
    pub created_at: i64,
    pub updated_at: i64,
}

impl ReviewSimpleResponse {
    /// The response for a stored review; its id in hexadecimal.
    pub fn from(value: Review) -> (r: Self)
        requires
            value.id is Some,
        ensures
            r.id@ == hex_lower(value.id->0@),
            r.game_id == value.game_id,
            r.user_id == value.user_id,
            r.username == value.username,
            r.rating == value.rating,
            r.text == value.text,
            r.created_at == value.created_at,
            r.updated_at == value.updated_at,
    {
        let id = match value.id {
            Some(id) => object_id_to_hex(id),
            None => String::new(),
        };
        ReviewSimpleResponse {
            id,
            game_id: value.game_id,
            user_id: value.user_id,
            username: value.username,
            rating: value.rating,
            text: value.text,
            created_at: value.created_at,
            updated_at: value.updated_at,
        }
    }
}

/// A review with the version a client must send back to change it.
#[derive(Debug, Clone, PartialEq, Eq)]
pub struct ReviewDetailedResponse {
    pub id: String,
    pub game_id: i32,
    pub user_id: u128,
    pub username: String,
    pub rating: Rating,
    pub text: Option<String>,
    pub created_at: i64,
    pub updated_at: i64,
    pub version: i64,
}

impl ReviewDetailedResponse {
    /// The response for a stored review; its id in hexadecimal.
    pub fn from(value: Review) -> (r: Self)
        requires
            value.id is Some,
        ensures
            r.id@ == hex_lower(value.id->0@),
            r.game_id == value.game_id,
            r.user_id == value.user_id,
            r.username == value.username,
            r.rating == value.rating,
            r.text == value.text,
            r.created_at == value.created_at,
            r.updated_at == value.updated_at,
            r.version == value.version,
    {
        let id = match value.id {
            Some(id) => object_id_to_hex(id),
            None => String::new(),
        };
        ReviewDetailedResponse {
            id,
            game_id: value.game_id,
            user_id: value.user_id,
            username: value.username,
            rating: value.rating,
            text: value.text,
            created_at: value.created_at,
            updated_at: value.updated_at,
            version: value.version,
        }
    }
}

} // verus!
