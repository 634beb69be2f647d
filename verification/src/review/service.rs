//! The decisions of the review service: what a lookup answers, what an
//! upsert stores, who may delete, and what the rating statistics say.

use crate::adapters::now_millis;
use crate::review::dto::{CreateUpdateReviewRequest, GameRatingStatsResponse};
use crate::review::error::{ReviewError, ReviewErrorView};
use crate::review::model::{rating_parse, Rating, RatingParseError, Review};
use vstd::prelude::*;

verus! {

/// The review a lookup found, or the not-found error.
pub fn found_review(found: Option<Review>) -> (r: Result<Review, ReviewError>)
    ensures
        match found {
            Some(v) => r == Ok::<Review, ReviewError>(v),
            None => r matches Err(e) && e@ == ReviewErrorView::NotFound,
        },
{
    match found {
        Some(v) => Ok(v),
        None => Err(ReviewError::NotFound),
    }
}

/// What an upsert stores: the caller's existing review of the game with the
/// new rating and text and the time of the change, or a new review.
pub open spec fn upserted_review(
    existing: Option<Review>,
    user_id: u128,
    username: String,
    request: CreateUpdateReviewRequest,
    now: i64,
) -> Review {
    match existing {
        Some(e) => Review { rating: request.rating, text: request.text, updated_at: now, ..e },
        None => Review {
            id: None,
            game_id: request.game_id,
            user_id: user_id,
            username: username,
            rating: request.rating,
            text: request.text,
            created_at: now,
            updated_at: now,
            version: 0,
            deleted: false,
        },
    }
}

/// The review an upsert stores (see [`upserted_review`]).
pub fn prepare_upsert(
    existing: Option<Review>,
    user_id: u128,
    username: String,
    request: CreateUpdateReviewRequest,
    now: i64,
) -> (r: Review)
    ensures
        r == upserted_review(existing, user_id, username, request, now),
{
    match existing {
        Some(mut review) => {
            review.rating = request.rating;
            review.text = request.text;
            review.updated_at = now;
            review
        },
        None => Review::new(request.game_id, user_id, username, request.rating, request.text, now),
    }
}

/// The review an upsert stores, changed at the current time (see
/// [`upserted_review`]); the time is read from the clock.
pub fn prepare_upsert_now(
    existing: Option<Review>,
    user_id: u128,
    username: String,
    request: CreateUpdateReviewRequest,
) -> (r: Review)
    ensures
        exists|t: i64| r == upserted_review(existing, user_id, username, request, t),
{
    let now = now_millis();
    prepare_upsert(existing, user_id, username, request, now)
}

/// Who may delete a review: only its author. Gives the version the delete
/// must match.
pub fn authorize_delete(found: Option<Review>, user_id: u128) -> (r: Result<i64, ReviewError>)
    ensures
        match found {
            None => r matches Err(e) && e@ == ReviewErrorView::NotFound,
            Some(v) => if v.user_id != user_id {
                r matches Err(e) && e@ == ReviewErrorView::Unauthorized
            } else {
                r == Ok::<i64, ReviewError>(v.version)
            },
        },
{
    match found {
        None => Err(ReviewError::NotFound),
        Some(v) => {
            if v.user_id != user_id {
                Err(ReviewError::Unauthorized)
            } else {
                Ok(v.version)
            }
        },
    }
}

/// A versioned replace of a stored review: the version the stored copy
/// must have, and the review to store with its version moved up by one.
pub fn prepare_replace(review: Review) -> (r: (i64, Review))
    requires
        review.version < i64::MAX,
    ensures
        r.0 == review.version,
        r.1 == (Review { version: (review.version + 1) as i64, ..review }),
{
    let current = review.version;
    let mut next = review;
    next.version = current + 1;
    (current, next)
}

/// The outcome of a versioned write to review `id`: matching no stored
/// review means another write came first.
pub fn write_outcome(id: [u8; 12], matched_count: u64) -> (r: Result<(), ReviewError>)
    ensures
        r is Ok <==> matched_count > 0,
        r matches Err(e) ==> e@ == ReviewErrorView::Conflict(id@),
{
    if matched_count == 0 {
        Err(ReviewError::Conflict(id))
    } else {
        Ok(())
    }
}

/// Statistics with one rating's count set.
pub open spec fn with_count(s: GameRatingStatsResponse, r: Rating, count: i64) -> GameRatingStatsResponse {
    match r {
        Rating::HighlyRecommended => GameRatingStatsResponse { highly_recommended_count: count, ..s },
        Rating::Good => GameRatingStatsResponse { good_count: count, ..s },
        Rating::Okay => GameRatingStatsResponse { okay_count: count, ..s },
        Rating::NotRecommended => GameRatingStatsResponse { not_recommended_count: count, ..s },
    }
}

/// The statistics a list of (rating name, count) groups yields, group by
/// group: each group sets its rating's count, a group naming no rating
/// stops the reading with the error text of its name.
pub open spec fn stats_of_groups(groups: Seq<(String, i32)>) -> Result<GameRatingStatsResponse, Seq<char>>
    decreases groups.len(),
{
    if groups.len() == 0 {
        Ok(
            GameRatingStatsResponse {
                highly_recommended_count: 0,
                good_count: 0,
                okay_count: 0,
                not_recommended_count: 0,
            },
        )
    } else {
        match stats_of_groups(groups.drop_last()) {
            Err(m) => Err(m),
            Ok(s) => match rating_parse(groups.last().0@) {
                None => Err("invalid rating: "@ + groups.last().0@),
                Some(r) => Ok(with_count(s, r, groups.last().1 as i64)),
            },
        }
    }
}

/// The rating statistics of a game from the per-rating groups the database
/// counted.
pub fn rating_stats(groups: &[(String, i32)]) -> (r: Result<GameRatingStatsResponse, ReviewError>)
    ensures
        match r {
            Ok(s) => stats_of_groups(groups@) == Ok::<GameRatingStatsResponse, Seq<char>>(s),
            Err(e) => stats_of_groups(groups@) matches Err(m) && e@ == ReviewErrorView::AnyhowError(m),
        },
{
    let mut highly_recommended_count: i64 = 0;
    let mut good_count: i64 = 0;
    let mut okay_count: i64 = 0;
    let mut not_recommended_count: i64 = 0;
    let mut i: usize = 0;
    while i < groups.len()
        invariant
            0 <= i <= groups@.len(),
            stats_of_groups(groups@.take(i as int)) == Ok::<GameRatingStatsResponse, Seq<char>>(
                GameRatingStatsResponse {
                    highly_recommended_count,
                    good_count,
                    okay_count,
                    not_recommended_count,
                },
            ),
        decreases groups@.len() - i,
    {
        let group = &groups[i];
        assert(groups@.take(i + 1).drop_last() =~= groups@.take(i as int));
        assert(groups@.take(i + 1).last() == groups@[i as int]);
        let count = group.1 as i64;
        match Rating::from_str(group.0.as_str()) {
            Ok(Rating::HighlyRecommended) => highly_recommended_count = count,
            Ok(Rating::Good) => good_count = count,
            Ok(Rating::Okay) => okay_count = count,
            Ok(Rating::NotRecommended) => not_recommended_count = count,
            Err(e) => {
                proof {
                    lemma_stats_error_persists(groups@, (i + 1) as int);
                }
                return Err(ReviewError::AnyhowError(e.message()));
            },
        }
        i = i + 1;
    }
    assert(groups@.take(i as int) =~= groups@);
    Ok(GameRatingStatsResponse::new(highly_recommended_count, good_count, okay_count, not_recommended_count))
}

/// Once reading the groups fails, reading more groups fails the same way.
proof fn lemma_stats_error_persists(groups: Seq<(String, i32)>, k: int)
    requires
        0 <= k <= groups.len(),
        stats_of_groups(groups.take(k)) is Err,
    ensures
        stats_of_groups(groups) == stats_of_groups(groups.take(k)),
    decreases groups.len() - k,
{
    if k < groups.len() {
        assert(groups.take(k + 1).drop_last() =~= groups.take(k));
        lemma_stats_error_persists(groups, k + 1);
    } else {
        assert(groups.take(k) =~= groups);
    }
}


/// Adding a group to a readable list of groups: a group named by one of the
/// four stored rating names sets exactly that rating's count to the group's
/// count and keeps the other three; a group with any other name makes the
/// list unreadable.
pub proof fn law_group_count_lands_in_its_rating(groups: Seq<(String, i32)>, g: (String, i32))
    requires
        stats_of_groups(groups) is Ok,
    ensures
        ({
            let s = stats_of_groups(groups)->Ok_0;
            let t = stats_of_groups(groups.push(g));
            &&& (g.0@ == "HIGHLY_RECOMMENDED"@ ==> t == Ok::<GameRatingStatsResponse, Seq<char>>(
                GameRatingStatsResponse {
                    highly_recommended_count: g.1 as i64,
                    good_count: s.good_count,
                    okay_count: s.okay_count,
                    not_recommended_count: s.not_recommended_count,
                },
            ))
            &&& (g.0@ == "GOOD"@ ==> t == Ok::<GameRatingStatsResponse, Seq<char>>(
                GameRatingStatsResponse {
                    highly_recommended_count: s.highly_recommended_count,
                    good_count: g.1 as i64,
                    okay_count: s.okay_count,
                    not_recommended_count: s.not_recommended_count,
                },
            ))
            &&& (g.0@ == "OKAY"@ ==> t == Ok::<GameRatingStatsResponse, Seq<char>>(
                GameRatingStatsResponse {
                    highly_recommended_count: s.highly_recommended_count,
                    good_count: s.good_count,
                    okay_count: g.1 as i64,
                    not_recommended_count: s.not_recommended_count,
                },
            ))
            &&& (g.0@ == "NOT_RECOMMENDED"@ ==> t == Ok::<GameRatingStatsResponse, Seq<char>>(
                GameRatingStatsResponse {
                    highly_recommended_count: s.highly_recommended_count,
                    good_count: s.good_count,
                    okay_count: s.okay_count,
                    not_recommended_count: g.1 as i64,
                },
            ))
            &&& (t is Ok <==> (g.0@ == "HIGHLY_RECOMMENDED"@ || g.0@ == "GOOD"@ || g.0@ == "OKAY"@ || g.0@
                == "NOT_RECOMMENDED"@))
        }),
{
    reveal_strlit("HIGHLY_RECOMMENDED");
    reveal_strlit("GOOD");
    reveal_strlit("OKAY");
    reveal_strlit("NOT_RECOMMENDED");
    assert("HIGHLY_RECOMMENDED"@[0] == 'H');
    assert("GOOD"@[0] == 'G');
    assert("OKAY"@[0] == 'O');
    assert("NOT_RECOMMENDED"@[0] == 'N');
    assert(groups.push(g).drop_last() =~= groups);
}

} // verus!
