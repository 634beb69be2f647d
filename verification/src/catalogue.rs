//! Outcome of asking the catalogue service whether a game exists.

use crate::adapters::{status_code_text, status_reason};
use crate::text::nat_decimal;
use vstd::prelude::*;

verus! {

/// Why the catalogue did not confirm a game: it does not know the game, or
/// it could not be asked (the message says why).
#[derive(Debug, Clone, PartialEq, Eq)]
pub enum CatalogueError {
    NotFound(i32),
    Unavailable(String),
}

/// The text of an answer with an unexpected status: the status number and
/// its reason phrase.
pub open spec fn unexpected_status_text(status: u16) -> Seq<char> {
    "Unexpected status from catalogue service: "@ + nat_decimal(status as nat) + seq![' '] + status_reason(status)
}

/// Reads the catalogue's answer to `GET /api/games/{game_id}` from its HTTP
/// status: 200 confirms the game, 404 denies it, and any other status means
/// the catalogue could not answer.
pub fn catalogue_answer(game_id: i32, status: u16) -> (r: Result<(), CatalogueError>)
    requires
        100 <= status <= 999,
    ensures
        status == 200 ==> r is Ok,
        status == 404 ==> r == Err::<(), CatalogueError>(CatalogueError::NotFound(game_id)),
        status != 200 && status != 404 ==> (r matches Err(CatalogueError::Unavailable(m))
            && m@ == unexpected_status_text(status)),
{
    if status == 200 {
        Ok(())
    } else if status == 404 {
        Err(CatalogueError::NotFound(game_id))
    } else {
        let mut s = String::from_str("Unexpected status from catalogue service: ");
        let t = status_code_text(status);
        s.append(t.as_str());
        assert(s@ =~= unexpected_status_text(status));
        Err(CatalogueError::Unavailable(s))
    }
}

} // verus!
