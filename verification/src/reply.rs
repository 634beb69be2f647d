//! The HTTP reply that a service error turns into.

use crate::adapters::{hex_decode, is_object_id_text, parse_object_id};
use crate::text::owned;
use vstd::prelude::*;

verus! {

/// Status code and message of an error reply. A `message` of `None` stands
/// for the generic internal-error reply, which hides the cause.
#[derive(Debug, Clone, PartialEq, Eq)]
pub struct ErrorReply {
    pub status: u16,
    pub message: Option<String>,
}

/// The mathematical value of an [`ErrorReply`].
pub struct ErrorReplyView {
    pub status: u16,
    pub message: Option<Seq<char>>,
}

impl View for ErrorReply {
    type V = ErrorReplyView;

    open spec fn view(&self) -> ErrorReplyView {
        ErrorReplyView {
            status: self.status,
            message: match self.message {
                Some(m) => Some(m@),
                None => None,
            },
        }
    }
}

/// A reply that shows the given text.
pub fn shown(status: u16, message: String) -> (r: ErrorReply)
    ensures
        r@ == (ErrorReplyView { status: status, message: Some(message@) }),
{
    ErrorReply { status, message: Some(message) }
}

/// The 12 bytes of an object id given as text, or a `400 Bad Request`
/// reply with `message` when the text is no object id.
pub fn object_id_or_bad_request(id: &str, message: &str) -> (r: Result<[u8; 12], ErrorReply>)
    ensures
        match r {
            Ok(b) => is_object_id_text(id@) && b@ == hex_decode(id@),
            Err(e) => !is_object_id_text(id@) && e@ == (ErrorReplyView { status: 400, message: Some(message@) }),
        },
{
    match parse_object_id(id) {
        Some(b) => Ok(b),
        None => Err(ErrorReply { status: 400, message: Some(owned(message)) }),
    }
}

/// The generic internal-error reply.
pub fn hidden() -> (r: ErrorReply)
    ensures
        r@ == (ErrorReplyView { status: 500, message: None }),
{
    ErrorReply { status: 500, message: None }
}

} // verus!
