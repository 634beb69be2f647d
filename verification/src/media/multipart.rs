//! Reading the parts of a multipart upload: which part is the version,
//! which parts are files, and what is wrong with a part.

use crate::media::error::{media_error_reply, MediaError, MediaErrorView};
use crate::media::model::{field_name_parse, field_name_text, FieldName};
use crate::reply::{ErrorReply, ErrorReplyView};
use crate::text::{owned, parse_i64, parse_i64_spec, str_eq, trim, trimmed};
use vstd::prelude::*;

verus! {

/// A part of an upload: the version the client saw, or a file for a field
/// with its file name and content type.
#[derive(Debug, Clone, PartialEq, Eq)]
pub enum UploadPart {
    Version,
    File { field: FieldName, file_name: String, content_type: String },
}

/// A `400 Bad Request` reply with the given text.
pub open spec fn bad_request(message: Seq<char>) -> ErrorReplyView {
    ErrorReplyView { status: 400, message: Some(message) }
}

fn bad_request_reply(message: &str) -> (r: ErrorReply)
    ensures
        r@ == bad_request(message@),
{
    ErrorReply { status: 400, message: Some(owned(message)) }
}

/// Reads a part's name, file name and content type: a part must have a
/// name; `version` names the version part; any other name must be a media
/// field, and a file part must say its content type. A part without a file
/// name is called `upload`.
pub fn classify_part(name: Option<&str>, file_name: Option<&str>, content_type: Option<&str>) -> (r: Result<
    UploadPart,
    ErrorReply,
>)
    ensures
        match name {
            None => r matches Err(e) && e@ == bad_request("Multipart field missing name"@),
            Some(n) => if n@ == "version"@ {
                r matches Ok(UploadPart::Version)
            } else {
                match field_name_parse(n@) {
                    None => r matches Err(e) && e@ == media_error_reply(MediaErrorView::UnknownField(n@)),
                    Some(f) => match content_type {
                        None => r matches Err(e) && e@ == media_error_reply(
                            MediaErrorView::MissingContentType(field_name_text(f)),
                        ),
                        Some(ct) => r matches Ok(UploadPart::File { field, file_name: fname, content_type: ctype })
                            && field == f && ctype@ == ct@ && fname@ == match file_name {
                            Some(fname0) => fname0@,
                            None => "upload"@,
                        },
                    },
                }
            },
        },
{
    let name = match name {
        Some(n) => n,
        None => return Err(bad_request_reply("Multipart field missing name")),
    };
    if str_eq(name, "version") {
        return Ok(UploadPart::Version);
    }
    let field = match FieldName::from_str(name) {
        Ok(f) => f,
        Err(e) => return Err(e.reply()),
    };
    let file_name = match file_name {
        Some(f) => owned(f),
        None => owned("upload"),
    };
    match content_type {
        Some(ct) => Ok(UploadPart::File { field, file_name, content_type: owned(ct) }),
        None => Err(MediaError::MissingContentType(field.as_string()).reply()),
    }
}

/// Reads the text of the version part: an `i64` after trimming whitespace.
pub fn parse_version(text: &str) -> (r: Result<i64, ErrorReply>)
    ensures
        match parse_i64_spec(trimmed(text@)) {
            Some(v) => r == Ok::<i64, ErrorReply>(v),
            None => r matches Err(e) && e@ == bad_request("Invalid version format"@),
        },
{
    match parse_i64(trim(text)) {
        Some(v) => Ok(v),
        None => Err(bad_request_reply("Invalid version format")),
    }
}

/// The version an upload names; an upload must name one.
pub fn require_version(version: Option<i64>) -> (r: Result<i64, ErrorReply>)
    ensures
        match version {
            Some(v) => r == Ok::<i64, ErrorReply>(v),
            None => r matches Err(e) && e@ == bad_request("Version field is required"@),
        },
{
    match version {
        Some(v) => Ok(v),
        None => Err(bad_request_reply("Version field is required")),
    }
}

} // verus!
