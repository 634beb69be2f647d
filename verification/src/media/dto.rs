//! Requests and responses of the multimedia service.

use crate::media::model::{GameMedia, MediaFile};
use std::collections::HashMap;
use crate::text::texts;
use vstd::prelude::*;

verus! {

/// A game's media, each file with a presigned download URL.
#[derive(Debug, Clone, PartialEq, Eq)]
pub struct GameMediaResponse {
    pub game_id: i32,
    pub cover: Option<MediaFileResponse>,
    pub screenshots: Vec<MediaFileResponse>,
    pub trailer: Option<MediaFileResponse>,
    pub version: i64,
}

impl GameMediaResponse {
    pub fn new(
        game_id: i32,
        cover: Option<MediaFileResponse>,
        screenshots: Vec<MediaFileResponse>,
        trailer: Option<MediaFileResponse>,
        version: i64,
    ) -> (r: Self)
        ensures
            r == (GameMediaResponse { game_id, cover, screenshots, trailer, version }),
    {
        GameMediaResponse { game_id, cover, screenshots, trailer, version }
    }
}

/// One file of a game's media, with its presigned URL.
#[derive(Debug, Clone, PartialEq, Eq)]
pub struct MediaFileResponse {
    pub url: String,
    pub mime_type: String,
    pub size_bytes: usize,
}

impl MediaFileResponse {
    pub fn new(url: String, mime_type: String, size_bytes: usize) -> (r: Self)
        ensures
            r == (MediaFileResponse { url, mime_type, size_bytes }),
    {
        MediaFileResponse { url, mime_type, size_bytes }
    }
}

/// The response entry of a file, given the URL presigned for its key.
pub open spec fn file_response(file: MediaFile, url: String) -> MediaFileResponse {
    MediaFileResponse { url: url, mime_type: file.mime_type, size_bytes: file.size_bytes }
}

/// The response entry of a stored file, with the URL presigned for its key.
pub fn media_file_response(file: MediaFile, url: String) -> (r: MediaFileResponse)
    ensures
        r == file_response(file, url),
{
    MediaFileResponse::new(url, file.mime_type, file.size_bytes)
}

/// The response for a game's media, given the URLs presigned for its cover,
/// for each screenshot in order, and for its trailer.
pub fn game_media_response(
    media: GameMedia,
    cover_url: Option<String>,
    screenshot_urls: Vec<String>,
    trailer_url: Option<String>,
) -> (r: GameMediaResponse)
    requires
        cover_url is Some <==> media.cover is Some,
        trailer_url is Some <==> media.trailer is Some,
        screenshot_urls@.len() == media.screenshots@.len(),
    ensures
        r.game_id == media.game_id,
        r.version == media.version,
        r.cover == (match media.cover {
            Some(f) => Some(file_response(f, cover_url->0)),
            None => None::<MediaFileResponse>,
        }),
        r.trailer == (match media.trailer {
            Some(f) => Some(file_response(f, trailer_url->0)),
            None => None::<MediaFileResponse>,
        }),
        r.screenshots@.len() == media.screenshots@.len(),
        forall|i: int|
            0 <= i < r.screenshots@.len() ==> #[trigger] r.screenshots@[i] == file_response(
                media.screenshots@[i],
                screenshot_urls@[i],
            ),
{
    let cover = match (media.cover, cover_url) {
        (Some(f), Some(u)) => Some(media_file_response(f, u)),
        _ => None,
    };
    let trailer = match (media.trailer, trailer_url) {
        (Some(f), Some(u)) => Some(media_file_response(f, u)),
        _ => None,
    };
    let mut screenshots: Vec<MediaFileResponse> = Vec::new();
    let mut i: usize = 0;
    while i < media.screenshots.len()
        invariant
            0 <= i <= media.screenshots@.len(),
            screenshot_urls@.len() == media.screenshots@.len(),
            screenshots@.len() == i,
            forall|j: int|
                0 <= j < i ==> #[trigger] screenshots@[j] == file_response(
                    media.screenshots@[j],
                    screenshot_urls@[j],
                ),
        decreases media.screenshots@.len() - i,
    {
        let f = &media.screenshots[i];
        let u = screenshot_urls[i].clone();
        screenshots.push(MediaFileResponse::new(u, f.mime_type.clone(), f.size_bytes));
        i = i + 1;
    }
    GameMediaResponse::new(media.game_id, cover, screenshots, trailer, media.version)
}

/// The games whose covers are asked for.
#[derive(Debug, Clone, PartialEq, Eq)]
pub struct GetGameCoversQuery {
    pub game_ids: Vec<i32>,
}

/// Presigned cover URLs by game id; `None` for a game without a cover.
#[derive(Debug, Clone)]
pub struct GetGameCoversResponse {
    pub game_covers: HashMap<i32, Option<String>>,
}

impl GetGameCoversResponse {
    pub fn new(game_covers: HashMap<i32, Option<String>>) -> (r: Self)
        ensures
            r.game_covers@ == game_covers@,
    {
        GetGameCoversResponse { game_covers }
    }

    /// The response when no game was asked for.
    pub fn empty() -> (r: Self)
        ensures
            r.game_covers@ == Map::<i32, Option<String>>::empty(),
    {
        GetGameCoversResponse { game_covers: HashMap::new() }
    }
}


/// The response entry of a stored file reports the file's own content type
/// and size, with the URL it was given.
pub proof fn law_file_response_reports_the_file(file: MediaFile, url: String)
    ensures
        file_response(file, url).url == url,
        file_response(file, url).mime_type == file.mime_type,
        file_response(file, url).size_bytes == file.size_bytes,
{
}

} // verus!
