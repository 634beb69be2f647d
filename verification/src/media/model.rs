//! Media records and uploaded files.

use crate::adapters::bytes_view;
use crate::media::error::{MediaError, MediaErrorView};
use crate::text::{lemma_texts_push, owned, str_eq, texts};
use bytes::Bytes;
use vstd::prelude::*;

verus! {

/// The multipart field a file arrives in.
#[derive(Debug, Clone, Copy, PartialEq, Eq, Structural)]
pub enum FieldName {
    Cover,
    Screenshot,
    Trailer,
}

/// The name of a field as its `Debug` rendering writes it.
pub open spec fn field_name_text(f: FieldName) -> Seq<char> {
    match f {
        FieldName::Cover => "Cover"@,
        FieldName::Screenshot => "Screenshot"@,
        FieldName::Trailer => "Trailer"@,
    }
}

/// The field a multipart part name selects, if any.
pub open spec fn field_name_parse(s: Seq<char>) -> Option<FieldName> {
    if s == "cover"@ {
        Some(FieldName::Cover)
    } else if s == "screenshot"@ {
        Some(FieldName::Screenshot)
    } else if s == "trailer"@ {
        Some(FieldName::Trailer)
    } else {
        None
    }
}

impl FieldName {
    /// The field's name, as `format!("{:?}", self)` writes it.
    pub fn as_string(&self) -> (s: String)
        ensures
            s@ == field_name_text(*self),
    {
        match self {
            FieldName::Cover => String::from_str("Cover"),
            FieldName::Screenshot => String::from_str("Screenshot"),
            FieldName::Trailer => String::from_str("Trailer"),
        }
    }

    /// Reads a multipart part name: `cover`, `screenshot` or `trailer`;
    /// any other name is an unknown field.
    pub fn from_str(s: &str) -> (r: Result<FieldName, MediaError>)
        ensures
            match r {
                Ok(f) => field_name_parse(s@) == Some(f),
                Err(e) => field_name_parse(s@) is None && e@ == MediaErrorView::UnknownField(s@),
            },
    {
        if str_eq(s, "cover") {
            Ok(FieldName::Cover)
        } else if str_eq(s, "screenshot") {
            Ok(FieldName::Screenshot)
        } else if str_eq(s, "trailer") {
            Ok(FieldName::Trailer)
        } else {
            Err(MediaError::UnknownField(owned(s)))
        }
    }
}

/// One stored media object and its metadata. `uploaded_at` is in
/// milliseconds since the Unix epoch.
#[derive(Debug, Clone, PartialEq, Eq)]
pub struct MediaFile {
    pub object_key: String,
    pub mime_type: String,
    pub size_bytes: usize,
    pub uploaded_at: i64,
}

impl MediaFile {
    pub fn new(object_key: String, mime_type: String, size_bytes: usize, uploaded_at: i64) -> (r: Self)
        ensures
            r.object_key == object_key,
            r.mime_type == mime_type,
            r.size_bytes == size_bytes,
            r.uploaded_at == uploaded_at,
    {
        MediaFile { object_key, mime_type, size_bytes, uploaded_at }
    }
}

/// All media of one game, with the version used for optimistic concurrency.
/// `id` holds the 12 bytes of the document's object id.
#[derive(Debug, Clone, PartialEq, Eq)]
pub struct GameMedia {
    pub id: Option<[u8; 12]>,
    pub game_id: i32,
    pub cover: Option<MediaFile>,
    pub screenshots: Vec<MediaFile>,
    pub trailer: Option<MediaFile>,
    pub version: i64,
}

/// The key of an optional file, as a sequence of zero or one key.
pub open spec fn opt_key(f: Option<MediaFile>) -> Seq<Seq<char>> {
    match f {
        Some(f) => seq![f.object_key@],
        None => seq![],
    }
}

/// The keys of a list of files, in order.
pub open spec fn file_keys(fs: Seq<MediaFile>) -> Seq<Seq<char>> {
    fs.map_values(|f: MediaFile| f.object_key@)
}

/// Every object key a media record refers to: cover, screenshots, trailer.
pub open spec fn media_object_keys(m: GameMedia) -> Seq<Seq<char>> {
    opt_key(m.cover) + file_keys(m.screenshots@) + opt_key(m.trailer)
}

/// Pushing a file pushes its key.
pub proof fn lemma_file_keys_push(v: Seq<MediaFile>, f: MediaFile)
    ensures
        file_keys(v.push(f)) == file_keys(v).push(f.object_key@),
{
    assert(file_keys(v.push(f)) =~= file_keys(v).push(f.object_key@));
}

impl GameMedia {
    pub fn new(
        id: Option<[u8; 12]>,
        game_id: i32,
        cover: Option<MediaFile>,
        screenshots: Vec<MediaFile>,
        trailer: Option<MediaFile>,
        version: i64,
    ) -> (r: Self)
        ensures
            r == (GameMedia { id, game_id, cover, screenshots, trailer, version }),
    {
        GameMedia { id, game_id, cover, screenshots, trailer, version }
    }

    /// An empty record for a game that has no media yet.
    pub fn new_for_game(game_id: i32) -> (r: Self)
        ensures
            r.id is None,
            r.game_id == game_id,
            r.cover is None,
            r.screenshots@.len() == 0,
            r.trailer is None,
            r.version == 0,
    {
        Self::new(None, game_id, None, Vec::new(), None, 0)
    }

    /// Every object key the record refers to: the cover's, the screenshots'
    /// in order, then the trailer's.
    pub fn object_keys(&self) -> (keys: Vec<String>)
        ensures
            texts(keys@) == media_object_keys(*self),
    {
        let mut keys: Vec<String> = Vec::new();
        if let Some(cover) = &self.cover {
            keys.push(cover.object_key.clone());
        }
        let ghost start = texts(keys@);
        let mut i: usize = 0;
        while i < self.screenshots.len()
            invariant
                0 <= i <= self.screenshots@.len(),
                start == opt_key(self.cover),
                texts(keys@) == start + file_keys(self.screenshots@.take(i as int)),
            decreases self.screenshots@.len() - i,
        {
            let ghost old_keys = keys@;
            keys.push(self.screenshots[i].object_key.clone());
            proof {
                let f = self.screenshots@[i as int];
                assert(self.screenshots@.take(i + 1) =~= self.screenshots@.take(i as int).push(f));
                lemma_texts_push(old_keys, f.object_key);
                lemma_file_keys_push(self.screenshots@.take(i as int), f);
                assert(texts(keys@) =~= start + file_keys(self.screenshots@.take(i + 1)));
            }
            i = i + 1;
        }
        assert(self.screenshots@.take(i as int) =~= self.screenshots@);
        if let Some(trailer) = &self.trailer {
            keys.push(trailer.object_key.clone());
        }
        assert(texts(keys@) =~= media_object_keys(*self));
        keys
    }
}

/// A file received in a multipart upload.
pub struct UploadedFile {
    pub field_name: FieldName,
    pub file_name: String,
    pub content_type: String,
    pub data: Bytes,
}

impl UploadedFile {
    pub fn new(field_name: FieldName, file_name: String, content_type: String, data: Bytes) -> (r: Self)
        ensures
            r.field_name == field_name,
            r.file_name == file_name,
            r.content_type == content_type,
            bytes_view(r.data) == bytes_view(data),
    {
        UploadedFile { field_name, file_name, content_type, data }
    }
}

} // verus!
