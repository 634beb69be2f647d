//! The decisions of an upload: which uploads to refuse, where each file is
//! staged, what the updated record holds, and which objects to delete.

use crate::adapters::{bytes_is_empty, bytes_len, bytes_view, now_millis};
use crate::media::error::{MediaError, MediaErrorView};
use crate::media::media_keys::{
    lemma_without_contains, replaced_keys_text, replaced_screenshots, replaced_single,
    game_prefix_text, staged_key_text, staged_object_key, uploaded_keys_text, without,
};
use crate::media::model::{
    field_name_text, file_keys, media_object_keys, opt_key, FieldName,
    GameMedia, MediaFile, UploadedFile,
};
use crate::text::{
    all_digits, is_digit, lemma_decimal_digits, lemma_decimal_injective, lemma_texts_push,
    nat_decimal, texts,
};
use vstd::prelude::*;

verus! {

/// The largest cover or screenshot accepted: 10 MiB.
pub const MAX_IMAGE_BYTES: usize = 10 * 1024 * 1024;

/// The largest trailer accepted: 500 MiB.
pub const MAX_VIDEO_BYTES: usize = 500 * 1024 * 1024;

/// The number of screenshots among the files.
pub open spec fn screenshot_count(fs: Seq<UploadedFile>) -> nat
    decreases fs.len(),
{
    if fs.len() == 0 {
        0
    } else {
        screenshot_count(fs.drop_last()) + if fs.last().field_name == FieldName::Screenshot {
            1nat
        } else {
            0nat
        }
    }
}

/// The number of bytes of all files together.
pub open spec fn total_bytes(fs: Seq<UploadedFile>) -> nat
    decreases fs.len(),
{
    if fs.len() == 0 {
        0
    } else {
        total_bytes(fs.drop_last()) + bytes_view(fs.last().data).len()
    }
}

/// The size limit of a field: trailers may hold a video, the others an image.
pub open spec fn size_limit(field: FieldName) -> usize {
    if field == FieldName::Trailer {
        MAX_VIDEO_BYTES
    } else {
        MAX_IMAGE_BYTES
    }
}

/// What is wrong with one file, if anything: it is empty, or over its limit.
pub open spec fn file_problem(f: UploadedFile) -> Option<MediaErrorView> {
    let n = bytes_view(f.data).len();
    if n == 0 {
        Some(MediaErrorView::NoFilesProvided)
    } else if n > size_limit(f.field_name) {
        Some(
            MediaErrorView::FileTooLarge {
                field: field_name_text(f.field_name),
                limit_mb: (size_limit(f.field_name) / 1024 / 1024) as usize,
            },
        )
    } else {
        None
    }
}

/// The problem of the first file from position `i` on that has one.
pub open spec fn first_file_problem(fs: Seq<UploadedFile>, i: int) -> Option<MediaErrorView>
    decreases fs.len() - i,
{
    if i < 0 || i >= fs.len() {
        None
    } else {
        match file_problem(fs[i]) {
            Some(e) => Some(e),
            None => first_file_problem(fs, i + 1),
        }
    }
}

/// Why an upload is refused, if it is: no files; more than 22 files; more
/// than 20 screenshots; more bytes than a trailer, a cover and 20
/// screenshots may hold; or else the first empty or oversized file.
pub open spec fn upload_problem(fs: Seq<UploadedFile>) -> Option<MediaErrorView> {
    if fs.len() == 0 {
        Some(MediaErrorView::NoFilesProvided)
    } else if fs.len() > 22 {
        Some(MediaErrorView::TooManyFiles("Too many files (max 22: 1 cover + 20 screenshots + 1 trailer)"@))
    } else if screenshot_count(fs) > 20 {
        Some(MediaErrorView::TooManyFiles("Too many screenshots (max 20)"@))
    } else if total_bytes(fs) > MAX_VIDEO_BYTES + 20 * MAX_IMAGE_BYTES + MAX_IMAGE_BYTES {
        Some(MediaErrorView::TooManyFiles("Total upload size exceeds the allowed limit"@))
    } else {
        first_file_problem(fs, 0)
    }
}

/// Checks an upload against the limits, reporting the first rule it breaks.
pub fn validate_upload_limits(files: &[UploadedFile]) -> (r: Result<(), MediaError>)
    ensures
        match r {
            Ok(()) => upload_problem(files@) is None,
            Err(e) => upload_problem(files@) == Some(e@),
        },
{
    if files.len() == 0 {
        return Err(MediaError::NoFilesProvided);
    }
    if files.len() > 22 {
        return Err(
            MediaError::TooManyFiles(
                String::from_str("Too many files (max 22: 1 cover + 20 screenshots + 1 trailer)"),
            ),
        );
    }
    let mut screenshots: usize = 0;
    let mut total: u128 = 0;
    let mut i: usize = 0;
    while i < files.len()
        invariant
            0 <= i <= files@.len(),
            files@.len() <= 22,
            screenshots == screenshot_count(files@.take(i as int)),
            total == total_bytes(files@.take(i as int)),
            screenshots <= i,
            total <= i * (usize::MAX as int),
        decreases files@.len() - i,
    {
        assert(files@.take(i + 1).drop_last() =~= files@.take(i as int));
        if files[i].field_name == FieldName::Screenshot {
            screenshots = screenshots + 1;
        }
        let n = bytes_len(&files[i].data);
        assert(total + n <= (i + 1) * (usize::MAX as int)) by (nonlinear_arith)
            requires
                total <= i * (usize::MAX as int),
                n <= usize::MAX,
        ;
        assert((i + 1) * (usize::MAX as int) <= 22 * (usize::MAX as int)) by (nonlinear_arith)
            requires
                i + 1 <= 22,
        ;
        total = total + n as u128;
        i = i + 1;
    }
    assert(files@.take(i as int) =~= files@);
    if screenshots > 20 {
        return Err(MediaError::TooManyFiles(String::from_str("Too many screenshots (max 20)")));
    }
    if total > (MAX_VIDEO_BYTES + 20 * MAX_IMAGE_BYTES + MAX_IMAGE_BYTES) as u128 {
        return Err(MediaError::TooManyFiles(String::from_str("Total upload size exceeds the allowed limit")));
    }
    let mut j: usize = 0;
    while j < files.len()
        invariant
            0 <= j <= files@.len(),
            0 < files@.len() <= 22,
            screenshot_count(files@) <= 20,
            total_bytes(files@) <= MAX_VIDEO_BYTES + 20 * MAX_IMAGE_BYTES + MAX_IMAGE_BYTES,
            first_file_problem(files@, 0) == first_file_problem(files@, j as int),
        decreases files@.len() - j,
    {
        let file = &files[j];
        let limit = if file.field_name == FieldName::Trailer {
            MAX_VIDEO_BYTES
        } else {
            MAX_IMAGE_BYTES
        };
        if bytes_is_empty(&file.data) {
            return Err(MediaError::NoFilesProvided);
        }
        if bytes_len(&file.data) > limit {
            return Err(MediaError::FileTooLarge { field: file.field_name.as_string(), limit_mb: limit / 1024 / 1024 });
        }
        j = j + 1;
    }
    Ok(())
}

/// A file placed for upload: its field, the key it is stored under, its
/// content type and size.
#[derive(Debug, Clone, PartialEq, Eq)]
pub struct StagedUpload {
    pub field_name: FieldName,
    pub object_key: String,
    pub mime_type: String,
    pub size_bytes: usize,
}

/// The key the `j`-th file of an upload attempt is stored under: a
/// screenshot is numbered by how many screenshots precede it, plus one.
pub open spec fn planned_key(game_id: i32, fs: Seq<UploadedFile>, j: int, attempt: Seq<char>) -> Seq<char> {
    staged_key_text(
        game_id,
        fs[j].field_name,
        fs[j].file_name@,
        screenshot_count(fs.take(j + 1)),
        attempt,
    )
}

/// Where each file of an upload attempt goes, in upload order.
pub fn plan_uploads(game_id: i32, files: &[UploadedFile], attempt: &str) -> (plan: Vec<StagedUpload>)
    ensures
        plan@.len() == files@.len(),
        forall|j: int|
            0 <= j < plan@.len() ==> {
                &&& (#[trigger] plan@[j]).field_name == files@[j].field_name
                &&& plan@[j].object_key@ == planned_key(game_id, files@, j, attempt@)
                &&& plan@[j].mime_type == files@[j].content_type
                &&& plan@[j].size_bytes == bytes_view(files@[j].data).len()
            },
{
    let mut plan: Vec<StagedUpload> = Vec::new();
    let mut screenshot_index: usize = 0;
    let mut i: usize = 0;
    while i < files.len()
        invariant
            0 <= i <= files@.len(),
            plan@.len() == i,
            screenshot_index == screenshot_count(files@.take(i as int)),
            screenshot_index <= i,
            forall|j: int|
                0 <= j < i ==> {
                    &&& (#[trigger] plan@[j]).field_name == files@[j].field_name
                    &&& plan@[j].object_key@ == planned_key(game_id, files@, j, attempt@)
                    &&& plan@[j].mime_type == files@[j].content_type
                    &&& plan@[j].size_bytes == bytes_view(files@[j].data).len()
                },
        decreases files@.len() - i,
    {
        let file = &files[i];
        assert(files@.take(i + 1).drop_last() =~= files@.take(i as int));
        let seq = if file.field_name == FieldName::Screenshot {
            screenshot_index = screenshot_index + 1;
            Some(screenshot_index)
        } else {
            None
        };
        let key = staged_object_key(game_id, file.field_name, file.file_name.as_str(), seq, attempt);
        assert(key@ == planned_key(game_id, files@, i as int, attempt@));
        plan.push(
            StagedUpload {
                field_name: file.field_name,
                object_key: key,
                mime_type: file.content_type.clone(),
                size_bytes: bytes_len(&file.data),
            },
        );
        i = i + 1;
    }
    plan
}

/// The keys of the staged files, in order.
pub open spec fn plan_keys(plan: Seq<StagedUpload>) -> Seq<Seq<char>> {
    plan.map_values(|s: StagedUpload| s.object_key@)
}

/// The keys to delete when the upload of file `uploaded` fails: those of the
/// files uploaded before it.
pub fn rollback_keys(plan: &[StagedUpload], uploaded: usize) -> (keys: Vec<String>)
    requires
        uploaded <= plan@.len(),
    ensures
        texts(keys@) == plan_keys(plan@.take(uploaded as int)),
{
    let mut keys: Vec<String> = Vec::new();
    let mut i: usize = 0;
    while i < uploaded
        invariant
            0 <= i <= uploaded <= plan@.len(),
            texts(keys@) == plan_keys(plan@.take(i as int)),
        decreases uploaded - i,
    {
        let ghost old_keys = keys@;
        keys.push(plan[i].object_key.clone());
        proof {
            lemma_texts_push(old_keys, plan@[i as int].object_key);
            assert(plan@.take(i + 1) =~= plan@.take(i as int).push(plan@[i as int]));
            assert(plan_keys(plan@.take(i + 1)) =~= plan_keys(plan@.take(i as int)).push(
                plan@[i as int].object_key@,
            ));
        }
        i = i + 1;
    }
    keys
}

/// The record entry of a staged file once uploaded at time `now`.
pub open spec fn staged_file(s: StagedUpload, now: i64) -> MediaFile {
    MediaFile { object_key: s.object_key, mime_type: s.mime_type, size_bytes: s.size_bytes, uploaded_at: now }
}

/// What an upload yields: the last cover, all screenshots in order (and
/// whether there was any), and the last trailer.
pub struct Assembled {
    pub cover: Option<MediaFile>,
    pub screenshots: Seq<MediaFile>,
    pub has_screenshots: bool,
    pub trailer: Option<MediaFile>,
}

/// The files an upload yields, file by file: a later cover or trailer
/// takes the place of an earlier one; screenshots accumulate.
pub open spec fn assembled(plan: Seq<StagedUpload>, now: i64) -> Assembled
    decreases plan.len(),
{
    if plan.len() == 0 {
        Assembled { cover: None, screenshots: seq![], has_screenshots: false, trailer: None }
    } else {
        let a = assembled(plan.drop_last(), now);
        let f = staged_file(plan.last(), now);
        match plan.last().field_name {
            FieldName::Cover => Assembled { cover: Some(f), ..a },
            FieldName::Screenshot => Assembled {
                screenshots: a.screenshots.push(f),
                has_screenshots: true,
                ..a
            },
            FieldName::Trailer => Assembled { trailer: Some(f), ..a },
        }
    }
}

/// The keys an assembled upload refers to.
pub open spec fn assembled_keys(a: Assembled) -> Seq<Seq<char>> {
    opt_key(a.cover) + file_keys(a.screenshots) + opt_key(a.trailer)
}

/// The new cover, screenshot list and trailer of an upload whose files were
/// all stored, each stamped with the upload time `now`.
pub fn assemble_uploads(plan: &[StagedUpload], now: i64) -> (r: (
    Option<MediaFile>,
    Option<Vec<MediaFile>>,
    Option<MediaFile>,
))
    ensures
        r.0 == assembled(plan@, now).cover,
        r.2 == assembled(plan@, now).trailer,
        r.1 is Some <==> assembled(plan@, now).has_screenshots,
        r.1 matches Some(v) ==> v@ == assembled(plan@, now).screenshots,
{
    let mut cover: Option<MediaFile> = None;
    let mut trailer: Option<MediaFile> = None;
    let mut screenshots: Vec<MediaFile> = Vec::new();
    let mut has_screenshots = false;
    let mut i: usize = 0;
    while i < plan.len()
        invariant
            0 <= i <= plan@.len(),
            cover == assembled(plan@.take(i as int), now).cover,
            trailer == assembled(plan@.take(i as int), now).trailer,
            screenshots@ == assembled(plan@.take(i as int), now).screenshots,
            has_screenshots == assembled(plan@.take(i as int), now).has_screenshots,
        decreases plan@.len() - i,
    {
        let s = &plan[i];
        assert(plan@.take(i + 1).drop_last() =~= plan@.take(i as int));
        let file = MediaFile::new(s.object_key.clone(), s.mime_type.clone(), s.size_bytes, now);
        assert(file == staged_file(plan@[i as int], now));
        match s.field_name {
            FieldName::Cover => {
                cover = Some(file);
            },
            FieldName::Screenshot => {
                has_screenshots = true;
                screenshots.push(file);
            },
            FieldName::Trailer => {
                trailer = Some(file);
            },
        }
        i = i + 1;
    }
    assert(plan@.take(i as int) =~= plan@);
    let listed = if has_screenshots {
        Some(screenshots)
    } else {
        None
    };
    (cover, listed, trailer)
}

/// The new cover, screenshot list and trailer of an upload whose files were
/// all stored, stamped with the current time as the clock reads (see
/// [`assemble_uploads`]).
pub fn assemble_uploads_now(plan: &[StagedUpload]) -> (r: (
    Option<MediaFile>,
    Option<Vec<MediaFile>>,
    Option<MediaFile>,
))
    ensures
        exists|t: i64|
            {
                &&& r.0 == assembled(plan@, t).cover
                &&& r.2 == assembled(plan@, t).trailer
                &&& (r.1 is Some <==> assembled(plan@, t).has_screenshots)
                &&& (r.1 matches Some(v) ==> v@ == assembled(plan@, t).screenshots)
            },
{
    let now = now_millis();
    assemble_uploads(plan, now)
}

/// How an upload attempt ended: storing file `i` failed (files before it
/// were stored), saving the record failed after every file was stored, or
/// the record was saved.
#[derive(Debug, Clone, Copy, PartialEq, Eq)]
pub enum UploadOutcome {
    StoreFailed(usize),
    SaveFailed,
    Saved,
}

/// The stored objects to delete once an upload attempt has ended: when a
/// file could not be stored, the files stored before it; when the record
/// could not be saved, every file of the attempt (`uploaded`); when it was
/// saved, the objects the new record no longer refers to (`replaced`).
pub fn cleanup_keys(outcome: UploadOutcome, plan: &[StagedUpload], uploaded: Vec<String>, replaced: Vec<String>) -> (r:
    Vec<String>)
    requires
        outcome matches UploadOutcome::StoreFailed(i) ==> i <= plan@.len(),
    ensures
        match outcome {
            UploadOutcome::StoreFailed(i) => texts(r@) == plan_keys(plan@.take(i as int)),
            UploadOutcome::SaveFailed => r@ == uploaded@,
            UploadOutcome::Saved => r@ == replaced@,
        },
{
    match outcome {
        UploadOutcome::StoreFailed(i) => rollback_keys(plan, i),
        UploadOutcome::SaveFailed => uploaded,
        UploadOutcome::Saved => replaced,
    }
}

/// When an upload fails, whether storing a file or saving the record, the
/// objects it deletes are all objects this attempt stored.
pub proof fn law_failed_upload_deletes_only_its_own_objects(
    plan: Seq<StagedUpload>,
    now: i64,
    stored: nat,
    new_screenshots: Option<Vec<MediaFile>>,
)
    requires
        stored <= plan.len(),
        new_screenshots is Some <==> assembled(plan, now).has_screenshots,
        new_screenshots matches Some(v) ==> v@ == assembled(plan, now).screenshots,
    ensures
        forall|k: Seq<char>| #[trigger] plan_keys(plan.take(stored as int)).contains(k) ==> plan_keys(plan).contains(k),
        forall|k: Seq<char>|
            #[trigger] uploaded_keys_text(assembled(plan, now).cover, new_screenshots, assembled(plan, now).trailer).contains(
                k,
            ) ==> plan_keys(plan).contains(k),
{
    let a = assembled(plan, now);
    assert forall|k: Seq<char>| #[trigger] plan_keys(plan.take(stored as int)).contains(k) implies plan_keys(plan).contains(
        k,
    ) by {
        let i = choose|i: int| 0 <= i < plan_keys(plan.take(stored as int)).len() && plan_keys(plan.take(stored as int))[i] == k;
        assert(plan_keys(plan)[i] == k);
    }
    law_assembled_keys_were_uploaded(plan, now);
    lemma_no_screenshots_empty(plan, now);
    assert(uploaded_keys_text(a.cover, new_screenshots, a.trailer) =~= assembled_keys(a));
}

/// How many staged files belong to `field`.
pub open spec fn field_count(plan: Seq<StagedUpload>, field: FieldName) -> nat
    decreases plan.len(),
{
    if plan.len() == 0 {
        0
    } else {
        field_count(plan.drop_last(), field) + if plan.last().field_name == field {
            1nat
        } else {
            0nat
        }
    }
}

/// Every key an upload's result refers to was uploaded in that attempt.
pub proof fn law_assembled_keys_were_uploaded(plan: Seq<StagedUpload>, now: i64)
    ensures
        forall|k: Seq<char>| #[trigger] assembled_keys(assembled(plan, now)).contains(k) ==> plan_keys(plan).contains(k),
    decreases plan.len(),
{
    if plan.len() > 0 {
        let t = plan.drop_last();
        law_assembled_keys_were_uploaded(t, now);
        let x = plan.last();
        assert(plan_keys(plan) =~= plan_keys(t).push(x.object_key@));
        let a = assembled(t, now);
        let b = assembled(plan, now);
        assert forall|k: Seq<char>| #[trigger] assembled_keys(b).contains(k) implies plan_keys(plan).contains(k) by {
            let i = choose|i: int| 0 <= i < assembled_keys(b).len() && assembled_keys(b)[i] == k;
            if k == x.object_key@ {
                assert(plan_keys(plan)[plan.len() - 1] == k);
            } else {
                assert(plan =~= t.push(x));
                lemma_key_in_assembled_step(t, x, now, k);
                assert(assembled_keys(a).contains(k));
                let j = choose|j: int| 0 <= j < plan_keys(t).len() && plan_keys(t)[j] == k;
                assert(plan_keys(plan)[j] == k);
            }
        }
    }
}

/// A key of the result after one more staged file, other than that file's
/// own key, was already a key of the earlier result.
proof fn lemma_key_in_assembled_step(t: Seq<StagedUpload>, x: StagedUpload, now: i64, k: Seq<char>)
    requires
        assembled_keys(assembled(t.push(x), now)).contains(k),
        k != x.object_key@,
    ensures
        assembled_keys(assembled(t, now)).contains(k),
{
    let p = t.push(x);
    assert(p.drop_last() =~= t);
    assert(p.last() == x);
    let a = assembled(t, now);
    let b = assembled(p, now);
    let f = staged_file(x, now);
    let i = choose|i: int| 0 <= i < assembled_keys(b).len() && assembled_keys(b)[i] == k;
    let ca = opt_key(a.cover);
    let sa = file_keys(a.screenshots);
    let ta = opt_key(a.trailer);
    match x.field_name {
        FieldName::Cover => {
            assert(assembled_keys(b) =~= seq![f.object_key@] + sa + ta);
            assert(i >= 1);
            assert(assembled_keys(a) =~= ca + sa + ta);
            assert(assembled_keys(a)[ca.len() + i - 1] == k);
        },
        FieldName::Trailer => {
            assert(assembled_keys(b) =~= ca + sa + seq![f.object_key@]);
            assert(i < ca.len() + sa.len());
            assert(assembled_keys(a) =~= ca + sa + ta);
            assert(assembled_keys(a)[i] == k);
        },
        FieldName::Screenshot => {
            assert(file_keys(b.screenshots) =~= sa.push(f.object_key@));
            assert(assembled_keys(b) =~= ca + sa.push(f.object_key@) + ta);
            assert(assembled_keys(a) =~= ca + sa + ta);
            if i < ca.len() + sa.len() {
                assert(assembled_keys(a)[i] == k);
            } else {
                assert(i != ca.len() + sa.len());
                assert(assembled_keys(a)[i - 1] == k);
            }
        },
    }
}

/// With at most one cover and one trailer in an upload, every uploaded key
/// is referred to by the result: a successful upload leaves no stored
/// object behind that the record does not name.
pub proof fn law_uploaded_keys_are_kept(plan: Seq<StagedUpload>, now: i64)
    requires
        field_count(plan, FieldName::Cover) <= 1,
        field_count(plan, FieldName::Trailer) <= 1,
    ensures
        forall|k: Seq<char>| #[trigger] plan_keys(plan).contains(k) ==> assembled_keys(assembled(plan, now)).contains(k),
    decreases plan.len(),
{
    if plan.len() > 0 {
        let t = plan.drop_last();
        let x = plan.last();
        law_uploaded_keys_are_kept(t, now);
        lemma_absent_field_absent(t, now);
        let a = assembled(t, now);
        let b = assembled(plan, now);
        let f = staged_file(x, now);
        let ca = opt_key(a.cover);
        let sa = file_keys(a.screenshots);
        let ta = opt_key(a.trailer);
        assert(plan_keys(plan) =~= plan_keys(t).push(x.object_key@));
        assert(assembled_keys(a) =~= ca + sa + ta);
        assert forall|k: Seq<char>| #[trigger] plan_keys(plan).contains(k) implies assembled_keys(b).contains(k) by {
            let j = choose|j: int| 0 <= j < plan_keys(plan).len() && plan_keys(plan)[j] == k;
            match x.field_name {
                FieldName::Cover => {
                    assert(a.cover is None);
                    assert(assembled_keys(b) =~= seq![f.object_key@] + sa + ta);
                    if j == t.len() {
                        assert(assembled_keys(b)[0] == k);
                    } else {
                        assert(plan_keys(t)[j] == k);
                        assert(plan_keys(t).contains(k));
                        assert(assembled_keys(a).contains(k));
                        let i = choose|i: int| 0 <= i < assembled_keys(a).len() && assembled_keys(a)[i] == k;
                        assert(ca.len() == 0);
                        assert(assembled_keys(b)[i + 1] == k);
                    }
                },
                FieldName::Trailer => {
                    assert(a.trailer is None);
                    assert(assembled_keys(b) =~= ca + sa + seq![f.object_key@]);
                    if j == t.len() {
                        assert(assembled_keys(b)[(ca.len() + sa.len()) as int] == k);
                    } else {
                        assert(plan_keys(t)[j] == k);
                        assert(plan_keys(t).contains(k));
                        assert(assembled_keys(a).contains(k));
                        let i = choose|i: int| 0 <= i < assembled_keys(a).len() && assembled_keys(a)[i] == k;
                        assert(ta.len() == 0);
                        assert(assembled_keys(b)[i] == k);
                    }
                },
                FieldName::Screenshot => {
                    assert(file_keys(b.screenshots) =~= sa.push(f.object_key@));
                    assert(assembled_keys(b) =~= ca + sa.push(f.object_key@) + ta);
                    if j == t.len() {
                        assert(assembled_keys(b)[(ca.len() + sa.len()) as int] == k);
                    } else {
                        assert(plan_keys(t)[j] == k);
                        assert(plan_keys(t).contains(k));
                        assert(assembled_keys(a).contains(k));
                        let i = choose|i: int| 0 <= i < assembled_keys(a).len() && assembled_keys(a)[i] == k;
                        if i < ca.len() + sa.len() {
                            assert(assembled_keys(b)[i] == k);
                        } else {
                            assert(assembled_keys(b)[i + 1] == k);
                        }
                    }
                },
            }
        }
    }
}

/// Without a cover (trailer) among the staged files, the result has none.
proof fn lemma_absent_field_absent(t: Seq<StagedUpload>, now: i64)
    ensures
        field_count(t, FieldName::Cover) == 0 ==> assembled(t, now).cover is None,
        field_count(t, FieldName::Trailer) == 0 ==> assembled(t, now).trailer is None,
    decreases t.len(),
{
    if t.len() > 0 {
        lemma_absent_field_absent(t.drop_last(), now);
    }
}

/// The record after an update: new files take the place of old ones, fields
/// without new files keep theirs, and the version moves up by one.
pub open spec fn merged_media(
    existing: GameMedia,
    game_id: i32,
    new_cover: Option<MediaFile>,
    new_screenshots: Option<Vec<MediaFile>>,
    new_trailer: Option<MediaFile>,
) -> GameMedia {
    GameMedia {
        id: existing.id,
        game_id: game_id,
        cover: if new_cover is Some {
            new_cover
        } else {
            existing.cover
        },
        screenshots: match new_screenshots {
            Some(v) => v,
            None => existing.screenshots,
        },
        trailer: if new_trailer is Some {
            new_trailer
        } else {
            existing.trailer
        },
        version: (existing.version + 1) as i64,
    }
}

/// The record an update of `existing` with newly uploaded files yields.
pub fn merge_media(
    existing: GameMedia,
    game_id: i32,
    new_cover: Option<MediaFile>,
    new_screenshots: Option<Vec<MediaFile>>,
    new_trailer: Option<MediaFile>,
) -> (r: GameMedia)
    requires
        existing.version < i64::MAX,
    ensures
        r == merged_media(existing, game_id, new_cover, new_screenshots, new_trailer),
{
    let cover = match new_cover {
        Some(c) => Some(c),
        None => existing.cover,
    };
    let screenshots = match new_screenshots {
        Some(v) => v,
        None => existing.screenshots,
    };
    let trailer = match new_trailer {
        Some(t) => Some(t),
        None => existing.trailer,
    };
    GameMedia::new(existing.id, game_id, cover, screenshots, trailer, existing.version + 1)
}

/// Refuses a write made against a version other than the current one.
pub fn check_version(game_id: i32, current: i64, expected: i64) -> (r: Result<(), MediaError>)
    ensures
        r is Ok <==> current == expected,
        r matches Err(e) ==> e@ == MediaErrorView::Conflict(game_id),
{
    if current != expected {
        Err(MediaError::Conflict(game_id))
    } else {
        Ok(())
    }
}

/// The record a lookup found, or the not-found error for the game.
pub fn require_media(found: Option<GameMedia>, game_id: i32) -> (r: Result<GameMedia, MediaError>)
    ensures
        match found {
            Some(m) => r == Ok::<GameMedia, MediaError>(m),
            None => r matches Err(e) && e@ == MediaErrorView::NotFound(game_id),
        },
{
    match found {
        Some(m) => Ok(m),
        None => Err(MediaError::NotFound(game_id)),
    }
}

/// The record an upload starts from: the stored one, or an empty one.
pub fn existing_or_new(found: Option<GameMedia>, game_id: i32) -> (r: GameMedia)
    ensures
        found matches Some(m) ==> r == m,
        found is None ==> r.id is None && r.game_id == game_id && r.cover is None && r.screenshots@.len() == 0
            && r.trailer is None && r.version == 0,
{
    match found {
        Some(m) => m,
        None => GameMedia::new_for_game(game_id),
    }
}

/// The keys to delete along with a game's media record, once the version
/// the caller saw is confirmed.
pub fn deletion_keys(media: &GameMedia, version: i64) -> (r: Result<Vec<String>, MediaError>)
    ensures
        match r {
            Ok(keys) => media.version == version && texts(keys@) == media_object_keys(*media),
            Err(e) => media.version != version && e@ == MediaErrorView::Conflict(media.game_id),
        },
{
    match check_version(media.game_id, media.version, version) {
        Ok(()) => Ok(media.object_keys()),
        Err(e) => Err(e),
    }
}

/// The outcome of a versioned replace of a game's record: it must have
/// matched the stored record or inserted a new one.
pub fn replace_outcome(game_id: i32, matched_count: u64, inserted: bool) -> (r: Result<(), MediaError>)
    ensures
        r is Ok <==> (matched_count > 0 || inserted),
        r matches Err(e) ==> e@ == MediaErrorView::Conflict(game_id),
{
    if matched_count == 0 && !inserted {
        Err(MediaError::Conflict(game_id))
    } else {
        Ok(())
    }
}

/// A key is in a concatenation of three parts exactly when it is in one.
pub proof fn lemma_parts_contains(a: Seq<Seq<char>>, b: Seq<Seq<char>>, c: Seq<Seq<char>>, k: Seq<char>)
    ensures
        (a + b + c).contains(k) <==> (a.contains(k) || b.contains(k) || c.contains(k)),
{
    let s = a + b + c;
    if s.contains(k) {
        let i = choose|i: int| 0 <= i < s.len() && s[i] == k;
        if i < a.len() {
            assert(a[i] == k);
        } else if i < a.len() + b.len() {
            assert(b[i - a.len()] == k);
        } else {
            assert(c[i - a.len() - b.len()] == k);
        }
    }
    if a.contains(k) {
        let i = choose|i: int| 0 <= i < a.len() && a[i] == k;
        assert(s[i] == k);
    }
    if b.contains(k) {
        let i = choose|i: int| 0 <= i < b.len() && b[i] == k;
        assert(s[a.len() + i] == k);
    }
    if c.contains(k) {
        let i = choose|i: int| 0 <= i < c.len() && c[i] == k;
        assert(s[a.len() + b.len() + i] == k);
    }
}

/// In a concatenation without repeated keys, no key is in two parts.
pub proof fn lemma_parts_disjoint(a: Seq<Seq<char>>, b: Seq<Seq<char>>, c: Seq<Seq<char>>, k: Seq<char>)
    requires
        (a + b + c).no_duplicates(),
    ensures
        a.contains(k) ==> !b.contains(k) && !c.contains(k),
        b.contains(k) ==> !c.contains(k),
{
    let s = a + b + c;
    if a.contains(k) && b.contains(k) {
        let i = choose|i: int| 0 <= i < a.len() && a[i] == k;
        let j = choose|j: int| 0 <= j < b.len() && b[j] == k;
        assert(s[i] == s[a.len() + j]);
    }
    if a.contains(k) && c.contains(k) {
        let i = choose|i: int| 0 <= i < a.len() && a[i] == k;
        let j = choose|j: int| 0 <= j < c.len() && c[j] == k;
        assert(s[i] == s[a.len() + b.len() + j]);
    }
    if b.contains(k) && c.contains(k) {
        let i = choose|i: int| 0 <= i < b.len() && b[i] == k;
        let j = choose|j: int| 0 <= j < c.len() && c[j] == k;
        assert(s[a.len() + i] == s[a.len() + b.len() + j]);
    }
}

/// Every key of the newly uploaded files is referred to by the updated
/// record.
pub proof fn law_new_keys_are_referenced(
    existing: GameMedia,
    game_id: i32,
    new_cover: Option<MediaFile>,
    new_screenshots: Option<Vec<MediaFile>>,
    new_trailer: Option<MediaFile>,
)
    ensures
        forall|k: Seq<char>|
            #[trigger] uploaded_keys_text(new_cover, new_screenshots, new_trailer).contains(k)
                ==> media_object_keys(merged_media(existing, game_id, new_cover, new_screenshots, new_trailer)).contains(k),
{
    let m = merged_media(existing, game_id, new_cover, new_screenshots, new_trailer);
    let ns = match new_screenshots {
        Some(v) => file_keys(v@),
        None => seq![],
    };
    assert forall|k: Seq<char>|
        #[trigger] uploaded_keys_text(new_cover, new_screenshots, new_trailer).contains(k)
            implies media_object_keys(m).contains(k) by {
        lemma_parts_contains(opt_key(new_cover), ns, opt_key(new_trailer), k);
        lemma_parts_contains(opt_key(m.cover), file_keys(m.screenshots@), opt_key(m.trailer), k);
    }
}

/// Every key the record referred to before an update is either still
/// referred to or among the keys the update frees.
pub proof fn law_old_keys_kept_or_freed(
    existing: GameMedia,
    game_id: i32,
    new_cover: Option<MediaFile>,
    new_screenshots: Option<Vec<MediaFile>>,
    new_trailer: Option<MediaFile>,
)
    ensures
        forall|k: Seq<char>|
            #[trigger] media_object_keys(existing).contains(k) ==> media_object_keys(
                merged_media(existing, game_id, new_cover, new_screenshots, new_trailer),
            ).contains(k) || replaced_keys_text(existing, new_cover, new_screenshots, new_trailer).contains(k),
{
    let m = merged_media(existing, game_id, new_cover, new_screenshots, new_trailer);
    let rc = replaced_single(new_cover, existing.cover);
    let rs = replaced_screenshots(existing, new_screenshots);
    let rt = replaced_single(new_trailer, existing.trailer);
    assert forall|k: Seq<char>| #[trigger] media_object_keys(existing).contains(k) implies media_object_keys(
        m,
    ).contains(k) || replaced_keys_text(existing, new_cover, new_screenshots, new_trailer).contains(k) by {
        lemma_parts_contains(opt_key(existing.cover), file_keys(existing.screenshots@), opt_key(existing.trailer), k);
        lemma_parts_contains(opt_key(m.cover), file_keys(m.screenshots@), opt_key(m.trailer), k);
        lemma_parts_contains(rc, rs, rt, k);
        if let Some(v) = new_screenshots {
            lemma_without_contains(file_keys(existing.screenshots@), file_keys(v@), k);
        }
        if opt_key(existing.cover).contains(k) {
            assert(opt_key(existing.cover)[0] == k);
            if let Some(c) = new_cover {
                if c.object_key@ == k {
                    assert(opt_key(m.cover)[0] == k);
                } else {
                    assert(rc[0] == k);
                }
            } else {
                assert(opt_key(m.cover)[0] == k);
            }
        }
        if opt_key(existing.trailer).contains(k) {
            assert(opt_key(existing.trailer)[0] == k);
            if let Some(t) = new_trailer {
                if t.object_key@ == k {
                    assert(opt_key(m.trailer)[0] == k);
                } else {
                    assert(rt[0] == k);
                }
            } else {
                assert(opt_key(m.trailer)[0] == k);
            }
        }
    }
}

/// New files arrive into the slot that already holds their key, if any: a
/// new cover (trailer) key already stored is the stored cover's (trailer's),
/// and a new screenshot key already stored is a stored screenshot's.
pub open spec fn keys_stay_in_slot(
    existing: GameMedia,
    new_cover: Option<MediaFile>,
    new_screenshots: Option<Vec<MediaFile>>,
    new_trailer: Option<MediaFile>,
) -> bool {
    let old = media_object_keys(existing);
    &&& match new_cover {
        Some(c) => old.contains(c.object_key@) ==> opt_key(existing.cover) == seq![c.object_key@],
        None => true,
    }
    &&& (new_screenshots matches Some(v) ==> forall|k: Seq<char>|
        #[trigger] file_keys(v@).contains(k) && old.contains(k) ==> file_keys(existing.screenshots@).contains(k))
    &&& match new_trailer {
        Some(t) => old.contains(t.object_key@) ==> opt_key(existing.trailer) == seq![t.object_key@],
        None => true,
    }
}

/// No key an update frees is still referred to by the updated record, so
/// deleting the freed objects never removes a file the record names. This
/// holds when the stored record names no key twice and new files arrive
/// into the slot that already holds their key, if any.
pub proof fn law_freed_keys_are_unreferenced(
    existing: GameMedia,
    game_id: i32,
    new_cover: Option<MediaFile>,
    new_screenshots: Option<Vec<MediaFile>>,
    new_trailer: Option<MediaFile>,
)
    requires
        media_object_keys(existing).no_duplicates(),
        keys_stay_in_slot(existing, new_cover, new_screenshots, new_trailer),
    ensures
        forall|k: Seq<char>|
            #[trigger] replaced_keys_text(existing, new_cover, new_screenshots, new_trailer).contains(k)
                ==> !media_object_keys(merged_media(existing, game_id, new_cover, new_screenshots, new_trailer)).contains(k),
{
    let m = merged_media(existing, game_id, new_cover, new_screenshots, new_trailer);
    let oc = opt_key(existing.cover);
    let os = file_keys(existing.screenshots@);
    let ot = opt_key(existing.trailer);
    let rc = replaced_single(new_cover, existing.cover);
    let rs = replaced_screenshots(existing, new_screenshots);
    let rt = replaced_single(new_trailer, existing.trailer);
    assert forall|k: Seq<char>|
        #[trigger] replaced_keys_text(existing, new_cover, new_screenshots, new_trailer).contains(k)
            implies !media_object_keys(m).contains(k) by {
        lemma_parts_contains(rc, rs, rt, k);
        lemma_parts_contains(oc, os, ot, k);
        lemma_parts_contains(opt_key(m.cover), file_keys(m.screenshots@), opt_key(m.trailer), k);
        lemma_parts_disjoint(oc, os, ot, k);
        if rc.contains(k) {
            let e = existing.cover->0;
            let c = new_cover->0;
            assert(rc[0] == k);
            assert(k == e.object_key@ && c.object_key@ != k);
            assert(oc[0] == k);
            assert(opt_key(m.cover) == seq![c.object_key@]);
            if let Some(v) = new_screenshots {
                if file_keys(v@).contains(k) {
                    assert(os.contains(k));
                }
            }
            if let Some(t) = new_trailer {
                if t.object_key@ == k {
                    assert(ot == seq![t.object_key@]);
                    assert(ot[0] == k);
                }
                assert(opt_key(m.trailer) == seq![t.object_key@]);
            }
        }
        if rt.contains(k) {
            let e = existing.trailer->0;
            let t = new_trailer->0;
            assert(rt[0] == k);
            assert(k == e.object_key@ && t.object_key@ != k);
            assert(ot[0] == k);
            assert(opt_key(m.trailer) == seq![t.object_key@]);
            if let Some(v) = new_screenshots {
                if file_keys(v@).contains(k) {
                    assert(os.contains(k));
                }
            }
            if let Some(c) = new_cover {
                if c.object_key@ == k {
                    assert(oc == seq![c.object_key@]);
                    assert(oc[0] == k);
                }
                assert(opt_key(m.cover) == seq![c.object_key@]);
            }
        }
        if rs.contains(k) {
            let v = new_screenshots->0;
            lemma_without_contains(os, file_keys(v@), k);
            assert(os.contains(k) && !file_keys(v@).contains(k));
            if let Some(c) = new_cover {
                if c.object_key@ == k {
                    assert(oc == seq![c.object_key@]);
                    assert(oc[0] == k);
                }
                assert(opt_key(m.cover) == seq![c.object_key@]);
            }
            if let Some(t) = new_trailer {
                if t.object_key@ == k {
                    assert(ot == seq![t.object_key@]);
                    assert(ot[0] == k);
                }
                assert(opt_key(m.trailer) == seq![t.object_key@]);
            }
        }
    }
}

/// An upload without screenshots yields an empty screenshot list.
proof fn lemma_no_screenshots_empty(plan: Seq<StagedUpload>, now: i64)
    ensures
        !assembled(plan, now).has_screenshots ==> assembled(plan, now).screenshots.len() == 0,
    decreases plan.len(),
{
    if plan.len() > 0 {
        lemma_no_screenshots_empty(plan.drop_last(), now);
    }
}

/// After a successful upload with at most one cover and one trailer, the
/// saved record refers to every object the attempt stored: staging the
/// files, assembling them, and merging them into the record lose none.
pub proof fn law_saved_record_names_every_upload(
    plan: Seq<StagedUpload>,
    now: i64,
    existing: GameMedia,
    game_id: i32,
    new_screenshots: Option<Vec<MediaFile>>,
)
    requires
        field_count(plan, FieldName::Cover) <= 1,
        field_count(plan, FieldName::Trailer) <= 1,
        new_screenshots is Some <==> assembled(plan, now).has_screenshots,
        new_screenshots matches Some(v) ==> v@ == assembled(plan, now).screenshots,
    ensures
        forall|k: Seq<char>|
            #[trigger] plan_keys(plan).contains(k) ==> media_object_keys(
                merged_media(existing, game_id, assembled(plan, now).cover, new_screenshots, assembled(plan, now).trailer),
            ).contains(k),
{
    let a = assembled(plan, now);
    law_uploaded_keys_are_kept(plan, now);
    law_new_keys_are_referenced(existing, game_id, a.cover, new_screenshots, a.trailer);
    lemma_no_screenshots_empty(plan, now);
    assert(uploaded_keys_text(a.cover, new_screenshots, a.trailer) =~= assembled_keys(a));
    assert forall|k: Seq<char>| #[trigger] plan_keys(plan).contains(k) implies media_object_keys(
        merged_media(existing, game_id, a.cover, new_screenshots, a.trailer),
    ).contains(k) by {
        assert(assembled_keys(a).contains(k));
        assert(uploaded_keys_text(a.cover, new_screenshots, a.trailer).contains(k));
    }
}


/// Screenshots are counted in order: a prefix never holds more of them than
/// a longer prefix.
proof fn lemma_screenshot_count_grows(fs: Seq<UploadedFile>, a: int, b: int)
    requires
        0 <= a <= b <= fs.len(),
    ensures
        screenshot_count(fs.take(a)) <= screenshot_count(fs.take(b)),
    decreases b - a,
{
    if a < b {
        lemma_screenshot_count_grows(fs, a, b - 1);
        assert(fs.take(b).drop_last() =~= fs.take(b - 1));
    }
}

/// Two digit strings each followed by a `.` start the same text only when
/// they are the same string.
proof fn lemma_digits_before_dot(da: Seq<char>, ea: Seq<char>, db: Seq<char>, eb: Seq<char>)
    requires
        all_digits(da),
        all_digits(db),
        da + seq!['.'] + ea == db + seq!['.'] + eb,
    ensures
        da == db,
{
    let x = da + seq!['.'] + ea;
    if da.len() < db.len() {
        assert(x[da.len() as int] == '.');
        assert(x[da.len() as int] == db[da.len() as int]);
        assert(is_digit(db[da.len() as int]));
    } else if db.len() < da.len() {
        assert(x[db.len() as int] == '.');
        assert(x[db.len() as int] == da[db.len() as int]);
        assert(is_digit(da[db.len() as int]));
    } else {
        assert forall|i: int| 0 <= i < da.len() implies da[i] == db[i] by {
            assert(x[i] == da[i]);
            assert(x[i] == db[i]);
        }
        assert(da =~= db);
    }
}

/// Within one upload attempt, two files get different keys unless both are
/// covers or both are trailers: screenshots are numbered one by one, and
/// each field writes its own word into the key.
pub proof fn law_planned_keys_distinct(
    game_id: i32,
    fs: Seq<UploadedFile>,
    attempt: Seq<char>,
    j: int,
    k: int,
)
    requires
        0 <= j < k < fs.len(),
        fs[j].field_name == FieldName::Screenshot || fs[j].field_name != fs[k].field_name,
    ensures
        planned_key(game_id, fs, j, attempt) != planned_key(game_id, fs, k, attempt),
{
    reveal_strlit("cover_");
    reveal_strlit("trailer_");
    reveal_strlit("screenshot_");
    reveal_strlit("_");
    reveal_strlit(".");
    let gp = game_prefix_text(game_id);
    let kj = planned_key(game_id, fs, j, attempt);
    let kk = planned_key(game_id, fs, k, attempt);
    let fj = fs[j].field_name;
    let fk = fs[k].field_name;
    if fj != fk {
        let word_j = match fj {
            FieldName::Cover => "cover_"@,
            FieldName::Trailer => "trailer_"@,
            FieldName::Screenshot => "screenshot_"@,
        };
        let word_k = match fk {
            FieldName::Cover => "cover_"@,
            FieldName::Trailer => "trailer_"@,
            FieldName::Screenshot => "screenshot_"@,
        };
        assert(kj[gp.len() as int] == word_j[0]);
        assert(kk[gp.len() as int] == word_k[0]);
    } else {
        let sj = screenshot_count(fs.take(j + 1));
        let sk = screenshot_count(fs.take(k + 1));
        lemma_screenshot_count_grows(fs, j + 1, k);
        assert(fs.take(k + 1).drop_last() =~= fs.take(k));
        assert(sj < sk);
        let p = gp + "screenshot_"@ + attempt + "_"@;
        let ej = crate::media::media_keys::file_extension(fs[j].file_name@);
        let ek = crate::media::media_keys::file_extension(fs[k].file_name@);
        let rj = nat_decimal(sj) + seq!['.'] + ej;
        let rk = nat_decimal(sk) + seq!['.'] + ek;
        assert(kj =~= p + rj);
        assert(kk =~= p + rk);
        if kj == kk {
            assert((p + rj).skip(p.len() as int) =~= rj);
            assert((p + rk).skip(p.len() as int) =~= rk);
            lemma_decimal_digits(sj);
            lemma_decimal_digits(sk);
            lemma_digits_before_dot(nat_decimal(sj), ej, nat_decimal(sk), ek);
            lemma_decimal_injective(sj, sk);
        }
    }
}


/// Counts the screenshots of a plan.
proof fn lemma_assembled_screenshots(plan: Seq<StagedUpload>, now: i64)
    ensures
        assembled(plan, now).has_screenshots <==> exists|j: int|
            0 <= j < plan.len() && (#[trigger] plan[j]).field_name == FieldName::Screenshot,
        assembled(plan, now).has_screenshots <==> assembled(plan, now).screenshots.len() > 0,
    decreases plan.len(),
{
    if plan.len() > 0 {
        let t = plan.drop_last();
        lemma_assembled_screenshots(t, now);
        if exists|j: int| 0 <= j < t.len() && (#[trigger] t[j]).field_name == FieldName::Screenshot {
            let j = choose|j: int| 0 <= j < t.len() && (#[trigger] t[j]).field_name == FieldName::Screenshot;
            assert(plan[j] == t[j]);
        }
        if exists|j: int| 0 <= j < plan.len() && (#[trigger] plan[j]).field_name == FieldName::Screenshot {
            let j = choose|j: int| 0 <= j < plan.len() && (#[trigger] plan[j]).field_name == FieldName::Screenshot;
            if j < t.len() {
                assert(t[j] == plan[j]);
            }
        }
    }
}

/// An upload yields a screenshot list exactly when it holds a screenshot,
/// and that list is then not empty; an upload of covers and trailers alone
/// leaves the stored screenshots as they are.
pub proof fn law_screenshot_list_only_with_screenshots(plan: Seq<StagedUpload>, now: i64)
    ensures
        assembled(plan, now).has_screenshots <==> exists|j: int|
            0 <= j < plan.len() && (#[trigger] plan[j]).field_name == FieldName::Screenshot,
        assembled(plan, now).has_screenshots <==> assembled(plan, now).screenshots.len() > 0,
{
    lemma_assembled_screenshots(plan, now);
}

/// Every file from position `i` on passes the per-file checks when none of
/// them has a problem.
proof fn lemma_no_file_problem(fs: Seq<UploadedFile>, i: int)
    requires
        0 <= i,
        first_file_problem(fs, i) is None,
    ensures
        forall|j: int| i <= j < fs.len() ==> file_problem(#[trigger] fs[j]) is None,
    decreases fs.len() - i,
{
    if i < fs.len() {
        lemma_no_file_problem(fs, i + 1);
    }
}

/// An accepted upload holds no empty file, no cover or screenshot over
/// 10 MiB and no trailer over 500 MiB; only a trailer may exceed 10 MiB.
pub proof fn law_accepted_files_fit_their_limits(fs: Seq<UploadedFile>)
    requires
        upload_problem(fs) is None,
    ensures
        0 < fs.len() <= 22,
        forall|j: int|
            0 <= j < fs.len() ==> {
                let n = bytes_view((#[trigger] fs[j]).data).len();
                &&& n > 0
                &&& (fs[j].field_name != FieldName::Trailer ==> n <= 10485760)
                &&& (fs[j].field_name == FieldName::Trailer ==> n <= 524288000)
            },
{
    lemma_no_file_problem(fs, 0);
    assert forall|j: int| 0 <= j < fs.len() implies {
        let n = bytes_view((#[trigger] fs[j]).data).len();
        &&& n > 0
        &&& (fs[j].field_name != FieldName::Trailer ==> n <= 10485760)
        &&& (fs[j].field_name == FieldName::Trailer ==> n <= 524288000)
    } by {
        assert(file_problem(fs[j]) is None);
    }
}

/// A single non-empty cover or screenshot over 10 MiB is refused as too
/// large for its field with a 10 MB limit, and one of at most 10 MiB is
/// accepted. (A file over the whole upload's size limit is refused by that
/// limit first.)
pub proof fn law_image_limit(f: UploadedFile)
    requires
        f.field_name != FieldName::Trailer,
        bytes_view(f.data).len() > 0,
        bytes_view(f.data).len() <= MAX_VIDEO_BYTES + 20 * MAX_IMAGE_BYTES + MAX_IMAGE_BYTES,
    ensures
        bytes_view(f.data).len() > 10485760 ==> upload_problem(seq![f]) == Some(
            MediaErrorView::FileTooLarge { field: field_name_text(f.field_name), limit_mb: 10 },
        ),
        bytes_view(f.data).len() <= 10485760 ==> upload_problem(seq![f]) is None,
{
    let fs = seq![f];
    assert(fs.drop_last() =~= Seq::<UploadedFile>::empty());
    assert(fs.last() == f);
    reveal_with_fuel(first_file_problem, 3);
    assert(total_bytes(Seq::<UploadedFile>::empty()) == 0);
    assert(total_bytes(fs) == bytes_view(f.data).len());
    assert(screenshot_count(Seq::<UploadedFile>::empty()) == 0);
    assert(screenshot_count(fs) <= 1);
}

} // verus!
