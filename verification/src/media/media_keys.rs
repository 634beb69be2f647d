//! Object keys of stored media: where a new upload is staged, which keys a
//! record refers to, and which stored objects an update or a sweep frees.

use crate::adapters::{fresh_object_id_hex, is_lower_hex_text, system_clock_millis};
use crate::media::model::{
    file_keys, lemma_file_keys_push, media_object_keys, opt_key, FieldName, GameMedia, MediaFile,
};
use crate::text::{int_decimal, nat_decimal, owned, push_decimal, push_signed_decimal};
use crate::text::{lemma_texts_push, texts};
use vstd::prelude::*;

verus! {

/// The prefix under which all objects of a game are stored.
pub open spec fn game_prefix_text(game_id: i32) -> Seq<char> {
    "games/"@ + int_decimal(game_id as int) + "/"@
}

/// The extension of a file name: what follows its last `.`, or the whole
/// name when it has none (the first piece that `rsplit('.')` yields).
pub open spec fn file_extension(name: Seq<char>) -> Seq<char>
    decreases name.len(),
{
    if name.len() == 0 {
        seq![]
    } else if name.last() == '.' {
        seq![]
    } else {
        file_extension(name.drop_last()).push(name.last())
    }
}

/// The key an uploaded file is staged under. Covers and trailers are keyed
/// by the upload attempt; screenshots also by their sequence number `seq`.
pub open spec fn staged_key_text(
    game_id: i32,
    field: FieldName,
    file_name: Seq<char>,
    seq: nat,
    attempt: Seq<char>,
) -> Seq<char> {
    let ext = file_extension(file_name);
    match field {
        FieldName::Cover => game_prefix_text(game_id) + "cover_"@ + attempt + "."@ + ext,
        FieldName::Trailer => game_prefix_text(game_id) + "trailer_"@ + attempt + "."@ + ext,
        FieldName::Screenshot => game_prefix_text(game_id) + "screenshot_"@ + attempt + "_"@
            + nat_decimal(seq) + "."@ + ext,
    }
}

/// The keys in `s` that do not occur in `r`, in their order in `s`.
pub open spec fn without(s: Seq<Seq<char>>, r: Seq<Seq<char>>) -> Seq<Seq<char>>
    decreases s.len(),
{
    if s.len() == 0 {
        seq![]
    } else {
        let w = without(s.drop_last(), r);
        if r.contains(s.last()) {
            w
        } else {
            w.push(s.last())
        }
    }
}

/// The keys of a newly uploaded cover, screenshot list and trailer.
pub open spec fn uploaded_keys_text(
    cover: Option<MediaFile>,
    screenshots: Option<Vec<MediaFile>>,
    trailer: Option<MediaFile>,
) -> Seq<Seq<char>> {
    opt_key(cover) + match screenshots {
        Some(v) => file_keys(v@),
        None => seq![],
    } + opt_key(trailer)
}

/// The stored objects an update leaves unreferenced: the old cover when a
/// cover with another key arrives, the old screenshots whose keys the new
/// list lacks when a list arrives, and the old trailer when a trailer with
/// another key arrives.
pub open spec fn replaced_keys_text(
    existing: GameMedia,
    new_cover: Option<MediaFile>,
    new_screenshots: Option<Vec<MediaFile>>,
    new_trailer: Option<MediaFile>,
) -> Seq<Seq<char>> {
    replaced_single(new_cover, existing.cover) + replaced_screenshots(existing, new_screenshots)
        + replaced_single(new_trailer, existing.trailer)
}

/// The old file's key when a new file with another key replaces it.
pub open spec fn replaced_single(new: Option<MediaFile>, old: Option<MediaFile>) -> Seq<Seq<char>> {
    match (new, old) {
        (Some(n), Some(e)) => if n.object_key@ != e.object_key@ {
            seq![e.object_key@]
        } else {
            seq![]
        },
        _ => seq![],
    }
}

/// The old screenshots' keys that a new screenshot list lacks.
pub open spec fn replaced_screenshots(existing: GameMedia, new_screenshots: Option<Vec<MediaFile>>) -> Seq<
    Seq<char>,
> {
    match new_screenshots {
        Some(v) => without(file_keys(existing.screenshots@), file_keys(v@)),
        None => seq![],
    }
}

/// A key is in `without(s, r)` exactly when it is in `s` and not in `r`.
pub proof fn lemma_without_contains(s: Seq<Seq<char>>, r: Seq<Seq<char>>, k: Seq<char>)
    ensures
        without(s, r).contains(k) <==> (s.contains(k) && !r.contains(k)),
    decreases s.len(),
{
    if s.len() > 0 {
        let t = s.drop_last();
        lemma_without_contains(t, r, k);
        assert(s =~= t.push(s.last()));
        if t.contains(k) {
            let i = choose|i: int| 0 <= i < t.len() && t[i] == k;
            assert(s[i] == k);
        }
        if s.contains(k) && k != s.last() {
            let i = choose|i: int| 0 <= i < s.len() && s[i] == k;
            assert(t[i] == k);
        }
        if !r.contains(s.last()) {
            let w = without(t, r);
            assert(w.push(s.last())[w.len() as int] == s.last());
            if w.contains(k) {
                let i = choose|i: int| 0 <= i < w.len() && w[i] == k;
                assert(w.push(s.last())[i] == k);
            }
            if w.push(s.last()).contains(k) && k != s.last() {
                let i = choose|i: int| 0 <= i < w.len() + 1 && w.push(s.last())[i] == k;
                assert(w[i] == k);
            }
        }
        assert(s[s.len() - 1] == s.last());
    }
}

/// `"games/{game_id}/"`.
pub fn game_prefix(game_id: i32) -> (s: String)
    ensures
        s@ == game_prefix_text(game_id),
{
    let mut s = String::from_str("games/");
    push_signed_decimal(&mut s, game_id as i64);
    s.append("/");
    s
}

/// The extension of a file name, as `file_name.rsplit('.').next()` gives it.
pub fn extension_of(file_name: &str) -> (e: String)
    ensures
        e@ == file_extension(file_name@),
{
    let n = file_name.unicode_len();
    let mut i = n;
    while i > 0 && file_name.get_char(i - 1) != '.'
        invariant
            n == file_name@.len(),
            0 <= i <= n,
            forall|k: int| i <= k < n ==> file_name@[k] != '.',
        decreases i,
    {
        i = i - 1;
    }
    proof {
        lemma_extension_after_dot(file_name@, i as int);
    }
    owned(file_name.substring_char(i, n))
}

/// The extension is what follows position `i` when `i` is just past the
/// last `.` (or at the start of a name without one).
proof fn lemma_extension_after_dot(name: Seq<char>, i: int)
    requires
        0 <= i <= name.len(),
        i == 0 || name[i - 1] == '.',
        forall|k: int| i <= k < name.len() ==> name[k] != '.',
    ensures
        file_extension(name) == name.subrange(i, name.len() as int),
    decreases name.len(),
{
    if name.len() == i {
        if i > 0 {
            assert(name.last() == '.');
        }
        assert(name.subrange(i, name.len() as int) =~= Seq::<char>::empty());
    } else {
        let t = name.drop_last();
        assert(name.last() == name[name.len() - 1]);
        lemma_extension_after_dot(t, i);
        assert(name.subrange(i, name.len() as int) =~= t.subrange(i, t.len() as int).push(name.last()));
    }
}

/// The key under which an uploaded file is staged. A screenshot without a
/// sequence number takes the current time in milliseconds in its place.
pub fn staged_object_key(
    game_id: i32,
    field: FieldName,
    file_name: &str,
    screenshot_index: Option<usize>,
    attempt: &str,
) -> (key: String)
    ensures
        field != FieldName::Screenshot ==> key@ == staged_key_text(game_id, field, file_name@, 0, attempt@),
        field == FieldName::Screenshot ==> (screenshot_index matches Some(i) ==> key@ == staged_key_text(
            game_id,
            field,
            file_name@,
            i as nat,
            attempt@,
        )),
        field == FieldName::Screenshot ==> exists|t: nat| key@ == staged_key_text(game_id, field, file_name@, t, attempt@),
{
    let ext = extension_of(file_name);
    let mut key = game_prefix(game_id);
    match field {
        FieldName::Cover => {
            key.append("cover_");
            key.append(attempt);
            key.append(".");
            key.append(ext.as_str());
            key
        },
        FieldName::Trailer => {
            key.append("trailer_");
            key.append(attempt);
            key.append(".");
            key.append(ext.as_str());
            key
        },
        FieldName::Screenshot => {
            let seq: usize = match screenshot_index {
                Some(i) => i,
                None => system_clock_millis() as usize,
            };
            key.append("screenshot_");
            key.append(attempt);
            key.append("_");
            push_decimal(&mut key, seq as u64);
            key.append(".");
            key.append(ext.as_str());
            assert(key@ =~= staged_key_text(game_id, field, file_name@, seq as nat, attempt@));
            key
        },
    }
}

/// A fresh suffix that makes one upload attempt's keys differ from every
/// other attempt's: a new object id in hexadecimal.
pub fn unique_attempt_suffix() -> (s: String)
    ensures
        is_lower_hex_text(s@, 24),
{
    fresh_object_id_hex()
}

/// Appends the keys of `files` to `keys`.
fn push_file_keys(keys: &mut Vec<String>, files: &Vec<MediaFile>)
    ensures
        texts(final(keys)@) == texts(old(keys)@) + file_keys(files@),
{
    let ghost start = texts(keys@);
    let mut i: usize = 0;
    while i < files.len()
        invariant
            0 <= i <= files@.len(),
            texts(keys@) == start + file_keys(files@.take(i as int)),
        decreases files@.len() - i,
    {
        let ghost old_keys = keys@;
        keys.push(files[i].object_key.clone());
        proof {
            let f = files@[i as int];
            assert(files@.take(i + 1) =~= files@.take(i as int).push(f));
            lemma_texts_push(old_keys, f.object_key);
            lemma_file_keys_push(files@.take(i as int), f);
            assert(texts(keys@) =~= start + file_keys(files@.take(i + 1)));
        }
        i = i + 1;
    }
    assert(files@.take(i as int) =~= files@);
}

/// The keys of a newly uploaded cover, screenshots and trailer, in that
/// order.
pub fn uploaded_keys(
    cover: &Option<MediaFile>,
    screenshots: &Option<Vec<MediaFile>>,
    trailer: &Option<MediaFile>,
) -> (keys: Vec<String>)
    ensures
        texts(keys@) == uploaded_keys_text(*cover, *screenshots, *trailer),
{
    let mut keys: Vec<String> = Vec::new();
    if let Some(cover) = cover {
        keys.push(cover.object_key.clone());
    }
    assert(texts(keys@) =~= opt_key(*cover));
    if let Some(screenshots) = screenshots {
        push_file_keys(&mut keys, screenshots);
    }
    assert(texts(keys@) =~= opt_key(*cover) + match *screenshots {
        Some(v) => file_keys(v@),
        None => seq![],
    });
    if let Some(trailer) = trailer {
        keys.push(trailer.object_key.clone());
    }
    assert(texts(keys@) =~= uploaded_keys_text(*cover, *screenshots, *trailer));
    keys
}

/// Whether `key` is among `keys`.
pub fn contains_key(keys: &[String], key: &String) -> (r: bool)
    ensures
        r == texts(keys@).contains(key@),
{
    let mut i: usize = 0;
    while i < keys.len()
        invariant
            0 <= i <= keys@.len(),
            forall|j: int| 0 <= j < i ==> keys@[j]@ != key@,
        decreases keys@.len() - i,
    {
        if keys[i] == *key {
            assert(texts(keys@)[i as int] == key@);
            return true;
        }
        i = i + 1;
    }
    proof {
        if texts(keys@).contains(key@) {
            let j = choose|j: int| 0 <= j < texts(keys@).len() && texts(keys@)[j] == key@;
            assert(keys@[j]@ == key@);
        }
    }
    false
}

/// Appends to `out` the keys of `files` that `retained` lacks.
fn push_keys_without(out: &mut Vec<String>, files: &Vec<MediaFile>, retained: &Vec<String>)
    ensures
        texts(final(out)@) == texts(old(out)@) + without(file_keys(files@), texts(retained@)),
{
    let ghost start = texts(out@);
    let mut i: usize = 0;
    while i < files.len()
        invariant
            0 <= i <= files@.len(),
            texts(out@) == start + without(file_keys(files@.take(i as int)), texts(retained@)),
        decreases files@.len() - i,
    {
        let key = &files[i].object_key;
        let ghost before = file_keys(files@.take(i as int));
        let ghost old_out = out@;
        proof {
            assert(files@.take(i + 1) =~= files@.take(i as int).push(files@[i as int]));
            lemma_file_keys_push(files@.take(i as int), files@[i as int]);
            assert(file_keys(files@.take(i + 1)).drop_last() =~= before);
        }
        if !contains_key(retained.as_slice(), key) {
            out.push(key.clone());
            proof {
                lemma_texts_push(old_out, *key);
            }
        }
        assert(texts(out@) =~= start + without(file_keys(files@.take(i + 1)), texts(retained@)));
        i = i + 1;
    }
    assert(files@.take(i as int) =~= files@);
}

/// The stored objects an update of `existing` leaves unreferenced (see
/// [`replaced_keys_text`]).
pub fn replaced_keys(
    existing: &GameMedia,
    new_cover: &Option<MediaFile>,
    new_screenshots: &Option<Vec<MediaFile>>,
    new_trailer: &Option<MediaFile>,
) -> (keys: Vec<String>)
    ensures
        texts(keys@) == replaced_keys_text(*existing, *new_cover, *new_screenshots, *new_trailer),
{
    let mut keys: Vec<String> = Vec::new();
    if let Some(new_cover) = new_cover {
        if let Some(existing_cover) = &existing.cover {
            if new_cover.object_key != existing_cover.object_key {
                keys.push(existing_cover.object_key.clone());
            }
        }
    }
    let ghost cover_part = texts(keys@);
    assert(cover_part =~= replaced_single(*new_cover, existing.cover));
    if let Some(new_screenshots) = new_screenshots {
        let mut retained: Vec<String> = Vec::new();
        push_file_keys(&mut retained, new_screenshots);
        assert(texts(retained@) =~= file_keys(new_screenshots@));
        push_keys_without(&mut keys, &existing.screenshots, &retained);
    }
    let ghost with_screens = texts(keys@);
    assert(with_screens =~= cover_part + replaced_screenshots(*existing, *new_screenshots));
    let ghost before_trailer = keys@;
    if let Some(new_trailer) = new_trailer {
        if let Some(existing_trailer) = &existing.trailer {
            if new_trailer.object_key != existing_trailer.object_key {
                keys.push(existing_trailer.object_key.clone());
                proof {
                    lemma_texts_push(before_trailer, existing_trailer.object_key);
                }
            }
        }
    }
    assert(texts(keys@) =~= with_screens + replaced_single(*new_trailer, existing.trailer));
    assert(texts(keys@) =~= replaced_keys_text(*existing, *new_cover, *new_screenshots, *new_trailer));
    keys
}

/// The listed keys that are not known, in listed order: the leftovers a
/// sweep of a game's prefix may delete.
pub fn filter_unknown_keys(known_keys: &[String], listed_keys: Vec<String>) -> (r: Vec<String>)
    ensures
        texts(r@) == without(texts(listed_keys@), texts(known_keys@)),
        forall|k: Seq<char>| #[trigger] texts(r@).contains(k) <==> (texts(listed_keys@).contains(k)
            && !texts(known_keys@).contains(k)),
{
    let mut out: Vec<String> = Vec::new();
    let mut i: usize = 0;
    while i < listed_keys.len()
        invariant
            0 <= i <= listed_keys@.len(),
            texts(out@) == without(texts(listed_keys@.take(i as int)), texts(known_keys@)),
        decreases listed_keys@.len() - i,
    {
        let key = &listed_keys[i];
        let ghost before = texts(listed_keys@.take(i as int));
        let ghost old_out = out@;
        proof {
            assert(listed_keys@.take(i + 1) =~= listed_keys@.take(i as int).push(*key));
            lemma_texts_push(listed_keys@.take(i as int), *key);
            assert(texts(listed_keys@.take(i + 1)).drop_last() =~= before);
        }
        if !contains_key(known_keys, key) {
            out.push(key.clone());
            proof {
                lemma_texts_push(old_out, *key);
            }
        }
        assert(texts(out@) =~= without(texts(listed_keys@.take(i + 1)), texts(known_keys@)));
        i = i + 1;
    }
    assert(listed_keys@.take(i as int) =~= listed_keys@);
    proof {
        assert forall|k: Seq<char>| #[trigger] texts(out@).contains(k) <==> (texts(listed_keys@).contains(k)
            && !texts(known_keys@).contains(k)) by {
            lemma_without_contains(texts(listed_keys@), texts(known_keys@), k);
        }
    }
    out
}

/// The keys the game's current record refers to, if there is one.
pub open spec fn current_keys(current: Option<GameMedia>) -> Seq<Seq<char>> {
    match current {
        Some(m) => media_object_keys(m),
        None => seq![],
    }
}

/// The objects a sweep of a game's prefix deletes: listed keys that are
/// neither among `known_keys` nor referred to by the game's current record,
/// in listed order.
pub fn leftover_keys(known_keys: &[String], current: &Option<GameMedia>, listed_keys: Vec<String>) -> (r: Vec<
    String,
>)
    ensures
        texts(r@) == without(texts(listed_keys@), texts(known_keys@) + current_keys(*current)),
        forall|k: Seq<char>|
            #[trigger] texts(r@).contains(k) <==> (texts(listed_keys@).contains(k) && !texts(known_keys@).contains(
                k,
            ) && !(*current matches Some(m) && media_object_keys(m).contains(k))),
{
    let mut known: Vec<String> = Vec::new();
    let mut i: usize = 0;
    while i < known_keys.len()
        invariant
            0 <= i <= known_keys@.len(),
            texts(known@) == texts(known_keys@.take(i as int)),
        decreases known_keys@.len() - i,
    {
        let ghost before = known@;
        known.push(known_keys[i].clone());
        proof {
            lemma_texts_push(before, known_keys@[i as int]);
            assert(known_keys@.take(i + 1) =~= known_keys@.take(i as int).push(known_keys@[i as int]));
            lemma_texts_push(known_keys@.take(i as int), known_keys@[i as int]);
        }
        i = i + 1;
    }
    assert(known_keys@.take(i as int) =~= known_keys@);
    let ghost base = texts(known@);
    if let Some(m) = current {
        let more = m.object_keys();
        let mut j: usize = 0;
        while j < more.len()
            invariant
                0 <= j <= more@.len(),
                texts(known@) == base + texts(more@.take(j as int)),
            decreases more@.len() - j,
        {
            let ghost before = known@;
            known.push(more[j].clone());
            proof {
                lemma_texts_push(before, more@[j as int]);
                assert(more@.take(j + 1) =~= more@.take(j as int).push(more@[j as int]));
                lemma_texts_push(more@.take(j as int), more@[j as int]);
            }
            j = j + 1;
        }
        assert(more@.take(j as int) =~= more@);
    }
    assert(texts(known@) =~= texts(known_keys@) + current_keys(*current));
    let r = filter_unknown_keys(known.as_slice(), listed_keys);
    proof {
        assert forall|k: Seq<char>| #[trigger] texts(known@).contains(k) <==> (texts(known_keys@).contains(k) || (
        *current matches Some(m) && media_object_keys(m).contains(k))) by {
            match *current {
                Some(m) => {
                    let mk = media_object_keys(m);
                    let s = base + mk;
                    assert(texts(known@) == s);
                    if s.contains(k) {
                        let i = choose|i: int| 0 <= i < s.len() && s[i] == k;
                        if i < base.len() {
                            assert(base[i] == k);
                        } else {
                            assert(mk[i - base.len()] == k);
                        }
                    }
                    if base.contains(k) {
                        let i = choose|i: int| 0 <= i < base.len() && base[i] == k;
                        assert(s[i] == k);
                    }
                    if mk.contains(k) {
                        let i = choose|i: int| 0 <= i < mk.len() && mk[i] == k;
                        assert(s[base.len() + i] == k);
                    }
                },
                None => {},
            }
        }
    }
    r
}

/// The most keys one listing of a prefix returns.
pub const MAX_LISTED_KEYS: usize = 1000;

/// The names of the listed entries that are objects, not common prefixes,
/// in listed order.
pub open spec fn object_names(entries: Seq<(String, bool)>) -> Seq<Seq<char>>
    decreases entries.len(),
{
    if entries.len() == 0 {
        seq![]
    } else {
        let rest = object_names(entries.drop_last());
        if entries.last().1 {
            rest
        } else {
            rest.push(entries.last().0@)
        }
    }
}

/// Adds one page of a prefix listing, given as (name, is-prefix) entries,
/// to the keys gathered so far; tells whether enough keys are gathered.
pub fn add_listed_page(keys: &mut Vec<String>, entries: Vec<(String, bool)>) -> (enough: bool)
    ensures
        texts(final(keys)@) == texts(old(keys)@) + object_names(entries@),
        enough == (final(keys)@.len() >= MAX_LISTED_KEYS),
{
    let ghost start = texts(keys@);
    let mut i: usize = 0;
    while i < entries.len()
        invariant
            0 <= i <= entries@.len(),
            texts(keys@) == start + object_names(entries@.take(i as int)),
        decreases entries@.len() - i,
    {
        assert(entries@.take(i + 1).drop_last() =~= entries@.take(i as int));
        let entry = &entries[i];
        if !entry.1 {
            let ghost before = keys@;
            keys.push(entry.0.clone());
            proof {
                lemma_texts_push(before, entry.0);
            }
        }
        assert(texts(keys@) =~= start + object_names(entries@.take(i + 1)));
        i = i + 1;
    }
    assert(entries@.take(i as int) =~= entries@);
    keys.len() >= MAX_LISTED_KEYS
}

/// The gathered keys of a listing, cut to at most [`MAX_LISTED_KEYS`].
pub fn cap_listing(keys: Vec<String>) -> (r: Vec<String>)
    ensures
        r@ == if keys@.len() > MAX_LISTED_KEYS {
            keys@.take(MAX_LISTED_KEYS as int)
        } else {
            keys@
        },
{
    let mut keys = keys;
    keys.truncate(MAX_LISTED_KEYS);
    keys
}

} // verus!
