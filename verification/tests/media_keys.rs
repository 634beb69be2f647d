use playlog::media::media_keys::{
    extension_of, filter_unknown_keys, game_prefix, leftover_keys, replaced_keys, staged_object_key,
    unique_attempt_suffix, uploaded_keys,
};
use playlog::media::model::{FieldName, GameMedia, MediaFile};

fn file(key: &str) -> MediaFile {
    MediaFile::new(key.to_string(), "image/png".to_string(), 10, 0)
}

fn strings(v: &[&str]) -> Vec<String> {
    v.iter().map(|s| s.to_string()).collect()
}

#[test]
fn prefix_of_a_game() {
    assert_eq!(game_prefix(42), "games/42/");
    assert_eq!(game_prefix(-3), "games/-3/");
}

#[test]
fn extension_is_text_after_last_dot() {
    assert_eq!(extension_of("a.png"), "png");
    assert_eq!(extension_of("archive.tar.gz"), "gz");
    assert_eq!(extension_of("noext"), "noext");
    assert_eq!(extension_of("trailing."), "");
    assert_eq!(extension_of(""), "");
    assert_eq!(extension_of(".hidden"), "hidden");
}

#[test]
fn staged_keys_per_field() {
    assert_eq!(
        staged_object_key(7, FieldName::Cover, "x.jpg", None, "abc"),
        "games/7/cover_abc.jpg"
    );
    assert_eq!(
        staged_object_key(7, FieldName::Trailer, "clip.mp4", Some(3), "abc"),
        "games/7/trailer_abc.mp4"
    );
    assert_eq!(
        staged_object_key(7, FieldName::Screenshot, "s.webp", Some(12), "abc"),
        "games/7/screenshot_abc_12.webp"
    );
}

#[test]
fn screenshot_without_index_uses_a_number() {
    let key = staged_object_key(1, FieldName::Screenshot, "s.png", None, "a");
    assert!(key.starts_with("games/1/screenshot_a_"));
    assert!(key.ends_with(".png"));
    let middle = &key["games/1/screenshot_a_".len()..key.len() - 4];
    assert!(middle.parse::<u64>().is_ok());
}

#[test]
fn attempt_suffix_is_lower_hex() {
    let a = unique_attempt_suffix();
    let b = unique_attempt_suffix();
    assert_eq!(a.len(), 24);
    assert!(a.chars().all(|c| c.is_ascii_digit() || ('a'..='f').contains(&c)));
    assert_ne!(a, b);
}

#[test]
fn uploaded_keys_in_field_order() {
    let keys = uploaded_keys(
        &Some(file("c")),
        &Some(vec![file("s1"), file("s2")]),
        &Some(file("t")),
    );
    assert_eq!(keys, strings(&["c", "s1", "s2", "t"]));
    assert!(uploaded_keys(&None, &None, &None).is_empty());
}

#[test]
fn replaced_keys_of_an_update() {
    let existing = GameMedia::new(
        None,
        1,
        Some(file("old_cover")),
        vec![file("s1"), file("s2"), file("s3")],
        Some(file("old_trailer")),
        4,
    );
    let keys = replaced_keys(
        &existing,
        &Some(file("new_cover")),
        &Some(vec![file("s2"), file("s9")]),
        &None,
    );
    assert_eq!(keys, strings(&["old_cover", "s1", "s3"]));
    let same = replaced_keys(&existing, &Some(file("old_cover")), &None, &Some(file("old_trailer")));
    assert!(same.is_empty());
    let trailer = replaced_keys(&existing, &None, &None, &Some(file("t2")));
    assert_eq!(trailer, strings(&["old_trailer"]));
}

#[test]
fn unknown_keys_are_filtered() {
    let known = strings(&["a", "b"]);
    let listed = strings(&["b", "c", "a", "d", "c"]);
    assert_eq!(filter_unknown_keys(&known, listed), strings(&["c", "d", "c"]));
}

#[test]
fn sweep_spares_the_current_record() {
    let current = GameMedia::new(None, 3, Some(file("games/3/cover")), vec![file("games/3/s1")], None, 1);
    let listed = strings(&["games/3/cover", "games/3/s1", "games/3/old", "games/3/staged"]);
    let left = leftover_keys(&strings(&["games/3/staged"]), &Some(current), listed.clone());
    assert_eq!(left, strings(&["games/3/old"]));
    let none = leftover_keys(&[], &None, listed.clone());
    assert_eq!(none, listed);
}

#[test]
fn object_keys_of_a_record() {
    let m = GameMedia::new(None, 1, None, vec![file("s1")], Some(file("t")), 0);
    assert_eq!(m.object_keys(), strings(&["s1", "t"]));
    assert!(GameMedia::new_for_game(9).object_keys().is_empty());
}
