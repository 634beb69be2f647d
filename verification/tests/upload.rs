use bytes::Bytes;
use playlog::media::error::MediaError;
use playlog::media::media_keys::{replaced_keys, uploaded_keys};
use playlog::media::model::{FieldName, GameMedia, MediaFile, UploadedFile};
use playlog::media::upload::{
    assemble_uploads, check_version, deletion_keys, existing_or_new, merge_media, plan_uploads,
    replace_outcome, require_media, rollback_keys, validate_upload_limits, MAX_IMAGE_BYTES,
    MAX_VIDEO_BYTES,
};

fn upload(field: FieldName, name: &str, len: usize) -> UploadedFile {
    UploadedFile::new(field, name.to_string(), "application/octet-stream".to_string(), Bytes::from(vec![0u8; len]))
}

fn file(key: &str) -> MediaFile {
    MediaFile::new(key.to_string(), "image/png".to_string(), 10, 0)
}

#[test]
fn no_files_is_refused() {
    assert_eq!(validate_upload_limits(&[]), Err(MediaError::NoFilesProvided));
}

#[test]
fn too_many_files_is_refused() {
    let files: Vec<UploadedFile> = (0..23).map(|_| upload(FieldName::Cover, "c.png", 1)).collect();
    assert_eq!(
        validate_upload_limits(&files),
        Err(MediaError::TooManyFiles(
            "Too many files (max 22: 1 cover + 20 screenshots + 1 trailer)".to_string()
        ))
    );
}

#[test]
fn too_many_screenshots_is_refused() {
    let files: Vec<UploadedFile> = (0..21).map(|_| upload(FieldName::Screenshot, "s.png", 1)).collect();
    assert_eq!(
        validate_upload_limits(&files),
        Err(MediaError::TooManyFiles("Too many screenshots (max 20)".to_string()))
    );
}

#[test]
fn oversized_image_is_refused() {
    let files = vec![upload(FieldName::Screenshot, "s.png", 5), upload(FieldName::Cover, "c.png", MAX_IMAGE_BYTES + 1)];
    assert_eq!(
        validate_upload_limits(&files),
        Err(MediaError::FileTooLarge { field: "Cover".to_string(), limit_mb: 10 })
    );
    let ok = vec![upload(FieldName::Cover, "c.png", MAX_IMAGE_BYTES)];
    assert_eq!(validate_upload_limits(&ok), Ok(()));
}

#[test]
fn empty_file_is_refused() {
    let files = vec![upload(FieldName::Trailer, "t.mp4", 3), upload(FieldName::Screenshot, "s.png", 0)];
    assert_eq!(validate_upload_limits(&files), Err(MediaError::NoFilesProvided));
}

#[test]
fn trailer_may_be_large_but_total_is_bounded() {
    let big = vec![upload(FieldName::Trailer, "t.mp4", 20 * 1024 * 1024)];
    assert_eq!(validate_upload_limits(&big), Ok(()));
    let shared = Bytes::from(vec![0u8; MAX_VIDEO_BYTES]);
    let files: Vec<UploadedFile> = (0..2)
        .map(|_| UploadedFile::new(FieldName::Trailer, "t.mp4".to_string(), "video/mp4".to_string(), shared.clone()))
        .collect();
    assert_eq!(
        validate_upload_limits(&files),
        Err(MediaError::TooManyFiles("Total upload size exceeds the allowed limit".to_string()))
    );
}

#[test]
fn trailer_over_limit_reports_video_limit() {
    let files = vec![upload(FieldName::Trailer, "t.mp4", MAX_VIDEO_BYTES + 1)];
    assert_eq!(
        validate_upload_limits(&files),
        Err(MediaError::FileTooLarge { field: "Trailer".to_string(), limit_mb: 500 })
    );
}

#[test]
fn plan_numbers_screenshots_in_order() {
    let files = vec![
        upload(FieldName::Screenshot, "a.png", 2),
        upload(FieldName::Cover, "c.jpg", 3),
        upload(FieldName::Screenshot, "b.webp", 4),
        upload(FieldName::Trailer, "t.mp4", 5),
    ];
    let plan = plan_uploads(5, &files, "x1");
    let keys: Vec<&str> = plan.iter().map(|p| p.object_key.as_str()).collect();
    assert_eq!(
        keys,
        vec![
            "games/5/screenshot_x1_1.png",
            "games/5/cover_x1.jpg",
            "games/5/screenshot_x1_2.webp",
            "games/5/trailer_x1.mp4"
        ]
    );
    assert_eq!(plan[2].size_bytes, 4);
    assert_eq!(plan[1].field_name, FieldName::Cover);
    assert_eq!(plan[3].mime_type, "application/octet-stream");
    assert_eq!(rollback_keys(&plan, 2), vec!["games/5/screenshot_x1_1.png".to_string(), "games/5/cover_x1.jpg".to_string()]);
    assert!(rollback_keys(&plan, 0).is_empty());
}

#[test]
fn assembled_upload_keeps_every_key() {
    let files = vec![
        upload(FieldName::Cover, "c.jpg", 3),
        upload(FieldName::Screenshot, "a.png", 2),
        upload(FieldName::Screenshot, "b.png", 2),
        upload(FieldName::Trailer, "t.mp4", 5),
    ];
    let plan = plan_uploads(8, &files, "q");
    let (cover, shots, trailer) = assemble_uploads(&plan, 1234);
    let mut kept = uploaded_keys(&cover, &shots, &trailer);
    let mut staged: Vec<String> = plan.iter().map(|p| p.object_key.clone()).collect();
    kept.sort();
    staged.sort();
    assert_eq!(kept, staged);
    assert_eq!(cover.unwrap().uploaded_at, 1234);
    assert_eq!(shots.unwrap().len(), 2);
}

#[test]
fn second_cover_replaces_first_in_assembly() {
    let files = vec![upload(FieldName::Cover, "c.jpg", 3), upload(FieldName::Cover, "d.png", 3)];
    let plan = plan_uploads(8, &files, "q");
    let (cover, shots, trailer) = assemble_uploads(&plan, 0);
    assert_eq!(cover.unwrap().object_key, "games/8/cover_q.png");
    assert!(shots.is_none());
    assert!(trailer.is_none());
}

#[test]
fn merge_keeps_old_files_where_nothing_new_arrives() {
    let existing = GameMedia::new(Some([1; 12]), 2, Some(file("c0")), vec![file("s0")], Some(file("t0")), 6);
    let merged = merge_media(existing.clone(), 2, Some(file("c1")), None, None);
    assert_eq!(merged.id, Some([1; 12]));
    assert_eq!(merged.cover.as_ref().unwrap().object_key, "c1");
    assert_eq!(merged.screenshots.len(), 1);
    assert_eq!(merged.trailer.as_ref().unwrap().object_key, "t0");
    assert_eq!(merged.version, 7);
}

#[test]
fn freed_keys_are_not_in_the_merged_record() {
    let existing = GameMedia::new(None, 2, Some(file("c0")), vec![file("s0"), file("s1")], Some(file("t0")), 0);
    let nc = Some(file("c1"));
    let ns = Some(vec![file("s1"), file("s2")]);
    let nt = None;
    let freed = replaced_keys(&existing, &nc, &ns, &nt);
    let merged = merge_media(existing.clone(), 2, nc.clone(), ns.clone(), nt.clone());
    let referenced = merged.object_keys();
    assert_eq!(freed, vec!["c0".to_string(), "s0".to_string()]);
    for k in &freed {
        assert!(!referenced.contains(k));
    }
    for k in existing.object_keys() {
        assert!(referenced.contains(&k) || freed.contains(&k));
    }
    for k in uploaded_keys(&nc, &ns, &nt) {
        assert!(referenced.contains(&k));
    }
}

#[test]
fn version_checks() {
    assert_eq!(check_version(3, 2, 2), Ok(()));
    assert_eq!(check_version(3, 2, 1), Err(MediaError::Conflict(3)));
    assert_eq!(replace_outcome(3, 0, false), Err(MediaError::Conflict(3)));
    assert_eq!(replace_outcome(3, 1, false), Ok(()));
    assert_eq!(replace_outcome(3, 0, true), Ok(()));
}

#[test]
fn lookups_and_deletion() {
    assert_eq!(require_media(None, 4), Err(MediaError::NotFound(4)));
    let m = GameMedia::new(None, 4, Some(file("c")), vec![], None, 2);
    assert_eq!(require_media(Some(m.clone()), 4), Ok(m.clone()));
    assert_eq!(deletion_keys(&m, 2), Ok(vec!["c".to_string()]));
    assert_eq!(deletion_keys(&m, 1), Err(MediaError::Conflict(4)));
    let fresh = existing_or_new(None, 11);
    assert_eq!(fresh.game_id, 11);
    assert_eq!(fresh.version, 0);
    assert_eq!(existing_or_new(Some(m.clone()), 11), m);
}
