use video_processing_service::store::{DbService, Video, VideoStatus};

fn record(id: &str, status: VideoStatus) -> Video {
    Video {
        id: id.to_string(),
        uid: "abc".to_string(),
        filename: "abc-123.mp4".to_string(),
        status,
        title: String::new(),
        description: String::new(),
    }
}

#[test]
fn missing_record_reads_as_default_undefined() {
    let db = DbService::new();
    let v = db.get_video("abc-123");
    assert_eq!(v.status, VideoStatus::Undefined);
    assert_eq!(v.id, "");
    assert_eq!(v.filename, "");
}

#[test]
fn written_record_is_read_back() {
    let mut db = DbService::new();
    db.set_video(record("abc-123", VideoStatus::Processing));
    let v = db.get_video("abc-123");
    assert_eq!(v.status, VideoStatus::Processing);
    assert_eq!(v.id, "abc-123");
    assert_eq!(v.uid, "abc");
    assert_eq!(v.filename, "abc-123.mp4");
}

#[test]
fn upsert_replaces_the_record_under_the_same_id() {
    let mut db = DbService::new();
    db.set_video(record("abc-123", VideoStatus::Processing));
    let mut committed = record("abc-123", VideoStatus::Processed);
    committed.filename = "processed-abc-123.mp4".to_string();
    db.set_video(committed);
    let v = db.get_video("abc-123");
    assert_eq!(v.status, VideoStatus::Processed);
    assert_eq!(v.filename, "processed-abc-123.mp4");
    assert_eq!(db._get_all().len(), 1);
}

#[test]
fn records_under_other_ids_are_untouched() {
    let mut db = DbService::new();
    db.set_video(record("abc-123", VideoStatus::Processing));
    db.set_video(record("xyz-9", VideoStatus::Processed));
    assert_eq!(db.get_video("abc-123").status, VideoStatus::Processing);
    assert_eq!(db.get_video("xyz-9").status, VideoStatus::Processed);
    assert_eq!(db._get_all().len(), 2);
}

#[test]
fn is_video_new_follows_the_status() {
    let mut db = DbService::new();
    assert!(db.is_video_new("abc-123"));
    db.set_video(record("abc-123", VideoStatus::Processing));
    assert!(!db.is_video_new("abc-123"));
    db.set_video(record("abc-123", VideoStatus::Processed));
    assert!(!db.is_video_new("abc-123"));
    assert!(db.is_video_new("other-1"));
}

#[test]
fn deleting_a_record_makes_it_default_again() {
    let mut db = DbService::new();
    db.set_video(record("abc-123", VideoStatus::Processed));
    db.set_video(record("xyz-9", VideoStatus::Processing));
    db._delete_video_by_id("abc-123");
    assert_eq!(db.get_video("abc-123").status, VideoStatus::Undefined);
    assert_eq!(db.get_video("xyz-9").status, VideoStatus::Processing);
    db._delete_video_by_id("never-stored");
    assert_eq!(db._get_all().len(), 1);
}
