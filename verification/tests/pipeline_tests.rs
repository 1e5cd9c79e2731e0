use base64::Engine;
use video_processing_service::pipeline::{PipelineAction, PipelineEvent, PipelineRun, Stage};
use video_processing_service::store::{DbService, Video, VideoStatus};

fn envelope(name: &str) -> String {
    let json = format!("{{\"name\":\"{}\"}}", name);
    base64::engine::general_purpose::STANDARD.encode(json.as_bytes())
}

fn started(name: &str) -> PipelineRun {
    PipelineRun::start(&envelope(name)).unwrap()
}

fn claimed(name: &str, db: &mut DbService) -> PipelineRun {
    let mut run = started(name);
    let rec = db.get_video(&run.id);
    match run.step(PipelineEvent::Fetched(rec)) {
        PipelineAction::WriteRecord(v) => db.set_video(v),
        _ => panic!("expected the claim write"),
    }
    match run.step(PipelineEvent::Succeeded) {
        PipelineAction::Download(_) => {},
        _ => panic!("expected the download request"),
    }
    run
}

#[test]
fn start_derives_the_run_names() {
    let run = started("abc-123.mp4");
    assert_eq!(run.name, "abc-123.mp4");
    assert_eq!(run.id, "abc-123");
    assert_eq!(run.uid, "abc");
    assert_eq!(run.processed_name, "processed-abc-123.mp4");
    assert_eq!(run.stage, Stage::FetchingRecord);
}

#[test]
fn happy_path_commits_the_processed_record_and_answers_200() {
    let mut db = DbService::new();
    let mut run = started("abc-123.mp4");
    let rec = db.get_video(&run.id);
    assert_eq!(rec.status, VideoStatus::Undefined);

    match run.step(PipelineEvent::Fetched(rec)) {
        PipelineAction::WriteRecord(v) => {
            assert_eq!(v.status, VideoStatus::Processing);
            assert_eq!(v.id, "abc-123");
            assert_eq!(v.uid, "abc");
            assert_eq!(v.filename, "abc-123.mp4");
            db.set_video(v);
        },
        _ => panic!("expected the claim write"),
    }
    match run.step(PipelineEvent::Succeeded) {
        PipelineAction::Download(name) => assert_eq!(name, "abc-123.mp4"),
        _ => panic!("expected the download request"),
    }
    match run.step(PipelineEvent::Succeeded) {
        PipelineAction::Convert(input, output) => {
            assert_eq!(input, "./raw-videos/abc-123.mp4");
            assert_eq!(output, "./processed-videos/processed-abc-123.mp4");
        },
        _ => panic!("expected the conversion request"),
    }
    match run.step(PipelineEvent::Succeeded) {
        PipelineAction::Upload(name) => assert_eq!(name, "processed-abc-123.mp4"),
        _ => panic!("expected the upload request"),
    }
    match run.step(PipelineEvent::Succeeded) {
        PipelineAction::WriteRecord(v) => {
            assert_eq!(v.status, VideoStatus::Processed);
            assert_eq!(v.filename, "processed-abc-123.mp4");
            db.set_video(v);
        },
        _ => panic!("expected the commit write"),
    }
    match run.step(PipelineEvent::Succeeded) {
        PipelineAction::Respond(rep) => {
            assert_eq!(rep.code, 200);
            assert_eq!(rep.body, "Processing Complete.");
        },
        _ => panic!("expected the answer"),
    }
    assert_eq!(run.stage, Stage::Finished);

    let committed = db.get_video("abc-123");
    assert_eq!(committed.status, VideoStatus::Processed);
    assert_eq!(committed.filename, "processed-abc-123.mp4");
}

#[test]
fn processing_record_is_rejected_as_duplicate() {
    let mut db = DbService::new();
    db.set_video(Video {
        id: "abc-123".to_string(),
        uid: "abc".to_string(),
        filename: "abc-123.mp4".to_string(),
        status: VideoStatus::Processing,
        title: String::new(),
        description: String::new(),
    });
    let mut run = started("abc-123.mp4");
    let rec = db.get_video(&run.id);
    match run.step(PipelineEvent::Fetched(rec)) {
        PipelineAction::Respond(rep) => {
            assert_eq!(rep.code, 400);
            assert_eq!(rep.body, "Bad Request: video already processing or processed.");
        },
        _ => panic!("a duplicate must be answered at once"),
    }
    assert_eq!(run.stage, Stage::Finished);
    assert_eq!(db._get_all().len(), 1);
    assert_eq!(db.get_video("abc-123").status, VideoStatus::Processing);
}

#[test]
fn processed_record_is_rejected_as_duplicate() {
    let mut db = DbService::new();
    db.set_video(Video {
        id: "abc-123".to_string(),
        uid: "abc".to_string(),
        filename: "processed-abc-123.mp4".to_string(),
        status: VideoStatus::Processed,
        title: String::new(),
        description: String::new(),
    });
    let mut run = started("abc-123.mp4");
    let rec = db.get_video(&run.id);
    match run.step(PipelineEvent::Fetched(rec)) {
        PipelineAction::Respond(rep) => assert_eq!(rep.code, 400),
        _ => panic!("a duplicate must be answered at once"),
    }
}

#[test]
fn failed_claim_answers_500_without_compensation() {
    let mut run = started("abc-123.mp4");
    let rec = Video::default();
    match run.step(PipelineEvent::Fetched(rec)) {
        PipelineAction::WriteRecord(_) => {},
        _ => panic!("expected the claim write"),
    }
    match run.step(PipelineEvent::Failed) {
        PipelineAction::Respond(rep) => {
            assert_eq!(rep.code, 500);
            assert_eq!(rep.body, "Failed to update video document.");
        },
        _ => panic!("a failed claim is answered without cleanup"),
    }
    assert_eq!(run.stage, Stage::Finished);
}

#[test]
fn failed_download_cleans_up_and_answers_500() {
    let mut db = DbService::new();
    let mut run = claimed("abc-123.mp4", &mut db);
    match run.step(PipelineEvent::Failed) {
        PipelineAction::Cleanup(raw, processed) => {
            assert_eq!(raw, "./raw-videos/abc-123.mp4");
            assert_eq!(processed, "./processed-videos/processed-abc-123.mp4");
        },
        _ => panic!("expected compensation"),
    }
    match run.step(PipelineEvent::CleanedUp) {
        PipelineAction::Respond(rep) => {
            assert_eq!(rep.code, 500);
            assert_eq!(rep.body, "Failed to download raw video.");
        },
        _ => panic!("expected the answer"),
    }
}

#[test]
fn failed_conversion_cleans_up_both_scratch_paths() {
    let mut db = DbService::new();
    let mut run = claimed("abc-123.mp4", &mut db);
    match run.step(PipelineEvent::Succeeded) {
        PipelineAction::Convert(_, _) => {},
        _ => panic!("expected the conversion request"),
    }
    match run.step(PipelineEvent::Failed) {
        PipelineAction::Cleanup(raw, processed) => {
            assert_eq!(raw, "./raw-videos/abc-123.mp4");
            assert_eq!(processed, "./processed-videos/processed-abc-123.mp4");
        },
        _ => panic!("expected compensation with both scratch paths"),
    }
    match run.step(PipelineEvent::CleanedUp) {
        PipelineAction::Respond(rep) => {
            assert_eq!(rep.code, 500);
            assert_eq!(rep.body, "Failed to convert video.");
        },
        _ => panic!("expected the answer"),
    }
    assert_eq!(db.get_video("abc-123").status, VideoStatus::Processing);
}

#[test]
fn failed_upload_cleans_up_and_answers_500() {
    let mut db = DbService::new();
    let mut run = claimed("abc-123.mp4", &mut db);
    match run.step(PipelineEvent::Succeeded) {
        PipelineAction::Convert(_, _) => {},
        _ => panic!("expected the conversion request"),
    }
    match run.step(PipelineEvent::Succeeded) {
        PipelineAction::Upload(_) => {},
        _ => panic!("expected the upload request"),
    }
    match run.step(PipelineEvent::Failed) {
        PipelineAction::Cleanup(_, _) => {},
        _ => panic!("expected compensation"),
    }
    match run.step(PipelineEvent::CleanedUp) {
        PipelineAction::Respond(rep) => {
            assert_eq!(rep.code, 500);
            assert_eq!(rep.body, "Failed to upload processed video.");
        },
        _ => panic!("expected the answer"),
    }
}

#[test]
fn failed_commit_cleans_up_and_answers_500() {
    let mut db = DbService::new();
    let mut run = claimed("abc-123.mp4", &mut db);
    match run.step(PipelineEvent::Succeeded) {
        PipelineAction::Convert(_, _) => {},
        _ => panic!("expected the conversion request"),
    }
    match run.step(PipelineEvent::Succeeded) {
        PipelineAction::Upload(_) => {},
        _ => panic!("expected the upload request"),
    }
    match run.step(PipelineEvent::Succeeded) {
        PipelineAction::WriteRecord(v) => assert_eq!(v.status, VideoStatus::Processed),
        _ => panic!("expected the commit write"),
    }
    match run.step(PipelineEvent::Failed) {
        PipelineAction::Cleanup(_, _) => {},
        _ => panic!("expected compensation"),
    }
    match run.step(PipelineEvent::CleanedUp) {
        PipelineAction::Respond(rep) => {
            assert_eq!(rep.code, 500);
            assert_eq!(rep.body, "Failed to update video document.");
        },
        _ => panic!("expected the answer"),
    }
}

#[test]
fn malformed_payloads_answer_400_before_any_work() {
    let bad_base64 = PipelineRun::start("!!!").unwrap_err();
    assert_eq!(bad_base64.code, 400);
    assert_eq!(bad_base64.body, "Bad Request: Invalid base64.");

    let bad_utf8 = base64::engine::general_purpose::STANDARD.encode([0xffu8, 0xfe]);
    let rep = PipelineRun::start(&bad_utf8).unwrap_err();
    assert_eq!(rep.code, 400);
    assert_eq!(rep.body, "Bad Request: Invalid UTF-8.");

    let bad_json = base64::engine::general_purpose::STANDARD.encode(b"no json here");
    let rep = PipelineRun::start(&bad_json).unwrap_err();
    assert_eq!(rep.code, 400);
    assert_eq!(rep.body, "Bad Request: Invalid JSON.");

    let no_name = base64::engine::general_purpose::STANDARD.encode(b"{\"other\":true}");
    let rep = PipelineRun::start(&no_name).unwrap_err();
    assert_eq!(rep.code, 400);
    assert_eq!(rep.body, "Bad Request: Missing filename.");

    let bad_name = envelope("no_separators_here");
    let rep = PipelineRun::start(&bad_name).unwrap_err();
    assert_eq!(rep.code, 400);
    assert_eq!(rep.body, "Invalid filename format.");
}

#[test]
fn accepts_matches_the_awaited_event() {
    let run = started("abc-123.mp4");
    assert!(run.accepts(&PipelineEvent::Fetched(Video::default())));
    assert!(!run.accepts(&PipelineEvent::Succeeded));
    assert!(!run.accepts(&PipelineEvent::CleanedUp));
}
