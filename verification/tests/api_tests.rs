use resume_analyzer::api::{hello_message, login_user_id, process_upload, UploadError};
use resume_analyzer::ids::resume_id_for;
use resume_analyzer::store::AnalysisStore;

#[test]
fn login_prefixes_the_name() {
    assert_eq!(login_user_id("alice"), "user_alice");
    assert_eq!(login_user_id(""), "user_");
}

#[test]
fn hello_greets() {
    assert_eq!(hello_message(), "Hello from Rust Backend!");
}

#[test]
fn resume_ids_render_the_timestamp() {
    assert_eq!(resume_id_for(0), "resume_0");
    assert_eq!(resume_id_for(9), "resume_9");
    assert_eq!(resume_id_for(10), "resume_10");
    assert_eq!(resume_id_for(1700000000123), "resume_1700000000123");
    assert_eq!(resume_id_for(-5), "resume_-5");
    assert_eq!(resume_id_for(i64::MIN), "resume_-9223372036854775808");
    assert_eq!(resume_id_for(i64::MAX), "resume_9223372036854775807");
}

#[test]
fn upload_without_user_or_text_is_rejected() {
    let mut store = AnalysisStore::new();
    let no_user = process_upload(&mut store, "", "education");
    assert!(matches!(no_user, Err(UploadError::MissingInput)));
    let no_text = process_upload(&mut store, "user_alice", "");
    assert!(matches!(no_text, Err(UploadError::MissingInput)));
    assert!(store.history("user_alice").is_empty());
    assert_eq!(
        UploadError::MissingInput.message(),
        "No file uploaded or missing user ID"
    );
}

#[test]
fn upload_scores_and_records() {
    let mut store = AnalysisStore::new();
    let rec = process_upload(
        &mut store,
        "user_alice",
        "education: degree from university, GPA 3.8",
    )
    .unwrap();
    assert_eq!(rec.score, 16);
    assert!(rec.analysis_id.starts_with("resume_"));
    let history = store.history("user_alice");
    assert_eq!(history.len(), 1);
    assert_eq!(history[0].analysis_id, rec.analysis_id);
    assert_eq!(history[0].score, 16);
    assert_eq!(history[0].improvements, rec.improvements);
    let looked_up = store.analysis_for(&rec.analysis_id);
    assert_eq!(looked_up.score, 16);
}
