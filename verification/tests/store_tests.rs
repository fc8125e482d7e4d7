use resume_analyzer::record::AnalysisRecord;
use resume_analyzer::store::AnalysisStore;

fn sample(analysis_id: &str, score: i32) -> AnalysisRecord {
    AnalysisRecord {
        score,
        improvements: vec!["Add a skills section".to_string()],
        created_at: "2024-01-01T00:00:00+00:00".to_string(),
        analysis_id: analysis_id.to_string(),
    }
}

#[test]
fn record_then_history_round_trips() {
    let mut store = AnalysisStore::new();
    store.record("alice", sample("r1", 40));
    let history = store.history("alice");
    assert_eq!(history.len(), 1);
    assert_eq!(history[0].analysis_id, "r1");
    assert_eq!(history[0].score, 40);
    assert_eq!(history[0].improvements, vec!["Add a skills section".to_string()]);
    assert_eq!(history[0].created_at, "2024-01-01T00:00:00+00:00");
}

#[test]
fn histories_keep_insertion_order() {
    let mut store = AnalysisStore::new();
    store.record("alice", sample("r1", 10));
    store.record("alice", sample("r2", 20));
    store.record("alice", sample("r3", 30));
    let history = store.history("alice");
    assert_eq!(history.len(), 3);
    assert_eq!(history[0].analysis_id, "r1");
    assert_eq!(history[1].analysis_id, "r2");
    assert_eq!(history[2].analysis_id, "r3");
    assert_eq!(history.last().unwrap().score, 30);
}

#[test]
fn users_are_isolated() {
    let mut store = AnalysisStore::new();
    store.record("alice", sample("r1", 10));
    store.record("bob", sample("r2", 20));
    let bob = store.history("bob");
    assert_eq!(bob.len(), 1);
    assert_eq!(bob[0].analysis_id, "r2");
    assert!(!bob.iter().any(|r| r.analysis_id == "r1"));
    let alice = store.history("alice");
    assert_eq!(alice.len(), 1);
    assert_eq!(alice[0].analysis_id, "r1");
}

#[test]
fn unknown_user_has_empty_history() {
    let store = AnalysisStore::new();
    assert!(store.history("nobody").is_empty());
}

#[test]
fn find_by_id_scans_all_users() {
    let mut store = AnalysisStore::new();
    store.record("alice", sample("r1", 10));
    store.record("bob", sample("r2", 20));
    let found = store.find_by_id("r2").unwrap();
    assert_eq!(found.analysis_id, "r2");
    assert_eq!(found.score, 20);
    let first = store.find_by_id("r1").unwrap();
    assert_eq!(first.analysis_id, "r1");
}

#[test]
fn find_by_id_on_unknown_identifier_returns_none() {
    let mut store = AnalysisStore::new();
    assert!(store.find_by_id("missing").is_none());
    store.record("alice", sample("r1", 10));
    assert!(store.find_by_id("r9").is_none());
}

#[test]
fn lookup_substitutes_the_sentinel() {
    let mut store = AnalysisStore::new();
    store.record("alice", sample("r1", 10));
    let sentinel = store.analysis_for("never-recorded");
    assert_eq!(sentinel.score, 0);
    assert_eq!(sentinel.improvements, vec!["No analysis available".to_string()]);
    assert_eq!(sentinel.analysis_id, "never-recorded");
    let real = store.analysis_for("r1");
    assert_eq!(real.analysis_id, "r1");
    assert_eq!(real.score, 10);
}
