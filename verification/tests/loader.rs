use std::path::PathBuf;
use step_viewer_core::loader::{LoadEvent, LoadSession, LoadStatus};

type Session = LoadSession<String, &'static str, u32>;

fn started(path: &str) -> Session {
    let mut s: Session = LoadSession::new(Some(path.to_string()));
    assert!(s.start_pending_load());
    s
}

#[test]
fn start_opens_a_job_and_forgets_the_previous_model() {
    let mut s: Session = LoadSession::new(None);
    assert!(!s.start_pending_load());
    s.loaded_path = Some("old.step".to_string());
    s.error = Some("boom".to_string());
    s.metadata = Some("meta");
    s.scene = Some(vec![1]);
    s.open_file("a.step".to_string());
    assert!(s.start_pending_load());
    assert_eq!(s.pending_path, None);
    assert_eq!(s.loaded_path, None);
    assert_eq!(s.error, None);
    assert_eq!(s.metadata, None);
    assert_eq!(s.scene, None);
    let job = s.job.as_ref().unwrap();
    assert_eq!((job.path.as_str(), job.current_shell, job.total_shells), ("a.step", 0, 0));
    assert_eq!(s.job_path(), Some(&"a.step".to_string()));
}

#[test]
fn events_update_progress_and_collect_shells() {
    let mut s = started("a.step");
    let status = s.handle_events(vec![
        LoadEvent::Metadata("header"),
        LoadEvent::TotalShells(3),
        LoadEvent::Progress(1, 3),
        LoadEvent::Shell(10),
        LoadEvent::Shell(11),
    ]);
    assert_eq!(status, LoadStatus::Loading);
    assert_eq!(s.metadata, Some("header"));
    let job = s.job.as_ref().unwrap();
    assert_eq!((job.current_shell, job.total_shells), (1, 3));
    assert_eq!(s.scene, Some(vec![10, 11]));
}

#[test]
fn done_finishes_and_drops_later_events() {
    let mut s = started("a.step");
    let status = s.handle_events(vec![LoadEvent::Shell(1), LoadEvent::Done, LoadEvent::Shell(2)]);
    assert_eq!(status, LoadStatus::Finished);
    assert!(s.job.is_none());
    assert_eq!(s.loaded_path, Some("a.step".to_string()));
    assert_eq!(s.scene, Some(vec![1]));
    assert_eq!(s.handle_events(vec![LoadEvent::Shell(3)]), LoadStatus::Idle);
    assert_eq!(s.scene, Some(vec![1]));
}

#[test]
fn error_fails_the_load() {
    let mut s = started("a.step");
    let status = s.handle_events(vec![
        LoadEvent::TotalShells(2),
        LoadEvent::Error("bad file".to_string()),
        LoadEvent::Done,
    ]);
    assert_eq!(status, LoadStatus::Failed);
    assert_eq!(s.error, Some("bad file".to_string()));
    assert!(s.job.is_none());
    assert_eq!(s.loaded_path, None);
}

#[test]
fn batches_give_the_same_result_as_one_batch() {
    let events = || vec![LoadEvent::TotalShells(2), LoadEvent::Shell(4), LoadEvent::Shell(5), LoadEvent::Done];
    let mut a = started("a.step");
    let all = a.handle_events(events());
    let mut b = started("a.step");
    let mut rest = events();
    let tail = rest.split_off(2);
    assert_eq!(b.handle_events(rest), LoadStatus::Loading);
    let last = b.handle_events(tail);
    assert_eq!(all, last);
    assert_eq!(a.scene, b.scene);
    assert_eq!(a.loaded_path, b.loaded_path);
}

#[test]
fn reload_only_when_idle_and_quality_changed() {
    let path = PathBuf::from("models/a.step");
    let mut s: LoadSession<PathBuf, &'static str, u32> = LoadSession::new(Some(path.clone()));
    assert!(s.start_pending_load());
    s.request_reload(false, true); // still loading
    assert_eq!(s.pending_path, None);
    s.handle_events(vec![LoadEvent::Done]);
    assert_eq!(s.loaded_path, Some(path.clone()));
    s.request_reload(true, true); // slider being dragged
    assert_eq!(s.pending_path, None);
    s.request_reload(false, false); // same quality
    assert_eq!(s.pending_path, None);
    s.request_reload(false, true);
    assert_eq!(s.pending_path, Some(path.clone()));
    assert_eq!(s.loaded_path, Some(path));
}

#[test]
fn reload_without_a_loaded_file_does_nothing() {
    let mut s: LoadSession<PathBuf, &'static str, u32> = LoadSession::new(None);
    s.request_reload(false, true);
    assert_eq!(s.pending_path, None);
    assert_eq!(s.loaded_path, None);
}
