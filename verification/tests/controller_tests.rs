use open_download_manager::config::Config;
use open_download_manager::controller::DownloadManager;
use open_download_manager::hashing::hash_url;
use open_download_manager::status::DownloadStatus;

fn test_url() -> &'static str {
    "https://ash-speed.hetzner.com/1GB.bin"
}

fn test_output_path() -> &'static str {
    "test_download.bin"
}

fn manager() -> DownloadManager {
    DownloadManager::new(Config {
        timeout_secs: 10,
        max_retries: 2,
        num_threads: 4,
        default_output_path: String::new(),
    })
}

fn status_of(m: &DownloadManager, id: &str) -> String {
    m.list_downloads()
        .into_iter()
        .find(|(i, _, _)| i == id)
        .map(|(_, _, s)| s)
        .unwrap()
}

#[test]
fn lifecycle_walks_the_state_machine() {
    let mut m = manager();
    let id = m.add_download(test_url().to_string(), test_output_path().to_string());
    assert_eq!(id, hash_url(test_url()));
    assert_eq!(status_of(&m, &id), "Idle");

    assert!(m.mark_downloading(&id));
    assert!(status_of(&m, &id).contains("Downloading"));

    assert!(m.pause(&id));
    assert!(status_of(&m, &id).contains("Paused"));

    assert!(m.resume(&id));
    assert!(m.mark_downloading(&id));
    assert!(status_of(&m, &id).contains("Downloading"));

    assert!(m.cancel(&id));
    assert!(status_of(&m, &id).contains("Canceled"));

    assert!(m.retry(&id));
    assert!(m.mark_downloading(&id));
    assert!(status_of(&m, &id).contains("Downloading"));

    assert!(m.remove(&id));
    assert!(!m.list_downloads().iter().any(|(i, _, _)| i == &id));
    assert!(!m.remove(&id));
}

#[test]
fn same_url_yields_same_id_across_add_cancel_add() {
    let mut m = manager();
    let a = m.add_download(test_url().to_string(), test_output_path().to_string());
    assert!(m.cancel(&a));
    let b = m.add_download(test_url().to_string(), test_output_path().to_string());
    assert_eq!(a, b);
    assert_eq!(m.list_downloads().len(), 1);
}

#[test]
fn unknown_ids_are_refused() {
    let mut m = manager();
    assert!(!m.pause("missing"));
    assert!(!m.resume("missing"));
    assert!(!m.cancel("missing"));
    assert!(!m.retry("missing"));
    assert!(!m.remove("missing"));
    assert!(m.get_progress("missing").is_none());
}

#[test]
fn resume_requires_a_paused_task() {
    let mut m = manager();
    let id = m.add_download(test_url().to_string(), test_output_path().to_string());
    assert!(!m.resume(&id));
    assert!(m.pause(&id));
    assert!(m.resume(&id));
    assert_eq!(status_of(&m, &id), "Idle");
}

#[test]
fn retry_requires_failed_or_canceled() {
    let mut m = manager();
    let id = m.add_download(test_url().to_string(), test_output_path().to_string());
    assert!(!m.retry(&id));
    assert!(m.cancel(&id));
    assert!(m.retry(&id));
}

#[test]
fn engine_reports_completion_and_failure() {
    let mut m = manager();
    let id = m.add_download(test_url().to_string(), test_output_path().to_string());
    assert!(!m.mark_finished(&id, None));
    assert!(m.mark_downloading(&id));
    assert!(m.mark_finished(&id, None));
    assert_eq!(status_of(&m, &id), "Completed");

    assert!(m.retry(&id) == false);
    let id2 = m.add_download(test_url().to_string(), "other.bin".to_string());
    assert_eq!(id, id2);
    assert!(m.mark_downloading(&id2));
    assert!(m.mark_finished(&id2, Some("Segment 2 failed after 2 attempts".to_string())));
    assert_eq!(
        status_of(&m, &id2),
        "Failed (Segment 2 failed after 2 attempts)"
    );
    assert!(m.retry(&id2));
}

#[test]
fn progress_snapshot_reflects_the_tracker() {
    let mut m = manager();
    let id = m.add_download(test_url().to_string(), test_output_path().to_string());
    let p = m.get_progress(&id).unwrap();
    assert_eq!(p.total_downloaded, 0);
    assert_eq!(p.total_size, 0);
    assert_eq!(p.per_segment.len(), 4);
    assert!(p.per_segment.iter().enumerate().all(|(i, &(sid, d, t))| sid == i && d == 0 && t == 0));
}

#[test]
fn adding_an_existing_id_replaces_the_record() {
    let mut m = manager();
    let id = m.add_download(test_url().to_string(), test_output_path().to_string());
    assert!(m.pause(&id));
    let id2 = m.add_download(test_url().to_string(), "elsewhere.bin".to_string());
    assert_eq!(id, id2);
    let list = m.list_downloads();
    assert_eq!(list.len(), 1);
    assert_eq!(status_of(&m, &id), "Idle");
}

#[test]
fn status_labels_render_each_state() {
    assert_eq!(DownloadStatus::Idle.label(), "Idle");
    assert_eq!(DownloadStatus::Downloading.label(), "Downloading");
    assert_eq!(DownloadStatus::Paused.label(), "Paused");
    assert_eq!(DownloadStatus::Completed.label(), "Completed");
    assert_eq!(DownloadStatus::Canceled.label(), "Canceled");
    assert_eq!(DownloadStatus::Retrying.label(), "Retrying");
    assert_eq!(
        DownloadStatus::Failed("connection reset".to_string()).label(),
        "Failed (connection reset)"
    );
}
