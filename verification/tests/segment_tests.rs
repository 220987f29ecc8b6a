use open_download_manager::config::Config;
use open_download_manager::metadata::SegmentMetadata;
use open_download_manager::segment::{
    accept_status, buffer_step, exhausted_message, next_move, range_header, user_agent,
    BufferStep, DownloadSegment, NextMove,
};

fn segment_for(start: u64, end: u64, etag: Option<&str>) -> DownloadSegment {
    let meta = SegmentMetadata {
        segment_id: 1,
        start,
        end,
        downloaded: 0,
        part_path: "out.bin.part1".to_string(),
    };
    let config = Config {
        timeout_secs: 10,
        max_retries: 2,
        num_threads: 4,
        default_output_path: String::new(),
    };
    DownloadSegment::new(
        "https://ash-speed.hetzner.com/1GB.bin".to_string(),
        meta,
        &config,
        etag.map(|e| e.to_string()),
    )
}

#[test]
fn range_header_is_inclusive() {
    assert_eq!(range_header(33, 65), "bytes=33-65");
    assert_eq!(range_header(0, 0), "bytes=0-0");
}

#[test]
fn fresh_segment_requests_whole_range() {
    let seg = segment_for(33, 65, None);
    let req = seg.plan_request(0).unwrap();
    assert_eq!(req.resume_start, 33);
    assert_eq!(req.end, 65);
    assert_eq!(req.range_header, "bytes=33-65");
    assert!(req.if_range.is_none());
}

#[test]
fn partial_part_file_resumes_at_first_missing_byte() {
    let seg = segment_for(33, 65, None);
    let req = seg.plan_request(10).unwrap();
    assert_eq!(req.resume_start, 43);
    assert_eq!(req.range_header, "bytes=43-65");
}

#[test]
fn complete_part_file_needs_no_request() {
    let seg = segment_for(33, 65, None);
    assert!(seg.plan_request(33).is_none());
    assert!(seg.plan_request(40).is_none());
}

#[test]
fn known_validator_rides_along_as_if_range() {
    let seg = segment_for(0, 99, Some("\"abc\""));
    let req = seg.plan_request(0).unwrap();
    assert_eq!(req.if_range.as_deref(), Some("\"abc\""));
}

#[test]
fn accepts_2xx_and_partial_content_only() {
    assert!(accept_status(200));
    assert!(accept_status(206));
    assert!(accept_status(299));
    assert!(!accept_status(199));
    assert!(!accept_status(300));
    assert!(!accept_status(404));
    assert!(!accept_status(503));
}

#[test]
fn rejected_attempt_retries_until_budget_spent() {
    assert!(matches!(next_move(1, 2, false), NextMove::RetryAgain));
    assert!(matches!(next_move(2, 2, false), NextMove::GiveUp));
}

#[test]
fn accepted_attempt_streams() {
    assert!(matches!(next_move(1, 2, true), NextMove::Stream));
    assert!(matches!(next_move(2, 2, true), NextMove::Stream));
}

#[test]
fn server_returning_503_then_206_succeeds_within_two_attempts() {
    let statuses = [503u16, 206u16];
    let max_retries = 2u8;
    let mut streamed = false;
    for (i, status) in statuses.iter().enumerate() {
        let attempt = (i + 1) as u8;
        match next_move(attempt, max_retries, accept_status(*status)) {
            NextMove::Stream => {
                streamed = true;
                break;
            }
            NextMove::RetryAgain => continue,
            NextMove::GiveUp => break,
        }
    }
    assert!(streamed);
}

#[test]
fn pause_is_observed_before_anything_else() {
    assert!(matches!(buffer_step(true, 8192), BufferStep::Stop));
    assert!(matches!(buffer_step(true, 0), BufferStep::Stop));
    assert!(matches!(buffer_step(false, 0), BufferStep::Finish));
    assert!(matches!(buffer_step(false, 8192), BufferStep::Write));
}

#[test]
fn exhausted_report_names_segment_and_budget() {
    assert_eq!(exhausted_message(2, 3), "Segment 2 failed after 3 attempts");
}

#[test]
fn user_agent_is_fixed() {
    assert_eq!(user_agent(), "OpenDownloadManager/0.1");
}
