use open_download_manager::engine::{build_metadata, tracker_for, HeadProbe, ProbeDecision};

fn probe(
    accept_ranges: bool,
    content_length: Option<&str>,
) -> HeadProbe {
    HeadProbe {
        accept_ranges,
        content_length: content_length.map(|s| s.to_string()),
        etag: None,
        last_modified: None,
    }
}

#[test]
fn missing_accept_ranges_falls_back_to_single_stream() {
    let d = probe(false, Some("100")).decide();
    assert!(matches!(d, ProbeDecision::Fallback));
}

#[test]
fn missing_content_length_falls_back_to_single_stream() {
    let d = probe(true, None).decide();
    assert!(matches!(d, ProbeDecision::Fallback));
}

#[test]
fn numeric_length_with_ranges_is_segmentable() {
    let d = probe(true, Some("100")).decide();
    assert!(matches!(d, ProbeDecision::Segmented(100)));
}

#[test]
fn unreadable_length_is_an_error() {
    let d = probe(true, Some("10 bytes")).decide();
    assert!(matches!(d, ProbeDecision::BadLength));
}

#[test]
fn default_tracker_is_sized_by_even_share() {
    let m = build_metadata("https://example.test/f", "f.bin", 100, None, None, 3);
    let t = tracker_for(&m);
    assert_eq!(t.segments.len(), 3);
    assert_eq!(t.total_size, 100);
    assert_eq!(t.total_downloaded, 0);
    assert!(t.segments.iter().all(|&(d, total)| d == 0 && total == 33));
}
