use open_download_manager::engine::build_metadata;
use open_download_manager::plan::{part_path, plan_segments};

#[test]
fn partition_edge_total_100_threads_3() {
    let segs = plan_segments(100, 3, "out.bin");
    assert_eq!(segs.len(), 3);
    assert_eq!((segs[0].start, segs[0].end), (0, 32));
    assert_eq!((segs[1].start, segs[1].end), (33, 65));
    assert_eq!((segs[2].start, segs[2].end), (66, 99));
}

#[test]
fn partition_exact_division() {
    let segs = plan_segments(100, 4, "out.bin");
    assert_eq!(segs.len(), 4);
    assert_eq!((segs[0].start, segs[0].end), (0, 24));
    assert_eq!((segs[1].start, segs[1].end), (25, 49));
    assert_eq!((segs[2].start, segs[2].end), (50, 74));
    assert_eq!((segs[3].start, segs[3].end), (75, 99));
}

#[test]
fn partition_single_thread() {
    let segs = plan_segments(10, 1, "out.bin");
    assert_eq!(segs.len(), 1);
    assert_eq!((segs[0].start, segs[0].end), (0, 9));
}

#[test]
fn partition_covers_contiguously() {
    let segs = plan_segments(1_000_003, 7, "big.dat");
    assert_eq!(segs[0].start, 0);
    for w in segs.windows(2) {
        assert_eq!(w[1].start, w[0].end + 1);
    }
    assert_eq!(segs.last().unwrap().end, 1_000_002);
    let covered: u64 = segs.iter().map(|s| s.end - s.start + 1).sum();
    assert_eq!(covered, 1_000_003);
}

#[test]
fn segments_start_with_nothing_downloaded() {
    let segs = plan_segments(100, 3, "out.bin");
    for (i, s) in segs.iter().enumerate() {
        assert_eq!(s.segment_id, i);
        assert_eq!(s.downloaded, 0);
    }
}

#[test]
fn part_files_are_named_by_segment() {
    let segs = plan_segments(100, 3, "test_download.bin");
    assert_eq!(segs[0].part_path, "test_download.bin.part0");
    assert_eq!(segs[1].part_path, "test_download.bin.part1");
    assert_eq!(segs[2].part_path, "test_download.bin.part2");
    assert_eq!(part_path("test_download.bin", 3), "test_download.bin.part3");
}

#[test]
fn part_paths_are_unique() {
    let segs = plan_segments(5000, 12, "a");
    for i in 0..segs.len() {
        for j in 0..segs.len() {
            if i != j {
                assert_ne!(segs[i].part_path, segs[j].part_path);
            }
        }
    }
}

#[test]
fn partition_handles_the_largest_size() {
    let segs = plan_segments(u64::MAX, 3, "huge.bin");
    assert_eq!(segs[0].start, 0);
    assert_eq!(segs[1].start, segs[0].end + 1);
    assert_eq!(segs[2].start, segs[1].end + 1);
    assert_eq!(segs[2].end, u64::MAX - 1);
}

#[test]
fn partition_one_byte_per_thread() {
    let segs = plan_segments(4, 4, "tiny.bin");
    for (i, s) in segs.iter().enumerate() {
        assert_eq!((s.start, s.end), (i as u64, i as u64));
    }
}

#[test]
fn well_formed_plans_pass_the_check() {
    let m = build_metadata("https://example.test/f", "f.bin", 100, None, None, 3);
    assert!(m.check_wf());
}

#[test]
fn inconsistent_plans_fail_the_check() {
    let mut m = build_metadata("https://example.test/f", "f.bin", 100, None, None, 3);
    m.total_size = 99;
    assert!(!m.check_wf());

    let mut m = build_metadata("https://example.test/f", "f.bin", 100, None, None, 3);
    m.segments[1].start = 40;
    assert!(!m.check_wf());

    let mut m = build_metadata("https://example.test/f", "f.bin", 100, None, None, 3);
    m.segments[1].end = 20;
    assert!(!m.check_wf());

    let mut m = build_metadata("https://example.test/f", "f.bin", 100, None, None, 3);
    m.segments[2].segment_id = 7;
    assert!(!m.check_wf());

    let mut m = build_metadata("https://example.test/f", "f.bin", 100, None, None, 3);
    m.segments.clear();
    assert!(!m.check_wf());
}

#[test]
fn metadata_carries_plan_and_validators() {
    let m = build_metadata(
        "https://ash-speed.hetzner.com/1GB.bin",
        "test_download.bin",
        100,
        Some("\"abc\"".to_string()),
        Some("Mon, 01 Jan 2024 00:00:00 GMT".to_string()),
        3,
    );
    assert_eq!(m.url, "https://ash-speed.hetzner.com/1GB.bin");
    assert_eq!(m.output_path, "test_download.bin");
    assert_eq!(m.total_size, 100);
    assert_eq!(m.etag.as_deref(), Some("\"abc\""));
    assert_eq!(m.last_modified.as_deref(), Some("Mon, 01 Jan 2024 00:00:00 GMT"));
    assert_eq!(m.segments.len(), 3);
    assert_eq!(m.segments[2].end, 99);
}
