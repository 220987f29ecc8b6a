use open_download_manager::json::to_json;
use open_download_manager::metadata::{DownloadMetadata, SegmentMetadata};

fn sample() -> DownloadMetadata {
    DownloadMetadata {
        url: "http://x/y".to_string(),
        output_path: "o.bin".to_string(),
        total_size: 10,
        etag: Some("\"e\"".to_string()),
        last_modified: None,
        segments: vec![SegmentMetadata {
            segment_id: 0,
            start: 0,
            end: 9,
            downloaded: 0,
            part_path: "o.bin.part0".to_string(),
        }],
    }
}

#[test]
fn renders_the_documented_format() {
    let expected = "{\n  \"url\": \"http://x/y\",\n  \"output_path\": \"o.bin\",\n  \"total_size\": 10,\n  \"etag\": \"\\\"e\\\"\",\n  \"last_modified\": null,\n  \"segments\": [\n    {\n      \"segment_id\": 0,\n      \"start\": 0,\n      \"end\": 9,\n      \"downloaded\": 0,\n      \"part_path\": \"o.bin.part0\"\n    }\n  ]\n}";
    assert_eq!(to_json(&sample()), expected);
}

#[test]
fn joins_segments_with_commas() {
    let mut m = sample();
    m.segments.push(SegmentMetadata {
        segment_id: 1,
        start: 10,
        end: 19,
        downloaded: 3,
        part_path: "o.bin.part1".to_string(),
    });
    m.total_size = 20;
    let doc = to_json(&m);
    assert!(doc.contains("    },\n    {\n"));
    assert!(doc.contains("\"downloaded\": 3"));
}

#[test]
fn escapes_strings() {
    let mut m = sample();
    m.url = "a\"b\\c\nd\te\u{1}f".to_string();
    m.etag = None;
    let doc = to_json(&m);
    assert!(doc.contains("\"url\": \"a\\\"b\\\\c\\nd\\te\\u0001f\""));
    assert!(doc.contains("\"etag\": null"));
}

#[test]
fn the_document_parses_as_json() {
    let doc = to_json(&sample());
    let v: serde_json::Value = serde_json::from_str(&doc).unwrap();
    assert_eq!(v["url"], "http://x/y");
    assert_eq!(v["total_size"], 10);
    assert_eq!(v["etag"], "\"e\"");
    assert!(v["last_modified"].is_null());
    assert_eq!(v["segments"][0]["part_path"], "o.bin.part0");
    assert_eq!(v["segments"][0]["end"], 9);
}
