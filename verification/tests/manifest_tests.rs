use vod_pipeline::manifest::build;
use vod_pipeline::planner::{Rendition, RenditionStatus};

fn segmented(name: &str, bandwidth_bits: u64) -> Rendition {
    Rendition {
        name: name.to_string(),
        quality: 0,
        bandwidth_bits,
        status: RenditionStatus::Segmented,
        video_path: None,
        stream_manifest_path: None,
        segment_paths: Vec::new(),
    }
}

#[test]
fn builds_three_rendition_manifest_in_declared_order() {
    let rs = vec![
        segmented("high", 5000000),
        segmented("mid", 3000000),
        segmented("low", 1500000),
    ];
    let text = build(&rs);
    assert_eq!(
        text,
        "#EXTM3U\n\
         #EXT-X-STREAM-INF:BANDWIDTH=5000000\nhigh.m3u8\n\
         #EXT-X-STREAM-INF:BANDWIDTH=3000000\nmid.m3u8\n\
         #EXT-X-STREAM-INF:BANDWIDTH=1500000\nlow.m3u8\n"
    );
}

#[test]
fn one_stream_line_per_rendition_each_preceded_by_bandwidth() {
    let rs = vec![
        segmented("high", 5000000),
        segmented("mid", 3000000),
        segmented("low", 1500000),
    ];
    let text = build(&rs);
    let lines: Vec<&str> = text.lines().collect();
    assert_eq!(lines.len(), 1 + 2 * rs.len());
    assert_eq!(lines[0], "#EXTM3U");
    for (k, r) in rs.iter().enumerate() {
        assert_eq!(
            lines[1 + 2 * k],
            format!("#EXT-X-STREAM-INF:BANDWIDTH={}", r.bandwidth_bits)
        );
        assert_eq!(lines[2 + 2 * k], format!("{}.m3u8", r.name));
    }
    assert_eq!(text.matches('\n').count(), 1 + 2 * rs.len());
}

#[test]
fn building_twice_gives_byte_identical_output() {
    let rs = vec![segmented("high", 800000), segmented("low", 200000)];
    let first = build(&rs);
    let second = build(&rs);
    assert_eq!(first, second);
}

#[test]
fn empty_rendition_set_gives_header_only() {
    let rs: Vec<Rendition> = Vec::new();
    assert_eq!(build(&rs), "#EXTM3U\n");
}

#[test]
fn single_rendition_manifest() {
    let rs = vec![segmented("only", 42)];
    assert_eq!(
        build(&rs),
        "#EXTM3U\n#EXT-X-STREAM-INF:BANDWIDTH=42\nonly.m3u8\n"
    );
}
