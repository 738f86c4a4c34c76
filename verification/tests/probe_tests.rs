use video_prep::json::probe_video_properties;
use video_prep::probe::interpret_probe;
use video_prep::probe::parse_duration;
use video_prep::probe::ProbeFormat;
use video_prep::probe::ProbeStream;

#[test]
fn parses_whole_and_fractional_durations() {
    assert_eq!(parse_duration(Some("125.5".to_string())).unwrap(), 125_500);
    assert_eq!(parse_duration(Some("125".to_string())).unwrap(), 125_000);
    assert_eq!(parse_duration(Some("5.".to_string())).unwrap(), 5_000);
    assert_eq!(parse_duration(Some(".5".to_string())).unwrap(), 500);
    assert_eq!(parse_duration(Some("0.123456".to_string())).unwrap(), 123);
}

#[test]
fn rejects_missing_or_bad_durations() {
    assert_eq!(
        parse_duration(None).unwrap_err(),
        "Video duration was not found in ffprobe output."
    );
    assert_eq!(
        parse_duration(Some("abc".to_string())).unwrap_err(),
        "Invalid video duration returned by ffprobe: abc"
    );
    assert_eq!(
        parse_duration(Some("-5".to_string())).unwrap_err(),
        "Invalid video duration returned by ffprobe: -5"
    );
    assert_eq!(
        parse_duration(Some("1e3".to_string())).unwrap_err(),
        "Invalid video duration returned by ffprobe: 1e3"
    );
    assert_eq!(
        parse_duration(Some(".".to_string())).unwrap_err(),
        "Invalid video duration returned by ffprobe: ."
    );
    assert_eq!(
        parse_duration(Some("0".to_string())).unwrap_err(),
        "Video duration is invalid or zero."
    );
    assert_eq!(
        parse_duration(Some("0.000".to_string())).unwrap_err(),
        "Video duration is invalid or zero."
    );
}

fn stream(codec_type: Option<&str>, codec_name: Option<&str>, dims: Option<(u32, u32)>) -> ProbeStream {
    ProbeStream {
        codec_type: codec_type.map(str::to_string),
        codec_name: codec_name.map(str::to_string),
        width: dims.map(|d| d.0),
        height: dims.map(|d| d.1),
    }
}

#[test]
fn first_video_stream_wins_over_audio() {
    let format = Some(ProbeFormat {
        duration: Some("10".to_string()),
        format_name: Some("matroska".to_string()),
    });
    let streams = vec![
        stream(Some("audio"), Some("aac"), None),
        stream(Some("video"), Some("h264"), Some((1920, 1080))),
        stream(Some("video"), Some("vp9"), Some((640, 480))),
    ];
    let p = interpret_probe(format, Some(streams)).expect("interpretation should succeed");
    assert_eq!(p.duration_ms, 10_000);
    assert_eq!(p.format_name, "matroska");
    assert_eq!(p.codec_name, "h264");
    assert_eq!(p.width, Some(1920));
    assert_eq!(p.height, Some(1080));
}

#[test]
fn missing_stream_fields_default_to_unknown() {
    let format = Some(ProbeFormat { duration: Some("10".to_string()), format_name: None });
    let streams = vec![stream(Some("video"), None, Some((320, 200)))];
    let p = interpret_probe(format, Some(streams)).expect("interpretation should succeed");
    assert_eq!(p.format_name, "unknown");
    assert_eq!(p.codec_name, "unknown");
    assert_eq!(p.width, Some(320));
    assert_eq!(p.height, Some(200));
}

#[test]
fn no_video_stream_yields_unknown_codec() {
    let format = Some(ProbeFormat { duration: Some("10".to_string()), format_name: None });
    let streams = vec![stream(Some("audio"), Some("aac"), None), stream(None, None, None)];
    let p = interpret_probe(format, Some(streams)).expect("interpretation should succeed");
    assert_eq!(p.codec_name, "unknown");
    assert_eq!(p.width, None);
    assert_eq!(p.height, None);
}

#[test]
fn missing_format_object_is_a_missing_duration() {
    let err = interpret_probe(None, None).unwrap_err();
    assert_eq!(err, "Video duration was not found in ffprobe output.");
}

#[test]
fn probe_document_without_streams_defaults() {
    let doc = r#"{"format":{"duration":"125.5","format_name":"mp4"}}"#;
    let p = probe_video_properties(doc).expect("probe interpretation should succeed");
    assert_eq!(p.duration_ms, 125_500);
    assert_eq!(p.format_name, "mp4");
    assert_eq!(p.codec_name, "unknown");
    assert_eq!(p.width, None);
    assert_eq!(p.height, None);
}

#[test]
fn probe_document_with_audio_then_video() {
    let doc = r#"{
        "format": {"duration": "1500", "format_name": "mov,mp4,m4a"},
        "streams": [
            {"codec_type": "audio", "codec_name": "aac"},
            {"codec_type": "video", "codec_name": "h264", "width": 1280, "height": 720},
            {"codec_type": "video", "codec_name": "hevc", "width": 100, "height": 100}
        ]
    }"#;
    let p = probe_video_properties(doc).expect("probe interpretation should succeed");
    assert_eq!(p.duration_ms, 1_500_000);
    assert_eq!(p.format_name, "mov,mp4,m4a");
    assert_eq!(p.codec_name, "h264");
    assert_eq!(p.width, Some(1280));
    assert_eq!(p.height, Some(720));
}

#[test]
fn probe_document_with_zero_duration_fails() {
    let doc = r#"{"format":{"duration":"0"}}"#;
    let err = probe_video_properties(doc).unwrap_err();
    assert_eq!(err, "Video duration is invalid or zero.");
}

#[test]
fn probe_document_with_negative_duration_fails() {
    let doc = r#"{"format":{"duration":"-3.5"}}"#;
    let err = probe_video_properties(doc).unwrap_err();
    assert_eq!(err, "Invalid video duration returned by ffprobe: -3.5");
}

#[test]
fn probe_document_with_non_numeric_duration_fails() {
    let doc = r#"{"format":{"duration":"soon"}}"#;
    let err = probe_video_properties(doc).unwrap_err();
    assert_eq!(err, "Invalid video duration returned by ffprobe: soon");
}

#[test]
fn malformed_probe_document_fails_with_parse_error() {
    let err = probe_video_properties("{not json").unwrap_err();
    assert!(err.starts_with("Failed to parse ffprobe output: "));
    assert!(err.len() > "Failed to parse ffprobe output: ".len());
}

#[test]
fn oversized_width_is_dropped_not_fatal() {
    let doc = r#"{
        "format": {"duration": "10"},
        "streams": [{"codec_type": "video", "codec_name": "h264", "width": 4294967296, "height": 720}]
    }"#;
    let p = probe_video_properties(doc).expect("probe interpretation should succeed");
    assert_eq!(p.codec_name, "h264");
    assert_eq!(p.width, None);
    assert_eq!(p.height, Some(720));
}
