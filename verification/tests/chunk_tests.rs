use video_prep::chunks::calculate_chunks_for_duration;

#[test]
fn returns_single_chunk_when_video_shorter_than_chunk_duration() {
    let chunks =
        calculate_chunks_for_duration(125_000, 20).expect("chunk calculation should succeed");
    assert_eq!(chunks.len(), 1);
    assert_eq!(chunks[0].chunk_number, 1);
    assert_eq!(chunks[0].duration_ms, 125_000);
    assert_eq!(chunks[0].start_time_ms, 0);
    assert_eq!(chunks[0].end_time_ms, 125_000);
}

#[test]
fn returns_exact_chunks_when_duration_is_divisible() {
    let chunks =
        calculate_chunks_for_duration(1_200_000, 10).expect("chunk calculation should succeed");
    assert_eq!(chunks.len(), 2);
    assert_eq!(chunks[0].duration_ms, 600_000);
    assert_eq!(chunks[1].duration_ms, 600_000);
    assert_eq!(chunks[1].start_time_ms, 600_000);
}

#[test]
fn makes_last_chunk_shorter_when_needed() {
    let chunks =
        calculate_chunks_for_duration(1_500_000, 10).expect("chunk calculation should succeed");
    assert_eq!(chunks.len(), 3);
    assert_eq!(chunks[2].duration_ms, 300_000);
    assert_eq!(chunks[2].start_time_ms, 1_200_000);
    assert_eq!(chunks[2].end_time_ms, 1_500_000);
}

#[test]
fn plan_is_gapless_and_counts_match_ceiling() {
    let duration: u64 = 1_234_567;
    let minutes: u32 = 7;
    let size_ms: u64 = 7 * 60_000;
    let chunks = calculate_chunks_for_duration(duration, minutes).expect("plan should succeed");
    let expected_count = (duration + size_ms - 1) / size_ms;
    assert_eq!(chunks.len() as u64, expected_count);
    assert_eq!(chunks[0].start_time_ms, 0);
    for (i, c) in chunks.iter().enumerate() {
        assert_eq!(c.chunk_number as usize, i + 1);
        assert_eq!(c.end_time_ms, c.start_time_ms + c.duration_ms);
        assert!(c.duration_ms > 0 && c.duration_ms <= size_ms);
        if i + 1 < chunks.len() {
            assert_eq!(chunks[i + 1].start_time_ms, c.end_time_ms);
            assert_eq!(c.duration_ms, size_ms);
        }
    }
    assert_eq!(chunks.last().unwrap().end_time_ms, duration);
}

#[test]
fn rejects_zero_duration() {
    let err = calculate_chunks_for_duration(0, 20).unwrap_err();
    assert_eq!(err, "Duration must be a positive number of seconds.");
}

#[test]
fn rejects_chunk_size_below_range() {
    let err = calculate_chunks_for_duration(1_000_000, 4).unwrap_err();
    assert_eq!(err, "Chunk duration must be between 5 and 60 minutes.");
}

#[test]
fn rejects_chunk_size_above_range() {
    let err = calculate_chunks_for_duration(1_000_000, 61).unwrap_err();
    assert_eq!(err, "Chunk duration must be between 5 and 60 minutes.");
}

#[test]
fn accepts_chunk_size_bounds() {
    assert!(calculate_chunks_for_duration(1_000_000, 5).is_ok());
    assert!(calculate_chunks_for_duration(1_000_000, 60).is_ok());
}
