//! Chunk planner: partitions a total duration into an ordered, gapless,
//! non-overlapping sequence of bounded time windows.
//!
//! All durations and offsets are in whole milliseconds.

use vstd::prelude::*;

verus! {

/// One bounded time window of a plan. Indices are 1-based and sequential;
/// offsets and durations are in milliseconds.
#[derive(Clone, Debug)]
pub struct ChunkInfo {
    pub chunk_number: u64,
    pub start_time_ms: u64,
    pub end_time_ms: u64,
    pub duration_ms: u64,
}

/// Smallest accepted chunk bound, in minutes.
pub const MIN_CHUNK_MINUTES: u32 = 5;

/// Largest accepted chunk bound, in minutes.
pub const MAX_CHUNK_MINUTES: u32 = 60;

/// The chunk bound converted to milliseconds.
pub open spec fn spec_chunk_size_ms(minutes: u32) -> int {
    minutes * 60000
}

/// How many chunks a duration needs under a bound: one per full window,
/// and one for any remainder.
pub open spec fn spec_num_chunks(duration_ms: int, size_ms: int) -> int
    decreases duration_ms when size_ms > 0 && duration_ms >= 0
{
    if duration_ms <= 0 {
        0
    } else if duration_ms <= size_ms {
        1
    } else {
        1 + spec_num_chunks(duration_ms - size_ms, size_ms)
    }
}

proof fn lemma_num_chunks_pos(duration_ms: int, size_ms: int)
    requires
        duration_ms >= 0,
        size_ms > 0,
    ensures
        spec_num_chunks(duration_ms, size_ms) >= 0,
        duration_ms > 0 ==> spec_num_chunks(duration_ms, size_ms) >= 1,
    decreases duration_ms,
{
    if duration_ms > size_ms {
        lemma_num_chunks_pos(duration_ms - size_ms, size_ms);
    }
}

/// The number of chunks is the rounded-up quotient of the duration by the
/// chunk bound.
pub proof fn lemma_num_chunks_is_ceil(duration_ms: int, size_ms: int)
    requires
        duration_ms >= 0,
        size_ms > 0,
    ensures
        spec_num_chunks(duration_ms, size_ms) == (duration_ms + size_ms - 1) / size_ms,
    decreases duration_ms,
{
    if duration_ms <= 0 {
        vstd::arithmetic::div_mod::lemma_basic_div(size_ms - 1, size_ms);
    } else if duration_ms <= size_ms {
        vstd::arithmetic::div_mod::lemma_div_plus_one(duration_ms - 1, size_ms);
        vstd::arithmetic::div_mod::lemma_basic_div(duration_ms - 1, size_ms);
    } else {
        lemma_num_chunks_is_ceil(duration_ms - size_ms, size_ms);
        vstd::arithmetic::div_mod::lemma_div_plus_one(duration_ms - 1, size_ms);
        assert(duration_ms - size_ms + size_ms - 1 == duration_ms - 1);
    }
}

/// What a well-formed plan for a duration under a bound looks like: 1-based
/// sequential indices, first chunk starting at zero, each chunk ending where
/// the next starts, every chunk of positive duration at most the bound, only
/// the last chunk shorter, and the last chunk ending exactly at the total.
pub open spec fn plan_covers(chunks: Seq<ChunkInfo>, duration_ms: int, size_ms: int) -> bool {
    &&& chunks.len() == spec_num_chunks(duration_ms, size_ms)
    &&& chunks.len() > 0
    &&& chunks[0].start_time_ms == 0
    &&& chunks[chunks.len() - 1].end_time_ms == duration_ms
    &&& forall|i: int| 0 <= i < chunks.len() ==> #[trigger] chunks[i].chunk_number == i + 1
    &&& forall|i: int|
        0 <= i < chunks.len() ==> #[trigger] chunks[i].end_time_ms == chunks[i].start_time_ms
            + chunks[i].duration_ms
    &&& forall|i: int|
        0 <= i < chunks.len() - 1 ==> #[trigger] chunks[i].end_time_ms == chunks[i
            + 1].start_time_ms
    &&& forall|i: int| 0 <= i < chunks.len() ==> 0 < #[trigger] chunks[i].duration_ms <= size_ms
    &&& forall|i: int| 0 <= i < chunks.len() - 1 ==> #[trigger] chunks[i].duration_ms == size_ms
}

pub open spec fn invalid_duration_msg() -> Seq<char> {
    "Duration must be a positive number of seconds."@
}

pub open spec fn invalid_chunk_size_msg() -> Seq<char> {
    "Chunk duration must be between 5 and 60 minutes."@
}

/// Partitions `duration_ms` into chunks of at most `chunk_duration_minutes`,
/// walking from offset zero and letting only the final chunk fall short.
///
/// A zero duration or an out-of-range bound is rejected, each with its own
/// message; on success the plan covers the whole duration with no gap, no
/// overlap, no truncation and no overshoot.
pub fn calculate_chunks_for_duration(duration_ms: u64, chunk_duration_minutes: u32) -> (r: Result<
    Vec<ChunkInfo>,
    String,
>)
    ensures
        duration_ms == 0 ==> (r matches Err(e) && e@ == invalid_duration_msg()),
        duration_ms > 0 && !(MIN_CHUNK_MINUTES <= chunk_duration_minutes <= MAX_CHUNK_MINUTES)
            ==> (r matches Err(e) && e@ == invalid_chunk_size_msg()),
        duration_ms > 0 && MIN_CHUNK_MINUTES <= chunk_duration_minutes <= MAX_CHUNK_MINUTES ==> (
        r matches Ok(chunks) && plan_covers(
            chunks@,
            duration_ms as int,
            spec_chunk_size_ms(chunk_duration_minutes),
        )),
{
    if duration_ms == 0 {
        return Err("Duration must be a positive number of seconds.".to_owned());
    }
    if chunk_duration_minutes < MIN_CHUNK_MINUTES || chunk_duration_minutes > MAX_CHUNK_MINUTES {
        return Err("Chunk duration must be between 5 and 60 minutes.".to_owned());
    }

    let size_ms: u64 = (chunk_duration_minutes as u64) * 60000;
    let ghost total = spec_num_chunks(duration_ms as int, size_ms as int);
    proof {
        lemma_num_chunks_pos(duration_ms as int, size_ms as int);
        lemma_num_chunks_is_ceil(duration_ms as int, size_ms as int);
        vstd::arithmetic::div_mod::lemma_div_is_ordered(
            duration_ms + size_ms - 1,
            0xffff_ffff_ffff_ffffint + 3599999,
            size_ms as int,
        );
        vstd::arithmetic::div_mod::lemma_div_is_ordered_by_denominator(
            0xffff_ffff_ffff_ffffint + 3599999,
            300000,
            size_ms as int,
        );
        assert((0xffff_ffff_ffff_ffffint + 3599999) / 300000 < 0x1_0000_0000_0000) by (nonlinear_arith);
    }

    let mut chunks: Vec<ChunkInfo> = Vec::new();
    let mut start: u64 = 0;
    let mut number: u64 = 1;

    while start < duration_ms
        invariant
            0 < duration_ms,
            300000 <= size_ms <= 3600000,
            size_ms == spec_chunk_size_ms(chunk_duration_minutes),
            start <= duration_ms,
            number == chunks@.len() + 1,
            total < 0x1_0000_0000_0000,
            total == spec_num_chunks(duration_ms as int, size_ms as int),
            chunks@.len() + spec_num_chunks(duration_ms - start, size_ms as int) == total,
            spec_num_chunks(duration_ms - start, size_ms as int) >= 0,
            chunks@.len() == 0 ==> start == 0,
            chunks@.len() > 0 ==> chunks@[0].start_time_ms == 0,
            chunks@.len() > 0 ==> chunks@[chunks@.len() - 1].end_time_ms == start,
            chunks@.len() > 0 && start < duration_ms ==> chunks@[chunks@.len() - 1].duration_ms
                == size_ms,
            forall|i: int| 0 <= i < chunks@.len() ==> #[trigger] chunks@[i].chunk_number == i + 1,
            forall|i: int|
                0 <= i < chunks@.len() ==> #[trigger] chunks@[i].end_time_ms
                    == chunks@[i].start_time_ms + chunks@[i].duration_ms,
            forall|i: int|
                0 <= i < chunks@.len() - 1 ==> #[trigger] chunks@[i].end_time_ms == chunks@[i
                    + 1].start_time_ms,
            forall|i: int|
                0 <= i < chunks@.len() ==> 0 < #[trigger] chunks@[i].duration_ms <= size_ms,
            forall|i: int|
                0 <= i < chunks@.len() - 1 ==> #[trigger] chunks@[i].duration_ms == size_ms,
        decreases duration_ms - start,
    {
        let remaining = duration_ms - start;
        let chunk_len = if remaining < size_ms {
            remaining
        } else {
            size_ms
        };
        let end = start + chunk_len;
        proof {
            lemma_num_chunks_pos((duration_ms - end) as int, size_ms as int);
            assert(spec_num_chunks((duration_ms - start) as int, size_ms as int) == 1
                + spec_num_chunks((duration_ms - end) as int, size_ms as int));
        }
        chunks.push(
            ChunkInfo {
                chunk_number: number,
                start_time_ms: start,
                end_time_ms: end,
                duration_ms: chunk_len,
            },
        );
        number = number + 1;
        start = end;
    }
    proof {
        lemma_num_chunks_pos(0, size_ms as int);
    }
    Ok(chunks)
}

} // verus!
