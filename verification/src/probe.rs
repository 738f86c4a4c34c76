//! Probe-result interpreter: turns the prober's reported fields into a
//! validated record of video properties.
//!
//! The duration field is a decimal string of seconds; it is parsed at
//! millisecond resolution with the grammar `digits [ '.' digits ]` (either
//! digit run may be empty, not both), fraction digits beyond the third
//! truncated. It must denote a positive number of milliseconds. The grammar
//! is deliberately the prober's output format and no more: signed and
//! exponent forms are rejected as invalid, and a whole-second count at or
//! beyond `MAX_WHOLE_SECONDS` is rejected as unusable.

use vstd::prelude::*;
use crate::text::str_eq;

verus! {

/// The optional fields of the prober's `format` object.
#[derive(Clone, Debug)]
pub struct ProbeFormat {
    pub duration: Option<String>,
    pub format_name: Option<String>,
}

/// The optional fields of one entry of the prober's `streams` array.
#[derive(Clone, Debug)]
pub struct ProbeStream {
    pub codec_type: Option<String>,
    pub codec_name: Option<String>,
    pub width: Option<u32>,
    pub height: Option<u32>,
}

/// The validated record: a strictly positive duration, names defaulted to
/// "unknown" where the prober omitted them, dimensions only when reported.
#[derive(Clone, Debug)]
pub struct VideoProperties {
    pub duration_ms: u64,
    pub format_name: String,
    pub codec_name: String,
    pub width: Option<u32>,
    pub height: Option<u32>,
}

pub open spec fn is_digit_char(c: char) -> bool {
    '0' <= c && c <= '9'
}

pub open spec fn digit_val(c: char) -> int {
    c as u32 - 48
}

/// The index of the first '.', or the length if there is none.
pub open spec fn first_dot(s: Seq<char>) -> int
    decreases s.len(),
{
    if s.len() == 0 {
        0
    } else if s.first() == '.' {
        0
    } else {
        1 + first_dot(s.drop_first())
    }
}

/// The numeric value of a run of decimal digits.
pub open spec fn spec_digits_val(s: Seq<char>) -> int
    decreases s.len(),
{
    if s.len() == 0 {
        0
    } else {
        spec_digits_val(s.drop_last()) * 10 + digit_val(s.last())
    }
}

/// The whole-seconds digits: everything before the first dot.
pub open spec fn whole_part(s: Seq<char>) -> Seq<char> {
    s.take(first_dot(s))
}

/// The fraction digits: everything after the first dot.
pub open spec fn frac_part(s: Seq<char>) -> Seq<char> {
    if first_dot(s) < s.len() {
        s.skip(first_dot(s) + 1)
    } else {
        Seq::empty()
    }
}

/// The accepted shape: non-empty, digits around at most one dot, at least
/// one digit somewhere.
pub open spec fn duration_grammar_ok(s: Seq<char>) -> bool {
    &&& s.len() > 0
    &&& whole_part(s).len() + frac_part(s).len() > 0
    &&& forall|i: int|
        0 <= i < whole_part(s).len() ==> is_digit_char(#[trigger] whole_part(s)[i])
    &&& forall|i: int| 0 <= i < frac_part(s).len() ==> is_digit_char(#[trigger] frac_part(s)[i])
}

/// Milliseconds contributed by the fraction digits: the first three count,
/// the rest are truncated.
pub open spec fn spec_frac_ms(f: Seq<char>) -> int {
    (if f.len() > 0 {
        digit_val(f[0])
    } else {
        0
    }) * 100 + (if f.len() > 1 {
        digit_val(f[1])
    } else {
        0
    }) * 10 + (if f.len() > 2 {
        digit_val(f[2])
    } else {
        0
    })
}

/// The duration in milliseconds that a well-shaped string denotes.
pub open spec fn spec_duration_ms_of(s: Seq<char>) -> int {
    spec_digits_val(whole_part(s)) * 1000 + spec_frac_ms(frac_part(s))
}

/// Largest representable whole-second count; anything at or above it is
/// rejected as unusable.
pub const MAX_WHOLE_SECONDS: u64 = 1000000000000000;

/// A usable duration string: well shaped, in range, strictly positive.
pub open spec fn duration_value_ok(s: Seq<char>) -> bool {
    &&& duration_grammar_ok(s)
    &&& spec_digits_val(whole_part(s)) < MAX_WHOLE_SECONDS
    &&& spec_duration_ms_of(s) > 0
}

pub open spec fn missing_duration_msg() -> Seq<char> {
    "Video duration was not found in ffprobe output."@
}

pub open spec fn invalid_duration_prefix() -> Seq<char> {
    "Invalid video duration returned by ffprobe: "@
}

pub open spec fn nonpositive_duration_msg() -> Seq<char> {
    "Video duration is invalid or zero."@
}

proof fn lemma_digits_val_nonneg(s: Seq<char>)
    requires
        forall|i: int| 0 <= i < s.len() ==> is_digit_char(#[trigger] s[i]),
    ensures
        spec_digits_val(s) >= 0,
    decreases s.len(),
{
    if s.len() > 0 {
        lemma_digits_val_nonneg(s.drop_last());
    }
}

proof fn lemma_first_dot_bounds(s: Seq<char>)
    ensures
        0 <= first_dot(s) <= s.len(),
    decreases s.len(),
{
    if s.len() > 0 && s.first() != '.' {
        lemma_first_dot_bounds(s.drop_first());
    }
}

proof fn lemma_first_dot_past(s: Seq<char>, i: int)
    requires
        0 <= i < s.len(),
        forall|j: int| 0 <= j <= i ==> s[j] != '.',
    ensures
        first_dot(s) > i,
    decreases i,
{
    let t = s.drop_first();
    if i > 0 {
        assert(forall|j: int| 0 <= j <= i - 1 ==> t[j] == s[j + 1]);
        lemma_first_dot_past(t, i - 1);
    } else {
        lemma_first_dot_bounds(t);
    }
}

proof fn lemma_first_dot_is(s: Seq<char>, i: int)
    requires
        0 <= i <= s.len(),
        forall|j: int| 0 <= j < i ==> s[j] != '.',
        i < s.len() ==> s[i] == '.',
    ensures
        first_dot(s) == i,
    decreases i,
{
    if s.len() == 0 {
    } else if i == 0 {
    } else {
        let t = s.drop_first();
        assert(forall|j: int| 0 <= j < i - 1 ==> t[j] == s[j + 1]);
        lemma_first_dot_is(t, i - 1);
    }
}

/// Parses the prober's duration field: absent, ill-shaped, and
/// zero-or-unusable values each fail with their own message; otherwise the
/// denoted millisecond count is returned.
#[verifier::loop_isolation(false)]
pub fn parse_duration(duration: Option<String>) -> (r: Result<u64, String>)
    ensures
        duration is None ==> (r matches Err(e) && e@ == missing_duration_msg()),
        duration matches Some(d) ==> {
            &&& !duration_grammar_ok(d@) ==> (r matches Err(e) && e@ == invalid_duration_prefix()
                + d@)
            &&& duration_grammar_ok(d@) && !duration_value_ok(d@) ==> (r matches Err(e) && e@
                == nonpositive_duration_msg())
            &&& duration_value_ok(d@) ==> (r matches Ok(ms) && ms == spec_duration_ms_of(d@))
        },
{
    let d = match duration {
        None => {
            return Err("Video duration was not found in ffprobe output.".to_owned());
        },
        Some(d) => d,
    };
    let s = d.as_str();
    let len = s.unicode_len();

    let mut i: usize = 0;
    let mut whole: u64 = 0;
    let mut too_big = false;
    while i < len && s.get_char(i) != '.'
        invariant
            len == s@.len(),
            s@ == d@,
            0 <= i <= len,
            forall|j: int| 0 <= j < i ==> s@[j] != '.',
            forall|j: int| 0 <= j < i ==> is_digit_char(s@[j]),
            !too_big ==> whole == spec_digits_val(s@.take(i as int)) < MAX_WHOLE_SECONDS,
            too_big ==> spec_digits_val(s@.take(i as int)) >= MAX_WHOLE_SECONDS,
        decreases len - i,
    {
        let c = s.get_char(i);
        if !(c >= '0' && c <= '9') {
            proof {
                lemma_first_dot_bounds(s@);
                lemma_first_dot_past(s@, i as int);
                assert(whole_part(s@)[i as int] == s@[i as int]);
                assert(!duration_grammar_ok(s@));
            }
            return Err(invalid_duration_error(&d));
        }
        let dv: u64 = (c as u32 - 48) as u64;
        proof {
            assert(s@.take(i + 1).drop_last() =~= s@.take(i as int));
            assert(s@.take(i + 1).last() == s@[i as int]);
            lemma_digits_val_nonneg(s@.take(i as int));
        }
        if too_big {
        } else if whole >= 100000000000000 {
            too_big = true;
        } else {
            whole = whole * 10 + dv;
        }
        i = i + 1;
    }
    let dot_pos = i;
    proof {
        lemma_first_dot_is(s@, dot_pos as int);
        assert(whole_part(s@) =~= s@.take(dot_pos as int));
    }

    let mut f0: u64 = 0;
    let mut f1: u64 = 0;
    let mut f2: u64 = 0;
    if dot_pos < len {
        if len == 1 {
            // the string is just a dot with no digit anywhere
            proof {
                assert(whole_part(s@).len() == 0);
                assert(frac_part(s@) =~= s@.skip(dot_pos + 1));
                assert(frac_part(s@).len() == 0);
                assert(!duration_grammar_ok(s@));
            }
            return Err(invalid_duration_error(&d));
        }
        let mut j: usize = dot_pos + 1;
        while j < len
            invariant
                len == s@.len(),
                s@ == d@,
                dot_pos < len,
                first_dot(s@) == dot_pos,
                whole_part(s@) == s@.take(dot_pos as int),
                dot_pos + 1 <= j <= len,
                forall|k: int| dot_pos + 1 <= k < j ==> is_digit_char(s@[k]),
                j > dot_pos + 1 ==> f0 == digit_val(s@[dot_pos + 1]),
                j <= dot_pos + 1 ==> f0 == 0,
                j > dot_pos + 2 ==> f1 == digit_val(s@[dot_pos + 2]),
                j <= dot_pos + 2 ==> f1 == 0,
                j > dot_pos + 3 ==> f2 == digit_val(s@[dot_pos + 3]),
                j <= dot_pos + 3 ==> f2 == 0,
                f0 <= 9 && f1 <= 9 && f2 <= 9,
            decreases len - j,
        {
            let c = s.get_char(j);
            if !(c >= '0' && c <= '9') {
                proof {
                    assert(frac_part(s@) =~= s@.skip(dot_pos + 1));
                    assert(frac_part(s@)[j - dot_pos - 1] == s@[j as int]);
                    assert(!duration_grammar_ok(s@));
                }
                return Err(invalid_duration_error(&d));
            }
            let dv: u64 = (c as u32 - 48) as u64;
            if j == dot_pos + 1 {
                f0 = dv;
            } else if j == dot_pos + 2 {
                f1 = dv;
            } else if j == dot_pos + 3 {
                f2 = dv;
            }
            j = j + 1;
        }
    }
    if len == 0 {
        return Err(invalid_duration_error(&d));
    }
    proof {
        if first_dot(s@) < s@.len() {
            assert(frac_part(s@) =~= s@.skip(dot_pos + 1));
            assert(forall|p: int|
                0 <= p < frac_part(s@).len() ==> frac_part(s@)[p] == s@[dot_pos + 1 + p]);
        } else {
            assert(frac_part(s@) =~= Seq::<char>::empty());
        }
        assert(duration_grammar_ok(s@));
    }

    if too_big {
        return Err("Video duration is invalid or zero.".to_owned());
    }
    let value: u64 = whole * 1000 + f0 * 100 + f1 * 10 + f2;
    proof {
        lemma_digits_val_nonneg(whole_part(s@));
        assert(value == spec_duration_ms_of(s@));
    }
    if value == 0 {
        return Err("Video duration is invalid or zero.".to_owned());
    }
    Ok(value)
}

fn invalid_duration_error(raw: &String) -> (e: String)
    ensures
        e@ == invalid_duration_prefix() + raw@,
{
    let mut e = "Invalid video duration returned by ffprobe: ".to_owned();
    e.append(raw.as_str());
    e
}

/// Whether a stream entry declares itself a video stream.
pub open spec fn stream_is_video(s: ProbeStream) -> bool {
    s.codec_type matches Some(t) && t@ == "video"@
}

/// The index of the first video stream, or -1 if there is none.
pub open spec fn first_video(streams: Seq<ProbeStream>) -> int
    decreases streams.len(),
{
    if streams.len() == 0 {
        -1
    } else if stream_is_video(streams[0]) {
        0
    } else if first_video(streams.drop_first()) == -1 {
        -1
    } else {
        1 + first_video(streams.drop_first())
    }
}

proof fn lemma_first_video_is(streams: Seq<ProbeStream>, i: int)
    requires
        0 <= i <= streams.len(),
        forall|j: int| 0 <= j < i ==> !stream_is_video(#[trigger] streams[j]),
        i < streams.len() ==> stream_is_video(streams[i]),
    ensures
        first_video(streams) == if i < streams.len() {
            i
        } else {
            -1
        },
    decreases i,
{
    if streams.len() == 0 {
    } else if i == 0 {
        if streams.len() > 0 && !stream_is_video(streams[0]) {
            lemma_first_video_none(streams, 0);
        }
    } else {
        let t = streams.drop_first();
        assert(forall|j: int| 0 <= j < i - 1 ==> t[j] == streams[j + 1]);
        lemma_first_video_is(t, i - 1);
    }
}

proof fn lemma_first_video_none(streams: Seq<ProbeStream>, i: int)
    requires
        0 <= i <= streams.len(),
        forall|j: int| i <= j < streams.len() ==> !stream_is_video(#[trigger] streams[j]),
        forall|j: int| 0 <= j < i ==> !stream_is_video(#[trigger] streams[j]),
    ensures
        first_video(streams) == -1,
    decreases streams.len(),
{
    if streams.len() > 0 {
        let t = streams.drop_first();
        assert(forall|j: int| 0 <= j < t.len() ==> t[j] == streams[j + 1]);
        lemma_first_video_none(t, 0);
    }
}

/// The duration field's view, if the format object and the field are there.
pub open spec fn spec_duration_view(format: Option<ProbeFormat>) -> Option<Seq<char>> {
    match format {
        None => None,
        Some(f) => match f.duration {
            None => None,
            Some(d) => Some(d@),
        },
    }
}

/// The container name the record reports: the prober's, or "unknown".
pub open spec fn spec_format_name_view(format: Option<ProbeFormat>) -> Seq<char> {
    match format {
        None => "unknown"@,
        Some(f) => match f.format_name {
            None => "unknown"@,
            Some(n) => n@,
        },
    }
}

pub open spec fn streams_seq(streams: Option<Vec<ProbeStream>>) -> Seq<ProbeStream> {
    match streams {
        None => Seq::empty(),
        Some(v) => v@,
    }
}

/// What the selected stream contributes to the record: the first stream
/// whose type is "video" decides codec and dimensions; with no such stream
/// the codec is "unknown" and the dimensions are absent.
pub open spec fn stream_fields_ok(streams: Seq<ProbeStream>, p: VideoProperties) -> bool {
    if first_video(streams) == -1 {
        &&& p.codec_name@ == "unknown"@
        &&& p.width is None
        &&& p.height is None
    } else {
        let st = streams[first_video(streams)];
        &&& p.codec_name@ == match st.codec_name {
            Some(c) => c@,
            None => "unknown"@,
        }
        &&& p.width == st.width
        &&& p.height == st.height
    }
}

/// Builds the validated record from the prober's reported fields.
///
/// The duration decides success: missing, ill-shaped and non-positive
/// values fail exactly as `parse_duration` does, whatever the streams hold.
#[verifier::loop_isolation(false)]
pub fn interpret_probe(format: Option<ProbeFormat>, streams: Option<Vec<ProbeStream>>) -> (r:
    Result<VideoProperties, String>)
    ensures
        spec_duration_view(format) is None ==> (r matches Err(e) && e@ == missing_duration_msg()),
        spec_duration_view(format) matches Some(d) ==> {
            &&& !duration_grammar_ok(d) ==> (r matches Err(e) && e@ == invalid_duration_prefix()
                + d)
            &&& duration_grammar_ok(d) && !duration_value_ok(d) ==> (r matches Err(e) && e@
                == nonpositive_duration_msg())
            &&& duration_value_ok(d) ==> (r matches Ok(p) && {
                &&& p.duration_ms == spec_duration_ms_of(d)
                &&& p.duration_ms > 0
                &&& p.format_name@ == spec_format_name_view(format)
                &&& stream_fields_ok(streams_seq(streams), p)
            })
        },
{
    let duration_field: Option<String> = match &format {
        None => None,
        Some(f) => match &f.duration {
            None => None,
            Some(d) => Some(d.clone()),
        },
    };
    let duration_ms = match parse_duration(duration_field) {
        Err(e) => {
            return Err(e);
        },
        Ok(ms) => ms,
    };
    let format_name: String = match format {
        None => "unknown".to_owned(),
        Some(f) => match f.format_name {
            None => "unknown".to_owned(),
            Some(n) => n,
        },
    };

    let mut codec_name: String = "unknown".to_owned();
    let mut width: Option<u32> = None;
    let mut height: Option<u32> = None;

    match &streams {
        None => {
        },
        Some(list) => {
            let ghost ss = list@;
            let mut i: usize = 0;
            let mut found = false;
            while i < list.len() && !found
                invariant
                    ss == list@,
                    0 <= i <= ss.len(),
                    !found ==> forall|j: int|
                        0 <= j < i ==> !stream_is_video(#[trigger] ss[j]),
                    found ==> i < ss.len() && stream_is_video(ss[i as int]) && forall|j: int|
                        0 <= j < i ==> !stream_is_video(#[trigger] ss[j]),
                decreases ss.len() - i + (if found { 0int } else { 1int }),
            {
                let is_video = match &list[i].codec_type {
                    None => false,
                    Some(t) => str_eq(t.as_str(), "video"),
                };
                proof {
                    reveal_strlit("video");
                }
                if is_video {
                    found = true;
                } else {
                    i = i + 1;
                }
            }
            if found {
                proof {
                    lemma_first_video_is(ss, i as int);
                }
                let st = &list[i];
                codec_name = match &st.codec_name {
                    None => "unknown".to_owned(),
                    Some(c) => c.clone(),
                };
                width = st.width;
                height = st.height;
            } else {
                proof {
                    lemma_first_video_is(ss, ss.len() as int);
                }
            }
        },
    }

    Ok(
        VideoProperties {
            duration_ms,
            format_name,
            codec_name,
            width,
            height,
        },
    )
}

} // verus!
