//! The bridge to serde_json: the prober emits a JSON document on stdout,
//! serde_json parses it, and the fields the interpreter reads are pulled out
//! of the parsed value into plain records.
//!
//! serde_json's work is deterministic, so its results are named rather than
//! stated: `spec_json_of` stands for the parsed form of a document and
//! `json_view` for the shape of a parsed value, abstracted as a `JsonView`.
//! The trusted wrappers say how each call behaves over those names, and
//! everything from the extracted fields to the final record is verified
//! against them.

use vstd::prelude::*;
use crate::probe::duration_grammar_ok;
use crate::probe::duration_value_ok;
use crate::probe::first_video;
use crate::probe::interpret_probe;
use crate::probe::invalid_duration_prefix;
use crate::probe::missing_duration_msg;
use crate::probe::nonpositive_duration_msg;
use crate::probe::spec_duration_ms_of;
use crate::probe::stream_is_video;
use crate::probe::ProbeFormat;
use crate::probe::ProbeStream;
use crate::probe::VideoProperties;

verus! {

/// Declares serde_json::Value, the parsed form of a JSON document.
#[verifier::external_type_specification]
#[verifier::external_body]
pub struct ExJsonValue(serde_json::Value);

/// The shape of a parsed JSON value, as far as the library reads it: text,
/// arrays, objects and unsigned integers are distinguished; every other
/// value is opaque.
pub enum JsonView {
    Text(Seq<char>),
    Array(Seq<JsonView>),
    Object(Map<Seq<char>, JsonView>),
    UInt(u64),
    Other,
}

/// The shape of a parsed value. serde_json's accessors are deterministic,
/// so the shape is a function of the value.
pub uninterp spec fn json_view(v: serde_json::Value) -> JsonView;

/// Whether serde_json parses a document text.
pub uninterp spec fn spec_json_parses(s: Seq<char>) -> bool;

/// The parsed form of a document text that parses.
pub uninterp spec fn spec_json_of(s: Seq<char>) -> JsonView;

/// serde_json's description of why a document text does not parse.
pub uninterp spec fn spec_json_parse_error(s: Seq<char>) -> Seq<char>;

/// Relies on serde_json::from_str: parses a JSON document, failing with a
/// rendered description on malformed input. Parsing is a function of the
/// text alone.
#[verifier::external_body]
fn parse_json(s: &str) -> (r: Result<serde_json::Value, String>)
    ensures
        r is Ok <==> spec_json_parses(s@),
        r matches Ok(v) ==> json_view(v) == spec_json_of(s@),
        r matches Err(e) ==> e@ == spec_json_parse_error(s@),
{
    serde_json::from_str::<serde_json::Value>(s).map_err(|e| e.to_string())
}

/// Relies on serde_json::Value::get: the value under a key of a JSON
/// object; `None` for a missing key or any non-object.
#[verifier::external_body]
fn json_get<'a>(v: &'a serde_json::Value, key: &str) -> (r: Option<&'a serde_json::Value>)
    ensures
        match json_view(*v) {
            JsonView::Object(m) => {
                &&& m.dom().contains(key@) ==> (r matches Some(f) && json_view(*f) == m[key@])
                &&& !m.dom().contains(key@) ==> r is None
            },
            _ => r is None,
        },
{
    v.get(key)
}

/// Relies on serde_json::Value::as_str: the content of a JSON string;
/// `None` for anything else.
#[verifier::external_body]
fn json_as_string(v: &serde_json::Value) -> (r: Option<String>)
    ensures
        match json_view(*v) {
            JsonView::Text(s) => r matches Some(x) && x@ == s,
            _ => r is None,
        },
{
    v.as_str().map(str::to_string)
}

/// Relies on serde_json::Value::as_array: the elements of a JSON array;
/// `None` for anything else.
#[verifier::external_body]
fn json_as_array<'a>(v: &'a serde_json::Value) -> (r: Option<&'a Vec<serde_json::Value>>)
    ensures
        match json_view(*v) {
            JsonView::Array(elems) => r matches Some(arr) && arr@.len() == elems.len()
                && (forall|i: int| 0 <= i < elems.len() ==> json_view(#[trigger] arr@[i])
                == elems[i]),
            _ => r is None,
        },
{
    v.as_array()
}

/// Relies on serde_json::Value::as_u64: a JSON number as an unsigned
/// integer; `None` for anything else, fractions and negatives included.
#[verifier::external_body]
fn json_as_u64(v: &serde_json::Value) -> (r: Option<u64>)
    ensures
        match json_view(*v) {
            JsonView::UInt(n) => r == Some(n),
            _ => r is None,
        },
{
    v.as_u64()
}

/// The value under a key of an object shape, if both are there.
pub open spec fn spec_obj_field(j: JsonView, key: Seq<char>) -> Option<JsonView> {
    match j {
        JsonView::Object(m) => if m.dom().contains(key) {
            Some(m[key])
        } else {
            None
        },
        _ => None,
    }
}

/// A string field of an object shape: present only if the key maps to text.
pub open spec fn spec_str_field(j: JsonView, key: Seq<char>) -> Option<Seq<char>> {
    match spec_obj_field(j, key) {
        Some(JsonView::Text(s)) => Some(s),
        _ => None,
    }
}

/// An unsigned 32-bit field of an object shape: present only if the key
/// maps to an integer that fits.
pub open spec fn spec_u32_field(j: JsonView, key: Seq<char>) -> Option<u32> {
    match spec_obj_field(j, key) {
        Some(JsonView::UInt(n)) => if n <= 0xffff_ffff {
            Some(n as u32)
        } else {
            None
        },
        _ => None,
    }
}

/// The characters of an optional string.
pub open spec fn opt_str_view(o: Option<String>) -> Option<Seq<char>> {
    match o {
        None => None,
        Some(s) => Some(s@),
    }
}

fn json_string_field(v: &serde_json::Value, key: &str) -> (r: Option<String>)
    ensures
        opt_str_view(r) == spec_str_field(json_view(*v), key@),
{
    match json_get(v, key) {
        None => None,
        Some(f) => json_as_string(f),
    }
}

fn json_u32_field(v: &serde_json::Value, key: &str) -> (r: Option<u32>)
    ensures
        r == spec_u32_field(json_view(*v), key@),
{
    match json_get(v, key) {
        None => None,
        Some(f) => match json_as_u64(f) {
            None => None,
            Some(n) => if n <= 0xffff_ffff {
                Some(n as u32)
            } else {
                None
            },
        },
    }
}

/// What a faithfully extracted `format` record holds of an object shape.
pub open spec fn format_matches(j: JsonView, pf: ProbeFormat) -> bool {
    &&& opt_str_view(pf.duration) == spec_str_field(j, "duration"@)
    &&& opt_str_view(pf.format_name) == spec_str_field(j, "format_name"@)
}

/// What a faithfully extracted stream record holds of an object shape.
pub open spec fn stream_matches(j: JsonView, ps: ProbeStream) -> bool {
    &&& opt_str_view(ps.codec_type) == spec_str_field(j, "codec_type"@)
    &&& opt_str_view(ps.codec_name) == spec_str_field(j, "codec_name"@)
    &&& ps.width == spec_u32_field(j, "width"@)
    &&& ps.height == spec_u32_field(j, "height"@)
}

/// Pulls the `format` object's fields out of a parsed probe document.
fn extract_format(doc: &serde_json::Value) -> (r: Option<ProbeFormat>)
    ensures
        match spec_obj_field(json_view(*doc), "format"@) {
            None => r is None,
            Some(f) => r matches Some(pf) && format_matches(f, pf),
        },
{
    match json_get(doc, "format") {
        None => None,
        Some(f) => Some(
            ProbeFormat {
                duration: json_string_field(f, "duration"),
                format_name: json_string_field(f, "format_name"),
            },
        ),
    }
}

/// Pulls the `streams` array's per-stream fields out of a parsed probe
/// document. A `streams` entry that is not an array counts as absent.
#[verifier::loop_isolation(false)]
fn extract_streams(doc: &serde_json::Value) -> (r: Option<Vec<ProbeStream>>)
    ensures
        match spec_obj_field(json_view(*doc), "streams"@) {
            None => r is None,
            Some(sv) => match sv {
                JsonView::Array(elems) => r matches Some(list) && list@.len() == elems.len()
                    && (forall|i: int|
                    0 <= i < elems.len() ==> stream_matches(elems[i], #[trigger] list@[i])),
                _ => r is None,
            },
        },
{
    let arr = match json_get(doc, "streams") {
        None => {
            return None;
        },
        Some(s) => match json_as_array(s) {
            None => {
                return None;
            },
            Some(arr) => arr,
        },
    };
    let ghost elems = match spec_obj_field(json_view(*doc), "streams"@) {
        Some(JsonView::Array(elems)) => elems,
        _ => Seq::<JsonView>::empty(),
    };
    let mut streams: Vec<ProbeStream> = Vec::new();
    let mut i: usize = 0;
    while i < arr.len()
        invariant
            arr@.len() == elems.len(),
            forall|k: int| 0 <= k < elems.len() ==> json_view(#[trigger] arr@[k]) == elems[k],
            0 <= i <= elems.len(),
            streams@.len() == i,
            forall|k: int| 0 <= k < i ==> stream_matches(elems[k], #[trigger] streams@[k]),
        decreases arr@.len() - i,
    {
        let entry = &arr[i];
        streams.push(
            ProbeStream {
                codec_type: json_string_field(entry, "codec_type"),
                codec_name: json_string_field(entry, "codec_name"),
                width: json_u32_field(entry, "width"),
                height: json_u32_field(entry, "height"),
            },
        );
        i = i + 1;
    }
    Some(streams)
}

/// The duration string of a document shape, read through the `format`
/// object.
pub open spec fn spec_doc_duration(j: JsonView) -> Option<Seq<char>> {
    match spec_obj_field(j, "format"@) {
        None => None,
        Some(f) => spec_str_field(f, "duration"@),
    }
}

/// The container name a document shape reports, or "unknown".
pub open spec fn spec_doc_format_name(j: JsonView) -> Seq<char> {
    match spec_obj_field(j, "format"@) {
        None => "unknown"@,
        Some(f) => match spec_str_field(f, "format_name"@) {
            None => "unknown"@,
            Some(n) => n,
        },
    }
}

/// The stream shapes of a document: its `streams` array, or nothing.
pub open spec fn spec_doc_streams(j: JsonView) -> Seq<JsonView> {
    match spec_obj_field(j, "streams"@) {
        Some(JsonView::Array(elems)) => elems,
        _ => Seq::empty(),
    }
}

/// Whether a stream shape declares itself a video stream.
pub open spec fn view_is_video(j: JsonView) -> bool {
    spec_str_field(j, "codec_type"@) == Some("video"@)
}

/// The index of the first video stream shape, or -1 if there is none.
pub open spec fn first_video_view(elems: Seq<JsonView>) -> int
    decreases elems.len(),
{
    if elems.len() == 0 {
        -1
    } else if view_is_video(elems[0]) {
        0
    } else if first_video_view(elems.drop_first()) == -1 {
        -1
    } else {
        1 + first_video_view(elems.drop_first())
    }
}

/// What the record reports of a document's streams: the first video stream
/// shape decides codec and dimensions, their absence the defaults.
pub open spec fn doc_stream_fields_ok(j: JsonView, p: VideoProperties) -> bool {
    let elems = spec_doc_streams(j);
    if first_video_view(elems) == -1 {
        &&& p.codec_name@ == "unknown"@
        &&& p.width is None
        &&& p.height is None
    } else {
        let e = elems[first_video_view(elems)];
        &&& p.codec_name@ == match spec_str_field(e, "codec_name"@) {
            Some(c) => c,
            None => "unknown"@,
        }
        &&& p.width == spec_u32_field(e, "width"@)
        &&& p.height == spec_u32_field(e, "height"@)
    }
}

proof fn lemma_first_video_view_bounds(elems: Seq<JsonView>)
    ensures
        -1 <= first_video_view(elems) < elems.len() || (elems.len() == 0 && first_video_view(
            elems,
        ) == -1),
        first_video_view(elems) >= 0 ==> view_is_video(elems[first_video_view(elems)]),
    decreases elems.len(),
{
    if elems.len() > 0 && !view_is_video(elems[0]) {
        let t = elems.drop_first();
        lemma_first_video_view_bounds(t);
        if first_video_view(t) >= 0 {
            assert(t[first_video_view(t)] == elems[1 + first_video_view(t)]);
        }
    }
}

proof fn lemma_streams_correspond(elems: Seq<JsonView>, list: Seq<ProbeStream>)
    requires
        list.len() == elems.len(),
        forall|i: int| 0 <= i < elems.len() ==> stream_matches(elems[i], #[trigger] list[i]),
    ensures
        first_video(list) == first_video_view(elems),
    decreases elems.len(),
{
    if elems.len() > 0 {
        assert(stream_is_video(list[0]) == view_is_video(elems[0]));
        let et = elems.drop_first();
        let lt = list.drop_first();
        assert(forall|i: int| 0 <= i < et.len() ==> et[i] == elems[i + 1]);
        assert(forall|i: int|
            0 <= i < et.len() ==> stream_matches(et[i], #[trigger] lt[i]));
        lemma_streams_correspond(et, lt);
    }
}

pub open spec fn parse_failure_prefix() -> Seq<char> {
    "Failed to parse ffprobe output: "@
}

/// Interprets the prober's stdout: parses the JSON document and builds the
/// validated properties record from its fields.
///
/// A document that does not parse fails with the parser's message; for one
/// that does, the duration string under `format` decides success exactly as
/// in `interpret_probe`, and a returned record carries the document's
/// container name, first-video-stream codec and dimensions, and a strictly
/// positive duration.
pub fn probe_video_properties(stdout: &str) -> (r: Result<VideoProperties, String>)
    ensures
        !spec_json_parses(stdout@) ==> (r matches Err(e) && e@ == parse_failure_prefix()
            + spec_json_parse_error(stdout@)),
        spec_json_parses(stdout@) ==> {
            let j = spec_json_of(stdout@);
            &&& spec_doc_duration(j) is None ==> (r matches Err(e) && e@
                == missing_duration_msg())
            &&& spec_doc_duration(j) matches Some(d) ==> {
                &&& !duration_grammar_ok(d) ==> (r matches Err(e) && e@
                    == invalid_duration_prefix() + d)
                &&& duration_grammar_ok(d) && !duration_value_ok(d) ==> (r matches Err(e) && e@
                    == nonpositive_duration_msg())
                &&& duration_value_ok(d) ==> (r matches Ok(p) && {
                    &&& p.duration_ms == spec_duration_ms_of(d)
                    &&& p.duration_ms > 0
                    &&& p.format_name@ == spec_doc_format_name(j)
                    &&& doc_stream_fields_ok(j, p)
                })
            }
        },
        r matches Ok(p) ==> p.duration_ms > 0,
{
    let doc = match parse_json(stdout) {
        Err(e) => {
            let mut msg = "Failed to parse ffprobe output: ".to_owned();
            msg.append(e.as_str());
            return Err(msg);
        },
        Ok(doc) => doc,
    };
    let ghost j = spec_json_of(stdout@);
    let format = extract_format(&doc);
    let streams = extract_streams(&doc);
    proof {
        assert(crate::probe::spec_duration_view(format) == spec_doc_duration(j));
        assert(crate::probe::spec_format_name_view(format) == spec_doc_format_name(j));
        let elems = spec_doc_streams(j);
        let ss = crate::probe::streams_seq(streams);
        match spec_obj_field(j, "streams"@) {
            Some(sv) => match sv {
                JsonView::Array(_) => {
                    lemma_streams_correspond(elems, ss);
                },
                _ => {
                    assert(first_video(ss) == -1);
                    assert(first_video_view(elems) == -1);
                },
            },
            None => {
                assert(first_video(ss) == -1);
                assert(first_video_view(elems) == -1);
            },
        }
        assert(first_video(ss) == first_video_view(elems));
    }
    let r = interpret_probe(format, streams);
    proof {
        let elems = spec_doc_streams(j);
        let ss = crate::probe::streams_seq(streams);
        if spec_doc_duration(j) matches Some(d) && duration_value_ok(d) {
            let p: VideoProperties = match &r {
                Ok(p) => *p,
                Err(_) => arbitrary(),
            };
            assert(crate::probe::stream_fields_ok(ss, p));
            lemma_first_video_view_bounds(elems);
            if first_video_view(elems) >= 0 {
                assert(stream_matches(elems[first_video_view(elems)], ss[first_video(ss)]));
                assert(doc_stream_fields_ok(j, p));
            } else {
                assert(doc_stream_fields_ok(j, p));
            }
        }
    }
    r
}

} // verus!
