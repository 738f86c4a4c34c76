//! Video-file records and path validation: the supported-extension rule,
//! the file-name model, and the records handed to callers. Whether a path
//! exists on disk, and how large the file is, is the host's concern; it
//! reports both here.
//!
//! Paths are plain strings: the file name is everything after the last
//! slash, the extension everything after a dot that is neither leading in
//! the file name nor the only one.

use vstd::prelude::*;
use crate::locator::last_slash;
use crate::probe::VideoProperties;

verus! {

/// A selected video file before probing.
#[derive(Clone, Debug)]
pub struct VideoFileInfo {
    pub path: String,
    pub file_name: String,
    pub size_bytes: u64,
}

/// Everything known about a probed video file.
#[derive(Clone, Debug)]
pub struct VideoInfo {
    pub path: String,
    pub file_name: String,
    pub size_bytes: u64,
    pub duration_ms: u64,
    pub format_name: String,
    pub codec_name: String,
    pub width: Option<u32>,
    pub height: Option<u32>,
}

/// The file-name component: everything after the last slash.
pub open spec fn spec_file_name(path: Seq<char>) -> Seq<char> {
    path.skip(last_slash(path) + 1)
}

/// The index of the last '.', or -1 if there is none.
pub open spec fn last_dot(s: Seq<char>) -> int
    decreases s.len(),
{
    if s.len() == 0 {
        -1
    } else if s.last() == '.' {
        s.len() - 1
    } else {
        last_dot(s.drop_last())
    }
}

/// The extension of a file name: what follows the last dot, unless that
/// dot leads the name (a hidden file) or there is none.
pub open spec fn spec_extension(name: Seq<char>) -> Option<Seq<char>> {
    if last_dot(name) <= 0 {
        None
    } else {
        Some(name.skip(last_dot(name) + 1))
    }
}

/// Two characters equal up to ASCII letter case.
pub open spec fn char_eq_ignore_case(a: char, b: char) -> bool {
    ||| a == b
    ||| ('A' <= a <= 'Z' && a as u32 + 32 == b as u32)
    ||| ('A' <= b <= 'Z' && b as u32 + 32 == a as u32)
}

/// Two strings equal up to ASCII letter case.
pub open spec fn seq_eq_ignore_case(a: Seq<char>, b: Seq<char>) -> bool {
    a.len() == b.len() && forall|i: int| 0 <= i < a.len() ==> char_eq_ignore_case(a[i], b[i])
}

/// The accepted video-container extensions.
pub open spec fn is_supported_extension(e: Seq<char>) -> bool {
    ||| seq_eq_ignore_case(e, "mp4"@)
    ||| seq_eq_ignore_case(e, "avi"@)
    ||| seq_eq_ignore_case(e, "mkv"@)
    ||| seq_eq_ignore_case(e, "mov"@)
    ||| seq_eq_ignore_case(e, "wmv"@)
}

/// Whether a path carries a supported video extension.
pub open spec fn spec_has_video_extension(path: Seq<char>) -> bool {
    spec_extension(spec_file_name(path)) matches Some(e) && is_supported_extension(e)
}

fn char_eq_ci(a: char, b: char) -> (r: bool)
    ensures
        r == char_eq_ignore_case(a, b),
{
    if a == b {
        true
    } else {
        let au = a as u32;
        let bu = b as u32;
        (a >= 'A' && a <= 'Z' && au + 32 == bu) || (b >= 'A' && b <= 'Z' && bu + 32 == au)
    }
}

/// Compares two strings ignoring ASCII letter case.
pub fn str_eq_ignore_case(a: &str, b: &str) -> (r: bool)
    ensures
        r == seq_eq_ignore_case(a@, b@),
{
    let a_len = a.unicode_len();
    let b_len = b.unicode_len();
    if a_len != b_len {
        return false;
    }
    let mut i: usize = 0;
    while i < a_len
        invariant
            a_len == a@.len(),
            b_len == b@.len(),
            a_len == b_len,
            0 <= i <= a_len,
            forall|j: int| 0 <= j < i ==> char_eq_ignore_case(a@[j], b@[j]),
        decreases a_len - i,
    {
        if !char_eq_ci(a.get_char(i), b.get_char(i)) {
            return false;
        }
        i = i + 1;
    }
    true
}

proof fn lemma_last_slash_found(s: Seq<char>, i: int)
    requires
        -1 <= i < s.len(),
        forall|j: int| i < j < s.len() ==> s[j] != '/',
        i >= 0 ==> s[i] == '/',
    ensures
        last_slash(s) == i,
    decreases s.len(),
{
    if s.len() > 0 && s.last() != '/' {
        let t = s.drop_last();
        assert(forall|j: int| i < j < t.len() ==> t[j] == s[j]);
        lemma_last_slash_found(t, i);
    }
}

proof fn lemma_last_dot_found(s: Seq<char>, i: int)
    requires
        -1 <= i < s.len(),
        forall|j: int| i < j < s.len() ==> s[j] != '.',
        i >= 0 ==> s[i] == '.',
    ensures
        last_dot(s) == i,
    decreases s.len(),
{
    if s.len() > 0 && s.last() != '.' {
        let t = s.drop_last();
        assert(forall|j: int| i < j < t.len() ==> t[j] == s[j]);
        lemma_last_dot_found(t, i);
    }
}

/// The file-name component of a path, if it is non-empty.
#[verifier::loop_isolation(false)]
pub fn file_name_part(path: &str) -> (r: Option<&str>)
    ensures
        spec_file_name(path@).len() == 0 ==> r is None,
        spec_file_name(path@).len() > 0 ==> (r matches Some(n) && n@ == spec_file_name(path@)),
{
    let len = path.unicode_len();
    let mut k: usize = len;
    while k > 0 && path.get_char(k - 1) != '/'
        invariant
            0 <= k <= len,
            forall|j: int| k <= j < len ==> path@[j] != '/',
        decreases k,
    {
        k = k - 1;
    }
    proof {
        lemma_last_slash_found(path@, k - 1);
        assert(spec_file_name(path@) =~= path@.skip(k as int));
    }
    if k == len {
        None
    } else {
        Some(path.substring_char(k, len))
    }
}

/// The extension of a file name, by the model above.
#[verifier::loop_isolation(false)]
pub fn extension_part(name: &str) -> (r: Option<&str>)
    ensures
        spec_extension(name@) is None ==> r is None,
        spec_extension(name@) matches Some(e) ==> (r matches Some(x) && x@ == e),
{
    let len = name.unicode_len();
    let mut k: usize = len;
    while k > 0 && name.get_char(k - 1) != '.'
        invariant
            0 <= k <= len,
            forall|j: int| k <= j < len ==> name@[j] != '.',
        decreases k,
    {
        k = k - 1;
    }
    proof {
        lemma_last_dot_found(name@, k - 1);
    }
    if k <= 1 {
        None
    } else {
        Some(name.substring_char(k, len))
    }
}

/// Decides whether a path names a file of a supported video container,
/// ignoring ASCII letter case in the extension.
pub fn has_supported_video_extension(path: &str) -> (r: bool)
    ensures
        r == spec_has_video_extension(path@),
{
    let name = match file_name_part(path) {
        None => {
            proof {
                lemma_file_name_no_slash(path@);
            }
            return false;
        },
        Some(n) => n,
    };
    let ext = match extension_part(name) {
        None => {
            return false;
        },
        Some(e) => e,
    };
    str_eq_ignore_case(ext, "mp4") || str_eq_ignore_case(ext, "avi") || str_eq_ignore_case(
        ext,
        "mkv",
    ) || str_eq_ignore_case(ext, "mov") || str_eq_ignore_case(ext, "wmv")
}

proof fn lemma_file_name_no_slash(path: Seq<char>)
    ensures
        spec_file_name(path).len() == 0 ==> spec_extension(spec_file_name(path)) is None,
{
    if spec_file_name(path).len() == 0 {
        assert(last_dot(spec_file_name(path)) == -1);
    }
}

/// A path with every slash turned into a backslash, the display form used
/// on platforms whose separator is the backslash.
pub open spec fn backslashed(s: Seq<char>) -> Seq<char> {
    s.map_values(|c: char| if c == '/' { '\\' } else { c })
}

/// Rewrites a path's slashes as backslashes; every other character is kept.
#[verifier::loop_isolation(false)]
pub fn replace_slashes(path: &str) -> (r: String)
    ensures
        r@ == backslashed(path@),
{
    let len = path.unicode_len();
    let mut r = String::new();
    let mut i: usize = 0;
    while i < len
        invariant
            len == path@.len(),
            0 <= i <= len,
            r@ == backslashed(path@.take(i as int)),
        decreases len - i,
    {
        if path.get_char(i) == '/' {
            r.append("\\");
            proof {
                reveal_strlit("\\");
                assert(r@ =~= backslashed(path@.take(i + 1)));
            }
        } else {
            r.append(path.substring_char(i, i + 1));
            proof {
                assert(r@ =~= backslashed(path@.take(i + 1)));
            }
        }
        i = i + 1;
    }
    proof {
        assert(path@.take(len as int) =~= path@);
    }
    r
}

pub open spec fn not_exists_prefix() -> Seq<char> {
    "Selected file does not exist: "@
}

pub open spec fn not_a_file_prefix() -> Seq<char> {
    "Selected path is not a file: "@
}

pub open spec fn unsupported_format_msg() -> Seq<char> {
    "Unsupported video format. Please choose one of: .mp4, .avi, .mkv, .mov, .wmv"@
}

/// Checks a selected path: it must exist on disk, be a regular file, and
/// carry a supported extension; each broken rule has its own message. The
/// host reports `exists` and `is_file` for the path.
pub fn validate_video_path(path: &str, exists: bool, is_file: bool) -> (r: Result<(), String>)
    ensures
        !exists ==> (r matches Err(e) && e@ == not_exists_prefix() + path@),
        exists && !is_file ==> (r matches Err(e) && e@ == not_a_file_prefix() + path@),
        exists && is_file && !spec_has_video_extension(path@) ==> (r matches Err(e) && e@
            == unsupported_format_msg()),
        r is Ok <==> exists && is_file && spec_has_video_extension(path@),
{
    if !exists {
        let mut e = "Selected file does not exist: ".to_owned();
        e.append(path);
        return Err(e);
    }
    if !is_file {
        let mut e = "Selected path is not a file: ".to_owned();
        e.append(path);
        return Err(e);
    }
    if !has_supported_video_extension(path) {
        return Err(
            "Unsupported video format. Please choose one of: .mp4, .avi, .mkv, .mov, .wmv".to_owned(),
        );
    }
    Ok(())
}

pub open spec fn folder_not_exists_prefix() -> Seq<char> {
    "Selected output folder does not exist: "@
}

pub open spec fn not_a_folder_prefix() -> Seq<char> {
    "Selected output location is not a folder: "@
}

/// Checks a selected output location: it must exist on disk and be a
/// directory. The host reports `exists` and `is_dir` for the path.
pub fn validate_output_folder(path: &str, exists: bool, is_dir: bool) -> (r: Result<(), String>)
    ensures
        !exists ==> (r matches Err(e) && e@ == folder_not_exists_prefix() + path@),
        exists && !is_dir ==> (r matches Err(e) && e@ == not_a_folder_prefix() + path@),
        r is Ok <==> exists && is_dir,
{
    if !exists {
        let mut e = "Selected output folder does not exist: ".to_owned();
        e.append(path);
        return Err(e);
    }
    if !is_dir {
        let mut e = "Selected output location is not a folder: ".to_owned();
        e.append(path);
        return Err(e);
    }
    Ok(())
}

pub open spec fn missing_file_name_msg() -> Seq<char> {
    "Unable to determine video file name."@
}

/// Builds the pre-probe record for a selected path, failing when the path
/// carries no file name. The host reports the on-disk size.
pub fn video_file_info(path: &str, size_bytes: u64) -> (r: Result<VideoFileInfo, String>)
    ensures
        spec_file_name(path@).len() == 0 ==> (r matches Err(e) && e@ == missing_file_name_msg()),
        spec_file_name(path@).len() > 0 ==> (r matches Ok(info) && {
            &&& info.path@ == path@
            &&& info.file_name@ == spec_file_name(path@)
            &&& info.size_bytes == size_bytes
        }),
{
    let file_name = match file_name_part(path) {
        None => {
            return Err("Unable to determine video file name.".to_owned());
        },
        Some(n) => n.to_owned(),
    };
    Ok(VideoFileInfo { path: path.to_owned(), file_name, size_bytes })
}

/// Combines the pre-probe record with the probed properties into the full
/// report for the caller.
pub fn video_info_from_probe(file: VideoFileInfo, props: VideoProperties) -> (r: VideoInfo)
    ensures
        r.path == file.path,
        r.file_name == file.file_name,
        r.size_bytes == file.size_bytes,
        r.duration_ms == props.duration_ms,
        r.format_name == props.format_name,
        r.codec_name == props.codec_name,
        r.width == props.width,
        r.height == props.height,
{
    VideoInfo {
        path: file.path,
        file_name: file.file_name,
        size_bytes: file.size_bytes,
        duration_ms: props.duration_ms,
        format_name: props.format_name,
        codec_name: props.codec_name,
        width: props.width,
        height: props.height,
    }
}

} // verus!
