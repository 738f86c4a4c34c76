//! Binary locator: resolves a named external binary by walking an ordered
//! list of candidate locations and taking the first that exists.
//!
//! The host supplies the directories it knows (and, per candidate, whether
//! the path exists on disk); the candidate order, the selection and the
//! prober's bare-name fallback are decided and verified here. Paths are
//! plain strings joined with '/'.

use vstd::prelude::*;
use crate::runner::FFmpegError;
use crate::text::views_of;

verus! {

/// The platform the application was built for.
#[derive(Clone, Copy, Debug, PartialEq, Eq, Structural)]
pub enum Platform {
    Windows,
    Linux,
    MacOs,
}

/// The platform-specific file names of the two external binaries.
#[derive(Clone, Debug)]
pub struct SidecarNames {
    pub ffmpeg_name: String,
    pub ffprobe_name: String,
}

/// The per-platform names of the bundled transcoder and prober binaries.
pub fn sidecar_names(platform: Platform) -> (r: SidecarNames)
    ensures
        platform is Windows ==> r.ffmpeg_name@ == "ffmpeg-x86_64-pc-windows-msvc.exe"@
            && r.ffprobe_name@ == "ffprobe-x86_64-pc-windows-msvc.exe"@,
        platform is Linux ==> r.ffmpeg_name@ == "ffmpeg-x86_64-unknown-linux-gnu"@
            && r.ffprobe_name@ == "ffprobe-x86_64-unknown-linux-gnu"@,
        platform is MacOs ==> r.ffmpeg_name@ == "ffmpeg-aarch64-apple-darwin"@ && r.ffprobe_name@
            == "ffprobe-aarch64-apple-darwin"@,
{
    match platform {
        Platform::Windows => SidecarNames {
            ffmpeg_name: "ffmpeg-x86_64-pc-windows-msvc.exe".to_owned(),
            ffprobe_name: "ffprobe-x86_64-pc-windows-msvc.exe".to_owned(),
        },
        Platform::Linux => SidecarNames {
            ffmpeg_name: "ffmpeg-x86_64-unknown-linux-gnu".to_owned(),
            ffprobe_name: "ffprobe-x86_64-unknown-linux-gnu".to_owned(),
        },
        Platform::MacOs => SidecarNames {
            ffmpeg_name: "ffmpeg-aarch64-apple-darwin".to_owned(),
            ffprobe_name: "ffprobe-aarch64-apple-darwin".to_owned(),
        },
    }
}

/// What the host knows about where to look: the directory of the running
/// executable, the packaged-resource directory, the working directory, and
/// the development source root if its environment variable is set.
/// `app_subdir` is the application's own subdirectory under the working
/// directory.
pub struct LocatorEnv {
    pub exe_dir: Option<String>,
    pub resource_dir: Option<String>,
    pub cwd: Option<String>,
    pub dev_root: Option<String>,
    pub app_subdir: String,
}

/// Two path components joined with a slash.
pub open spec fn spec_path_join(dir: Seq<char>, name: Seq<char>) -> Seq<char> {
    dir + seq!['/'] + name
}

/// Joins a directory and a name with a slash.
pub fn path_join(dir: &str, name: &str) -> (r: String)
    ensures
        r@ == spec_path_join(dir@, name@),
{
    let mut r = dir.to_owned();
    r.append("/");
    r.append(name);
    proof {
        reveal_strlit("/");
        assert(r@ =~= spec_path_join(dir@, name@));
    }
    r
}

/// The index of the last '/', or -1 if there is none.
pub open spec fn last_slash(s: Seq<char>) -> int
    decreases s.len(),
{
    if s.len() == 0 {
        -1
    } else if s.last() == '/' {
        s.len() - 1
    } else {
        last_slash(s.drop_last())
    }
}

/// The directory part of a path: everything before the last slash, the
/// root "/" when the only slash leads, nothing when there is no slash.
pub open spec fn spec_parent_dir(s: Seq<char>) -> Option<Seq<char>> {
    if last_slash(s) == -1 {
        None
    } else if last_slash(s) == 0 {
        Some(seq!['/'])
    } else {
        Some(s.take(last_slash(s)))
    }
}

proof fn lemma_last_slash_is(s: Seq<char>, i: int)
    requires
        -1 <= i < s.len(),
        forall|j: int| i < j < s.len() ==> s[j] != '/',
        i >= 0 ==> s[i] == '/',
    ensures
        last_slash(s) == i,
    decreases s.len(),
{
    if s.len() > 0 && s.last() != '/' {
        let t = s.drop_last();
        assert(forall|j: int| i < j < t.len() ==> t[j] == s[j]);
        lemma_last_slash_is(t, i);
    }
}

/// The directory part of a path, by the model above.
#[verifier::loop_isolation(false)]
pub fn parent_dir(s: &str) -> (r: Option<&str>)
    ensures
        r is Some <==> spec_parent_dir(s@) is Some,
        r matches Some(p) ==> spec_parent_dir(s@) matches Some(q) && p@ == q,
{
    let len = s.unicode_len();
    let mut k: usize = len;
    while k > 0 && s.get_char(k - 1) != '/'
        invariant
            0 <= k <= len,
            forall|j: int| k <= j < len ==> s@[j] != '/',
        decreases k,
    {
        k = k - 1;
    }
    if k == 0 {
        proof {
            lemma_last_slash_is(s@, -1);
        }
        None
    } else if k == 1 {
        proof {
            lemma_last_slash_is(s@, 0);
            reveal_strlit("/");
            assert("/"@ =~= seq!['/']);
        }
        Some("/")
    } else {
        proof {
            lemma_last_slash_is(s@, k - 1);
        }
        Some(s.substring_char(0, k - 1))
    }
}

/// The ordered candidate paths for a binary name: the executable's
/// directory, its parent, that parent's Resources subdirectory, the
/// packaged-resource directory, the working directory's own binaries
/// trees, and the development root's, each only when the host knows the
/// directory.
pub open spec fn spec_candidates(name: Seq<char>, env: LocatorEnv) -> Seq<Seq<char>> {
    (match env.exe_dir {
        None => Seq::empty(),
        Some(dir) => seq![spec_path_join(dir@, name)] + match spec_parent_dir(dir@) {
            None => Seq::empty(),
            Some(parent) => seq![
                spec_path_join(parent, name),
                spec_path_join(spec_path_join(parent, "Resources"@), name),
            ],
        },
    }) + (match env.resource_dir {
        None => Seq::empty(),
        Some(dir) => seq![spec_path_join(dir@, name)],
    }) + (match env.cwd {
        None => Seq::empty(),
        Some(dir) => seq![
            spec_path_join(
                spec_path_join(spec_path_join(dir@, env.app_subdir@), "binaries"@),
                name,
            ),
            spec_path_join(spec_path_join(dir@, "binaries"@), name),
        ],
    }) + (match env.dev_root {
        None => Seq::empty(),
        Some(dir) => seq![spec_path_join(spec_path_join(dir@, "binaries"@), name)],
    })
}

/// Builds the candidate list for a binary name, in resolution order.
pub fn candidate_paths(binary_name: &str, env: &LocatorEnv) -> (r: Vec<String>)
    ensures
        views_of(r@) == spec_candidates(binary_name@, *env),
{
    let mut r: Vec<String> = Vec::new();
    match &env.exe_dir {
        None => {
        },
        Some(dir) => {
            r.push(path_join(dir.as_str(), binary_name));
            match parent_dir(dir.as_str()) {
                None => {
                },
                Some(parent) => {
                    r.push(path_join(parent, binary_name));
                    let resources = path_join(parent, "Resources");
                    r.push(path_join(resources.as_str(), binary_name));
                },
            }
        },
    }
    match &env.resource_dir {
        None => {
        },
        Some(dir) => {
            r.push(path_join(dir.as_str(), binary_name));
        },
    }
    match &env.cwd {
        None => {
        },
        Some(dir) => {
            let app_dir = path_join(dir.as_str(), env.app_subdir.as_str());
            let app_binaries = path_join(app_dir.as_str(), "binaries");
            r.push(path_join(app_binaries.as_str(), binary_name));
            let binaries = path_join(dir.as_str(), "binaries");
            r.push(path_join(binaries.as_str(), binary_name));
        },
    }
    match &env.dev_root {
        None => {
        },
        Some(dir) => {
            let binaries = path_join(dir.as_str(), "binaries");
            r.push(path_join(binaries.as_str(), binary_name));
        },
    }
    proof {
        assert(views_of(r@) =~= spec_candidates(binary_name@, *env));
    }
    r
}

/// The index of the first true flag, or -1 if none is set.
pub open spec fn first_true(flags: Seq<bool>) -> int
    decreases flags.len(),
{
    if flags.len() == 0 {
        -1
    } else if flags[0] {
        0
    } else if first_true(flags.drop_first()) == -1 {
        -1
    } else {
        1 + first_true(flags.drop_first())
    }
}

proof fn lemma_first_true_is(flags: Seq<bool>, i: int)
    requires
        0 <= i <= flags.len(),
        forall|j: int| 0 <= j < i ==> !flags[j],
        i < flags.len() ==> flags[i],
    ensures
        first_true(flags) == if i < flags.len() {
            i
        } else {
            -1
        },
    decreases flags.len(),
{
    if flags.len() > 0 {
        if i > 0 {
            let t = flags.drop_first();
            assert(forall|j: int| 0 <= j < i - 1 ==> t[j] == flags[j + 1]);
            lemma_first_true_is(t, i - 1);
        }
    }
}

/// Resolves a binary: the first candidate that exists wins; when none
/// exists the error lists every candidate that was checked. `exists[i]`
/// reports whether `candidates[i]` exists on disk.
#[verifier::loop_isolation(false)]
pub fn find_sidecar(binary_name: &str, candidates: &Vec<String>, exists: &Vec<bool>) -> (r: Result<
    String,
    FFmpegError,
>)
    requires
        exists@.len() == candidates@.len(),
    ensures
        first_true(exists@) >= 0 ==> (r matches Ok(p) && p@ == candidates@[first_true(
            exists@,
        )]@),
        first_true(exists@) == -1 ==> (r matches Err(e) && e matches
            FFmpegError::BinaryNotFound { binary, searched_paths } && binary@ == binary_name@
            && views_of(searched_paths@) == views_of(candidates@)),
{
    let mut i: usize = 0;
    while i < candidates.len()
        invariant
            0 <= i <= candidates@.len(),
            forall|j: int| 0 <= j < i ==> !exists@[j],
        decreases candidates@.len() - i,
    {
        if exists[i] {
            proof {
                lemma_first_true_is(exists@, i as int);
            }
            return Ok(candidates[i].clone());
        }
        i = i + 1;
    }
    proof {
        lemma_first_true_is(exists@, exists@.len() as int);
    }
    let mut searched: Vec<String> = Vec::new();
    let mut k: usize = 0;
    while k < candidates.len()
        invariant
            0 <= k <= candidates@.len(),
            searched@.len() == k,
            forall|j: int| 0 <= j < k ==> #[trigger] searched@[j]@ == candidates@[j]@,
        decreases candidates@.len() - k,
    {
        searched.push(candidates[k].clone());
        k = k + 1;
    }
    proof {
        assert(views_of(searched@) =~= views_of(candidates@));
    }
    Err(FFmpegError::BinaryNotFound { binary: binary_name.to_owned(), searched_paths: searched })
}

/// Resolves the transcoder binary: first existing candidate, else the
/// not-found error.
pub fn get_ffmpeg_binary_path(binary_name: &str, candidates: &Vec<String>, exists: &Vec<bool>) -> (
    r: Result<String, FFmpegError>)
    requires
        exists@.len() == candidates@.len(),
    ensures
        first_true(exists@) >= 0 ==> (r matches Ok(p) && p@ == candidates@[first_true(
            exists@,
        )]@),
        first_true(exists@) == -1 ==> (r matches Err(e) && e matches
            FFmpegError::BinaryNotFound { binary, searched_paths } && binary@ == binary_name@
            && views_of(searched_paths@) == views_of(candidates@)),
{
    find_sidecar(binary_name, candidates, exists)
}

/// Resolves the prober binary: first existing candidate, else the bare
/// command name "ffprobe", relying on a system-wide installation. This
/// degraded-mode fallback never fails.
pub fn get_ffprobe_binary_path(binary_name: &str, candidates: &Vec<String>, exists: &Vec<bool>)
    -> (r: String)
    requires
        exists@.len() == candidates@.len(),
    ensures
        first_true(exists@) >= 0 ==> r@ == candidates@[first_true(exists@)]@,
        first_true(exists@) == -1 ==> r@ == "ffprobe"@,
{
    match find_sidecar(binary_name, candidates, exists) {
        Ok(path) => path,
        Err(_) => "ffprobe".to_owned(),
    }
}

} // verus!
