use video_prep::locator::candidate_paths;
use video_prep::locator::find_sidecar;
use video_prep::locator::get_ffmpeg_binary_path;
use video_prep::locator::get_ffprobe_binary_path;
use video_prep::locator::sidecar_names;
use video_prep::locator::LocatorEnv;
use video_prep::locator::Platform;
use video_prep::runner::FFmpegError;

fn full_env() -> LocatorEnv {
    LocatorEnv {
        exe_dir: Some("/opt/app/bin".to_string()),
        resource_dir: Some("/opt/app/resources".to_string()),
        cwd: Some("/work".to_string()),
        dev_root: Some("/home/dev/project".to_string()),
        app_subdir: "src-tauri".to_string(),
    }
}

#[test]
fn candidates_follow_documented_priority_order() {
    let paths = candidate_paths("probe-bin", &full_env());
    assert_eq!(
        paths,
        vec![
            "/opt/app/bin/probe-bin".to_string(),
            "/opt/app/probe-bin".to_string(),
            "/opt/app/Resources/probe-bin".to_string(),
            "/opt/app/resources/probe-bin".to_string(),
            "/work/src-tauri/binaries/probe-bin".to_string(),
            "/work/binaries/probe-bin".to_string(),
            "/home/dev/project/binaries/probe-bin".to_string(),
        ]
    );
}

#[test]
fn unknown_directories_are_skipped() {
    let env = LocatorEnv {
        exe_dir: None,
        resource_dir: None,
        cwd: Some("/work".to_string()),
        dev_root: None,
        app_subdir: "src-tauri".to_string(),
    };
    let paths = candidate_paths("probe-bin", &env);
    assert_eq!(
        paths,
        vec![
            "/work/src-tauri/binaries/probe-bin".to_string(),
            "/work/binaries/probe-bin".to_string(),
        ]
    );
}

#[test]
fn first_existing_candidate_wins() {
    let candidates = candidate_paths("probe-bin", &full_env());
    let exists = vec![false, false, true, false, true, false, false];
    let found = find_sidecar("probe-bin", &candidates, &exists).expect("should resolve");
    assert_eq!(found, "/opt/app/Resources/probe-bin");
}

#[test]
fn missing_binary_reports_every_searched_path() {
    let candidates = candidate_paths("probe-bin", &full_env());
    let exists = vec![false; candidates.len()];
    let err = find_sidecar("probe-bin", &candidates, &exists).unwrap_err();
    match &err {
        FFmpegError::BinaryNotFound { binary, searched_paths } => {
            assert_eq!(binary, "probe-bin");
            assert_eq!(searched_paths, &candidates);
        }
        other => panic!("expected BinaryNotFound, got {other:?}"),
    }
    assert_eq!(
        err.message(),
        "Unable to locate probe-bin binary. Searched: /opt/app/bin/probe-bin, \
         /opt/app/probe-bin, /opt/app/Resources/probe-bin, /opt/app/resources/probe-bin, \
         /work/src-tauri/binaries/probe-bin, /work/binaries/probe-bin, \
         /home/dev/project/binaries/probe-bin"
    );
}

#[test]
fn transcoder_resolution_has_no_fallback() {
    let candidates = vec!["/a/ffmpeg-bin".to_string()];
    let err = get_ffmpeg_binary_path("ffmpeg-bin", &candidates, &vec![false]).unwrap_err();
    assert!(matches!(err, FFmpegError::BinaryNotFound { .. }));
    let ok = get_ffmpeg_binary_path("ffmpeg-bin", &candidates, &vec![true]).unwrap();
    assert_eq!(ok, "/a/ffmpeg-bin");
}

#[test]
fn prober_falls_back_to_bare_name() {
    let candidates = vec!["/a/probe-bin".to_string(), "/b/probe-bin".to_string()];
    let found = get_ffprobe_binary_path("probe-bin", &candidates, &vec![false, true]);
    assert_eq!(found, "/b/probe-bin");
    let fallback = get_ffprobe_binary_path("probe-bin", &candidates, &vec![false, false]);
    assert_eq!(fallback, "ffprobe");
}

#[test]
fn sidecar_names_are_platform_specific() {
    let w = sidecar_names(Platform::Windows);
    assert_eq!(w.ffmpeg_name, "ffmpeg-x86_64-pc-windows-msvc.exe");
    assert_eq!(w.ffprobe_name, "ffprobe-x86_64-pc-windows-msvc.exe");
    let l = sidecar_names(Platform::Linux);
    assert_eq!(l.ffmpeg_name, "ffmpeg-x86_64-unknown-linux-gnu");
    assert_eq!(l.ffprobe_name, "ffprobe-x86_64-unknown-linux-gnu");
    let m = sidecar_names(Platform::MacOs);
    assert_eq!(m.ffmpeg_name, "ffmpeg-aarch64-apple-darwin");
    assert_eq!(m.ffprobe_name, "ffprobe-aarch64-apple-darwin");
}
