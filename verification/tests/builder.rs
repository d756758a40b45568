use dvzoll::{
    build_command, build_extractor_args, build_music_args, select_tool, tool_program_name,
    DownloadRequest, Mode, Platform, Tool,
};

fn request(url: &str, mode: Mode, quality: &str, platform: Platform, is_playlist: bool)
    -> DownloadRequest {
    DownloadRequest {
        url: url.to_string(),
        mode,
        quality: quality.to_string(),
        platform,
        is_playlist,
    }
}

#[test]
fn audio_flac_request_gets_extraction_flag_and_format() {
    let req = request("https://x/1", Mode::Audio, "flac", Platform::Youtube, false);
    let (tool, args) = build_command(&req, "/tmp/out");
    assert_eq!(tool, Tool::Extractor);
    assert!(args.contains(&"-x".to_string()));
    assert!(args.contains(&"flac".to_string()));
    assert!(args.contains(&"--audio-format".to_string()));
    assert!(args.contains(&"--no-playlist".to_string()));
    assert!(!args.contains(&"--yes-playlist".to_string()));
}

#[test]
fn extractor_args_exact_for_audio_flac() {
    let req = request("https://x/1", Mode::Audio, "flac", Platform::Youtube, false);
    let args = build_extractor_args(&req, "/d");
    assert_eq!(
        args,
        vec![
            "https://x/1",
            "-o",
            "/d/%(title)s.%(ext)s",
            "--no-overwrites",
            "-x",
            "--audio-format",
            "flac",
            "--no-playlist",
        ]
    );
}

#[test]
fn unknown_audio_quality_takes_mp3_default() {
    let req = request("u", Mode::Audio, "mp3-320", Platform::Other, false);
    let args = build_extractor_args(&req, "/d");
    assert_eq!(
        args,
        vec![
            "u",
            "-o",
            "/d/%(title)s.%(ext)s",
            "--no-overwrites",
            "-x",
            "--audio-format",
            "mp3",
            "--audio-quality",
            "0",
            "--no-playlist",
        ]
    );
}

#[test]
fn empty_quality_token_still_maps() {
    let req = request("u", Mode::Audio, "", Platform::Youtube, false);
    let args = build_extractor_args(&req, "/d");
    assert!(args.contains(&"--audio-format".to_string()));
    assert!(args.contains(&"mp3".to_string()));
}

#[test]
fn video_1080p_selects_resolution_ceiling() {
    let req = request("u", Mode::Video, "1080p", Platform::Youtube, false);
    let args = build_extractor_args(&req, "/d");
    assert_eq!(
        args,
        vec![
            "u",
            "-o",
            "/d/%(title)s.%(ext)s",
            "--no-overwrites",
            "-f",
            "bestvideo[height<=1080]+bestaudio/best[height<=1080]",
            "--merge-output-format",
            "mp4",
            "--no-playlist",
        ]
    );
}

#[test]
fn unknown_video_quality_takes_best_available() {
    let req = request("u", Mode::Video, "potato", Platform::Other, true);
    let args = build_extractor_args(&req, "/d");
    assert!(args.contains(&"bestvideo+bestaudio/best".to_string()));
    assert!(args.contains(&"mp4".to_string()));
}

#[test]
fn playlist_toggle_yields_exactly_one_flag() {
    let on = build_extractor_args(
        &request("u", Mode::Video, "720p", Platform::Youtube, true),
        "/d",
    );
    assert!(on.contains(&"--yes-playlist".to_string()));
    assert!(!on.contains(&"--no-playlist".to_string()));
    let off = build_extractor_args(
        &request("u", Mode::Video, "720p", Platform::Youtube, false),
        "/d",
    );
    assert!(off.contains(&"--no-playlist".to_string()));
    assert!(!off.contains(&"--yes-playlist".to_string()));
}

#[test]
fn no_overwrite_flag_always_present() {
    for mode in [Mode::Audio, Mode::Video] {
        let args = build_extractor_args(
            &request("u", mode, "anything", Platform::Youtube, false),
            "/d",
        );
        assert!(args.contains(&"--no-overwrites".to_string()));
    }
}

#[test]
fn platform_alone_selects_the_tool() {
    assert_eq!(select_tool(Platform::Spotify), Tool::Music);
    assert_eq!(select_tool(Platform::Youtube), Tool::Extractor);
    assert_eq!(select_tool(Platform::Other), Tool::Extractor);
    for mode in [Mode::Audio, Mode::Video] {
        for is_playlist in [false, true] {
            let req = request("u", mode, "q", Platform::Spotify, is_playlist);
            let (tool, _) = build_command(&req, "/d");
            assert_eq!(tool, Tool::Music);
        }
    }
}

#[test]
fn music_args_exact_for_flac() {
    let req = request("https://s/2", Mode::Audio, "flac", Platform::Spotify, false);
    let args = build_music_args(&req, "/d");
    assert_eq!(
        args,
        vec!["download", "https://s/2", "--output", "/d", "--format", "flac"]
    );
}

#[test]
fn music_args_unknown_quality_takes_mp3_320() {
    let req = request("u", Mode::Audio, "high", Platform::Spotify, false);
    let args = build_music_args(&req, "/d");
    assert_eq!(
        args,
        vec!["download", "u", "--output", "/d", "--format", "mp3", "--bitrate", "320k"]
    );
}

#[test]
fn tool_program_names() {
    assert_eq!(tool_program_name(Tool::Extractor), "yt-dlp");
    assert_eq!(tool_program_name(Tool::Music), "spotdl");
}
