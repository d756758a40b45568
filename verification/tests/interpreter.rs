use dvzoll::{
    clean_extractor_error, clean_music_error, dir_error_result, interpret_extractor_outcome,
    interpret_music_outcome, launch_error_result, parse_output_file, parse_title,
    resolve_output_path, Tool,
};

#[test]
fn later_destination_line_wins() {
    let stdout = "[download] Destination: /a/clip.webm\n\
                  [ExtractAudio] Destination: /a/clip.mp3\n";
    assert_eq!(parse_output_file(stdout), Some("/a/clip.mp3".to_string()));
}

#[test]
fn already_downloaded_line_yields_its_path() {
    let stdout = "[download] /a/song.mp3 has already been downloaded\n";
    assert_eq!(parse_output_file(stdout), Some("/a/song.mp3".to_string()));
}

#[test]
fn destination_supersedes_earlier_already_downloaded() {
    let stdout = "[download] /a/x.webm has already been downloaded\n\
                  [ExtractAudio] Destination: /a/x.flac\n";
    assert_eq!(parse_output_file(stdout), Some("/a/x.flac".to_string()));
}

#[test]
fn no_recoverable_path_yields_none() {
    assert_eq!(parse_output_file("plain progress output\nnothing of note\n"), None);
    assert_eq!(parse_output_file(""), None);
}

#[test]
fn empty_destination_path_is_not_a_path() {
    assert_eq!(parse_output_file("[download] Destination:   \n"), None);
}

#[test]
fn already_downloaded_needs_download_tag() {
    let stdout = "something has already been downloaded\n";
    assert_eq!(parse_output_file(stdout), None);
}

#[test]
fn title_is_file_stem() {
    let path = Some("/a/b/Song Title.mp3".to_string());
    assert_eq!(parse_title("", &path), "Song Title");
}

#[test]
fn title_keeps_leading_dot_names() {
    let path = Some("/a/.config".to_string());
    assert_eq!(parse_title("", &path), ".config");
}

#[test]
fn title_without_path_is_placeholder() {
    assert_eq!(parse_title("whatever", &None), "Media");
}

#[test]
fn missing_file_falls_back_to_directory() {
    let parsed = Some("/a/gone.mp3".to_string());
    assert_eq!(resolve_output_path(&parsed, false, "/out"), "/out");
    assert_eq!(resolve_output_path(&parsed, true, "/out"), "/a/gone.mp3");
    assert_eq!(resolve_output_path(&None, false, "/out"), "/out");
}

#[test]
fn success_without_path_reports_directory_and_placeholder() {
    let r = interpret_extractor_outcome("no markers here\n", "", true, false, "/out");
    assert!(r.success);
    assert_eq!(r.message, "Downloaded \"Media\" successfully");
    assert_eq!(r.output_path, Some("/out".to_string()));
}

#[test]
fn success_with_existing_path_reports_it() {
    let stdout = "[ExtractAudio] Destination: /a/Tune.flac\n";
    let r = interpret_extractor_outcome(stdout, "", true, true, "/out");
    assert!(r.success);
    assert_eq!(r.message, "Downloaded \"Tune\" successfully");
    assert_eq!(r.output_path, Some("/a/Tune.flac".to_string()));
}

#[test]
fn success_with_vanished_path_reports_directory() {
    let stdout = "[download] Destination: /a/Tune.webm\n";
    let r = interpret_extractor_outcome(stdout, "", true, false, "/out");
    assert!(r.success);
    assert_eq!(r.output_path, Some("/out".to_string()));
}

#[test]
fn extractor_error_line_is_condensed() {
    let stderr = "WARNING: something minor\nERROR: Video unavailable\nmore noise\n";
    assert_eq!(clean_extractor_error(stderr), "Video unavailable");
}

#[test]
fn extractor_error_marker_midline_keeps_line() {
    let stderr = "[youtube] ERROR: blocked\n";
    assert_eq!(clean_extractor_error(stderr), "[youtube] ERROR: blocked");
}

#[test]
fn empty_stderr_is_unknown_error() {
    assert_eq!(clean_extractor_error(""), "Unknown error occurred");
}

#[test]
fn short_stderr_passes_through() {
    assert_eq!(clean_extractor_error("it broke"), "it broke");
}

#[test]
fn long_stderr_is_truncated_with_ellipsis() {
    let stderr = "x".repeat(300);
    let cleaned = clean_extractor_error(&stderr);
    assert_eq!(cleaned.chars().count(), 201);
    assert!(cleaned.starts_with(&"x".repeat(200)));
    assert!(cleaned.ends_with('\u{2026}'));
}

#[test]
fn failed_extractor_run_reports_error() {
    let r = interpret_extractor_outcome("", "ERROR: no video\n", false, false, "/out");
    assert!(!r.success);
    assert_eq!(r.message, "no video");
    assert_eq!(r.output_path, None);
}

#[test]
fn music_error_line_found_case_insensitively() {
    let stderr = "note\n  An ERROR happened here  \nrest\n";
    assert_eq!(clean_music_error("", stderr), "An ERROR happened here");
}

#[test]
fn music_error_falls_back_to_stdout_when_stderr_empty() {
    assert_eq!(clean_music_error("all output\n", ""), "all output\n");
}

#[test]
fn music_error_falls_back_to_stderr() {
    assert_eq!(clean_music_error("out", "broken\n"), "broken\n");
}

#[test]
fn music_success_reports_directory() {
    let r = interpret_music_outcome("", "", true, "/out");
    assert!(r.success);
    assert_eq!(r.message, "Spotify download complete");
    assert_eq!(r.output_path, Some("/out".to_string()));
}

#[test]
fn music_failure_reports_condensed_error() {
    let r = interpret_music_outcome("", "Error: bad url\n", false, "/out");
    assert!(!r.success);
    assert_eq!(r.message, "Error: bad url");
    assert_eq!(r.output_path, None);
}

#[test]
fn launch_error_carries_remediation_hint() {
    let r = launch_error_result(Tool::Extractor, "No such file");
    assert!(!r.success);
    assert_eq!(r.message, "Could not run yt-dlp \u{2014} is it installed? (No such file)");
    assert_eq!(r.output_path, None);
    let r2 = launch_error_result(Tool::Music, "denied");
    assert_eq!(r2.message, "Could not run spotdl \u{2014} is it installed? (denied)");
}

#[test]
fn directory_error_short_circuits() {
    let r = dir_error_result("permission denied");
    assert!(!r.success);
    assert_eq!(r.message, "Failed to create output directory: permission denied");
    assert_eq!(r.output_path, None);
}

#[test]
fn surrounding_whitespace_is_trimmed_from_paths() {
    let stdout = "   [download] Destination:   /a/My Song.mp3  \n";
    assert_eq!(parse_output_file(stdout), Some("/a/My Song.mp3".to_string()));
}

#[test]
fn repeated_error_marker_is_stripped() {
    assert_eq!(clean_extractor_error("ERROR:ERROR: doubled\n"), "doubled");
}

#[test]
fn already_downloaded_without_a_path_yields_nothing() {
    assert_eq!(parse_output_file("[download]  has already been downloaded\n"), None);
}

#[test]
fn crlf_lines_are_handled() {
    let stdout = "[download] Destination: /a/b.mp3\r\n";
    assert_eq!(parse_output_file(stdout), Some("/a/b.mp3".to_string()));
}
