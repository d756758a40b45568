//! The argument builder: a pure map from a download request and a resolved
//! output directory to the argument list of exactly one external tool,
//! chosen by the request's platform.

use vstd::prelude::*;
use crate::request::{DownloadRequest, Mode, Platform, Tool};
use crate::text::str_eq;

verus! {

/// Which tool serves a platform: the music service goes to the music
/// downloader, everything else to the general extractor.
pub open spec fn tool_of(p: Platform) -> Tool {
    match p {
        Platform::Spotify => Tool::Music,
        _ => Tool::Extractor,
    }
}

/// The extractor's output template: the directory plus the tool-native
/// placeholder for title and extension.
pub open spec fn output_template(dir: Seq<char>) -> Seq<char> {
    dir + "/%(title)s.%(ext)s"@
}

/// Audio codec arguments of the extractor, keyed by the quality token.
/// Every token has a mapping; unrecognized ones take the mp3 default at
/// maximum quality.
pub open spec fn audio_format_args(quality: Seq<char>) -> Seq<Seq<char>> {
    if quality == "flac"@ {
        seq!["--audio-format"@, "flac"@]
    } else if quality == "wav"@ {
        seq!["--audio-format"@, "wav"@]
    } else if quality == "aac"@ {
        seq!["--audio-format"@, "m4a"@]
    } else {
        seq!["--audio-format"@, "mp3"@, "--audio-quality"@, "0"@]
    }
}

/// The extractor's resolution-ceiling expression, keyed by the quality
/// token; unrecognized tokens take the best available stream.
pub open spec fn video_format_expr(quality: Seq<char>) -> Seq<char> {
    if quality == "4k"@ || quality == "2160p"@ {
        "bestvideo[height<=2160]+bestaudio/best[height<=2160]"@
    } else if quality == "2k"@ || quality == "1440p"@ {
        "bestvideo[height<=1440]+bestaudio/best[height<=1440]"@
    } else if quality == "1080p"@ {
        "bestvideo[height<=1080]+bestaudio/best[height<=1080]"@
    } else if quality == "720p"@ {
        "bestvideo[height<=720]+bestaudio/best[height<=720]"@
    } else {
        "bestvideo+bestaudio/best"@
    }
}

/// The playlist toggle: exactly one of the two flags, by `is_playlist`.
pub open spec fn playlist_flag(is_playlist: bool) -> Seq<char> {
    if is_playlist {
        "--yes-playlist"@
    } else {
        "--no-playlist"@
    }
}

/// The full extractor argument list for one request.
pub open spec fn extractor_args(
    url: Seq<char>,
    mode: Mode,
    quality: Seq<char>,
    is_playlist: bool,
    dir: Seq<char>,
) -> Seq<Seq<char>> {
    let base = seq![url, "-o"@, output_template(dir), "--no-overwrites"@];
    let with_format = match mode {
        Mode::Audio => base + seq!["-x"@] + audio_format_args(quality),
        Mode::Video => base + seq![
            "-f"@,
            video_format_expr(quality),
            "--merge-output-format"@,
            "mp4"@,
        ],
    };
    with_format + seq![playlist_flag(is_playlist)]
}

/// Format arguments of the music downloader, keyed by the quality token;
/// unrecognized ones take mp3 at a 320k bitrate.
pub open spec fn music_format_args(quality: Seq<char>) -> Seq<Seq<char>> {
    if quality == "flac"@ {
        seq!["--format"@, "flac"@]
    } else if quality == "wav"@ {
        seq!["--format"@, "wav"@]
    } else if quality == "aac"@ {
        seq!["--format"@, "m4a"@]
    } else {
        seq!["--format"@, "mp3"@, "--bitrate"@, "320k"@]
    }
}

/// The full music-downloader argument list for one request.
pub open spec fn music_args(url: Seq<char>, quality: Seq<char>, dir: Seq<char>) -> Seq<
    Seq<char>,
> {
    seq!["download"@, url, "--output"@, dir] + music_format_args(quality)
}

/// The argument list of the tool that `tool_of` picks for the request.
pub open spec fn request_args(
    url: Seq<char>,
    mode: Mode,
    quality: Seq<char>,
    platform: Platform,
    is_playlist: bool,
    dir: Seq<char>,
) -> Seq<Seq<char>> {
    match tool_of(platform) {
        Tool::Music => music_args(url, quality, dir),
        Tool::Extractor => extractor_args(url, mode, quality, is_playlist, dir),
    }
}

/// Law: every quality token outside the lookup tables takes the documented
/// default branch — mp3 at maximum quality for the extractor, mp3 at a
/// 320k bitrate for the music downloader, and the best available stream
/// for video — and the format argument is never omitted.
pub proof fn lemma_unknown_quality_defaults(quality: Seq<char>)
    requires
        quality != "flac"@,
        quality != "wav"@,
        quality != "aac"@,
    ensures
        audio_format_args(quality) == seq![
            "--audio-format"@,
            "mp3"@,
            "--audio-quality"@,
            "0"@,
        ],
        music_format_args(quality) == seq!["--format"@, "mp3"@, "--bitrate"@, "320k"@],
{
}

/// Law: every video quality token outside the resolution table maps to the
/// best-available expression.
pub proof fn lemma_unknown_video_quality_default(quality: Seq<char>)
    requires
        quality != "4k"@,
        quality != "2160p"@,
        quality != "2k"@,
        quality != "1440p"@,
        quality != "1080p"@,
        quality != "720p"@,
    ensures
        video_format_expr(quality) == "bestvideo+bestaudio/best"@,
{
}

/// Law: whatever the quality token, the format argument is present — the
/// audio and music tables always open with their format switch, and the
/// video branch always carries a format expression.
pub proof fn lemma_format_args_total(quality: Seq<char>)
    ensures
        audio_format_args(quality).len() >= 2,
        audio_format_args(quality)[0] == "--audio-format"@,
        music_format_args(quality).len() >= 2,
        music_format_args(quality)[0] == "--format"@,
{
}

/// Law: exactly one of the two command lines is produced for a request,
/// and the choice rests on the platform field alone: the music downloader
/// for the music service, the extractor for everything else.
pub proof fn lemma_tool_choice(p: Platform)
    ensures
        (tool_of(p) == Tool::Music) <==> (p == Platform::Spotify),
        (tool_of(p) == Tool::Extractor) <==> (p != Platform::Spotify),
{
}

/// Law: `is_playlist` yields its own playlist flag and never the opposite
/// one. The one input left out: a URL that is itself one of the two flag
/// strings would appear in the list as the URL argument.
pub proof fn lemma_playlist_flag_exclusive(
    url: Seq<char>,
    mode: Mode,
    quality: Seq<char>,
    is_playlist: bool,
    dir: Seq<char>,
)
    requires
        url != "--yes-playlist"@,
        url != "--no-playlist"@,
    ensures
        extractor_args(url, mode, quality, is_playlist, dir).contains(
            playlist_flag(is_playlist),
        ),
        is_playlist ==> !extractor_args(url, mode, quality, is_playlist, dir).contains(
            "--no-playlist"@,
        ),
        !is_playlist ==> !extractor_args(url, mode, quality, is_playlist, dir).contains(
            "--yes-playlist"@,
        ),
{
    let a = extractor_args(url, mode, quality, is_playlist, dir);
    let yes = "--yes-playlist"@;
    let no = "--no-playlist"@;
    reveal_strlit("--yes-playlist");
    reveal_strlit("--no-playlist");
    reveal_strlit("-o");
    reveal_strlit("/%(title)s.%(ext)s");
    reveal_strlit("--no-overwrites");
    reveal_strlit("-x");
    reveal_strlit("--audio-format");
    reveal_strlit("flac");
    reveal_strlit("wav");
    reveal_strlit("m4a");
    reveal_strlit("mp3");
    reveal_strlit("--audio-quality");
    reveal_strlit("0");
    reveal_strlit("-f");
    reveal_strlit("bestvideo[height<=2160]+bestaudio/best[height<=2160]");
    reveal_strlit("bestvideo[height<=1440]+bestaudio/best[height<=1440]");
    reveal_strlit("bestvideo[height<=1080]+bestaudio/best[height<=1080]");
    reveal_strlit("bestvideo[height<=720]+bestaudio/best[height<=720]");
    reveal_strlit("bestvideo+bestaudio/best");
    reveal_strlit("--merge-output-format");
    reveal_strlit("mp4");
    assert(yes.len() == 14);
    assert(no.len() == 13);
    assert(a[a.len() - 1] == playlist_flag(is_playlist));
    assert(a.contains(playlist_flag(is_playlist)));
    assert(output_template(dir).len() == dir.len() + 18);
    assert(("--audio-format"@)[2] == 'a' && yes[2] == 'y');
    assert("--audio-format"@ != yes);
    let other = if is_playlist { no } else { yes };
    assert(playlist_flag(is_playlist) != other);
    assert forall|k: int| 0 <= k < a.len() implies a[k] != other by {
        assert(a[k] == a[k]);
    }
    if a.contains(other) {
        let k = choose|k: int| 0 <= k < a.len() && a[k] == other;
        assert(a[k] != other);
    }
}

/// Route a platform to its tool.
pub fn select_tool(p: Platform) -> (t: Tool)
    ensures
        t == tool_of(p),
{
    match p {
        Platform::Spotify => Tool::Music,
        _ => Tool::Extractor,
    }
}

/// The program name a tool is launched as.
pub open spec fn tool_program(t: Tool) -> Seq<char> {
    match t {
        Tool::Extractor => "yt-dlp"@,
        Tool::Music => "spotdl"@,
    }
}

/// The program name a tool is launched as, concretely.
pub fn tool_program_name(t: Tool) -> (r: String)
    ensures
        r@ == tool_program(t),
{
    match t {
        Tool::Extractor => String::from_str("yt-dlp"),
        Tool::Music => String::from_str("spotdl"),
    }
}

/// Build the extractor argument list for a request.
pub fn build_extractor_args(req: &DownloadRequest, output_dir: &str) -> (r: Vec<String>)
    ensures
        r@.map_values(|s: String| s@) == extractor_args(
            req.url@,
            req.mode,
            req.quality@,
            req.is_playlist,
            output_dir@,
        ),
{
    let mut args: Vec<String> = Vec::new();
    args.push(req.url.clone());
    args.push(String::from_str("-o"));
    args.push(String::from_str(output_dir).concat("/%(title)s.%(ext)s"));
    args.push(String::from_str("--no-overwrites"));
    match req.mode {
        Mode::Audio => {
            args.push(String::from_str("-x"));
            if str_eq(req.quality.as_str(), "flac") {
                args.push(String::from_str("--audio-format"));
                args.push(String::from_str("flac"));
            } else if str_eq(req.quality.as_str(), "wav") {
                args.push(String::from_str("--audio-format"));
                args.push(String::from_str("wav"));
            } else if str_eq(req.quality.as_str(), "aac") {
                args.push(String::from_str("--audio-format"));
                args.push(String::from_str("m4a"));
            } else {
                args.push(String::from_str("--audio-format"));
                args.push(String::from_str("mp3"));
                args.push(String::from_str("--audio-quality"));
                args.push(String::from_str("0"));
            }
        },
        Mode::Video => {
            args.push(String::from_str("-f"));
            if str_eq(req.quality.as_str(), "4k") || str_eq(req.quality.as_str(), "2160p") {
                args.push(String::from_str(
                    "bestvideo[height<=2160]+bestaudio/best[height<=2160]",
                ));
            } else if str_eq(req.quality.as_str(), "2k") || str_eq(
                req.quality.as_str(),
                "1440p",
            ) {
                args.push(String::from_str(
                    "bestvideo[height<=1440]+bestaudio/best[height<=1440]",
                ));
            } else if str_eq(req.quality.as_str(), "1080p") {
                args.push(String::from_str(
                    "bestvideo[height<=1080]+bestaudio/best[height<=1080]",
                ));
            } else if str_eq(req.quality.as_str(), "720p") {
                args.push(String::from_str(
                    "bestvideo[height<=720]+bestaudio/best[height<=720]",
                ));
            } else {
                args.push(String::from_str("bestvideo+bestaudio/best"));
            }
            args.push(String::from_str("--merge-output-format"));
            args.push(String::from_str("mp4"));
        },
    }
    if req.is_playlist {
        args.push(String::from_str("--yes-playlist"));
    } else {
        args.push(String::from_str("--no-playlist"));
    }
    proof {
        assert(args@.map_values(|s: String| s@) =~= extractor_args(
            req.url@,
            req.mode,
            req.quality@,
            req.is_playlist,
            output_dir@,
        ));
    }
    args
}

/// Build the music-downloader argument list for a request.
pub fn build_music_args(req: &DownloadRequest, output_dir: &str) -> (r: Vec<String>)
    ensures
        r@.map_values(|s: String| s@) == music_args(req.url@, req.quality@, output_dir@),
{
    let mut args: Vec<String> = Vec::new();
    args.push(String::from_str("download"));
    args.push(req.url.clone());
    args.push(String::from_str("--output"));
    args.push(String::from_str(output_dir));
    if str_eq(req.quality.as_str(), "flac") {
        args.push(String::from_str("--format"));
        args.push(String::from_str("flac"));
    } else if str_eq(req.quality.as_str(), "wav") {
        args.push(String::from_str("--format"));
        args.push(String::from_str("wav"));
    } else if str_eq(req.quality.as_str(), "aac") {
        args.push(String::from_str("--format"));
        args.push(String::from_str("m4a"));
    } else {
        args.push(String::from_str("--format"));
        args.push(String::from_str("mp3"));
        args.push(String::from_str("--bitrate"));
        args.push(String::from_str("320k"));
    }
    proof {
        assert(args@.map_values(|s: String| s@) =~= music_args(
            req.url@,
            req.quality@,
            output_dir@,
        ));
    }
    args
}

/// Build the one command line a request leads to: the tool chosen by the
/// platform alone, and its full argument list.
pub fn build_command(req: &DownloadRequest, output_dir: &str) -> (r: (Tool, Vec<String>))
    ensures
        r.0 == tool_of(req.platform),
        r.1@.map_values(|s: String| s@) == request_args(
            req.url@,
            req.mode,
            req.quality@,
            req.platform,
            req.is_playlist,
            output_dir@,
        ),
{
    let tool = select_tool(req.platform);
    let args = match tool {
        Tool::Music => build_music_args(req, output_dir),
        Tool::Extractor => build_extractor_args(req, output_dir),
    };
    (tool, args)
}

} // verus!
