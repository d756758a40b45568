//! The request and result records that the download path works on.

use vstd::prelude::*;

verus! {

/// The two kinds of media a request can ask for.
#[derive(Clone, Copy, Debug, PartialEq, Eq, Structural)]
pub enum Mode {
    Video,
    Audio,
}

/// Where the given URL points. Everything that is not the music service
/// is handled by the general extractor tool.
#[derive(Clone, Copy, Debug, PartialEq, Eq, Structural)]
pub enum Platform {
    Youtube,
    Spotify,
    Other,
}

/// The external tool a request is routed to.
#[derive(Clone, Copy, Debug, PartialEq, Eq, Structural)]
pub enum Tool {
    /// The general video/audio extractor (`yt-dlp`).
    Extractor,
    /// The music-service downloader (`spotdl`).
    Music,
}

/// One download request, immutable once submitted.
#[derive(Debug)]
pub struct DownloadRequest {
    pub url: String,
    pub mode: Mode,
    /// Free-form quality token, e.g. `1080p`, `4k`, `flac`, `mp3-320`.
    /// Unrecognized tokens degrade to documented defaults.
    pub quality: String,
    pub platform: Platform,
    pub is_playlist: bool,
}

/// The outcome of one download request.
#[derive(Debug)]
pub struct DownloadResult {
    pub success: bool,
    pub message: String,
    pub output_path: Option<String>,
}

/// A snapshot of which of the three external tools could be launched.
#[derive(Clone, Copy, Debug)]
pub struct ToolStatus {
    pub yt_dlp: bool,
    pub spotdl: bool,
    pub ffmpeg: bool,
}

} // verus!
