//! Core logic of a media-download front-end that drives three external
//! command-line tools: a video/audio extractor, a music-service downloader
//! and a media transcoder.
//!
//! Everything here is pure: building argument lists for the tools, reading
//! their captured output back into a result record, and the decision machine
//! of the best-effort installer. Process launching, directory creation and
//! path probing are left to the (unverified) host around this library.

pub mod args;
pub mod folder;
pub mod install;
pub mod output;
pub mod request;
pub mod text;

pub use args::{
    build_command, build_extractor_args, build_music_args, select_tool, tool_program_name,
};
pub use folder::resolve_download_dir;
pub use install::{
    command_line, install_finish, install_init, install_next_command, install_step,
    is_install_command, InstallCommand, InstallPhase, InstallResult, InstallState,
};
pub use output::{
    clean_extractor_error, clean_music_error, dir_error_result, interpret_extractor_outcome,
    interpret_music_outcome, launch_error_result, parse_output_file, parse_title,
    resolve_output_path,
};
pub use request::{DownloadRequest, DownloadResult, Mode, Platform, Tool, ToolStatus};
