//! The provisioning orchestrator, as a linear decision machine: the host
//! runs one command at a time (a probe or an install) and feeds back
//! whether it succeeded; the machine decides what to run next and keeps
//! the per-tool outcome and the human-readable log. Package-manager
//! absence is terminal; one tool's failed install never aborts the rest,
//! and the music tool tries a primary installer and one fallback.

use vstd::prelude::*;
use crate::text::{joined, join_with};

verus! {

/// Where the machine stands: which probe or install runs next, or why it
/// stopped.
#[derive(Clone, Copy, Debug, PartialEq, Eq, Structural)]
pub enum InstallPhase {
    /// Probe the package manager.
    ProbeManager,
    /// Probe the transcoder (`ffmpeg`).
    ProbeTranscoder,
    /// Install the transcoder through the package manager.
    InstallTranscoder,
    /// Probe the extractor (`yt-dlp`).
    ProbeExtractor,
    /// Install the extractor through the package manager.
    InstallExtractor,
    /// Probe the music downloader (`spotdl`).
    ProbeMusic,
    /// Install the music downloader through the primary installer.
    InstallMusicPrimary,
    /// Install the music downloader through the fallback installer.
    InstallMusicFallback,
    /// All three tools handled.
    Done,
    /// The package manager is absent; nothing was installed.
    NoManager,
}

/// The commands the machine can ask the host to run.
#[derive(Clone, Copy, Debug, PartialEq, Eq, Structural)]
pub enum InstallCommand {
    ProbeBrew,
    ProbeFfmpeg,
    BrewInstallFfmpeg,
    ProbeYtDlp,
    BrewInstallYtDlp,
    ProbeSpotdl,
    Pip3InstallSpotdl,
    PipxInstallSpotdl,
}

/// Whether a command changes the system (an install) rather than only
/// probing it.
pub open spec fn is_install(c: InstallCommand) -> bool {
    match c {
        InstallCommand::BrewInstallFfmpeg => true,
        InstallCommand::BrewInstallYtDlp => true,
        InstallCommand::Pip3InstallSpotdl => true,
        InstallCommand::PipxInstallSpotdl => true,
        _ => false,
    }
}

/// Whether a command changes the system, decidably.
pub fn is_install_command(c: InstallCommand) -> (r: bool)
    ensures
        r == is_install(c),
{
    match c {
        InstallCommand::BrewInstallFfmpeg => true,
        InstallCommand::BrewInstallYtDlp => true,
        InstallCommand::Pip3InstallSpotdl => true,
        InstallCommand::PipxInstallSpotdl => true,
        _ => false,
    }
}

/// The program a command runs.
pub open spec fn command_program(c: InstallCommand) -> Seq<char> {
    match c {
        InstallCommand::ProbeBrew => "brew"@,
        InstallCommand::ProbeFfmpeg => "ffmpeg"@,
        InstallCommand::BrewInstallFfmpeg => "brew"@,
        InstallCommand::ProbeYtDlp => "yt-dlp"@,
        InstallCommand::BrewInstallYtDlp => "brew"@,
        InstallCommand::ProbeSpotdl => "spotdl"@,
        InstallCommand::Pip3InstallSpotdl => "pip3"@,
        InstallCommand::PipxInstallSpotdl => "pipx"@,
    }
}

/// The arguments a command passes.
pub open spec fn command_args(c: InstallCommand) -> Seq<Seq<char>> {
    match c {
        InstallCommand::ProbeBrew => seq!["--version"@],
        InstallCommand::ProbeFfmpeg => seq!["-version"@],
        InstallCommand::BrewInstallFfmpeg => seq!["install"@, "ffmpeg"@],
        InstallCommand::ProbeYtDlp => seq!["--version"@],
        InstallCommand::BrewInstallYtDlp => seq!["install"@, "yt-dlp"@],
        InstallCommand::ProbeSpotdl => seq!["--version"@],
        InstallCommand::Pip3InstallSpotdl => seq!["install"@, "spotdl"@],
        InstallCommand::PipxInstallSpotdl => seq!["install"@, "spotdl"@],
    }
}

/// The concrete command line of a command: the program and its arguments.
pub fn command_line(c: InstallCommand) -> (r: (String, Vec<String>))
    ensures
        r.0@ == command_program(c),
        r.1@.map_values(|s: String| s@) == command_args(c),
{
    let mut args: Vec<String> = Vec::new();
    let program = match c {
        InstallCommand::ProbeBrew => {
            args.push(String::from_str("--version"));
            String::from_str("brew")
        },
        InstallCommand::ProbeFfmpeg => {
            args.push(String::from_str("-version"));
            String::from_str("ffmpeg")
        },
        InstallCommand::BrewInstallFfmpeg => {
            args.push(String::from_str("install"));
            args.push(String::from_str("ffmpeg"));
            String::from_str("brew")
        },
        InstallCommand::ProbeYtDlp => {
            args.push(String::from_str("--version"));
            String::from_str("yt-dlp")
        },
        InstallCommand::BrewInstallYtDlp => {
            args.push(String::from_str("install"));
            args.push(String::from_str("yt-dlp"));
            String::from_str("brew")
        },
        InstallCommand::ProbeSpotdl => {
            args.push(String::from_str("--version"));
            String::from_str("spotdl")
        },
        InstallCommand::Pip3InstallSpotdl => {
            args.push(String::from_str("install"));
            args.push(String::from_str("spotdl"));
            String::from_str("pip3")
        },
        InstallCommand::PipxInstallSpotdl => {
            args.push(String::from_str("install"));
            args.push(String::from_str("spotdl"));
            String::from_str("pipx")
        },
    };
    proof {
        assert(args@.map_values(|s: String| s@) =~= command_args(c));
    }
    (program, args)
}

/// The machine's state: phase, per-tool outcome, and the log lines.
#[derive(Debug)]
pub struct InstallState {
    pub phase: InstallPhase,
    pub ffmpeg_ok: bool,
    pub yt_dlp_ok: bool,
    pub spotdl_ok: bool,
    pub log: Vec<String>,
}

/// The outcome of one provisioning attempt.
#[derive(Debug)]
pub struct InstallResult {
    pub success: bool,
    pub message: String,
    pub yt_dlp: bool,
    pub spotdl: bool,
    pub ffmpeg: bool,
}

/// The mathematical image of a machine state.
#[verifier::ext_equal]
pub ghost struct InstallModel {
    pub phase: InstallPhase,
    pub ffmpeg_ok: bool,
    pub yt_dlp_ok: bool,
    pub spotdl_ok: bool,
    pub log: Seq<Seq<char>>,
}

impl InstallState {
    /// The state's mathematical image.
    pub open spec fn model(&self) -> InstallModel {
        InstallModel {
            phase: self.phase,
            ffmpeg_ok: self.ffmpeg_ok,
            yt_dlp_ok: self.yt_dlp_ok,
            spotdl_ok: self.spotdl_ok,
            log: self.log@.map_values(|l: String| l@),
        }
    }
}

/// The instruction text shown when the package manager is absent.
pub open spec fn no_manager_text() -> Seq<char> {
    "Homebrew is not installed. Please install it first:\n\n/bin/bash -c \"$(curl -fsSL https://raw.githubusercontent.com/Homebrew/install/HEAD/install.sh)\"\n\nThen re-run this setup."@
}

/// The command the machine wants run in a phase, or nothing when it has
/// stopped.
pub open spec fn next_command_of(phase: InstallPhase) -> Option<InstallCommand> {
    match phase {
        InstallPhase::ProbeManager => Some(InstallCommand::ProbeBrew),
        InstallPhase::ProbeTranscoder => Some(InstallCommand::ProbeFfmpeg),
        InstallPhase::InstallTranscoder => Some(InstallCommand::BrewInstallFfmpeg),
        InstallPhase::ProbeExtractor => Some(InstallCommand::ProbeYtDlp),
        InstallPhase::InstallExtractor => Some(InstallCommand::BrewInstallYtDlp),
        InstallPhase::ProbeMusic => Some(InstallCommand::ProbeSpotdl),
        InstallPhase::InstallMusicPrimary => Some(InstallCommand::Pip3InstallSpotdl),
        InstallPhase::InstallMusicFallback => Some(InstallCommand::PipxInstallSpotdl),
        InstallPhase::Done => None,
        InstallPhase::NoManager => None,
    }
}

/// One transition: the machine in `m` learns that the command it asked
/// for ended with `ok`.
pub open spec fn step_model(m: InstallModel, ok: bool) -> InstallModel {
    match m.phase {
        InstallPhase::ProbeManager => if ok {
            InstallModel { phase: InstallPhase::ProbeTranscoder, ..m }
        } else {
            InstallModel {
                phase: InstallPhase::NoManager,
                log: m.log.push(no_manager_text()),
                ..m
            }
        },
        InstallPhase::ProbeTranscoder => if ok {
            InstallModel {
                phase: InstallPhase::ProbeExtractor,
                ffmpeg_ok: true,
                log: m.log.push("\u{2705} ffmpeg already installed"@),
                ..m
            }
        } else {
            InstallModel { phase: InstallPhase::InstallTranscoder, ..m }
        },
        InstallPhase::InstallTranscoder => if ok {
            InstallModel {
                phase: InstallPhase::ProbeExtractor,
                ffmpeg_ok: true,
                log: m.log.push("\u{2705} ffmpeg installed successfully"@),
                ..m
            }
        } else {
            InstallModel {
                phase: InstallPhase::ProbeExtractor,
                log: m.log.push("\u{274c} Failed to install ffmpeg via brew"@),
                ..m
            }
        },
        InstallPhase::ProbeExtractor => if ok {
            InstallModel {
                phase: InstallPhase::ProbeMusic,
                yt_dlp_ok: true,
                log: m.log.push("\u{2705} yt-dlp already installed"@),
                ..m
            }
        } else {
            InstallModel { phase: InstallPhase::InstallExtractor, ..m }
        },
        InstallPhase::InstallExtractor => if ok {
            InstallModel {
                phase: InstallPhase::ProbeMusic,
                yt_dlp_ok: true,
                log: m.log.push("\u{2705} yt-dlp installed successfully"@),
                ..m
            }
        } else {
            InstallModel {
                phase: InstallPhase::ProbeMusic,
                log: m.log.push("\u{274c} Failed to install yt-dlp via brew"@),
                ..m
            }
        },
        InstallPhase::ProbeMusic => if ok {
            InstallModel {
                phase: InstallPhase::Done,
                spotdl_ok: true,
                log: m.log.push("\u{2705} spotdl already installed"@),
                ..m
            }
        } else {
            InstallModel { phase: InstallPhase::InstallMusicPrimary, ..m }
        },
        InstallPhase::InstallMusicPrimary => if ok {
            InstallModel {
                phase: InstallPhase::Done,
                spotdl_ok: true,
                log: m.log.push("\u{2705} spotdl installed successfully via pip3"@),
                ..m
            }
        } else {
            InstallModel { phase: InstallPhase::InstallMusicFallback, ..m }
        },
        InstallPhase::InstallMusicFallback => if ok {
            InstallModel {
                phase: InstallPhase::Done,
                spotdl_ok: true,
                log: m.log.push("\u{2705} spotdl installed successfully via pipx"@),
                ..m
            }
        } else {
            InstallModel {
                phase: InstallPhase::Done,
                log: m.log.push(
                    "\u{274c} Failed to install spotdl. Install manually: pip3 install spotdl"@,
                ),
                ..m
            }
        },
        InstallPhase::Done => m,
        InstallPhase::NoManager => m,
    }
}

/// The fresh machine: about to probe the package manager, nothing
/// satisfied, empty log.
pub open spec fn init_model() -> InstallModel {
    InstallModel {
        phase: InstallPhase::ProbeManager,
        ffmpeg_ok: false,
        yt_dlp_ok: false,
        spotdl_ok: false,
        log: Seq::empty(),
    }
}

/// Start a provisioning attempt.
pub fn install_init() -> (s: InstallState)
    ensures
        s.model() == init_model(),
{
    let s = InstallState {
        phase: InstallPhase::ProbeManager,
        ffmpeg_ok: false,
        yt_dlp_ok: false,
        spotdl_ok: false,
        log: Vec::new(),
    };
    proof {
        assert(s.model() =~= init_model());
    }
    s
}

/// The command to run next, or nothing when the machine has stopped.
pub fn install_next_command(s: &InstallState) -> (c: Option<InstallCommand>)
    ensures
        c == next_command_of(s.phase),
{
    match s.phase {
        InstallPhase::ProbeManager => Some(InstallCommand::ProbeBrew),
        InstallPhase::ProbeTranscoder => Some(InstallCommand::ProbeFfmpeg),
        InstallPhase::InstallTranscoder => Some(InstallCommand::BrewInstallFfmpeg),
        InstallPhase::ProbeExtractor => Some(InstallCommand::ProbeYtDlp),
        InstallPhase::InstallExtractor => Some(InstallCommand::BrewInstallYtDlp),
        InstallPhase::ProbeMusic => Some(InstallCommand::ProbeSpotdl),
        InstallPhase::InstallMusicPrimary => Some(InstallCommand::Pip3InstallSpotdl),
        InstallPhase::InstallMusicFallback => Some(InstallCommand::PipxInstallSpotdl),
        InstallPhase::Done => None,
        InstallPhase::NoManager => None,
    }
}

/// Feed the outcome of the requested command into the machine.
pub fn install_step(s: InstallState, ok: bool) -> (r: InstallState)
    ensures
        r.model() == step_model(s.model(), ok),
{
    let InstallState { phase, ffmpeg_ok, yt_dlp_ok, spotdl_ok, log } = s;
    let ghost pre = s.model();
    let mut log = log;
    let mut r = match phase {
        InstallPhase::ProbeManager => if ok {
            InstallState { phase: InstallPhase::ProbeTranscoder, ffmpeg_ok, yt_dlp_ok, spotdl_ok, log }
        } else {
            log.push(String::from_str(
                "Homebrew is not installed. Please install it first:\n\n/bin/bash -c \"$(curl -fsSL https://raw.githubusercontent.com/Homebrew/install/HEAD/install.sh)\"\n\nThen re-run this setup.",
            ));
            InstallState { phase: InstallPhase::NoManager, ffmpeg_ok, yt_dlp_ok, spotdl_ok, log }
        },
        InstallPhase::ProbeTranscoder => if ok {
            log.push(String::from_str("\u{2705} ffmpeg already installed"));
            InstallState { phase: InstallPhase::ProbeExtractor, ffmpeg_ok: true, yt_dlp_ok, spotdl_ok, log }
        } else {
            InstallState { phase: InstallPhase::InstallTranscoder, ffmpeg_ok, yt_dlp_ok, spotdl_ok, log }
        },
        InstallPhase::InstallTranscoder => if ok {
            log.push(String::from_str("\u{2705} ffmpeg installed successfully"));
            InstallState { phase: InstallPhase::ProbeExtractor, ffmpeg_ok: true, yt_dlp_ok, spotdl_ok, log }
        } else {
            log.push(String::from_str("\u{274c} Failed to install ffmpeg via brew"));
            InstallState { phase: InstallPhase::ProbeExtractor, ffmpeg_ok, yt_dlp_ok, spotdl_ok, log }
        },
        InstallPhase::ProbeExtractor => if ok {
            log.push(String::from_str("\u{2705} yt-dlp already installed"));
            InstallState { phase: InstallPhase::ProbeMusic, ffmpeg_ok, yt_dlp_ok: true, spotdl_ok, log }
        } else {
            InstallState { phase: InstallPhase::InstallExtractor, ffmpeg_ok, yt_dlp_ok, spotdl_ok, log }
        },
        InstallPhase::InstallExtractor => if ok {
            log.push(String::from_str("\u{2705} yt-dlp installed successfully"));
            InstallState { phase: InstallPhase::ProbeMusic, ffmpeg_ok, yt_dlp_ok: true, spotdl_ok, log }
        } else {
            log.push(String::from_str("\u{274c} Failed to install yt-dlp via brew"));
            InstallState { phase: InstallPhase::ProbeMusic, ffmpeg_ok, yt_dlp_ok, spotdl_ok, log }
        },
        InstallPhase::ProbeMusic => if ok {
            log.push(String::from_str("\u{2705} spotdl already installed"));
            InstallState { phase: InstallPhase::Done, ffmpeg_ok, yt_dlp_ok, spotdl_ok: true, log }
        } else {
            InstallState { phase: InstallPhase::InstallMusicPrimary, ffmpeg_ok, yt_dlp_ok, spotdl_ok, log }
        },
        InstallPhase::InstallMusicPrimary => if ok {
            log.push(String::from_str("\u{2705} spotdl installed successfully via pip3"));
            InstallState { phase: InstallPhase::Done, ffmpeg_ok, yt_dlp_ok, spotdl_ok: true, log }
        } else {
            InstallState { phase: InstallPhase::InstallMusicFallback, ffmpeg_ok, yt_dlp_ok, spotdl_ok, log }
        },
        InstallPhase::InstallMusicFallback => if ok {
            log.push(String::from_str("\u{2705} spotdl installed successfully via pipx"));
            InstallState { phase: InstallPhase::Done, ffmpeg_ok, yt_dlp_ok, spotdl_ok: true, log }
        } else {
            log.push(String::from_str(
                "\u{274c} Failed to install spotdl. Install manually: pip3 install spotdl",
            ));
            InstallState { phase: InstallPhase::Done, ffmpeg_ok, yt_dlp_ok, spotdl_ok, log }
        },
        InstallPhase::Done => InstallState { phase, ffmpeg_ok, yt_dlp_ok, spotdl_ok, log },
        InstallPhase::NoManager => InstallState { phase, ffmpeg_ok, yt_dlp_ok, spotdl_ok, log },
    };
    proof {
        assert(r.model() =~= step_model(pre, ok));
    }
    r
}

/// Law: an absent package manager is terminal. One failed manager probe
/// puts the machine in its stopped state with nothing satisfied, the
/// instruction text as the whole log, and no further command of any
/// kind — in particular, no install is ever requested.
pub proof fn lemma_absent_manager_terminal()
    ensures
        step_model(init_model(), false).phase == InstallPhase::NoManager,
        next_command_of(step_model(init_model(), false).phase) is None,
        !step_model(init_model(), false).ffmpeg_ok,
        !step_model(init_model(), false).yt_dlp_ok,
        !step_model(init_model(), false).spotdl_ok,
        step_model(init_model(), false).log =~= seq![no_manager_text()],
{
}

/// Law: when the manager and all three tools answer their probes, the
/// machine asks for the four probes and nothing else — every requested
/// command is a probe, never an install — and ends fully satisfied.
pub proof fn lemma_all_present_no_installs()
    ensures
        ({
            let m0 = init_model();
            let m1 = step_model(m0, true);
            let m2 = step_model(m1, true);
            let m3 = step_model(m2, true);
            let m4 = step_model(m3, true);
            &&& next_command_of(m0.phase) == Some(InstallCommand::ProbeBrew)
            &&& next_command_of(m1.phase) == Some(InstallCommand::ProbeFfmpeg)
            &&& next_command_of(m2.phase) == Some(InstallCommand::ProbeYtDlp)
            &&& next_command_of(m3.phase) == Some(InstallCommand::ProbeSpotdl)
            &&& forall|c: InstallCommand|
                (next_command_of(m0.phase) == Some(c) || next_command_of(m1.phase) == Some(c)
                    || next_command_of(m2.phase) == Some(c) || next_command_of(m3.phase)
                    == Some(c)) ==> !is_install(c)
            &&& m4.phase == InstallPhase::Done
            &&& next_command_of(m4.phase) is None
            &&& m4.ffmpeg_ok && m4.yt_dlp_ok && m4.spotdl_ok
        }),
{
}

/// Close the attempt: overall success exactly when all three tools ended
/// satisfied, the message the log joined line by line.
pub fn install_finish(s: InstallState) -> (r: InstallResult)
    ensures
        r.success == (s.ffmpeg_ok && s.yt_dlp_ok && s.spotdl_ok),
        r.ffmpeg == s.ffmpeg_ok,
        r.yt_dlp == s.yt_dlp_ok,
        r.spotdl == s.spotdl_ok,
        r.message@ == joined(s.model().log, "\n"@),
{
    let message = join_with(&s.log, "\n");
    InstallResult {
        success: s.ffmpeg_ok && s.yt_dlp_ok && s.spotdl_ok,
        message,
        yt_dlp: s.yt_dlp_ok,
        spotdl: s.spotdl_ok,
        ffmpeg: s.ffmpeg_ok,
    }
}

} // verus!
