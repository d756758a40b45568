use dvzoll::{
    command_line, install_finish, install_init, install_next_command, install_step,
    is_install_command, resolve_download_dir, InstallCommand,
};

#[test]
fn absent_manager_is_terminal_with_instructions() {
    let st = install_init();
    let first = install_next_command(&st);
    assert_eq!(first, Some(InstallCommand::ProbeBrew));
    assert!(!is_install_command(InstallCommand::ProbeBrew));
    let st = install_step(st, false);
    assert_eq!(install_next_command(&st), None);
    let r = install_finish(st);
    assert!(!r.success);
    assert!(!r.yt_dlp);
    assert!(!r.spotdl);
    assert!(!r.ffmpeg);
    assert!(r.message.contains("Homebrew is not installed"));
}

#[test]
fn all_tools_present_issues_no_installs() {
    let mut st = install_init();
    let mut commands: Vec<InstallCommand> = Vec::new();
    while let Some(cmd) = install_next_command(&st) {
        commands.push(cmd);
        st = install_step(st, true);
    }
    assert_eq!(
        commands,
        vec![
            InstallCommand::ProbeBrew,
            InstallCommand::ProbeFfmpeg,
            InstallCommand::ProbeYtDlp,
            InstallCommand::ProbeSpotdl,
        ]
    );
    assert!(commands.iter().all(|c| !is_install_command(*c)));
    let r = install_finish(st);
    assert!(r.success);
    assert!(r.yt_dlp);
    assert!(r.spotdl);
    assert!(r.ffmpeg);
    assert_eq!(
        r.message,
        "\u{2705} ffmpeg already installed\n\
         \u{2705} yt-dlp already installed\n\
         \u{2705} spotdl already installed"
    );
}

#[test]
fn one_failed_install_does_not_abort_the_rest() {
    // brew present; ffmpeg present; yt-dlp absent and its install fails;
    // spotdl absent, primary installer fails, fallback succeeds.
    let mut st = install_init();
    let mut issued: Vec<InstallCommand> = Vec::new();
    while let Some(cmd) = install_next_command(&st) {
        issued.push(cmd);
        let ok = match cmd {
            InstallCommand::ProbeBrew => true,
            InstallCommand::ProbeFfmpeg => true,
            InstallCommand::ProbeYtDlp => false,
            InstallCommand::BrewInstallYtDlp => false,
            InstallCommand::ProbeSpotdl => false,
            InstallCommand::Pip3InstallSpotdl => false,
            InstallCommand::PipxInstallSpotdl => true,
            InstallCommand::BrewInstallFfmpeg => unreachable!(),
        };
        st = install_step(st, ok);
    }
    let r = install_finish(st);
    assert!(!r.success);
    assert!(r.ffmpeg);
    assert!(!r.yt_dlp);
    assert!(r.spotdl);
    assert_eq!(
        r.message,
        "\u{2705} ffmpeg already installed\n\
         \u{274c} Failed to install yt-dlp via brew\n\
         \u{2705} spotdl installed successfully via pipx"
    );
    assert!(issued.contains(&InstallCommand::PipxInstallSpotdl));
}

#[test]
fn music_fallback_failure_logs_manual_hint() {
    let mut st = install_init();
    while let Some(cmd) = install_next_command(&st) {
        let ok = matches!(cmd, InstallCommand::ProbeBrew);
        st = install_step(st, ok);
    }
    let r = install_finish(st);
    assert!(!r.success);
    assert!(r.message.contains("Failed to install ffmpeg via brew"));
    assert!(r.message.contains("Failed to install yt-dlp via brew"));
    assert!(r.message.contains("Failed to install spotdl. Install manually: pip3 install spotdl"));
}

#[test]
fn command_lines_are_the_documented_ones() {
    let (p, a) = command_line(InstallCommand::ProbeBrew);
    assert_eq!(p, "brew");
    assert_eq!(a, vec!["--version"]);
    let (p, a) = command_line(InstallCommand::ProbeFfmpeg);
    assert_eq!(p, "ffmpeg");
    assert_eq!(a, vec!["-version"]);
    let (p, a) = command_line(InstallCommand::BrewInstallFfmpeg);
    assert_eq!(p, "brew");
    assert_eq!(a, vec!["install", "ffmpeg"]);
    let (p, a) = command_line(InstallCommand::BrewInstallYtDlp);
    assert_eq!(p, "brew");
    assert_eq!(a, vec!["install", "yt-dlp"]);
    let (p, a) = command_line(InstallCommand::Pip3InstallSpotdl);
    assert_eq!(p, "pip3");
    assert_eq!(a, vec!["install", "spotdl"]);
    let (p, a) = command_line(InstallCommand::PipxInstallSpotdl);
    assert_eq!(p, "pipx");
    assert_eq!(a, vec!["install", "spotdl"]);
}

#[test]
fn download_dir_prefers_platform_folder() {
    let dl = Some("/home/u/Downloads".to_string());
    let home = Some("/home/u".to_string());
    assert_eq!(resolve_download_dir(&dl, &home), "/home/u/Downloads/DVZOLL");
}

#[test]
fn download_dir_falls_back_to_home() {
    let home = Some("/home/u".to_string());
    assert_eq!(resolve_download_dir(&None, &home), "/home/u/Downloads/DVZOLL");
}

#[test]
fn download_dir_with_nothing_resolvable_is_relative() {
    assert_eq!(resolve_download_dir(&None, &None), "Downloads/DVZOLL");
}
