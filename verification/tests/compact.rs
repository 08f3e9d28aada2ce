use hf_mount::cli::{
    help_text, parse_cli, setup_exit_code, unknown_argument, version_text, worker_failure,
    CliCommand,
};
use hf_mount::compact::{
    blocker_help, check_mark, checks_summary, default_mount_point, form_parts, handle_mount_event,
    mount_actions, platform_label, push_log, run_preflight_checks, show_elevation,
    show_mount_outcome, show_nfs_enabled, show_opened, show_unmount_failure,
    validate_windows_mount_point, CompactApp, CompactStatus, MAX_LOG_LINES,
};
use hf_mount::daemon::DaemonGuard;
use hf_mount::platform::Platform;
use hf_mount::preflight::{CheckItem, CheckLevel, Findings};
use hf_mount::profile::GuiSource;
use hf_mount::session::NfsMountEvent;
use hf_mount::setup::Source;
use hf_mount::status::{MountOutcome, MountState};
use hf_mount::view::BlockerAction;

fn findings() -> Findings {
    Findings {
        elevated: true,
        mount_tool_exists: true,
        umount_tool_exists: true,
        udp_port: Ok(()),
        tcp_port: Ok(()),
        target_exists: false,
        target_is_dir: false,
        target_is_absolute: true,
    }
}

fn item(level: CheckLevel, label: &str) -> CheckItem {
    CheckItem { level, label: label.to_string(), detail: "d".to_string() }
}

fn app() -> CompactApp {
    CompactApp::new(Platform::Linux, "/tmp", Some("tok"), vec![])
}

fn is(status: &CompactStatus, state: MountState, headline: &str, detail: &str) {
    assert_eq!(status.state, state);
    assert_eq!(status.headline, headline);
    assert_eq!(status.detail, detail);
}

#[test]
fn the_compact_window_has_its_own_checks() {
    let checks = run_preflight_checks(Platform::Windows, "Z:", &findings());
    assert_eq!(checks[3].detail, "Z: is a drive-letter target.");
    let checks = run_preflight_checks(Platform::Linux, "relative", &findings());
    assert_eq!((checks.len(), checks[0].level), (1, CheckLevel::Pass));
    assert_eq!(run_preflight_checks(Platform::Linux, " ", &findings())[0].level, CheckLevel::Fail);
    assert_eq!(run_preflight_checks(Platform::MacOs, "/m", &findings()).len(), 2);
    let taken = Findings { target_exists: true, ..findings() };
    assert_eq!(validate_windows_mount_point("Z:", &taken).level, CheckLevel::Fail);
    assert_eq!(platform_label(Platform::Linux), "Unix");
    assert_eq!(default_mount_point(Platform::Windows, ""), "Z:");
}

#[test]
fn the_compact_form() {
    let mut a = app();
    assert_eq!(a.mount_point, "/tmp/hf-mount");
    assert_eq!(a.cache_dir, "/tmp/hf-mount-cache");
    assert_eq!(a.hf_token, "tok");
    a.select_source(GuiSource::Bucket);
    a.read_only = false;
    a.source_id = " a/b ".to_string();
    assert_eq!(
        a.mount_source(),
        Ok(Source::Bucket { bucket_id: "a/b".to_string(), mount_point: "/tmp/hf-mount".to_string() })
    );
    let options = a.mount_options().unwrap();
    assert!(!options.read_only);
    assert_eq!(options.hf_token, Some("tok".to_string()));
    assert_eq!(form_parts(&a).id_label, "Bucket ID");
    a.select_source(GuiSource::Repo);
    assert!(a.read_only);
    a.use_last_drive();
    assert_eq!(a.mount_point, "Z:");
    a.source_id = " ".to_string();
    assert_eq!(a.mount_source(), Err("Source ID is required.".to_string()));
    a.cache_dir = "".to_string();
    assert_eq!(a.mount_options(), Err("Cache directory is required.".to_string()));
}

#[test]
fn a_compact_mount() {
    let mut a = app();
    let mut s = CompactStatus::default();
    let failed = vec![item(CheckLevel::Fail, "X")];
    assert_eq!(a.start_mount(&mut s, failed), None);
    is(&s, MountState::Failed, "Setup check failed: X", "d");
    assert!(!mount_actions(&a, s.state, false).start_enabled);
    let (source, options) = a.start_mount(&mut s, vec![]).unwrap();
    assert_eq!(source.mount_point(), "/tmp/hf-mount");
    assert!(options.read_only);
    is(&s, MountState::Mounting, "Preparing mount", "Target: /tmp/hf-mount");
    let actions = mount_actions(&a, s.state, true);
    assert!(!actions.start_enabled && actions.stop_enabled);
    assert_eq!(actions.start_label, "Mount running");
    handle_mount_event(&mut s, &NfsMountEvent::Mounted { mount_point: "/x".to_string() });
    assert!(mount_actions(&a, s.state, true).open_enabled);
    assert_eq!(a.exit_unmount(), Some("/tmp/hf-mount".to_string()));
    assert_eq!(a.stop_mount(&mut s), Some("/tmp/hf-mount".to_string()));
    is(&s, MountState::Stopping, "Unmount requested", "Target: /tmp/hf-mount");
    show_unmount_failure(&mut s, "busy");
    is(&s, MountState::Failed, "Unmount failed", "busy");
    show_mount_outcome(&mut s, &MountOutcome::Stopped);
    a.collect_finished_mount(&mut s, false);
    is(&s, MountState::Stopped, "Unmounted", "The mount stopped cleanly.");
    assert_eq!(a.stop_mount(&mut s), None);
    assert_eq!(s.headline, "No active mount");
}

#[test]
fn the_end_of_a_compact_mount() {
    let mut a = app();
    let mut s = CompactStatus::default();
    a.start_mount(&mut s, vec![]);
    a.collect_finished_mount(&mut s, false);
    is(&s, MountState::Stopped, "Unmounted", "The mount process has stopped.");
    a.start_mount(&mut s, vec![]);
    a.collect_finished_mount(&mut s, true);
    assert_eq!(s.headline, "Mount thread panicked");
    show_mount_outcome(&mut s, &MountOutcome::Failed("e".to_string()));
    assert_eq!(s.headline, "NFS mount failed");
    show_mount_outcome(&mut s, &MountOutcome::Crashed("e".to_string()));
    assert_eq!(s.headline, "Mount setup failed");
}

#[test]
fn the_compact_log_keeps_its_newest_lines() {
    let mut s = CompactStatus::default();
    for i in 0..MAX_LOG_LINES {
        push_log(&mut s, &format!("{i}"));
    }
    assert_eq!(s.log.len(), MAX_LOG_LINES);
    assert_eq!(s.log[0], "0");
    show_opened(&mut s, &Ok(()));
    assert_eq!(s.log[MAX_LOG_LINES - 1], "Opened mount point");
    show_nfs_enabled(&mut s, &Err("e".to_string()));
    assert_eq!(s.headline, "Could not enable NFS");
    show_elevation(&mut s, &Ok(()));
    assert_eq!(s.state, MountState::Stopped);
}

#[test]
fn compact_help() {
    let help = blocker_help(Platform::Windows, &item(CheckLevel::Fail, "Client for NFS"));
    assert_eq!((help.action, help.note), (BlockerAction::EnableNfs, None));
    let help = blocker_help(Platform::Linux, &item(CheckLevel::Fail, "Mount point"));
    assert!(help.last_drive && help.note.is_none());
    let help = blocker_help(Platform::Windows, &item(CheckLevel::Fail, "Portmapper"));
    assert_eq!(help.note, Some("Fix this blocker, then recheck."));
    let summary = checks_summary(&vec![item(CheckLevel::Pass, "A")]);
    assert_eq!(summary.counts, Some("0 blocking / 0 warning".to_string()));
    assert_eq!(checks_summary(&vec![]).counts, None);
    assert_eq!(check_mark(CheckLevel::Warn).label, "--");
    let mut a = app();
    let mut s = CompactStatus::default();
    a.refresh_checks(&mut s, vec![item(CheckLevel::Fail, "A")]);
    assert_eq!(a.first_blocking_check().unwrap().label, "A");
}

fn cli(args: &[&str]) -> CliCommand {
    parse_cli(&args.iter().map(|a| a.to_string()).collect(), true)
}

#[test]
fn command_lines() {
    assert_eq!(cli(&[]), CliCommand::Window);
    assert_eq!(cli(&["-h"]), CliCommand::Help);
    assert_eq!(cli(&["--help", "x"]), CliCommand::Help);
    assert_eq!(cli(&["-V"]), CliCommand::Version);
    assert_eq!(cli(&["--version"]), CliCommand::Version);
    assert_eq!(cli(&["--check-setup"]), CliCommand::CheckSetup(None));
    assert_eq!(cli(&["--check-setup", "Z:"]), CliCommand::CheckSetup(Some("Z:".to_string())));
    assert_eq!(cli(&["--background-worker"]), CliCommand::Worker);
    assert_eq!(cli(&["what"]), CliCommand::Unknown("what".to_string()));
    let worker = vec!["--background-worker".to_string()];
    assert_eq!(
        parse_cli(&worker, false),
        CliCommand::Unknown("--background-worker".to_string())
    );
}

#[test]
fn texts_of_the_command_line() {
    assert_eq!(version_text("1.0"), "hf-mount-gui 1.0");
    assert_eq!(unknown_argument("x"), "unknown argument: x");
    assert_eq!(worker_failure("x"), "background worker failed: x");
    assert!(help_text("1.0", true).contains("--background-worker\n\nWindows requires"));
    assert!(!help_text("1.0", false).contains("--background-worker"));
    assert_eq!(setup_exit_code(&vec![item(CheckLevel::Fail, "A")]), 1);
    assert_eq!(setup_exit_code(&vec![item(CheckLevel::Warn, "A")]), 0);
}

#[test]
fn nobody_waits_for_a_foreground_process() {
    assert_eq!(DaemonGuard::from_env(), None);
    let mut guard = DaemonGuard;
    guard.notify_ready();
    assert_eq!(guard, DaemonGuard);
}
