use hf_mount::mount_command::{
    actimeo, is_mounted, is_nfs_type, mount_command, mount_failure, mount_opts,
    mount_point_is_ours, mount_table_lists, mounted_from, unmount_after_call, unmount_after_command,
    unmount_begin, unmount_command, windows_mount_failure_hint,
    windows_mount_output_is_network_error_53, windows_mount_text_is_network_error_53,
    windows_nfs_mount_target, windows_nfs_probe_path, windows_nfs_share,
    windows_text_contains_code_53, CommandLine, CommandOutput, Host, MountEvidence, MountListing,
    UnmountStep,
};
use hf_mount::platform::Platform;
use hf_mount::session::{
    Action, MountError, NfsMountEvent, Phase, Session, SessionEvent, SessionParams,
};
use hf_mount::setup::NfsSecurity;
use hf_mount::windows::{drive_letter, free_drive_letters, system32_exe, system_root_or_default};

#[test]
fn drive_letter_mount_targets_are_normalized_for_mount_exe() {
    assert_eq!(windows_nfs_mount_target("Z:"), "Z:");
    assert_eq!(windows_nfs_mount_target("Z:\\"), "Z:");
    assert_eq!(windows_nfs_mount_target("z:/"), "z:");
    assert_eq!(windows_nfs_mount_target(r"C:\hf-mounts\repo"), r"C:\hf-mounts\repo");
}

#[test]
fn drive_letter_probe_paths_use_a_root_separator() {
    assert_eq!(windows_nfs_probe_path("Z:"), "Z:\\");
    assert_eq!(windows_nfs_probe_path("Z:\\"), "Z:\\");
    assert_eq!(windows_nfs_probe_path(r"C:\hf-mounts\repo"), r"C:\hf-mounts\repo");
}

#[test]
fn windows_mount_uses_unc_named_nfs_export_syntax() {
    assert_eq!(windows_nfs_share("hf-mount-test"), r"\\127.0.0.1\hf-mount-test");
}

#[test]
fn detects_english_network_error_53() {
    assert!(windows_mount_text_is_network_error_53(
        "Network Error - 53\nType NET HELPMSG 53 for more information."
    ));
}

#[test]
fn detects_german_network_error_53() {
    assert!(windows_mount_text_is_network_error_53(
        "Netzwerkfehler - 53\nGeben Sie \"NET HELPMSG 53\" ein, um weitere Informationen zu erhalten."
    ));
}

#[test]
fn ignores_other_mount_errors() {
    assert!(!windows_mount_text_is_network_error_53("Network Error - 67"));
    assert!(!windows_mount_text_is_network_error_53("Network Error - 153"));
    assert!(!windows_mount_text_is_network_error_53("The network path was not found."));
}

#[test]
fn drive_letter_accepts_bare_targets() {
    assert_eq!(drive_letter("Z:"), Some('Z'));
    assert_eq!(drive_letter("Z:\\"), Some('Z'));
    assert_eq!(drive_letter("z:/"), Some('z'));
}

#[test]
fn drive_letter_rejects_paths_and_garbage() {
    assert_eq!(drive_letter(r"C:\hf-mounts\repo"), None);
    assert_eq!(drive_letter("Z:x"), None);
    assert_eq!(drive_letter("ZZ:"), None);
    assert_eq!(drive_letter("/tmp/mount"), None);
    assert_eq!(drive_letter(""), None);
    assert_eq!(drive_letter("1:"), None);
}

#[test]
fn free_drive_letters_skips_assigned_bits_and_reserved_letters() {
    // C: and D: assigned -> D excluded, A/B never offered, Z first.
    let mask = (1 << 2) | (1 << 3);
    let free = free_drive_letters(mask);
    assert_eq!(free.first(), Some(&'Z'));
    assert!(!free.contains(&'D'));
    assert!(!free.contains(&'A'));
    assert!(!free.contains(&'B'));
    assert!(!free.contains(&'C'));

    // All assigned -> nothing free.
    assert!(free_drive_letters(u32::MAX).is_empty());
}

#[test]
fn tools_of_windows_have_their_full_path() {
    assert_eq!(system32_exe(Some("D:\\Win"), "mount.exe"), "D:\\Win\\System32\\mount.exe");
    assert_eq!(system32_exe(None, "mount.exe"), "C:\\Windows\\System32\\mount.exe");
    assert_eq!(system_root_or_default(None), "C:\\Windows");
    let free = free_drive_letters(0);
    assert_eq!(free.len(), 23);
    assert_eq!(free.last(), Some(&'D'));
}

#[test]
fn code_53_stands_alone() {
    assert!(windows_text_contains_code_53("53"));
    assert!(windows_text_contains_code_53("(53)"));
    assert!(!windows_text_contains_code_53("530"));
    assert!(!windows_text_contains_code_53("153 535"));
    assert!(windows_text_contains_code_53("153 53"));
}

fn host(platform: Platform, is_root: bool) -> Host {
    Host { platform, is_root, system_root: None }
}

fn security() -> NfsSecurity {
    NfsSecurity {
        owner_uid: 1000,
        allow_unsafe_loopback: false,
        export_name: "hf-mount-test".to_string(),
        filehandle_secret: [7; 16],
    }
}

fn line(program: &str, args: &[&str]) -> CommandLine {
    CommandLine {
        program: program.to_string(),
        args: args.iter().map(|a| a.to_string()).collect(),
    }
}

#[test]
fn attributes_are_kept_for_whole_seconds() {
    assert_eq!(actimeo(0), 0);
    assert_eq!(actimeo(1), 1);
    assert_eq!(actimeo(1000), 1);
    assert_eq!(actimeo(1001), 2);
    assert_eq!(actimeo(u64::MAX), u64::MAX / 1000 + 1);
}

#[test]
fn mount_commands_differ_between_systems() {
    let linux = mount_command(&host(Platform::Linux, true), &security(), 10_000, true, 2049, "/m");
    let opts = "nolock,vers=3,tcp,rsize=1048576,actimeo=10,port=2049,mountport=2049";
    assert_eq!(linux.command, line("mount.nfs", &["-o", opts, "127.0.0.1:/hf-mount-test", "/m"]));
    assert_eq!(linux.display, format!("mount.nfs -o {opts} 127.0.0.1:/hf-mount-test /m"));
    let user = mount_command(&host(Platform::Linux, false), &security(), 10_000, true, 2049, "/m");
    assert_eq!(
        user.command,
        line("sudo", &["-n", "mount.nfs", "-o", opts, "127.0.0.1:/hf-mount-test", "/m"])
    );
    let mac = mount_command(&host(Platform::MacOs, false), &security(), 500, false, 9, "/m");
    assert_eq!(
        mac.command.args[1],
        "locallocks,vers=3,tcp,rsize=1048576,actimeo=1,port=9,mountport=9,wsize=1048576"
    );
    assert_eq!(
        mount_opts(Platform::MacOs, 1, 9, true),
        "rdonly,locallocks,vers=3,tcp,rsize=1048576,actimeo=1,port=9,mountport=9"
    );
    let win = mount_command(&host(Platform::Windows, false), &security(), 500, false, 9, "Z:\\");
    assert_eq!(
        win.command,
        line(
            "C:\\Windows\\System32\\mount.exe",
            &[
                "-o",
                "nolock,anon,mtype=hard,rsize=32,wsize=32,timeout=60",
                "\\\\127.0.0.1\\hf-mount-test",
                "Z:"
            ]
        )
    );
}

#[test]
fn unmounting_goes_on_until_something_works() {
    let linux = host(Platform::Linux, false);
    assert_eq!(unmount_begin(&linux, "/m"), UnmountStep::SystemCall);
    assert_eq!(unmount_after_call(&linux, "/m", true), UnmountStep::Finished(true));
    assert_eq!(
        unmount_after_call(&linux, "/m", false),
        UnmountStep::Run(line("sudo", &["-n", "umount", "/m"]))
    );
    assert_eq!(unmount_after_command(Some(true)), UnmountStep::Finished(true));
    assert_eq!(unmount_after_command(Some(false)), UnmountStep::Finished(false));
    assert_eq!(unmount_after_command(None), UnmountStep::Finished(false));
    assert_eq!(
        unmount_begin(&host(Platform::Windows, false), "Z:\\"),
        UnmountStep::Run(line("C:\\Windows\\System32\\umount.exe", &["-f", "Z:"]))
    );
    assert_eq!(unmount_command(&host(Platform::MacOs, false), "/m"), line("/sbin/umount", &["/m"]));
    assert_eq!(unmount_command(&host(Platform::Linux, true), "/m"), line("umount", &["/m"]));
    assert!(matches!(unmount_begin(&linux, "/m\0"), UnmountStep::Run(_)));
}

#[test]
fn a_mount_table_lists_mount_points() {
    let table = "proc /proc proc rw 0 0\n127.0.0.1:/hf-mount-x  /mnt/data nfs rw 0 0\n";
    assert!(mount_table_lists(table, "/mnt/data"));
    assert!(!mount_table_lists(table, "/mnt"));
    assert!(!mount_table_lists(table, "proc"));
    assert!(is_mounted("/proc", &MountEvidence::Table(Some(table.to_string()))));
    assert!(!is_mounted("/proc", &MountEvidence::Table(None)));
    assert!(is_mounted("/x", &MountEvidence::FileSystem(Some(b"nfs".to_vec()))));
    assert!(!is_mounted("/x", &MountEvidence::FileSystem(Some(b"apfs".to_vec()))));
    assert!(!is_mounted("/x", &MountEvidence::FileSystem(None)));
    let printed = "Local    Remote\r\n\r\nZ:       \\\\127.0.0.1\\hf-mount-ab   UID=0\r\n";
    let client = MountEvidence::Client(Some(printed.to_string()));
    assert!(is_mounted("Z:", &client));
    assert!(is_mounted("z:\\", &client));
    // A drive or directory that merely exists is no mount.
    assert!(!is_mounted("C:", &client));
    assert!(!is_mounted("C:\\Users", &client));
    assert!(!is_mounted("Z:", &MountEvidence::Client(None)));
    assert!(!is_nfs_type(&b"nfs4".to_vec()));
}

#[test]
fn only_our_mounts_are_ours() {
    let ours = mount_command(&host(Platform::Linux, true), &security(), 0, true, 1, "/m");
    assert!(mount_point_is_ours(Platform::Linux, Some(&ours.command.args[2])));
    assert!(!mount_point_is_ours(Platform::Linux, Some("10.0.0.1:/hf-mount-x")));
    assert!(!mount_point_is_ours(Platform::Linux, Some("127.0.0.1:/home")));
    assert!(!mount_point_is_ours(Platform::Linux, None));
    assert!(mount_point_is_ours(Platform::Windows, Some("\\\\127.0.0.1\\hf-mount-ab")));
    assert!(!mount_point_is_ours(Platform::Windows, Some("127.0.0.1:/hf-mount-ab")));
}

#[test]
fn the_source_of_a_mount_is_listed() {
    let table = "proc /proc proc rw 0 0\n127.0.0.1:/hf-mount-ab /m nfs rw 0 0\nother /m nfs\n";
    let linux = MountListing::Table(Some(table.to_string()));
    assert_eq!(mounted_from("/m", &linux), Some("127.0.0.1:/hf-mount-ab".to_string()));
    assert_eq!(mounted_from("/mm", &linux), None);
    assert_eq!(mounted_from("/m", &MountListing::Table(None)), None);
    let mac = MountListing::FileSystem(Some("127.0.0.1:/x".to_string()));
    assert_eq!(mounted_from("/m", &mac), Some("127.0.0.1:/x".to_string()));
    assert_eq!(mounted_from("/m", &MountListing::FileSystem(None)), None);
    let printed = "Local    Remote\r\n---\r\nZ:       \\\\127.0.0.1\\hf-mount-ab   UID=0\r\n";
    let windows = MountListing::Client(Some(printed.to_string()));
    assert_eq!(mounted_from("Z:\\", &windows), Some("\\\\127.0.0.1\\hf-mount-ab".to_string()));
    assert_eq!(mounted_from("Y:", &windows), None);
    let spaced = "C:\\my files   \\\\127.0.0.1\\hf-mount-cd   UID=0\r\n";
    let windows = MountListing::Client(Some(spaced.to_string()));
    let share = Some("\\\\127.0.0.1\\hf-mount-cd".to_string());
    assert_eq!(mounted_from("c:\\My files", &windows), share);
    assert_eq!(mounted_from("c:\\my", &windows), None);
    assert_eq!(mounted_from("Z:", &MountListing::Client(None)), None);
}

fn output(success: bool, stdout: &str, stderr: &str) -> CommandOutput {
    CommandOutput {
        success,
        status: "exit code: 1".to_string(),
        stdout: stdout.to_string(),
        stderr: stderr.to_string(),
    }
}

#[test]
fn failed_mount_commands_are_reported() {
    let plain = output(false, "o", "e");
    assert_eq!(
        mount_failure(Platform::MacOs, &plain, "cmd"),
        "mount command failed with exit code: 1"
    );
    assert_eq!(
        mount_failure(Platform::Linux, &plain, "cmd"),
        "mount.nfs failed with exit code: 1: stdout=o stderr=e"
    );
    let network = output(false, " Network Error - 53 ", "");
    assert!(windows_mount_output_is_network_error_53(&network));
    assert!(windows_mount_failure_hint(&network).starts_with("Windows reported Network Error 53"));
    assert_eq!(
        mount_failure(Platform::Windows, &plain, "cmd"),
        "mount.exe failed with exit code: 1: Client for NFS may be disabled, the process may not be elevated, or the mount target may be invalid. cmd=`cmd` stdout=o stderr=e"
    );
}

// ── Sessions ────────────────────────────────────────────────────────────

fn session(platform: Platform) -> Session {
    Session::new(SessionParams {
        host: host(platform, true),
        metadata_ttl_ms: 10_000,
        read_only: true,
        security: security(),
        port: 2049,
        mount_point: Some(if platform == Platform::Windows { "Z:" } else { "/m" }.to_string()),
        skip_auto_mount: false,
    })
}

fn portmapper(result: Result<(), String>) -> SessionEvent {
    SessionEvent::PortmapperStarted { result, stop_requested: false }
}

fn step(session: &mut Session, event: SessionEvent) -> Vec<Action> {
    assert!(session.waits_for(&event));
    session.step(event)
}

fn shutting_down(reason: &str) -> Action {
    Action::Emit(NfsMountEvent::ShuttingDown { reason: reason.to_string() })
}

fn mounted(mount_point: &str) -> Vec<Action> {
    vec![
        Action::Emit(NfsMountEvent::Mounted { mount_point: mount_point.to_string() }),
        Action::NotifyReady,
    ]
}

#[test]
fn a_session_mounts_serves_and_unmounts() {
    let mut s = session(Platform::Linux);
    assert!(s.authorizes());
    let command = s.mount_command();
    let begun = s.begin(false);
    assert_eq!(
        begun,
        vec![
            Action::Emit(NfsMountEvent::ServerListening { port: 2049 }),
            Action::StartServer,
            Action::Emit(NfsMountEvent::MountCommand { command: command.display }),
            Action::RunMount(command.command),
        ]
    );
    assert_eq!(step(&mut s, SessionEvent::MountExited(output(true, "", ""))), mounted("/m"));
    assert_eq!(step(&mut s, SessionEvent::ProbeDue), vec![Action::Probe]);
    assert!(!s.waits_for(&SessionEvent::ProbeDue));
    assert_eq!(step(&mut s, SessionEvent::ProbeDone { mounted: true }), vec![]);
    assert_eq!(step(&mut s, SessionEvent::ClientMount(Some(true))), vec![]);
    assert_eq!(
        step(&mut s, SessionEvent::StopRequested),
        vec![
            shutting_down("stop requested"),
            Action::Unmount { limit_secs: 10 },
            Action::AbortServer,
            Action::DrainPool,
            Action::ShutDownStorage,
            Action::Finish(Ok(())),
        ]
    );
    assert_eq!(s.phase, Phase::Over);
    assert!(!s.waits_for(&SessionEvent::CtrlC));
}

fn serving(platform: Platform) -> Session {
    let mut s = session(platform);
    s.begin(false);
    if platform == Platform::Windows {
        step(&mut s, portmapper(Ok(())));
    }
    step(&mut s, SessionEvent::MountExited(output(true, "", "")));
    s
}

#[test]
fn the_end_of_a_mount_has_many_reasons() {
    let reason = |event: SessionEvent| {
        let actions = step(&mut serving(Platform::Linux), event);
        let unmounts = actions.contains(&Action::Unmount { limit_secs: 10 });
        let stops_server = actions.contains(&Action::AbortServer);
        match &actions[0] {
            Action::Emit(NfsMountEvent::ShuttingDown { reason }) => {
                (reason.clone(), unmounts, stops_server)
            }
            other => panic!("{other:?}"),
        }
    };
    let said = |text: &str, unmounts, stops| (text.to_string(), unmounts, stops);
    assert_eq!(reason(SessionEvent::CtrlC), said("Ctrl+C received", true, true));
    assert_eq!(reason(SessionEvent::Terminate), said("termination signal received", true, true));
    assert_eq!(reason(SessionEvent::ServerExited), said("server exited", false, false));
    assert_eq!(reason(SessionEvent::ClientMount(None)), said("unmount detected", false, true));
    assert_eq!(
        reason(SessionEvent::ClientMount(Some(false))),
        said("unmount detected", false, true)
    );
    let mut s = serving(Platform::Linux);
    step(&mut s, SessionEvent::ProbeDue);
    let actions = step(&mut s, SessionEvent::ProbeDone { mounted: false });
    assert_eq!(actions[0], shutting_down("mount disappeared"));
}

#[test]
fn network_error_53_is_tried_again_a_few_times() {
    let mut s = session(Platform::Windows);
    assert!(!s.authorizes());
    assert_eq!(
        s.begin(false),
        vec![
            Action::Emit(NfsMountEvent::ServerListening { port: 2049 }),
            Action::StartServer,
            Action::StartPortmapper,
        ]
    );
    let actions = step(&mut s, portmapper(Ok(())));
    assert!(matches!(actions[1], Action::RunMount(_)));
    for _ in 1..6 {
        let failed = output(false, "Network Error - 53", "");
        assert_eq!(
            step(&mut s, SessionEvent::MountExited(failed)),
            vec![Action::Backoff { ms: 300 }]
        );
        let again = step(&mut s, SessionEvent::BackoffOver { stop_requested: false });
        assert!(matches!(again[0], Action::RunMount(_)));
    }
    let actions = step(&mut s, SessionEvent::MountExited(output(false, "Network Error - 53", "")));
    assert_eq!(actions[..2], [Action::AbortServer, Action::AbortPortmapper]);
    assert!(matches!(actions[2], Action::Finish(Err(MountError::Other(_)))));
}

#[test]
fn a_stop_before_the_mount_is_no_failure() {
    let mut s = session(Platform::Linux);
    let actions = s.begin(true);
    assert_eq!(
        actions[2..],
        [
            Action::AbortServer,
            shutting_down("stop requested"),
            Action::ShutDownStorage,
            Action::Finish(Ok(())),
        ]
    );
    let mut s = session(Platform::Windows);
    s.begin(false);
    step(&mut s, portmapper(Ok(())));
    let actions = step(&mut s, SessionEvent::StopRequested);
    assert_eq!(actions.last(), Some(&Action::Finish(Ok(()))));
    assert!(actions.contains(&Action::AbortPortmapper));
}

#[test]
fn a_stop_while_the_port_mapper_starts_runs_no_mount() {
    let stop = || SessionEvent::PortmapperStarted { result: Ok(()), stop_requested: true };
    let mut s = session(Platform::Windows);
    s.begin(false);
    let actions = step(&mut s, stop());
    assert!(matches!(actions[0], Action::Emit(NfsMountEvent::MountCommand { .. })));
    assert_eq!(
        actions[1..],
        [
            Action::AbortServer,
            Action::AbortPortmapper,
            shutting_down("stop requested"),
            Action::ShutDownStorage,
            Action::Finish(Ok(())),
        ]
    );
    assert_eq!(s.phase, Phase::Over);
    // Where the user runs the command, the session serves first.
    let mut s = session(Platform::Windows);
    s.params.skip_auto_mount = true;
    s.begin(false);
    assert_eq!(step(&mut s, stop())[1..], mounted("Z:")[..]);
}

#[test]
fn sessions_that_cannot_mount_say_why() {
    let mut s = session(Platform::Linux);
    s.params.mount_point = None;
    let actions = s.begin(false);
    assert_eq!(actions.last(), Some(&Action::Finish(Err(MountError::InvalidPath))));
    assert_eq!(MountError::InvalidPath.message(), "invalid mount path");

    let mut s = session(Platform::Windows);
    s.begin(false);
    let actions = step(&mut s, portmapper(Err("in use".to_string())));
    let why = "failed to bind portmapper on 127.0.0.1:111: in use (Administrator required, or another portmap is running)";
    assert_eq!(
        actions,
        vec![
            Action::AbortServer,
            Action::Finish(Err(MountError::Other(why.to_string()))),
        ]
    );

    let mut s = session(Platform::Linux);
    s.begin(false);
    let actions = step(&mut s, SessionEvent::MountNotRun("no such file".to_string()));
    assert_eq!(
        actions,
        vec![Action::Finish(Err(MountError::Other("no such file".to_string())))]
    );
}

#[test]
fn a_manual_mount_is_served_without_a_command() {
    let mut s = session(Platform::Windows);
    s.params.skip_auto_mount = true;
    s.begin(false);
    let actions = step(&mut s, portmapper(Ok(())));
    assert_eq!(actions[1..], mounted("Z:")[..]);
    step(&mut s, SessionEvent::ProbeDue);
    assert_eq!(step(&mut s, SessionEvent::ProbeDone { mounted: false }), vec![]);
}
