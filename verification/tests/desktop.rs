use hf_mount::autostart::{
    autostart_is_enabled, autostart_path, autostart_result, desktop_exec_quote,
    set_autostart_enabled, task_created, task_query_command, task_removed, task_run, xml_escape,
    AutostartEvidence, AutostartOutcome, AutostartStep,
};
use hf_mount::mount_command::{CommandLine, CommandOutput, Host, MountEvidence};
use hf_mount::nfs::FileTime;
use hf_mount::platform::{
    default_mount_hint, default_mount_point, elevation_result, enable_windows_nfs_client,
    is_absolute_unix, join, mount_point_appears_active, mount_point_hint, open_failure,
    open_mount_point, platform_label, powershell_exe, process_is_running,
    restart_as_administrator, signal_failure, task_list_command, terminate_process,
    terminate_result, unmount_path, unmount_path_result, ActiveEvidence, CommandRun, OpenTarget, Platform,
    ProcessEvidence, Termination,
};
use hf_mount::preflight::{
    bind_result_label, blocker_command, check_level_label, check_line, find_blocker, find_failure,
    has_level, run_preflight_checks, summarize_checks, CheckItem, CheckLevel, Findings,
};
use hf_mount::profile::{
    profile_mount_options, profile_mount_source, profile_path, source_id_problem, GuiSource,
    MountProfile, RecentSource, MAX_RECENT_SOURCES,
};
use hf_mount::setup::Source;
use hf_mount::util::{
    app_config_dir, current_env_hf_token, current_unix_nanos, current_unix_secs, format_elapsed,
    init_backend_once, non_empty_or_default, optional_text, panic_message, parse_path,
    temp_sibling_name, FileStep, PanicPayload, UserDirs,
};

fn sample_profile() -> MountProfile {
    MountProfile {
        source: GuiSource::Repo,
        source_id: "openai-community/gpt2".to_string(),
        revision: "main".to_string(),
        mount_point: "/tmp/hf-mount".to_string(),
        token_file: "/tmp/hf-token".to_string(),
        hub_endpoint: "https://huggingface.co".to_string(),
        cache_dir: "/tmp/hf-cache".to_string(),
        read_only: true,
        run_in_background: true,
        nfs_allow_unsafe_loopback: false,
        recent_sources: Vec::new(),
    }
}

#[test]
fn recent_sources_dedupe_and_cap() {
    let mut profile = sample_profile();
    for i in 0..8 {
        profile.remember_recent(RecentSource {
            source: GuiSource::Repo,
            source_id: format!("user/model-{i}"),
            revision: "main".to_string(),
        });
    }
    assert_eq!(profile.recent_sources.len(), MAX_RECENT_SOURCES);
    assert_eq!(profile.recent_sources[0].source_id, "user/model-7");

    // Re-mounting an existing entry moves it to the front without duplicating.
    profile.remember_recent(RecentSource {
        source: GuiSource::Repo,
        source_id: "user/model-5".to_string(),
        revision: "main".to_string(),
    });
    assert_eq!(profile.recent_sources.len(), MAX_RECENT_SOURCES);
    assert_eq!(profile.recent_sources[0].source_id, "user/model-5");
}

#[test]
fn source_id_validation_catches_common_mistakes() {
    assert!(source_id_problem(GuiSource::Repo, "").is_some());
    assert!(source_id_problem(GuiSource::Repo, "has space/model").is_some());
    assert!(source_id_problem(GuiSource::Repo, "/leading").is_some());
    assert!(source_id_problem(GuiSource::Bucket, "no-namespace").is_some());
    // Empty interior segments are rejected, but subfolder paths are valid:
    // Source::Bucket supports namespace/bucket/path/to/dir.
    assert!(source_id_problem(GuiSource::Bucket, "a//b").is_some());
    assert!(source_id_problem(GuiSource::Bucket, "namespace/bucket/checkpoints").is_none());
    assert!(source_id_problem(GuiSource::Repo, "gpt2").is_none());
    assert!(source_id_problem(GuiSource::Repo, "openai-community/gpt2").is_none());
    assert!(source_id_problem(GuiSource::Bucket, "myuser/my-bucket").is_none());
}

#[test]
fn repo_profiles_are_always_read_only() {
    let mut profile = sample_profile();
    profile.read_only = false;
    let options = profile_mount_options(&profile, None).unwrap();
    assert!(options.read_only);
}

#[test]
fn optional_text_trims_and_filters() {
    assert_eq!(optional_text("  "), None);
    assert_eq!(optional_text(" x "), Some("x".to_string()));
}

#[test]
fn format_elapsed_renders_each_magnitude() {
    assert_eq!(format_elapsed(42), "42s");
    assert_eq!(format_elapsed(312), "5m 12s");
    assert_eq!(format_elapsed(3720), "1h 02m");
}

#[test]
fn durations_at_the_edges() {
    assert_eq!(format_elapsed(0), "0s");
    assert_eq!(format_elapsed(60), "1m 00s");
    assert_eq!(format_elapsed(3599), "59m 59s");
    assert_eq!(format_elapsed(360_000), "100h 00m");
}

#[test]
fn what_is_wrong_with_an_id_is_said() {
    assert_eq!(
        source_id_problem(GuiSource::Repo, " "),
        Some("Repo ID is required, e.g. openai-community/gpt2.")
    );
    assert_eq!(
        source_id_problem(GuiSource::Bucket, ""),
        Some("Bucket ID is required, e.g. namespace/bucket.")
    );
    assert_eq!(source_id_problem(GuiSource::Repo, "a b"), Some("IDs cannot contain spaces."));
    assert_eq!(
        source_id_problem(GuiSource::Repo, "a/"),
        Some("Remove the leading/trailing slash.")
    );
    assert_eq!(
        source_id_problem(GuiSource::Bucket, "a"),
        Some("Buckets are namespace/bucket, e.g. myuser/my-bucket.")
    );
}

#[test]
fn a_profile_names_a_source() {
    let mut profile = sample_profile();
    profile.source_id = " a/b ".to_string();
    profile.revision = " ".to_string();
    assert_eq!(
        profile_mount_source(&profile),
        Ok(Source::Repo {
            repo_id: "a/b".to_string(),
            mount_point: "/tmp/hf-mount".to_string(),
            revision: "main".to_string(),
        })
    );
    profile.mount_point = " ".to_string();
    assert_eq!(profile_mount_source(&profile), Err("Mount point is required.".to_string()));
    profile.source_id = "".to_string();
    assert_eq!(
        profile_mount_source(&profile),
        Err("Repo ID is required, e.g. openai-community/gpt2.".to_string())
    );
}

#[test]
fn a_profile_asks_for_options() {
    let mut profile = sample_profile();
    profile.source = GuiSource::Bucket;
    profile.read_only = false;
    profile.hub_endpoint = "".to_string();
    let options = profile_mount_options(&profile, Some(" tok ")).unwrap();
    assert_eq!(options.hf_token, Some("tok".to_string()));
    assert_eq!(options.token_file, Some("/tmp/hf-token".to_string()));
    assert_eq!(options.hub_endpoint, "https://huggingface.co");
    assert!(!options.read_only);
    profile.cache_dir = "".to_string();
    assert_eq!(
        profile_mount_options(&profile, None),
        Err("Cache directory is required.".to_string())
    );
}

#[test]
fn recent_sources_have_labels() {
    let recent = RecentSource {
        source: GuiSource::Repo,
        source_id: "a/b".to_string(),
        revision: "v1".to_string(),
    };
    assert!(recent.label().contains("a/b"));
    assert!(recent.same_as(&recent.clone()));
}

// ── Small things ────────────────────────────────────────────────────────

#[test]
fn the_backend_is_set_up_once() {
    let mut done = false;
    assert!(init_backend_once(&mut done));
    assert!(!init_backend_once(&mut done));
    assert!(done);
}

#[test]
fn typed_text() {
    assert_eq!(non_empty_or_default(" a ", "b"), "a");
    assert_eq!(non_empty_or_default(" ", "b"), "b");
    assert_eq!(parse_path(" /x ", "Path"), Ok("/x".to_string()));
    assert_eq!(parse_path("", "Path"), Err("Path is required.".to_string()));
    assert_eq!(current_env_hf_token(Some(" ")), None);
    assert_eq!(current_env_hf_token(Some("t")), Some("t".to_string()));
    assert_eq!(current_env_hf_token(None), None);
    assert_eq!(optional_text("\u{a0}x\u{3000}"), Some("x".to_string()));
}

#[test]
fn times_since_the_epoch() {
    let now = FileTime::SinceEpoch { secs: 12, nanos: 34 };
    assert_eq!(current_unix_secs(now), 12);
    assert_eq!(current_unix_nanos(now), 12_000_000_034);
    assert_eq!(current_unix_secs(FileTime::BeforeEpoch), 0);
    assert_eq!(
        temp_sibling_name(Some("settings.json"), 7, now),
        ".settings.json.7.12000000034.tmp"
    );
    assert_eq!(temp_sibling_name(None, 7, FileTime::BeforeEpoch), ".hf-mount.7.0.tmp");
    assert_eq!(panic_message(PanicPayload::Message("m".to_string())), "m");
    assert_eq!(panic_message(PanicPayload::Other), "unknown panic");
}

#[test]
fn files_that_cannot_be_replaced() {
    let dir = FileStep::CreateDir { path: "/d".to_string() };
    assert_eq!(dir.failure("e"), "Failed to create /d: e");
    let write = FileStep::Write { temp_path: "/t".to_string() };
    assert_eq!(write.failure("e"), "Failed to write /t: e");
    let replace = FileStep::Replace { path: "/p".to_string(), temp_path: "/t".to_string() };
    assert_eq!(replace.failure("e"), "Failed to replace /p with /t: e");
}

fn dirs() -> UserDirs {
    UserDirs {
        appdata: Some("C:\\Users\\u\\AppData".to_string()),
        home: Some("/home/u".to_string()),
        xdg_config_home: None,
    }
}

#[test]
fn settings_have_their_place() {
    assert_eq!(app_config_dir(Platform::Linux, &dirs()), Ok("/home/u/.config/hf-mount".to_string()));
    assert_eq!(
        profile_path(Platform::MacOs, &dirs()),
        Ok("/home/u/Library/Application Support/hf-mount/mount-profile.json".to_string())
    );
    assert_eq!(
        app_config_dir(Platform::Windows, &dirs()),
        Ok("C:\\Users\\u\\AppData\\hf-mount".to_string())
    );
    let xdg = UserDirs { xdg_config_home: Some("/x".to_string()), ..dirs() };
    assert_eq!(app_config_dir(Platform::Linux, &xdg), Ok("/x/hf-mount".to_string()));
    let none = UserDirs { appdata: None, home: None, xdg_config_home: None };
    assert_eq!(app_config_dir(Platform::Windows, &none), Err("APPDATA is not set.".to_string()));
    assert_eq!(app_config_dir(Platform::Linux, &none), Err("HOME is not set.".to_string()));
}

// ── Platforms ───────────────────────────────────────────────────────────

fn host(platform: Platform) -> Host {
    Host { platform, is_root: false, system_root: None }
}

fn line(program: &str, args: &[&str]) -> CommandLine {
    CommandLine {
        program: program.to_string(),
        args: args.iter().map(|a| a.to_string()).collect(),
    }
}

fn ended(success: bool) -> CommandRun {
    CommandRun::Ended(CommandOutput {
        success,
        status: "exit code: 5".to_string(),
        stdout: " out ".to_string(),
        stderr: " err ".to_string(),
    })
}

#[test]
fn paths_are_joined() {
    assert_eq!(join(Platform::Linux, "/a", "b"), "/a/b");
    assert_eq!(join(Platform::Linux, "/a/", "b"), "/a/b");
    assert_eq!(join(Platform::Linux, "", "b"), "b");
    assert_eq!(join(Platform::Windows, "C:", "b"), "C:b");
    assert_eq!(join(Platform::Windows, "C:\\a", "b"), "C:\\a\\b");
    assert!(is_absolute_unix("/a"));
    assert!(!is_absolute_unix("a"));
}

#[test]
fn platforms_have_names_and_mount_points() {
    assert_eq!(platform_label(Platform::Linux), "Linux");
    assert_eq!(default_mount_point(Platform::Linux, 0, "/tmp"), "/tmp/hf-mount");
    assert_eq!(default_mount_point(Platform::Windows, 1 << 25, ""), "Y:");
    assert_eq!(default_mount_hint(Platform::Windows), "Z:");
    assert!(mount_point_hint(Platform::MacOs).contains("absolute"));
}

#[test]
fn commands_of_the_window() {
    assert_eq!(
        unmount_path(&host(Platform::Windows), Some("Z:\\")),
        Ok(line("C:\\Windows\\System32\\umount.exe", &["-f", "Z:"]))
    );
    assert_eq!(unmount_path(&host(Platform::Linux), Some("/m")), Ok(line("umount", &["/m"])));
    assert_eq!(
        unmount_path(&host(Platform::Linux), None),
        Err("Mount point is not valid UTF-8".to_string())
    );
    assert_eq!(
        unmount_path_result(&ended(false)),
        Err("Unmount failed with exit code: 5: stdout=out stderr=err".to_string())
    );
    assert_eq!(unmount_path_result(&ended(true)), Ok(()));
    assert_eq!(
        unmount_path_result(&CommandRun::NotRun("gone".to_string())),
        Err("Failed to run unmount command: gone".to_string())
    );
    let target = OpenTarget::Path("Z:".to_string());
    assert_eq!(
        open_mount_point(Platform::Windows, &target),
        Ok(line("explorer.exe", &["Z:\\"]))
    );
    assert_eq!(
        open_mount_point(Platform::Linux, &OpenTarget::Missing),
        Err("No active mount point is recorded.".to_string())
    );
    assert_eq!(
        open_mount_point(Platform::Linux, &OpenTarget::NotText),
        Err("Mount point is not valid UTF-8".to_string())
    );
    assert_eq!(open_failure("e"), "Failed to open mount point: e");
}

#[test]
fn processes_are_found_and_ended() {
    let list = ProcessEvidence::TaskList(Some("\"a.exe\",\"42\",\"Console\"".to_string()));
    assert!(process_is_running(42, &list));
    assert!(!process_is_running(4, &list));
    assert!(!process_is_running(0, &list));
    assert!(!process_is_running(42, &ProcessEvidence::TaskList(None)));
    let refused = ProcessEvidence::Signal { delivered: false, not_permitted: true };
    assert!(process_is_running(42, &refused));
    let none = ProcessEvidence::Signal { delivered: false, not_permitted: false };
    assert!(!process_is_running(42, &none));
    assert_eq!(
        task_list_command(&host(Platform::Windows), 42).args,
        vec!["/FI", "PID eq 42", "/FO", "CSV", "/NH"]
    );
    assert_eq!(terminate_process(&host(Platform::Linux), 42), Ok(Termination::Signal));
    assert_eq!(
        terminate_process(&host(Platform::Windows), 42),
        Ok(Termination::Run(line(
            "C:\\Windows\\System32\\taskkill.exe",
            &["/PID", "42", "/T", "/F"]
        )))
    );
    assert_eq!(
        terminate_process(&host(Platform::Linux), 0),
        Err("invalid process id".to_string())
    );
    assert_eq!(
        terminate_result(&ended(false)),
        Err("taskkill failed with exit code: 5: err".to_string())
    );
    assert_eq!(signal_failure(42, "e"), "Failed to signal process 42: e");
}

#[test]
fn raised_rights_are_asked_for() {
    let h = host(Platform::Windows);
    let shell = "C:\\Windows\\System32\\WindowsPowerShell\\v1.0\\powershell.exe";
    assert_eq!(powershell_exe(&h), shell);
    let c = restart_as_administrator(&h, "C:\\x.exe");
    assert_eq!(c.program, shell);
    assert_eq!(c.args.last().unwrap(), "C:\\x.exe");
    let c = enable_windows_nfs_client(&h);
    assert_eq!(c.args[5], shell);
    assert!(c.args[6].contains("ServicesForNFS-ClientOnly"));
    assert_eq!(elevation_result(&ended(false)), Err("PowerShell exited with exit code: 5".to_string()));
    assert_eq!(
        elevation_result(&CommandRun::NotRun("no".to_string())),
        Err("Failed to launch the UAC prompt: no".to_string())
    );
}

#[test]
fn a_directory_alone_is_no_mount() {
    let table = MountEvidence::Table(Some("none /proc proc\n".to_string()));
    let empty = ActiveEvidence::Mounts(table);
    assert!(!mount_point_appears_active("/tmp", &empty));
    assert!(mount_point_appears_active("/proc", &empty));
    assert!(mount_point_appears_active("Z:", &ActiveEvidence::Visible(true)));
    assert!(!mount_point_appears_active("Z:", &ActiveEvidence::Visible(false)));
}

// ── Autostart ───────────────────────────────────────────────────────────

#[test]
fn autostart_entries() {
    assert_eq!(xml_escape("a<b>&\"'"), "a&lt;b&gt;&amp;&quot;&apos;");
    assert_eq!(desktop_exec_quote("/o p\\\"t"), "\"/o p\\\\\\\"t\"");
    assert_eq!(task_run("C:\\a b.exe"), "\"C:\\a b.exe\" --background-worker");
    assert_eq!(
        autostart_path(Platform::Linux, &dirs()),
        Ok("/home/u/.config/autostart/hf-mount.desktop".to_string())
    );
    assert_eq!(
        set_autostart_enabled(&host(Platform::Linux), &dirs(), "/x", true),
        Ok(AutostartStep::WriteFile {
            path: "/home/u/.config/autostart/hf-mount.desktop".to_string(),
            content: "[Desktop Entry]\nType=Application\nName=hf-mount autostart\nExec=\"/x\" --background-worker\nTerminal=false\nX-GNOME-Autostart-enabled=true\n".to_string(),
        })
    );
    assert_eq!(
        set_autostart_enabled(&host(Platform::MacOs), &dirs(), "/x", false),
        Ok(AutostartStep::RemoveFile {
            path: "/home/u/Library/LaunchAgents/co.huggingface.hf-mount-gui-autostart.plist"
                .to_string(),
        })
    );
    match set_autostart_enabled(&host(Platform::MacOs), &dirs(), "/a&b", true) {
        Ok(AutostartStep::WriteFile { content, .. }) => {
            assert!(content.contains("<string>/a&amp;b</string>\n<string>--background-worker</string>"));
            assert!(content.contains("background.log"));
        }
        other => panic!("{other:?}"),
    }
    match set_autostart_enabled(&host(Platform::Windows), &dirs(), "C:\\x", true) {
        Ok(AutostartStep::Run(c)) => assert_eq!(c.args[0], "/Create"),
        other => panic!("{other:?}"),
    }
}

#[test]
fn autostart_is_there_or_not() {
    assert!(autostart_is_enabled(
        Platform::Windows,
        &dirs(),
        &AutostartEvidence::TaskQuery(Some(true))
    ));
    assert!(!autostart_is_enabled(Platform::Windows, &dirs(), &AutostartEvidence::TaskQuery(None)));
    assert!(autostart_is_enabled(Platform::Linux, &dirs(), &AutostartEvidence::File(true)));
    assert!(!autostart_is_enabled(Platform::Linux, &dirs(), &AutostartEvidence::File(false)));
    assert_eq!(task_query_command(&host(Platform::Windows)).args[0], "/Query");
    assert_eq!(task_created(&ended(true)), Ok(()));
    assert!(task_created(&ended(false)).is_err());
    assert_eq!(task_removed(&ended(false), false), Ok(()));
    assert!(task_removed(&ended(false), true).is_err());
}

#[test]
fn autostart_steps_are_reported() {
    let path = "/a".to_string();
    let error = "full".to_string();
    assert_eq!(autostart_result(&AutostartOutcome::Written), Ok(()));
    assert_eq!(autostart_result(&AutostartOutcome::Removed), Ok(()));
    assert_eq!(
        autostart_result(&AutostartOutcome::DirNotCreated {
            dir: path.clone(),
            error: error.clone()
        }),
        Err("Failed to create /a: full".to_string())
    );
    assert_eq!(
        autostart_result(&AutostartOutcome::NotWritten {
            path: path.clone(),
            error: error.clone()
        }),
        Err("Failed to write /a: full".to_string())
    );
    assert_eq!(
        autostart_result(&AutostartOutcome::NotRemoved { path, error }),
        Err("Failed to remove /a: full".to_string())
    );
    assert_eq!(autostart_result(&AutostartOutcome::TaskCreated(ended(true))), Ok(()));
    assert!(autostart_result(&AutostartOutcome::TaskCreated(ended(false))).is_err());
    let removed = |success, still_there| {
        autostart_result(&AutostartOutcome::TaskRemoved { run: ended(success), still_there })
    };
    assert_eq!(removed(false, false), Ok(()));
    assert_eq!(removed(true, false), Ok(()));
    assert!(removed(false, true).is_err());
}

/// What is set is found to be set, and taking away what is gone is no failure.
#[test]
fn autostart_is_as_it_was_set() {
    let mut files: Vec<String> = Vec::new();
    let path = autostart_path(Platform::Linux, &dirs()).unwrap();
    for enabled in [true, true, false, false, true] {
        let step = set_autostart_enabled(&host(Platform::Linux), &dirs(), "/x", enabled);
        let outcome = match step {
            Ok(AutostartStep::WriteFile { path, .. }) => {
                files.retain(|f| *f != path);
                files.push(path);
                AutostartOutcome::Written
            }
            Ok(AutostartStep::RemoveFile { path }) => {
                files.retain(|f| *f != path);
                AutostartOutcome::Removed
            }
            other => panic!("{other:?}"),
        };
        assert_eq!(autostart_result(&outcome), Ok(()));
        let evidence = AutostartEvidence::File(files.contains(&path));
        assert_eq!(autostart_is_enabled(Platform::Linux, &dirs(), &evidence), enabled);
    }
}

#[test]
fn a_list_with_repeats_is_remembered_too() {
    let entry = |id: &str| RecentSource {
        source: GuiSource::Repo,
        source_id: id.to_string(),
        revision: "main".to_string(),
    };
    let mut profile = sample_profile();
    profile.recent_sources = ["a", "b", "a", "b", "c", "a", "d", "e"].map(entry).to_vec();
    profile.remember_recent(entry("a"));
    let first: Vec<String> = profile.recent_sources.iter().map(|r| r.source_id.clone()).collect();
    assert_eq!(first, ["a", "b", "b", "c", "d"]);
    profile.remember_recent(entry("a"));
    let second: Vec<String> = profile.recent_sources.iter().map(|r| r.source_id.clone()).collect();
    assert_eq!(second, first);
}

// ── Checks ──────────────────────────────────────────────────────────────

fn findings() -> Findings {
    Findings {
        elevated: true,
        mount_tool_exists: true,
        umount_tool_exists: true,
        udp_port: Ok(()),
        tcp_port: Ok(()),
        target_exists: false,
        target_is_dir: false,
        target_is_absolute: true,
    }
}

fn windows(mount_point: &str, f: &Findings) -> Vec<CheckItem> {
    run_preflight_checks(Platform::Windows, mount_point, f)
}

#[test]
fn a_ready_windows_machine_passes() {
    let checks = windows("Z:", &findings());
    assert_eq!(checks.len(), 4);
    assert!(!has_level(&checks, CheckLevel::Fail) && !has_level(&checks, CheckLevel::Warn));
    assert_eq!(checks[3].detail, "Z: is a free drive-letter target.");
    assert_eq!(summarize_checks(&checks), "Setup checks passed");
    assert_eq!(find_failure(&checks), None);
}

#[test]
fn what_is_missing_on_windows_is_said() {
    let mut f = findings();
    f.elevated = false;
    f.umount_tool_exists = false;
    let checks = windows("Z:", &f);
    assert_eq!(find_failure(&checks), Some(0));
    assert_eq!(find_blocker(&checks), Some(1));
    assert_eq!(checks[2].level, CheckLevel::Warn);
    assert_eq!(summarize_checks(&checks), "Setup checks found a blocking issue");
    assert!(check_line(&checks[0]).starts_with("[FAIL] Administrator: Restart"));
    assert!(blocker_command(Platform::Windows, &checks[1]).unwrap().starts_with("Enable-Windows"));
    assert_eq!(blocker_command(Platform::Linux, &checks[1]), None);
    assert_eq!(check_level_label(CheckLevel::Warn), "WARN");
}

#[test]
fn busy_ports_are_named() {
    let mut f = findings();
    f.tcp_port = Err("in use".to_string());
    assert_eq!(
        windows("Z:", &f)[2].detail,
        "Port 111 is not available: UDP=ok TCP=in use. Close other NFS/portmap services or another hf-mount instance."
    );
    assert_eq!(bind_result_label(&Ok(())), "ok");
}

#[test]
fn mount_points_of_windows() {
    let target = |path: &str, f: &Findings| windows(path, f)[3].clone();
    let mut f = findings();
    assert_eq!(target(" ", &f).level, CheckLevel::Fail);
    assert_eq!(target("C:\\dir", &f).level, CheckLevel::Warn);
    f.target_exists = true;
    assert_eq!(
        target("z:/", &f).detail,
        "z: already exists. Pick an unused drive letter such as Y: or X:."
    );
    assert_eq!(target("C:\\file", &f).detail, "The target exists but is not a directory.");
    f.target_is_dir = true;
    assert_eq!(target("C:\\dir", &f).level, CheckLevel::Warn);
    f.target_is_absolute = false;
    assert_eq!(target("dir", &f).detail, "Use a drive letter or an absolute directory path.");
}

#[test]
fn mount_points_elsewhere() {
    let mut f = findings();
    f.mount_tool_exists = false;
    let checks = run_preflight_checks(Platform::MacOs, "rel", &f);
    assert_eq!(checks[0].detail, "/sbin/mount_nfs was not found.");
    assert_eq!(checks[1].detail, "Use an absolute local directory path.");
    let checks = run_preflight_checks(Platform::Linux, " /m ", &f);
    assert_eq!(checks.len(), 1);
    assert_eq!(checks[0].level, CheckLevel::Pass);
}
