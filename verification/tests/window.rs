use hf_mount::gui::{
    log_cleanup_failure, same_worker_status, show_unmount_failure, worker_mount_state, ChildState,
    LaunchStep, MountControl, MountForm, MountGuiApp, StartRequest, StartStep, StopStep,
    WorkerCleanup,
};
use hf_mount::nfs::FileTime;
use hf_mount::platform::{OpenTarget, Platform};
use hf_mount::preflight::{CheckItem, CheckLevel};
use hf_mount::profile::{GuiSource, RecentSource};
use hf_mount::session::NfsMountEvent;
use hf_mount::status::{
    current_time_text, handle_mount_event, log_text, push_log, push_log_at, push_log_with_level,
    refresh_status_cache, set_status, set_status_at, set_status_if_changed,
    set_status_if_changed_at, show_mount_outcome, LogLevel, MountOutcome, MountState, SharedStatus,
    Tab, MAX_LOG_LINES,
};
use hf_mount::view::{
    backend_line, blocker_action, blocker_button, blocker_text, check_row, checks_summary,
    drive_choice, form_parts, form_texts, level_count, mount_actions, state_chip, uptime_line,
    version_line, worker_log_line, BlockerAction, Tone,
};
use hf_mount::worker::{worker_status, WorkerSnapshot, WorkerState, WorkerStatus};

const T: &str = "12:00:00";

fn form() -> MountForm {
    MountForm::new("/m".to_string(), "/c".to_string(), None, false)
}

fn item(level: CheckLevel, label: &str) -> CheckItem {
    CheckItem { level, label: label.to_string(), detail: "d".to_string() }
}

fn app() -> MountGuiApp {
    MountGuiApp::new(form(), vec![])
}

fn shown() -> SharedStatus {
    SharedStatus::initial_at(T)
}

fn is(status: &SharedStatus, state: MountState, headline: &str, detail: &str) {
    assert_eq!(status.state, state);
    assert_eq!(status.headline, headline);
    assert_eq!(status.detail, detail);
}

// ── The status ──────────────────────────────────────────────────────────

#[test]
fn the_clock_has_hours_minutes_and_seconds() {
    let text = current_time_text();
    assert_eq!(text.len(), 8);
    let numbers: Vec<u32> = text.split(':').map(|n| n.parse().unwrap()).collect();
    assert!(numbers[0] < 24 && numbers[1] < 60 && numbers[2] <= 60);
    let s = SharedStatus::default();
    assert_eq!(s.log[0].text, "Ready");
    assert_eq!(s.log[0].time.len(), 8);
}

#[test]
fn a_status_is_logged() {
    let mut s = shown();
    assert_eq!(s.revision, 1);
    set_status_at(&mut s, T, MountState::Failed, "h", "d");
    is(&s, MountState::Failed, "h", "d");
    assert_eq!(s.revision, 2);
    assert_eq!(s.log[1].level, LogLevel::Error);
    set_status_if_changed_at(&mut s, T, MountState::Failed, "h", "d");
    assert_eq!(s.revision, 2);
    set_status_if_changed(&mut s, MountState::Failed, "h", "other");
    set_status(&mut s, MountState::Mounted, "h2", "d2");
    push_log(&mut s, "line");
    push_log_with_level(&mut s, LogLevel::Error, "bad");
    assert_eq!(s.revision, 6);
    assert_eq!(s.log[5].level, LogLevel::Error);
    assert_eq!(s.log[4].text, "line");
}

#[test]
fn the_log_keeps_its_newest_lines() {
    let mut s = shown();
    for i in 0..MAX_LOG_LINES {
        push_log_at(&mut s, T, LogLevel::Info, &format!("{i}"));
    }
    assert_eq!(s.log.len(), MAX_LOG_LINES);
    assert_eq!(s.log[0].text, "0");
    push_log_at(&mut s, T, LogLevel::Info, "last");
    assert_eq!(s.log.len(), MAX_LOG_LINES);
    assert_eq!(s.log[0].text, "1");
    assert_eq!(s.log[MAX_LOG_LINES - 1].text, "last");
    s.revision = u64::MAX;
    push_log_at(&mut s, T, LogLevel::Info, "wraps");
    assert_eq!(s.revision, 0);
}

#[test]
fn the_log_is_copied_as_text() {
    let mut s = shown();
    push_log_at(&mut s, "12:00:01", LogLevel::Error, "bad");
    assert_eq!(log_text(&s), "12:00:00 INFO Ready\n12:00:01 ERROR bad");
}

#[test]
fn a_cache_is_refreshed_where_the_revision_moved() {
    let mut s = shown();
    let mut cache = s.copy();
    set_status_at(&mut s, T, MountState::Mounted, "h", "d");
    refresh_status_cache(&mut cache, &s);
    is(&cache, MountState::Mounted, "h", "d");
    assert_eq!(cache.log.len(), 2);
}

#[test]
fn events_and_outcomes_of_a_mount_are_shown() {
    let mut s = shown();
    handle_mount_event(&mut s, T, &NfsMountEvent::ServerListening { port: 2049 });
    is(&s, MountState::Mounting, "Local NFS server is listening", "127.0.0.1:2049");
    handle_mount_event(&mut s, T, &NfsMountEvent::MountCommand { command: "m".to_string() });
    assert_eq!(s.log[2].text, "Running m");
    handle_mount_event(&mut s, T, &NfsMountEvent::Mounted { mount_point: "/m".to_string() });
    is(&s, MountState::Mounted, "Mounted", "Mounted at /m");
    handle_mount_event(&mut s, T, &NfsMountEvent::ShuttingDown { reason: "r".to_string() });
    is(&s, MountState::Stopping, "Shutting down", "r");
    show_mount_outcome(&mut s, T, &MountOutcome::Stopped, false);
    is(&s, MountState::Stopped, "Unmounted", "The mount stopped cleanly.");
    show_mount_outcome(&mut s, T, &MountOutcome::Failed("e".to_string()), false);
    is(&s, MountState::Failed, "Mount failed", "e");
    show_mount_outcome(&mut s, T, &MountOutcome::Failed("e".to_string()), true);
    is(&s, MountState::Stopped, "Stopped", "Mount cancelled during startup (e).");
    show_mount_outcome(&mut s, T, &MountOutcome::Crashed("e".to_string()), false);
    is(&s, MountState::Failed, "Mount crashed", "e");
}

// ── The form ────────────────────────────────────────────────────────────

#[test]
fn a_saved_form_comes_back_without_its_token() {
    let mut f = form();
    f.select_source(GuiSource::Bucket);
    f.source_id = "a/b".to_string();
    f.read_only = false;
    f.hf_token = "secret".to_string();
    let p = f.profile();
    let mut other = form();
    other.hf_token = "kept".to_string();
    other.apply_profile(p.clone());
    assert_eq!(other.profile(), p);
    assert_eq!(other.hf_token, "kept");
    assert!(!other.read_only);
}

#[test]
fn a_repo_is_read_only() {
    let mut f = form();
    f.select_source(GuiSource::Bucket);
    f.read_only = false;
    f.select_source(GuiSource::Repo);
    assert!(f.read_only);
    f.read_only = false;
    assert!(f.profile().read_only);
}

#[test]
fn a_recent_source_fills_the_form() {
    let mut f = form();
    f.revision = "dev".to_string();
    let recent = |source, revision: &str| RecentSource {
        source,
        source_id: "x/y".to_string(),
        revision: revision.to_string(),
    };
    f.apply_recent_source(&recent(GuiSource::Bucket, ""));
    assert_eq!((f.source, f.revision.as_str()), (GuiSource::Bucket, "dev"));
    f.apply_recent_source(&recent(GuiSource::Repo, ""));
    assert_eq!(f.revision, "main");
    f.apply_recent_source(&recent(GuiSource::Repo, "v2"));
    assert_eq!(f.revision, "v2");
    f.remember_recent_source();
    f.remember_recent_source();
    assert_eq!(f.recent_sources, vec![recent(GuiSource::Repo, "v2")]);
}

#[test]
fn a_typed_token_goes_before_the_environment() {
    let mut f = form();
    let p = f.profile();
    assert_eq!(f.mount_options(&p, Some("env")).unwrap().hf_token, Some("env".to_string()));
    f.hf_token = " typed ".to_string();
    assert_eq!(f.mount_options(&p, Some("env")).unwrap().hf_token, Some("typed".to_string()));
}

// ── Starting ────────────────────────────────────────────────────────────

fn start(app: &mut MountGuiApp, s: &mut SharedStatus, env_token: Option<&str>) -> StartStep {
    app.start_mount(s, T, vec![item(CheckLevel::Pass, "Mount point")], env_token)
}

fn saved(app: &mut MountGuiApp, s: &mut SharedStatus) -> StartRequest {
    match start(app, s, None) {
        StartStep::Save(request) => request,
        StartStep::Refused => panic!("refused"),
    }
}

#[test]
fn a_failed_check_stops_the_start() {
    let mut a = app();
    let mut s = shown();
    let checks = vec![item(CheckLevel::Warn, "A"), item(CheckLevel::Fail, "B")];
    assert_eq!(a.start_mount(&mut s, T, checks, None), StartStep::Refused);
    is(&s, MountState::Failed, "Setup check failed: B", "d");
}

#[test]
fn a_bad_form_stops_the_start() {
    let mut s = shown();
    let mut a = app();
    a.form.source_id = "".to_string();
    assert_eq!(start(&mut a, &mut s, None), StartStep::Refused);
    assert_eq!(s.headline, "Invalid source");
    let mut a = app();
    a.form.cache_dir = "".to_string();
    assert_eq!(start(&mut a, &mut s, None), StartStep::Refused);
    is(&s, MountState::Failed, "Invalid mount options", "Cache directory is required.");
    let mut a = app();
    a.form.run_in_background = true;
    a.form.hf_token = "typed".to_string();
    assert_eq!(start(&mut a, &mut s, None), StartStep::Refused);
    assert_eq!(s.headline, "Token not available to background worker");
    assert!(matches!(start(&mut a, &mut s, Some("typed")), StartStep::Save(_)));
    a.form.token_file = "/t".to_string();
    assert!(matches!(start(&mut a, &mut s, None), StartStep::Save(_)));
}

#[test]
fn a_mount_is_started_on_a_thread() {
    let mut a = app();
    let mut s = shown();
    let request = saved(&mut a, &mut s);
    assert_eq!(request.source_label, "model/openai-community/gpt2/main");
    assert_eq!(a.form.recent_sources.len(), 1);
    let refused = a.start_saved(&mut s, T, &request, Err("disk full".to_string()));
    assert_eq!(refused, LaunchStep::Refused);
    is(&s, MountState::Failed, "Could not save settings", "disk full");
    assert_eq!(a.start_saved(&mut s, T, &request, Ok(())), LaunchStep::Thread);
    is(&s, MountState::Mounting, "Preparing mount", "Target: /m");
    assert!(a.control.is_mount_running(true));
    assert!(!a.control.is_mount_running(false));
    assert_eq!(a.open_target(), OpenTarget::Path("/m".to_string()));
    let actions = mount_actions(&a, MountState::Mounting, true);
    assert!(!actions.start_enabled && actions.stop_enabled && !actions.open_enabled);
    assert_eq!(actions.active_target, Some("Active target: /m".to_string()));
}

#[test]
fn a_mount_is_started_in_the_background() {
    let mut a = app();
    a.form.run_in_background = true;
    let mut s = shown();
    let request = saved(&mut a, &mut s);
    assert_eq!(a.start_saved(&mut s, T, &request, Ok(())), LaunchStep::Worker);
    a.worker_launched(&mut s, T, &request, Err("no".to_string()));
    is(&s, MountState::Failed, "Could not start background mount", "no");
    assert!(!a.control.is_mount_running(false));
    a.worker_launched(&mut s, T, &request, Ok(42));
    is(&s, MountState::Mounting, "Background mount starting", "Target: /m");
    assert_eq!(a.control.child, Some(42));
    assert!(a.control.is_mount_running(false));
}

// ── Stopping ────────────────────────────────────────────────────────────

fn mounting() -> (MountGuiApp, SharedStatus) {
    let mut a = app();
    let mut s = shown();
    let request = saved(&mut a, &mut s);
    a.start_saved(&mut s, T, &request, Ok(()));
    (a, s)
}

#[test]
fn a_mount_of_this_process_is_asked_to_end() {
    let (mut a, mut s) = mounting();
    assert_eq!(a.stop_mount(&mut s, T, true), StopStep::RequestShutdown);
    is(&s, MountState::Stopping, "Stop requested", "Waiting for the mount to shut down.");
    assert!(a.control.is_stopping());
    assert!(!mount_actions(&a, s.state, true).stop_enabled);
    a.control.collect_mount_thread(&mut s, T, true, false);
    is(&s, MountState::Stopped, "Unmounted", "The mount process has stopped.");
    assert_eq!(a.control.active_mount_point, None);
}

#[test]
fn nothing_is_mounted() {
    let mut a = app();
    let mut s = shown();
    assert_eq!(a.stop_mount(&mut s, T, false), StopStep::Nothing);
    is(
        &s,
        MountState::Failed,
        "No active mount",
        "There is no recorded mount point to unmount.",
    );
    assert_eq!(a.open_target(), OpenTarget::Missing);
}

fn report(state: WorkerState, pid: Option<u32>) -> WorkerStatus {
    worker_status(
        state,
        "headline",
        "detail",
        Some("/m"),
        Some("label"),
        pid,
        FileTime::SinceEpoch { secs: 100, nanos: 0 },
    )
}

fn snapshot(generation: u64, status: Option<WorkerStatus>, live: bool) -> WorkerSnapshot {
    WorkerSnapshot { generation, status, live, error: None }
}

#[test]
fn a_mounted_worker_is_unmounted() {
    let mut a = app();
    let mut s = shown();
    let mounted = snapshot(1, Some(report(WorkerState::Mounted, Some(9))), true);
    a.control.consume_worker_snapshot(&mut s, T, mounted, false);
    is(&s, MountState::Mounted, "headline", "detail");
    assert_eq!(s.log[1].text, "Reconnected to background worker");
    assert_eq!(
        a.stop_mount(&mut s, T, false),
        StopStep::Unmount { mount_point: "/m".to_string() }
    );
    assert_eq!(a.stop_mount(&mut s, T, false), StopStep::Nothing);
    a.control.collect_stop_thread(true);
    assert!(!a.control.is_stopping());
    show_unmount_failure(&mut s, T, "busy");
    is(&s, MountState::Failed, "Unmount failed", "busy");
}

#[test]
fn a_worker_that_has_not_mounted_is_ended() {
    let mut a = app();
    let mut s = shown();
    let starting = snapshot(1, Some(report(WorkerState::Mounting, Some(9))), true);
    a.control.consume_worker_snapshot(&mut s, T, starting, false);
    // A process that was only read about is looked at first.
    assert_eq!(a.stop_mount(&mut s, T, false), StopStep::CheckWorker { pid: 9 });
    assert_eq!(a.worker_checked(&mut s, T, 9, true), StopStep::Terminate { pid: 9 });
    assert_eq!(a.worker_terminated(&mut s, T, Err("no".to_string())), None);
    is(&s, MountState::Failed, "Could not stop background worker", "no");
    assert_eq!(
        a.worker_terminated(&mut s, T, Ok(())),
        Some(WorkerCleanup {
            mark_stopped: Some("/m".to_string()),
            unmount: Some("/m".to_string()),
        })
    );
    assert!(a.control.background_stop_requested && a.control.stop_running);
    log_cleanup_failure(&mut s, T, "busy");
    assert_eq!(s.log.back().unwrap().text, "Post-stop cleanup unmount failed: busy");
    // Its end is no failure then.
    a.control.child = Some(9);
    let exit = ChildState::Exited { success: false, status: "signal: 15".to_string() };
    a.control.collect_background_child(&mut s, T, exit);
    assert_eq!(s.state, MountState::Stopped);
}

#[test]
fn a_stranger_is_not_ended() {
    let mut a = app();
    let mut s = shown();
    let starting = snapshot(1, Some(report(WorkerState::Mounting, Some(9))), true);
    a.control.consume_worker_snapshot(&mut s, T, starting, false);
    assert_eq!(
        a.worker_checked(&mut s, T, 9, false),
        StopStep::MarkStopped { mount_point: Some("/m".to_string()) }
    );
    assert_eq!(s.state, MountState::Stopped);
    assert!(!a.control.active_background);
}

#[test]
fn a_worker_without_a_process_cannot_be_stopped_yet() {
    let mut a = app();
    let mut s = shown();
    let starting = snapshot(1, Some(report(WorkerState::Mounting, None)), true);
    a.control.consume_worker_snapshot(&mut s, T, starting, false);
    assert_eq!(a.stop_mount(&mut s, T, false), StopStep::Nothing);
    assert_eq!(s.headline, "Could not stop background worker");
}

// ── Following a worker ──────────────────────────────────────────────────

#[test]
fn a_snapshot_counts_once() {
    let mut c = MountControl::new();
    let mut s = shown();
    let end = || snapshot(1, Some(report(WorkerState::Stopped, Some(9))), false);
    c.consume_worker_snapshot(&mut s, T, end(), false);
    is(&s, MountState::Stopped, "headline", "detail");
    set_status_at(&mut s, T, MountState::Mounting, "later", "x");
    c.consume_worker_snapshot(&mut s, T, end(), false);
    is(&s, MountState::Mounting, "later", "x");
    // The same report under a new number is no news either.
    let again = snapshot(2, Some(report(WorkerState::Stopped, Some(9))), false);
    c.consume_worker_snapshot(&mut s, T, again, false);
    is(&s, MountState::Mounting, "later", "x");
}

#[test]
fn a_worker_that_is_gone_is_dropped() {
    let mut c = MountControl::new();
    let mut s = shown();
    let live = snapshot(1, Some(report(WorkerState::Mounted, Some(9))), true);
    c.consume_worker_snapshot(&mut s, T, live, false);
    let gone = snapshot(2, Some(report(WorkerState::Mounted, Some(9))), false);
    c.consume_worker_snapshot(&mut s, T, gone, false);
    assert_eq!(s.headline, "Background worker unavailable");
    assert!(!c.active_background);
    let live = snapshot(3, Some(report(WorkerState::Mounted, Some(9))), true);
    c.consume_worker_snapshot(&mut s, T, live, false);
    c.consume_worker_snapshot(&mut s, T, snapshot(4, None, false), false);
    is(
        &s,
        MountState::Failed,
        "Background worker unavailable",
        "No background status file was found.",
    );
    let broken = WorkerSnapshot {
        generation: 5,
        status: None,
        live: false,
        error: Some("torn".to_string()),
    };
    c.apply_worker_snapshot(&mut s, T, broken, false, false);
    assert_eq!(s.log.back().unwrap().text, "Could not read background status: torn");
}

#[test]
fn a_report_does_not_hide_a_mount_of_this_process() {
    let (mut a, mut s) = mounting();
    let live = snapshot(1, Some(report(WorkerState::Mounted, Some(9))), true);
    a.control.consume_worker_snapshot(&mut s, T, live, true);
    assert_eq!(s.headline, "Preparing mount");
}

#[test]
fn an_existing_worker_is_taken_up_at_the_start() {
    let mut c = MountControl::new();
    let mut s = shown();
    let now = FileTime::SinceEpoch { secs: 110, nanos: 0 };
    c.reconcile_existing_worker(&mut s, T, Some(report(WorkerState::Mounted, Some(9))), now);
    assert!(c.active_background && c.worker_reported_mounted());
    assert_eq!(s.log.back().unwrap().text, "Reconnected to existing background worker");
    let mut c = MountControl::new();
    let late = FileTime::SinceEpoch { secs: 1000, nanos: 0 };
    c.reconcile_existing_worker(&mut s, T, Some(report(WorkerState::Mounted, Some(9))), late);
    assert!(!c.active_background);
    assert_eq!(worker_mount_state(WorkerState::Failed), MountState::Failed);
    let a = report(WorkerState::Mounted, Some(9));
    assert!(same_worker_status(&a, &a.clone()));
    assert!(!same_worker_status(&a, &report(WorkerState::Mounted, None)));
}

#[test]
fn the_end_of_a_child_is_noticed() {
    let mut s = shown();
    let child = || {
        let mut c = MountControl::new();
        c.child = Some(9);
        c.active_background = true;
        c
    };
    let mut c = child();
    c.collect_background_child(&mut s, T, ChildState::Running);
    assert_eq!(c.child, Some(9));
    let exit = ChildState::Exited { success: false, status: "exit code: 1".to_string() };
    c.collect_background_child(&mut s, T, exit);
    is(&s, MountState::Failed, "Background mount exited", "Worker exited with exit code: 1.");
    assert!(!c.active_background);
    let mut s = shown();
    let exit = ChildState::Exited { success: true, status: "exit code: 0".to_string() };
    child().collect_background_child(&mut s, T, exit);
    is(
        &s,
        MountState::Stopped,
        "Background mount stopped",
        "The background worker exited cleanly.",
    );
    child().collect_background_child(&mut s, T, ChildState::Unknown("e".to_string()));
    is(&s, MountState::Failed, "Could not inspect background mount", "e");
}

#[test]
fn a_panic_is_shown() {
    let (mut a, mut s) = mounting();
    a.control.collect_mount_thread(&mut s, T, false, false);
    assert!(a.control.mount_thread);
    a.control.collect_mount_thread(&mut s, T, true, true);
    assert_eq!(s.headline, "Mount thread panicked");
}

#[test]
fn the_time_since_the_mount_is_kept() {
    let mut c = MountControl::new();
    c.track_mounted_since(MountState::Mounted, 100);
    c.track_mounted_since(MountState::Mounted, 150);
    assert_eq!(c.mounted_uptime_secs(172), Some(72));
    assert_eq!(uptime_line(&c, 172), Some("Up 1m 12s".to_string()));
    c.track_mounted_since(MountState::Stopped, 180);
    assert_eq!(c.mounted_uptime_secs(200), None);
    assert_eq!(uptime_line(&c, 200), None);
}

#[test]
fn the_window_closes() {
    let (mut a, _) = mounting();
    let plan = a.control.exit_plan();
    assert!(plan.request_shutdown && plan.wait_for_thread && !plan.wait_for_stop);
    assert_eq!(a.control.exit_unmount(false), Some("/m".to_string()));
    assert_eq!(a.control.exit_unmount(true), None);
    a.control.active_background = true;
    assert!(!a.control.exit_plan().request_shutdown);
    assert_eq!(a.control.exit_unmount(false), None);
}

// ── Other actions ───────────────────────────────────────────────────────

#[test]
fn autostart_follows_the_form() {
    let mut a = app();
    let mut s = shown();
    a.form.autostart_enabled = true;
    assert!(a.autostart_saved(&mut s, T, Ok(())));
    a.apply_autostart_setting(&mut s, T, Ok(()));
    assert_eq!(
        s.log.back().unwrap().text,
        "Autostart enabled: the saved mount starts at login"
    );
    a.apply_autostart_setting(&mut s, T, Err("no".to_string()));
    assert!(!a.form.autostart_enabled);
    is(&s, MountState::Failed, "Could not update autostart", "no");
    a.form.autostart_enabled = true;
    assert!(!a.autostart_saved(&mut s, T, Err("full".to_string())));
    assert!(!a.form.autostart_enabled);
}

#[test]
fn outcomes_are_shown() {
    let mut s = shown();
    MountGuiApp::show_load_failure(&mut s, T, "e");
    assert_eq!(s.log.back().unwrap().text, "Could not load saved settings: e");
    MountGuiApp::show_opened(&mut s, T, &Ok(()));
    assert_eq!(s.log.back().unwrap().text, "Opened mount point");
    MountGuiApp::show_opened(&mut s, T, &Err("e".to_string()));
    assert_eq!(s.headline, "Could not open mount point");
    MountGuiApp::show_nfs_enabled(&mut s, T, &Ok(()));
    assert_eq!(s.headline, "NFS enable requested");
    MountGuiApp::show_nfs_enabled(&mut s, T, &Err("e".to_string()));
    assert_eq!(s.headline, "Could not enable NFS");
    MountGuiApp::show_elevation(&mut s, T, &Ok(()));
    assert_eq!(s.headline, "Elevation requested");
    MountGuiApp::show_elevation(&mut s, T, &Err("e".to_string()));
    assert_eq!(s.headline, "Could not relaunch as admin");
    let mut a = app();
    assert_eq!(a.tab, Tab::Mount);
    a.refresh_checks(&mut s, T, vec![item(CheckLevel::Warn, "A")]);
    assert_eq!(s.log.back().unwrap().text, "Setup checks passed with warnings");
    assert!(a.first_blocking_check().is_none());
}

// ── What is drawn ───────────────────────────────────────────────────────

#[test]
fn texts_of_the_form() {
    let mut f = form();
    let t = form_texts(&f);
    assert_eq!((t.id_label, t.token_button), ("Repo ID", "Show"));
    assert_eq!(t.id_problem, None);
    assert!(form_parts(&f, Platform::Windows).drive_picker);
    f.source = GuiSource::Bucket;
    f.show_advanced = true;
    let t = form_texts(&f);
    assert_eq!(t.id_hint, "namespace/bucket");
    assert_eq!(t.advanced_button, "Hide advanced options");
    let parts = form_parts(&f, Platform::Linux);
    assert!(!parts.revision && !parts.read_only_locked && parts.advanced && !parts.drive_picker);
    assert_eq!(drive_choice('Z'), "Z:");
}

#[test]
fn the_start_is_blocked() {
    let mut a = app();
    assert!(mount_actions(&a, MountState::Ready, false).start_enabled);
    a.checks = vec![item(CheckLevel::Fail, "Administrator"), item(CheckLevel::Fail, "Client for NFS")];
    let actions = mount_actions(&a, MountState::Ready, false);
    assert!(!actions.start_enabled && !actions.stop_enabled);
    assert_eq!(a.first_blocking_check().unwrap().label, "Client for NFS");
    a.form.run_in_background = true;
    assert_eq!(mount_actions(&a, MountState::Ready, false).start_label, "Start in background");
}

#[test]
fn help_with_a_blocker() {
    let action = |label: &str| blocker_action(Platform::Windows, &item(CheckLevel::Fail, label));
    assert_eq!(action("Client for NFS"), BlockerAction::EnableNfs);
    assert_eq!(action("Administrator"), BlockerAction::RestartAsAdmin);
    assert_eq!(action("Mount point"), BlockerAction::UseFreeLetter);
    assert_eq!(action("Portmapper"), BlockerAction::Nothing);
    let nfs = item(CheckLevel::Fail, "Client for NFS");
    assert_eq!(blocker_action(Platform::Linux, &nfs), BlockerAction::Nothing);
    assert_eq!(blocker_button(BlockerAction::EnableNfs), Some("Enable NFS"));
    assert_eq!(blocker_button(BlockerAction::Nothing), None);
    assert_eq!(blocker_text(&nfs), "Client for NFS: d");
    let row = check_row(Platform::Windows, &nfs);
    assert_eq!((row.mark.label, row.action), ("FIX", BlockerAction::EnableNfs));
    let passed = check_row(Platform::Windows, &item(CheckLevel::Pass, "Client for NFS"));
    assert_eq!((passed.command, passed.action), (None, BlockerAction::Nothing));
}

#[test]
fn summaries() {
    assert_eq!(checks_summary(&vec![]).chip.label, "Not checked");
    let checks = vec![
        item(CheckLevel::Pass, "A"),
        item(CheckLevel::Warn, "B"),
        item(CheckLevel::Fail, "C"),
        item(CheckLevel::Fail, "D"),
    ];
    let summary = checks_summary(&checks);
    assert_eq!((summary.chip.label, summary.chip.tone), ("Action needed", Tone::Bad));
    assert_eq!(summary.counts, Some("2 blocking · 1 warning".to_string()));
    assert_eq!(level_count(&checks, CheckLevel::Pass), 1);
    let fine = checks_summary(&vec![item(CheckLevel::Pass, "A")]);
    assert_eq!((fine.chip.label, fine.counts), ("Ready to mount", None));
    assert_eq!(state_chip(MountState::Failed).label, "Error");
    assert_eq!(state_chip(MountState::Mounted).tone, Tone::Good);
    assert_eq!(backend_line(Platform::Linux), "Linux · NFS");
    assert_eq!(version_line("1.2", Platform::MacOs), "hf-mount-gui v1.2 · macOS · NFS backend");
    assert_eq!(worker_log_line("/l"), "Background worker log: /l");
}
