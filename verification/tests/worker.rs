use hf_mount::nfs::FileTime;
use hf_mount::platform::Platform;
use hf_mount::profile::{GuiSource, MountProfile};
use hf_mount::session::NfsMountEvent;
use hf_mount::util::UserDirs;
use hf_mount::worker::{
    claimed_mount_point, handle_background_mount_event, launching_status, log_mode_to_set,
    mark_worker_stopped, status_read_next, worker_begin, worker_finish, worker_greeting,
    worker_log_path, worker_process_matches, worker_snapshot, worker_status,
    worker_status_heartbeat_fresh, worker_status_is_live, worker_status_path, StatusRead,
    StatusReadNext, WorkerOutcome, WorkerProbe, WorkerSnapshot, WorkerState,
};

fn at(secs: u64) -> FileTime {
    FileTime::SinceEpoch { secs, nanos: 0 }
}

fn profile() -> MountProfile {
    MountProfile {
        source: GuiSource::Bucket,
        source_id: "user/bucket".to_string(),
        revision: "".to_string(),
        mount_point: "/m".to_string(),
        token_file: "".to_string(),
        hub_endpoint: "".to_string(),
        cache_dir: "/c".to_string(),
        read_only: false,
        run_in_background: true,
        nfs_allow_unsafe_loopback: false,
        recent_sources: Vec::new(),
    }
}

#[test]
fn states_of_a_worker() {
    assert!(WorkerState::Mounting.is_active());
    assert!(WorkerState::Mounted.is_active());
    assert!(WorkerState::Stopping.is_active());
    assert!(!WorkerState::Stopped.is_active());
    assert!(!WorkerState::Failed.is_active());
}

#[test]
fn a_status_file_may_just_be_being_replaced() {
    let retry = StatusReadNext::Retry { after_ms: 10 };
    assert_eq!(status_read_next(0, &StatusRead::Missing, "/s"), retry);
    assert_eq!(status_read_next(2, &StatusRead::Missing, "/s"), StatusReadNext::Absent);
    let torn = StatusRead::Unparsable { error: "eof".to_string() };
    assert_eq!(status_read_next(1, &torn, "/s"), retry);
    assert_eq!(
        status_read_next(2, &torn, "/s"),
        StatusReadNext::Failed("Failed to parse /s: eof".to_string())
    );
    let denied = StatusRead::Unreadable { transient: false, error: "denied".to_string() };
    assert_eq!(
        status_read_next(0, &denied, "/s"),
        StatusReadNext::Failed("Failed to read /s: denied".to_string())
    );
    let busy = StatusRead::Unreadable { transient: true, error: "busy".to_string() };
    assert_eq!(status_read_next(0, &busy, "/s"), retry);
    assert_eq!(status_read_next(0, &StatusRead::Parsed, "/s"), StatusReadNext::Found);
}

#[test]
fn files_of_the_worker() {
    let dirs = UserDirs {
        appdata: None,
        home: Some("/h".to_string()),
        xdg_config_home: None,
    };
    assert_eq!(
        worker_status_path(Platform::Linux, &dirs),
        Ok("/h/.config/hf-mount/background-status.json".to_string())
    );
    assert_eq!(
        worker_log_path(Platform::Linux, &dirs),
        Ok("/h/.config/hf-mount/background.log".to_string())
    );
    assert_eq!(log_mode_to_set(0o100644), Some(0o600));
    assert_eq!(log_mode_to_set(0o100600), None);
}

#[test]
fn a_status_says_what_it_was_given() {
    let s = worker_status(WorkerState::Mounted, "h", "d", Some("/m"), None, Some(3), at(9));
    assert_eq!(s.headline, "h");
    assert_eq!(s.mount_point, Some("/m".to_string()));
    assert_eq!(s.source_label, None);
    assert_eq!(s.updated_at_secs, 9);
    let stopped = mark_worker_stopped(Some("/m"), at(9));
    assert_eq!(stopped.state, WorkerState::Stopped);
    assert_eq!(stopped.pid, None);
    let launching = launching_status("/m", "label", at(9));
    assert_eq!(launching.headline, "Background worker launching");
    assert_eq!(launching.pid, None);
    assert_eq!(worker_greeting(), "Background worker starting");
}

#[test]
fn who_is_alive() {
    let probe = |mount_active, process_matches| WorkerProbe { mount_active, process_matches };
    let mut s = worker_status(WorkerState::Mounted, "", "", Some("/m"), None, Some(3), at(100));
    let live = |s: &_, platform, p| worker_status_is_live(s, platform, p, at(150));
    assert!(live(&s, Platform::Linux, probe(true, false)));
    assert!(!live(&s, Platform::Windows, probe(true, false)));
    assert!(live(&s, Platform::Windows, probe(false, true)));
    assert!(!live(&s, Platform::Linux, probe(false, false)));
    s.pid = None;
    assert!(live(&s, Platform::Linux, probe(false, false)));
    assert!(!worker_status_is_live(&s, Platform::Linux, probe(false, false), at(221)));
    s.state = WorkerState::Stopped;
    assert!(!live(&s, Platform::Linux, probe(true, true)));
}

#[test]
fn heartbeats_grow_stale() {
    let mut s = worker_status(WorkerState::Mounting, "", "", None, None, None, at(100));
    assert!(worker_status_heartbeat_fresh(&s, at(220)));
    assert!(!worker_status_heartbeat_fresh(&s, at(221)));
    assert!(worker_status_heartbeat_fresh(&s, at(50)));
    s.updated_at_secs = 0;
    assert!(!worker_status_heartbeat_fresh(&s, at(0)));
}

#[test]
fn a_number_alone_does_not_make_a_worker() {
    assert!(worker_process_matches(true, Some("/bin/hf-mount-gui --background-worker")));
    assert!(!worker_process_matches(true, Some("/bin/sh")));
    assert!(!worker_process_matches(false, Some("x --background-worker")));
    assert!(!worker_process_matches(true, None));
}

#[test]
fn a_worker_starts_on_the_saved_settings() {
    let start = worker_begin(Ok(Some(profile())), Some("tok"), 7, at(5)).unwrap();
    assert_eq!(start.source.mount_point(), "/m");
    assert_eq!(start.source_label, "bucket/user/bucket");
    assert_eq!(start.options.hf_token, Some("tok".to_string()));
    assert_eq!(start.status.detail, "Target: /m");
    assert_eq!(start.status.pid, Some(7));
}

#[test]
fn a_worker_that_cannot_start_says_why() {
    let end = worker_begin(Ok(None), None, 7, at(5)).unwrap_err();
    assert_eq!(end.result, Err("No saved mount settings were found.".to_string()));
    assert_eq!(
        end.log,
        "Background worker failed to start: No saved mount settings were found."
    );
    assert_eq!(end.status.state, WorkerState::Failed);
    let end = worker_begin(Err("bad file".to_string()), None, 7, at(5)).unwrap_err();
    assert_eq!(end.status.detail, "bad file");
    let mut p = profile();
    p.cache_dir = " ".to_string();
    let end = worker_begin(Ok(Some(p)), None, 7, at(5)).unwrap_err();
    assert_eq!(end.result, Err("Cache directory is required.".to_string()));
}

#[test]
fn a_worker_ends() {
    let end = worker_finish(WorkerOutcome::Stopped, "/m", "l", 7, at(5));
    assert_eq!(end.result, Ok(()));
    assert!(end.status_must_be_written);
    assert_eq!(end.status.state, WorkerState::Stopped);
    let end = worker_finish(WorkerOutcome::Failed("x".to_string()), "/m", "l", 7, at(5));
    assert_eq!(end.log, "Mount failed: x");
    assert_eq!(end.result, Err("x".to_string()));
    let end = worker_finish(WorkerOutcome::Crashed("x".to_string()), "/m", "l", 7, at(5));
    assert_eq!(end.status.headline, "Mount crashed");
}

#[test]
fn events_are_reported() {
    let report = |event: NfsMountEvent| handle_background_mount_event("/m", "l", &event, 7, at(5));
    let r = report(NfsMountEvent::ServerListening { port: 2049 });
    assert_eq!(r.log, "Local NFS server is listening on 127.0.0.1:2049");
    assert_eq!(r.status.unwrap().detail, "127.0.0.1:2049");
    let r = report(NfsMountEvent::MountCommand { command: "mount x".to_string() });
    assert_eq!(r.log, "Running mount x");
    assert_eq!(r.status, None);
    let r = report(NfsMountEvent::Mounted { mount_point: "/other".to_string() });
    assert_eq!(r.status.unwrap().mount_point, Some("/other".to_string()));
    let r = report(NfsMountEvent::ShuttingDown { reason: "stop requested".to_string() });
    assert_eq!(r.log, "Shutting down: stop requested");
    let status = r.status.unwrap();
    assert_eq!(status.state, WorkerState::Stopping);
    assert_eq!(status.pid, Some(7));
}

#[test]
fn snapshots_follow_the_file() {
    let probe = WorkerProbe { mount_active: false, process_matches: true };
    assert_eq!(WorkerSnapshot::initial().generation, 0);
    let s = worker_status(WorkerState::Mounted, "", "", Some("/m"), None, Some(3), at(100));
    assert_eq!(claimed_mount_point(&s), Some("/m".to_string()));
    let snap = worker_snapshot(4, Ok(Some(s)), Platform::Linux, probe, at(100));
    assert_eq!(snap.generation, 5);
    assert!(snap.live);
    let snap = worker_snapshot(5, Ok(None), Platform::Linux, probe, at(100));
    assert_eq!((snap.generation, snap.live, snap.status), (6, false, None));
    let snap = worker_snapshot(6, Err("e".to_string()), Platform::Linux, probe, at(100));
    assert_eq!(snap.error, Some("e".to_string()));
}
