//! The detached background worker: what it does from its start to its end, the
//! status that it leaves for the window to read, and how the window tells
//! whether it is still alive.
use crate::nfs::FileTime;
use crate::platform::Platform;
use crate::profile;
use crate::profile::MountProfile;
use crate::session::NfsMountEvent;
use crate::setup::{MountOptions, Source};
use crate::text;
use crate::util;
use crate::util::UserDirs;
use vstd::prelude::*;

verus! {

/// The seconds after which a status without a process counts as abandoned.
pub const WORKER_STATUS_STALE_AFTER_SECS: u64 = 120;

/// The seconds between two looks at the worker.
pub const POLL_INTERVAL_SECS: u64 = 2;

/// The times that the status file is read before its absence is believed.
pub const STATUS_READ_ATTEMPTS: usize = 3;

/// The milliseconds between two of them.
pub const STATUS_READ_DELAY_MS: u64 = 10;

/// The argument that makes the program a background worker.
pub fn background_worker_arg() -> (r: &'static str)
    ensures
        r@ == spec_background_worker_arg(),
{
    "--background-worker"
}

pub open spec fn spec_background_worker_arg() -> Seq<char> {
    "--background-worker"@
}

/// What a worker says of itself.
#[derive(Clone, Copy, PartialEq, Eq, Structural, Debug)]
pub enum WorkerState {
    Mounting,
    Mounted,
    Stopping,
    Stopped,
    Failed,
}

impl WorkerState {
    pub open spec fn spec_is_active(self) -> bool {
        self is Mounting || self is Mounted || self is Stopping
    }

    /// The worker has not come to its end.
    pub fn is_active(&self) -> (r: bool)
        ensures
            r == self.spec_is_active(),
    {
        match self {
            WorkerState::Mounting => true,
            WorkerState::Mounted => true,
            WorkerState::Stopping => true,
            WorkerState::Stopped => false,
            WorkerState::Failed => false,
        }
    }
}

/// The status that a worker leaves for the window.
#[derive(Clone, PartialEq, Eq, Debug)]
pub struct WorkerStatus {
    pub state: WorkerState,
    pub headline: String,
    pub detail: String,
    pub mount_point: Option<String>,
    /// What is mounted, as of the start of the mount.
    pub source_label: Option<String>,
    /// `None` until the worker has written a status of its own.
    pub pid: Option<u32>,
    pub updated_at_secs: u64,
}

#[verifier::ext_equal]
pub ghost struct WorkerStatusView {
    pub state: WorkerState,
    pub headline: Seq<char>,
    pub detail: Seq<char>,
    pub mount_point: Option<Seq<char>>,
    pub source_label: Option<Seq<char>>,
    pub pid: Option<u32>,
    pub updated_at_secs: u64,
}

impl View for WorkerStatus {
    type V = WorkerStatusView;

    open spec fn view(&self) -> WorkerStatusView {
        WorkerStatusView {
            state: self.state,
            headline: self.headline@,
            detail: self.detail@,
            mount_point: text::opt_string(self.mount_point),
            source_label: text::opt_string(self.source_label),
            pid: self.pid,
            updated_at_secs: self.updated_at_secs,
        }
    }
}

/// A copy of an optional string.
pub fn opt_owned(s: Option<&str>) -> (r: Option<String>)
    ensures
        text::opt_string(r) == text::opt_view(s),
{
    match s {
        Some(s) => Some(s.to_owned()),
        None => None,
    }
}

// ── The status file ─────────────────────────────────────────────────────

/// The path of the status file.
pub fn worker_status_path(platform: Platform, dirs: &UserDirs) -> (r: Result<String, String>)
    ensures
        util::result_view(r) == util::spec_config_file(
            platform,
            *dirs,
            "background-status.json"@,
        ),
{
    util::config_file(platform, dirs, "background-status.json")
}

/// The path of the log of the worker.
pub fn worker_log_path(platform: Platform, dirs: &UserDirs) -> (r: Result<String, String>)
    ensures
        util::result_view(r) == util::spec_config_file(platform, *dirs, "background.log"@),
{
    util::config_file(platform, dirs, "background.log")
}

/// What came of one reading of the status file.
#[derive(PartialEq, Eq, Debug)]
pub enum StatusRead {
    Missing,
    /// `transient` where the file may just be being replaced.
    Unreadable { transient: bool, error: String },
    Unparsable { error: String },
    Parsed,
}

/// What follows a reading of the status file.
#[derive(PartialEq, Eq, Debug)]
pub enum StatusReadNext {
    Retry { after_ms: u64 },
    Absent,
    Found,
    Failed(String),
}

/// The reading may have met a file that is being replaced.
pub open spec fn is_transient(read: StatusRead) -> bool {
    match read {
        StatusRead::Missing => true,
        StatusRead::Unreadable { transient, .. } => transient,
        StatusRead::Unparsable { .. } => true,
        StatusRead::Parsed => false,
    }
}

/// Decides what follows a reading; `attempt` counts from zero. Where the file
/// may just be being replaced, it is read again, but not for ever.
pub fn status_read_next(attempt: usize, read: &StatusRead, path: &str) -> (r: StatusReadNext)
    ensures
        if is_transient(*read) && attempt + 1 < STATUS_READ_ATTEMPTS {
            r == (StatusReadNext::Retry { after_ms: STATUS_READ_DELAY_MS })
        } else {
            match *read {
                StatusRead::Missing => r == StatusReadNext::Absent,
                StatusRead::Parsed => r == StatusReadNext::Found,
                StatusRead::Unreadable { error, .. } => r matches StatusReadNext::Failed(e) && e@
                    == "Failed to read "@ + path@ + ": "@ + error@,
                StatusRead::Unparsable { error } => r matches StatusReadNext::Failed(e) && e@
                    == "Failed to parse "@ + path@ + ": "@ + error@,
            }
        },
{
    let again: bool = attempt < STATUS_READ_ATTEMPTS - 1;
    match read {
        StatusRead::Missing => {
            if again {
                StatusReadNext::Retry { after_ms: STATUS_READ_DELAY_MS }
            } else {
                StatusReadNext::Absent
            }
        },
        StatusRead::Unreadable { transient, error } => {
            if again && *transient {
                StatusReadNext::Retry { after_ms: STATUS_READ_DELAY_MS }
            } else {
                let mut e = text::concat3("Failed to read ", path, ": ");
                e.append(error.as_str());
                StatusReadNext::Failed(e)
            }
        },
        StatusRead::Unparsable { error } => {
            if again {
                StatusReadNext::Retry { after_ms: STATUS_READ_DELAY_MS }
            } else {
                let mut e = text::concat3("Failed to parse ", path, ": ");
                e.append(error.as_str());
                StatusReadNext::Failed(e)
            }
        },
        StatusRead::Parsed => StatusReadNext::Found,
    }
}

/// A status as of `now`.
pub open spec fn spec_status(
    state: WorkerState,
    headline: Seq<char>,
    detail: Seq<char>,
    mount_point: Option<Seq<char>>,
    source_label: Option<Seq<char>>,
    pid: Option<u32>,
    now: FileTime,
) -> WorkerStatusView {
    WorkerStatusView {
        state,
        headline,
        detail,
        mount_point,
        source_label,
        pid,
        updated_at_secs: util::spec_unix_secs(now),
    }
}

/// A status as of `now`.
pub fn worker_status(
    state: WorkerState,
    headline: &str,
    detail: &str,
    mount_point: Option<&str>,
    source_label: Option<&str>,
    pid: Option<u32>,
    now: FileTime,
) -> (r: WorkerStatus)
    ensures
        r@ == spec_status(
            state,
            headline@,
            detail@,
            text::opt_view(mount_point),
            text::opt_view(source_label),
            pid,
            now,
        ),
{
    WorkerStatus {
        state,
        headline: headline.to_owned(),
        detail: detail.to_owned(),
        mount_point: opt_owned(mount_point),
        source_label: opt_owned(source_label),
        pid,
        updated_at_secs: util::current_unix_secs(now),
    }
}

/// The status that is left in place of one that a worker did not live to
/// replace: it claims no mount any more.
pub fn mark_worker_stopped(mount_point: Option<&str>, now: FileTime) -> (r: WorkerStatus)
    ensures
        r@ == spec_status(
            WorkerState::Stopped,
            "Background mount stopped"@,
            "The worker was stopped before the mount completed."@,
            text::opt_view(mount_point),
            None,
            None,
            now,
        ),
{
    worker_status(
        WorkerState::Stopped,
        "Background mount stopped",
        "The worker was stopped before the mount completed.",
        mount_point,
        None,
        None,
        now,
    )
}

/// The status that the window writes when it launches a worker, until the
/// worker writes its own.
pub fn launching_status(mount_point: &str, source_label: &str, now: FileTime) -> (r: WorkerStatus)
    ensures
        r@ == spec_status(
            WorkerState::Mounting,
            "Background worker launching"@,
            "Starting detached process."@,
            Some(mount_point@),
            Some(source_label@),
            None,
            now,
        ),
{
    worker_status(
        WorkerState::Mounting,
        "Background worker launching",
        "Starting detached process.",
        Some(mount_point),
        Some(source_label),
        None,
        now,
    )
}

/// The mode that the log is to have where others can read it.
pub fn log_mode_to_set(mode: u32) -> (r: Option<u32>)
    ensures
        r == if mode & 0o077 != 0 {
            Some(0o600u32)
        } else {
            None
        },
{
    assert(((mode & 0o777) & 0o077) == (mode & 0o077)) by (bit_vector);
    let shown: u32 = mode & 0o777;
    if shown & 0o077 != 0 {
        Some(0o600)
    } else {
        None
    }
}

// ── Is it alive? ────────────────────────────────────────────────────────

/// The process runs, and what it was started with marks it as a worker.
pub open spec fn spec_process_matches(running: bool, command_line: Option<Seq<char>>) -> bool {
    running && (command_line matches Some(line) && text::spec_contains(
        line,
        spec_background_worker_arg(),
    ))
}

/// Tells whether a process is one of ours. After a crash or a restart its
/// number may belong to another program.
pub fn worker_process_matches(running: bool, command_line: Option<&str>) -> (r: bool)
    ensures
        r == spec_process_matches(running, text::opt_view(command_line)),
{
    match command_line {
        Some(line) => running && text::contains(line, background_worker_arg()),
        None => false,
    }
}

/// The status was written not long ago.
pub open spec fn spec_heartbeat_fresh(updated_at_secs: u64, now_secs: u64) -> bool {
    updated_at_secs != 0 && (now_secs < updated_at_secs || now_secs - updated_at_secs
        <= WORKER_STATUS_STALE_AFTER_SECS)
}

/// Tells whether the status was written not long ago. That takes no look at a
/// process or a mount, either of which may hang.
pub fn worker_status_heartbeat_fresh(status: &WorkerStatus, now: FileTime) -> (r: bool)
    ensures
        r == spec_heartbeat_fresh(status.updated_at_secs, util::spec_unix_secs(now)),
{
    let now_secs: u64 = util::current_unix_secs(now);
    let age: u64 = if now_secs < status.updated_at_secs {
        0
    } else {
        now_secs - status.updated_at_secs
    };
    status.updated_at_secs != 0 && age <= WORKER_STATUS_STALE_AFTER_SECS
}

/// What a look at the machine showed of a worker.
#[derive(Clone, Copy, PartialEq, Eq, Structural, Debug)]
pub struct WorkerProbe {
    /// There is a mount at the mount point of the status.
    pub mount_active: bool,
    /// The process of the status is one of ours.
    pub process_matches: bool,
}

/// The status is that of a worker which is alive.
pub open spec fn spec_is_live(
    status: WorkerStatusView,
    platform: Platform,
    probe: WorkerProbe,
    now: FileTime,
) -> bool {
    status.state.spec_is_active() && (if platform != Platform::Windows && status.state
        == WorkerState::Mounted && probe.mount_active {
        true
    } else {
        match status.pid {
            Some(_) => probe.process_matches,
            None => spec_heartbeat_fresh(status.updated_at_secs, util::spec_unix_secs(now)),
        }
    })
}

/// Tells whether the status is that of a worker which is alive. A mount in the
/// mount table settles it; on Windows a directory that was left behind looks
/// like one, so there it does not. Else the process that the worker named does,
/// and before it has named one, the age of the status.
pub fn worker_status_is_live(
    status: &WorkerStatus,
    platform: Platform,
    probe: WorkerProbe,
    now: FileTime,
) -> (r: bool)
    ensures
        r == spec_is_live(status@, platform, probe, now),
{
    if !status.state.is_active() {
        return false;
    }
    if platform != Platform::Windows && status.state == WorkerState::Mounted && probe.mount_active {
        return true;
    }
    match status.pid {
        Some(_) => probe.process_matches,
        None => worker_status_heartbeat_fresh(status, now),
    }
}

/// A worker that came to its end is never alive, however fresh its status.
pub proof fn law_ended_workers_are_dead(
    status: WorkerStatusView,
    platform: Platform,
    probe: WorkerProbe,
    now: FileTime,
)
    requires
        !status.state.spec_is_active(),
    ensures
        !spec_is_live(status, platform, probe, now),
{
}

/// A worker that named its process is not kept alive by its status: a process
/// that is gone, with no mount behind it, means that the worker is gone.
pub proof fn law_a_dead_process_is_believed(
    status: WorkerStatusView,
    platform: Platform,
    probe: WorkerProbe,
    now: FileTime,
)
    requires
        status.pid is Some,
        !probe.process_matches,
        !probe.mount_active || platform == Platform::Windows,
    ensures
        !spec_is_live(status, platform, probe, now),
{
}

// ── The worker ──────────────────────────────────────────────────────────

/// A line for the log, and the status that goes with it.
#[derive(PartialEq, Eq, Debug)]
pub struct WorkerReport {
    pub log: String,
    pub status: Option<WorkerStatus>,
}

/// How a worker ends.
#[derive(PartialEq, Eq, Debug)]
pub struct WorkerEnd {
    pub log: String,
    pub status: WorkerStatus,
    /// A status that cannot be written is a failure of its own.
    pub status_must_be_written: bool,
    pub result: Result<(), String>,
}

/// What a worker sets out to do.
#[derive(PartialEq, Eq, Debug)]
pub struct WorkerStart {
    pub source: Source,
    pub options: MountOptions,
    pub source_label: String,
    /// Has to be written before the mount begins.
    pub status: WorkerStatus,
}

/// The first line of the log.
pub fn worker_greeting() -> (r: &'static str)
    ensures
        r@ == "Background worker starting"@,
{
    "Background worker starting"
}

/// Why a worker cannot start on the saved settings as they were loaded.
pub open spec fn spec_start_error(loaded: Result<Option<MountProfile>, String>) -> Option<
    Seq<char>,
> {
    match loaded {
        Err(e) => Some(e@),
        Ok(None) => Some("No saved mount settings were found."@),
        Ok(Some(profile)) => match profile::spec_source_error(profile) {
            Some(e) => Some(e),
            None => match util::spec_parse_path(profile.cache_dir@, "Cache directory"@) {
                Err(e) => Some(e),
                Ok(_) => None,
            },
        },
    }
}

/// What a worker that cannot start leaves behind: a status that replaces the
/// one the window wrote, so that nothing waits for it.
pub open spec fn is_failed_start(end: WorkerEnd, error: Seq<char>, pid: u32, now: FileTime) -> bool {
    &&& end.log@ == "Background worker failed to start: "@ + error
    &&& end.status@ == spec_status(
        WorkerState::Failed,
        "Background worker failed to start"@,
        error,
        None,
        None,
        Some(pid),
        now,
    )
    &&& !end.status_must_be_written
    &&& end.result matches Err(e) && e@ == error
}

fn failed_start(error: String, pid: u32, now: FileTime) -> (r: WorkerEnd)
    ensures
        is_failed_start(r, error@, pid, now),
{
    WorkerEnd {
        log: text::concat("Background worker failed to start: ", error.as_str()),
        status: worker_status(
            WorkerState::Failed,
            "Background worker failed to start",
            error.as_str(),
            None,
            None,
            Some(pid),
            now,
        ),
        status_must_be_written: false,
        result: Err(error),
    }
}

/// The source is the one that the profile names.
pub open spec fn is_profile_source(source: Source, profile: MountProfile) -> bool {
    match source {
        Source::Repo { repo_id, mount_point, revision } => {
            &&& profile.source == profile::GuiSource::Repo
            &&& repo_id@ == text::spec_trim(profile.source_id@)
            &&& mount_point@ == text::spec_trim(profile.mount_point@)
            &&& revision@ == util::spec_non_empty_or_default(profile.revision@, "main"@)
        },
        Source::Bucket { bucket_id, mount_point } => {
            &&& profile.source == profile::GuiSource::Bucket
            &&& bucket_id@ == text::spec_trim(profile.source_id@)
            &&& mount_point@ == text::spec_trim(profile.mount_point@)
        },
    }
}

/// Starts a worker on the saved settings as they were loaded.
pub fn worker_begin(
    loaded: Result<Option<MountProfile>, String>,
    hf_token: Option<&str>,
    pid: u32,
    now: FileTime,
) -> (r: Result<WorkerStart, WorkerEnd>)
    ensures
        match r {
            Err(end) => spec_start_error(loaded) matches Some(e) && is_failed_start(
                end,
                e,
                pid,
                now,
            ),
            Ok(start) => {
                &&& spec_start_error(loaded) is None
                &&& loaded matches Ok(Some(profile)) && {
                    &&& is_profile_source(start.source, profile)
                    &&& profile::has_profile_options(
                        start.options,
                        profile,
                        text::opt_view(hf_token),
                    )
                    &&& profile::has_other_defaults(start.options)
                }
                &&& start.source_label@ == start.source.spec_label()
                &&& start.status@ == spec_status(
                    WorkerState::Mounting,
                    "Background worker starting"@,
                    "Target: "@ + start.source.spec_mount_point(),
                    Some(start.source.spec_mount_point()),
                    Some(start.source.spec_label()),
                    Some(pid),
                    now,
                )
            },
        },
{
    let profile = match loaded {
        Err(e) => {
            return Err(failed_start(e, pid, now));
        },
        Ok(None) => {
            return Err(failed_start("No saved mount settings were found.".to_owned(), pid, now));
        },
        Ok(Some(profile)) => profile,
    };
    let source = match profile::profile_mount_source(&profile) {
        Err(e) => {
            return Err(failed_start(e, pid, now));
        },
        Ok(source) => source,
    };
    let options = match profile::profile_mount_options(&profile, hf_token) {
        Err(e) => {
            return Err(failed_start(e, pid, now));
        },
        Ok(options) => options,
    };
    let source_label = source.label();
    let detail = text::concat("Target: ", source.mount_point());
    let status = worker_status(
        WorkerState::Mounting,
        "Background worker starting",
        detail.as_str(),
        Some(source.mount_point()),
        Some(source_label.as_str()),
        Some(pid),
        now,
    );
    Ok(WorkerStart { source, options, source_label, status })
}

/// How the mount of a worker ended.
#[derive(PartialEq, Eq, Debug)]
pub enum WorkerOutcome {
    Stopped,
    Failed(String),
    /// The backend panicked with the message.
    Crashed(String),
}

/// What a worker leaves behind.
pub open spec fn is_worker_end(
    end: WorkerEnd,
    outcome: WorkerOutcome,
    mount_point: Seq<char>,
    source_label: Seq<char>,
    pid: u32,
    now: FileTime,
) -> bool {
    match outcome {
        WorkerOutcome::Stopped => {
            &&& end.log@ == "Background worker stopped cleanly"@
            &&& end.status@ == spec_status(
                WorkerState::Stopped,
                "Background mount stopped"@,
                "The background worker exited cleanly."@,
                Some(mount_point),
                Some(source_label),
                Some(pid),
                now,
            )
            &&& end.status_must_be_written
            &&& end.result is Ok
        },
        WorkerOutcome::Failed(message) => {
            &&& end.log@ == "Mount failed: "@ + message@
            &&& end.status@ == spec_status(
                WorkerState::Failed,
                "Mount failed"@,
                message@,
                Some(mount_point),
                Some(source_label),
                Some(pid),
                now,
            )
            &&& !end.status_must_be_written
            &&& end.result == Err::<(), String>(message)
        },
        WorkerOutcome::Crashed(message) => {
            &&& end.log@ == "Mount crashed: "@ + message@
            &&& end.status@ == spec_status(
                WorkerState::Failed,
                "Mount crashed"@,
                message@,
                Some(mount_point),
                Some(source_label),
                Some(pid),
                now,
            )
            &&& !end.status_must_be_written
            &&& end.result == Err::<(), String>(message)
        },
    }
}

/// Ends a worker whose mount has ended.
pub fn worker_finish(
    outcome: WorkerOutcome,
    mount_point: &str,
    source_label: &str,
    pid: u32,
    now: FileTime,
) -> (r: WorkerEnd)
    ensures
        is_worker_end(r, outcome, mount_point@, source_label@, pid, now),
{
    match outcome {
        WorkerOutcome::Stopped => WorkerEnd {
            log: "Background worker stopped cleanly".to_owned(),
            status: worker_status(
                WorkerState::Stopped,
                "Background mount stopped",
                "The background worker exited cleanly.",
                Some(mount_point),
                Some(source_label),
                Some(pid),
                now,
            ),
            status_must_be_written: true,
            result: Ok(()),
        },
        WorkerOutcome::Failed(message) => WorkerEnd {
            log: text::concat("Mount failed: ", message.as_str()),
            status: worker_status(
                WorkerState::Failed,
                "Mount failed",
                message.as_str(),
                Some(mount_point),
                Some(source_label),
                Some(pid),
                now,
            ),
            status_must_be_written: false,
            result: Err(message),
        },
        WorkerOutcome::Crashed(message) => WorkerEnd {
            log: text::concat("Mount crashed: ", message.as_str()),
            status: worker_status(
                WorkerState::Failed,
                "Mount crashed",
                message.as_str(),
                Some(mount_point),
                Some(source_label),
                Some(pid),
                now,
            ),
            status_must_be_written: false,
            result: Err(message),
        },
    }
}

/// The line of the log for an event of the mount.
pub open spec fn spec_event_log(event: NfsMountEvent) -> Seq<char> {
    match event {
        NfsMountEvent::ServerListening { port } => "Local NFS server is listening on 127.0.0.1:"@
            + text::spec_decimal(port as nat),
        NfsMountEvent::MountCommand { command } => "Running "@ + command@,
        NfsMountEvent::Mounted { mount_point } => "Mounted at "@ + mount_point@,
        NfsMountEvent::ShuttingDown { reason } => "Shutting down: "@ + reason@,
    }
}

/// The status for an event of the mount. The mount command has none.
pub open spec fn spec_event_status(
    default_mount_point: Seq<char>,
    source_label: Seq<char>,
    event: NfsMountEvent,
    pid: u32,
    now: FileTime,
) -> Option<WorkerStatusView> {
    match event {
        NfsMountEvent::ServerListening { port } => Some(
            spec_status(
                WorkerState::Mounting,
                "Local NFS server is listening"@,
                "127.0.0.1:"@ + text::spec_decimal(port as nat),
                Some(default_mount_point),
                Some(source_label),
                Some(pid),
                now,
            ),
        ),
        NfsMountEvent::MountCommand { .. } => None,
        NfsMountEvent::Mounted { mount_point } => Some(
            spec_status(
                WorkerState::Mounted,
                "Mounted"@,
                "Mounted at "@ + mount_point@,
                Some(mount_point@),
                Some(source_label),
                Some(pid),
                now,
            ),
        ),
        NfsMountEvent::ShuttingDown { reason } => Some(
            spec_status(
                WorkerState::Stopping,
                "Shutting down"@,
                reason@,
                Some(default_mount_point),
                Some(source_label),
                Some(pid),
                now,
            ),
        ),
    }
}

/// What a worker reports of an event of its mount.
pub fn handle_background_mount_event(
    default_mount_point: &str,
    source_label: &str,
    event: &NfsMountEvent,
    pid: u32,
    now: FileTime,
) -> (r: WorkerReport)
    ensures
        r.log@ == spec_event_log(*event),
        match r.status {
            Some(status) => spec_event_status(
                default_mount_point@,
                source_label@,
                *event,
                pid,
                now,
            ) == Some(status@),
            None => spec_event_status(default_mount_point@, source_label@, *event, pid, now)
                is None,
        },
{
    match event {
        NfsMountEvent::ServerListening { port } => {
            let port_text = text::decimal(*port as u64);
            let detail = text::concat("127.0.0.1:", port_text.as_str());
            WorkerReport {
                log: text::concat(
                    "Local NFS server is listening on 127.0.0.1:",
                    port_text.as_str(),
                ),
                status: Some(
                    worker_status(
                        WorkerState::Mounting,
                        "Local NFS server is listening",
                        detail.as_str(),
                        Some(default_mount_point),
                        Some(source_label),
                        Some(pid),
                        now,
                    ),
                ),
            }
        },
        NfsMountEvent::MountCommand { command } => WorkerReport {
            log: text::concat("Running ", command.as_str()),
            status: None,
        },
        NfsMountEvent::Mounted { mount_point } => {
            let log = text::concat("Mounted at ", mount_point.as_str());
            let status = worker_status(
                WorkerState::Mounted,
                "Mounted",
                log.as_str(),
                Some(mount_point.as_str()),
                Some(source_label),
                Some(pid),
                now,
            );
            WorkerReport { log, status: Some(status) }
        },
        NfsMountEvent::ShuttingDown { reason } => WorkerReport {
            log: text::concat("Shutting down: ", reason.as_str()),
            status: Some(
                worker_status(
                    WorkerState::Stopping,
                    "Shutting down",
                    reason.as_str(),
                    Some(default_mount_point),
                    Some(source_label),
                    Some(pid),
                    now,
                ),
            ),
        },
    }
}

// ── Looking after the worker ────────────────────────────────────────────

/// What one look at the worker showed.
#[derive(Clone, PartialEq, Eq, Debug)]
pub struct WorkerSnapshot {
    /// Grows with every look, so that none is taken for two.
    pub generation: u64,
    pub status: Option<WorkerStatus>,
    pub live: bool,
    pub error: Option<String>,
}

impl WorkerSnapshot {
    /// Before the first look.
    pub fn initial() -> (r: WorkerSnapshot)
        ensures
            r.generation == 0,
            r.status is None,
            !r.live,
            r.error is None,
    {
        WorkerSnapshot { generation: 0, status: None, live: false, error: None }
    }
}

/// The mount point that a status claims.
pub open spec fn spec_claimed_mount_point(status: WorkerStatusView) -> Option<Seq<char>> {
    match status.mount_point {
        Some(path) => util::spec_optional_text(path),
        None => None,
    }
}

/// The mount point that a status claims, which is where to look for its mount.
pub fn claimed_mount_point(status: &WorkerStatus) -> (r: Option<String>)
    ensures
        text::opt_string(r) == spec_claimed_mount_point(status@),
{
    match &status.mount_point {
        Some(path) => util::optional_text(path.as_str()),
        None => None,
    }
}

/// What a look at the worker shows, where `read` came of the status file and
/// `probe` of the machine.
pub fn worker_snapshot(
    generation: u64,
    read: Result<Option<WorkerStatus>, String>,
    platform: Platform,
    probe: WorkerProbe,
    now: FileTime,
) -> (r: WorkerSnapshot)
    requires
        generation < u64::MAX,
    ensures
        r.generation == generation + 1,
        match read {
            Ok(Some(status)) => r.status == Some(status) && r.live == spec_is_live(
                status@,
                platform,
                probe,
                now,
            ) && r.error is None,
            Ok(None) => r.status is None && !r.live && r.error is None,
            Err(e) => r.status is None && !r.live && r.error == Some(e),
        },
{
    let generation: u64 = generation + 1;
    match read {
        Ok(Some(status)) => {
            let live: bool = worker_status_is_live(&status, platform, probe, now);
            WorkerSnapshot { generation, status: Some(status), live, error: None }
        },
        Ok(None) => WorkerSnapshot { generation, status: None, live: false, error: None },
        Err(e) => WorkerSnapshot { generation, status: None, live: false, error: Some(e) },
    }
}

/// While it reports on its mount a worker always names its process and the
/// source, so a window that opens later can take it over.
pub proof fn law_reports_identify_the_worker(
    default_mount_point: Seq<char>,
    source_label: Seq<char>,
    event: NfsMountEvent,
    pid: u32,
    now: FileTime,
    status: WorkerStatusView,
)
    requires
        spec_event_status(default_mount_point, source_label, event, pid, now) == Some(status),
    ensures
        status.pid == Some(pid),
        status.source_label == Some(source_label),
        status.mount_point is Some,
        status.state.spec_is_active(),
        status.updated_at_secs == util::spec_unix_secs(now),
{
}

} // verus!
