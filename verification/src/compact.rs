//! The window without pages: one form, one mount at a time, served by a thread
//! of this process.
//!
//! What takes time or touches the machine is done by the caller: a method says
//! what to do next, and the outcome goes back in through another.
use crate::mount_command;
use crate::platform;
use crate::platform::Platform;
use crate::preflight;
use crate::preflight::{CheckItem, CheckLevel, Findings};
use crate::profile;
use crate::profile::GuiSource;
use crate::session::NfsMountEvent;
use crate::setup;
use crate::setup::{MountOptions, Source};
use crate::status::{MountOutcome, MountState};
use crate::text;
use crate::util;
use crate::view;
use crate::view::{BlockerAction, Chip, Tone};
use crate::windows;
use std::collections::VecDeque;
use vstd::prelude::*;

verus! {

/// The number of lines that the log of this window keeps.
pub const MAX_LOG_LINES: usize = 80;

// ── The status ──────────────────────────────────────────────────────────

/// The state of the mount in a headline and a detail, and the log.
#[derive(Clone, Debug)]
pub struct CompactStatus {
    pub state: MountState,
    pub headline: String,
    pub detail: String,
    /// The newest line last.
    pub log: VecDeque<String>,
}

#[verifier::ext_equal]
pub ghost struct CompactStatusView {
    pub state: MountState,
    pub headline: Seq<char>,
    pub detail: Seq<char>,
    pub log: Seq<Seq<char>>,
}

/// What the lines hold.
pub open spec fn lines_view(log: Seq<String>) -> Seq<Seq<char>> {
    log.map_values(|line: String| line@)
}

impl View for CompactStatus {
    type V = CompactStatusView;

    open spec fn view(&self) -> CompactStatusView {
        CompactStatusView {
            state: self.state,
            headline: self.headline@,
            detail: self.detail@,
            log: lines_view(self.log@),
        }
    }
}

/// The newest lines, as many as the log keeps.
pub open spec fn newest(log: Seq<Seq<char>>) -> Seq<Seq<char>> {
    if log.len() > MAX_LOG_LINES {
        log.skip(log.len() - MAX_LOG_LINES)
    } else {
        log
    }
}

impl CompactStatusView {
    /// The status with one more line in the log.
    pub open spec fn logged(self, line: Seq<char>) -> CompactStatusView {
        CompactStatusView { log: newest(self.log.push(line)), ..self }
    }

    /// The status with a new state, headline and detail, which are logged.
    pub open spec fn with(self, state: MountState, headline: Seq<char>, detail: Seq<char>) -> CompactStatusView {
        CompactStatusView { state, headline, detail, ..self }.logged(headline + ": "@ + detail)
    }

    /// Before anything has happened.
    pub open spec fn initial() -> CompactStatusView {
        CompactStatusView {
            state: MountState::Ready,
            headline: "Ready"@,
            detail: "Configure a source and start the mount."@,
            log: seq!["Ready"@],
        }
    }
}

impl Default for CompactStatus {
    fn default() -> (r: CompactStatus)
        ensures
            r@ == CompactStatusView::initial(),
    {
        let mut log: VecDeque<String> = VecDeque::new();
        log.push_back("Ready".to_owned());
        let r = CompactStatus {
            state: MountState::Ready,
            headline: "Ready".to_owned(),
            detail: "Configure a source and start the mount.".to_owned(),
            log,
        };
        assert(r@.log =~= CompactStatusView::initial().log);
        r
    }
}

/// Adds a line to the log.
pub fn push_log(status: &mut CompactStatus, message: &str)
    ensures
        final(status)@ == old(status)@.logged(message@),
{
    let ghost before = status@;
    let ghost added = before.log.push(message@);
    status.log.push_back(message.to_owned());
    assert(lines_view(status.log@) =~= added);
    assert(added.skip(0) =~= added);
    let ghost mut dropped: int = 0;
    while status.log.len() > MAX_LOG_LINES
        invariant
            0 <= dropped <= added.len(),
            lines_view(status.log@) == added.skip(dropped),
            dropped > 0 ==> added.len() - dropped >= MAX_LOG_LINES,
            status.state == before.state,
            status.headline@ == before.headline,
            status.detail@ == before.detail,
        decreases status.log@.len(),
    {
        let ghost held = status.log@;
        assert(lines_view(held).len() == held.len());
        status.log.pop_front();
        proof {
            assert(lines_view(status.log@) =~= lines_view(held).skip(1));
            assert(added.skip(dropped).skip(1) =~= added.skip(dropped + 1));
            dropped = dropped + 1;
        }
    }
    assert(lines_view(status.log@).len() == status.log@.len());
    assert(lines_view(status.log@) =~= newest(added));
}

/// Sets the state, headline and detail and logs them.
pub fn set_status(status: &mut CompactStatus, state: MountState, headline: &str, detail: &str)
    ensures
        final(status)@ == old(status)@.with(state, headline@, detail@),
{
    status.state = state;
    status.headline = headline.to_owned();
    status.detail = detail.to_owned();
    let line = text::concat3(headline, ": ", detail);
    push_log(status, line.as_str());
}

/// Shows an event of the mount.
pub fn handle_mount_event(status: &mut CompactStatus, event: &NfsMountEvent)
    ensures
        final(status)@ == match *event {
            NfsMountEvent::ServerListening { port } => old(status)@.with(
                MountState::Mounting,
                "Local NFS server is listening"@,
                "127.0.0.1:"@ + text::spec_decimal(port as nat),
            ),
            NfsMountEvent::MountCommand { command } => old(status)@.logged(
                "Running "@ + command@,
            ),
            NfsMountEvent::Mounted { mount_point } => old(status)@.with(
                MountState::Mounted,
                "Mounted"@,
                "Mounted at "@ + mount_point@,
            ),
            NfsMountEvent::ShuttingDown { reason } => old(status)@.with(
                MountState::Stopping,
                "Shutting down"@,
                reason@,
            ),
        },
{
    match event {
        NfsMountEvent::ServerListening { port } => {
            let number = text::decimal(*port as u64);
            let detail = text::concat("127.0.0.1:", number.as_str());
            set_status(
                status,
                MountState::Mounting,
                "Local NFS server is listening",
                detail.as_str(),
            );
        },
        NfsMountEvent::MountCommand { command } => {
            let line = text::concat("Running ", command.as_str());
            push_log(status, line.as_str());
        },
        NfsMountEvent::Mounted { mount_point } => {
            let detail = text::concat("Mounted at ", mount_point.as_str());
            set_status(status, MountState::Mounted, "Mounted", detail.as_str());
        },
        NfsMountEvent::ShuttingDown { reason } => {
            set_status(status, MountState::Stopping, "Shutting down", reason.as_str());
        },
    }
}

/// Shows the end of the mount.
pub fn show_mount_outcome(status: &mut CompactStatus, outcome: &MountOutcome)
    ensures
        final(status)@ == match *outcome {
            MountOutcome::Stopped => old(status)@.with(
                MountState::Stopped,
                "Unmounted"@,
                "The mount stopped cleanly."@,
            ),
            MountOutcome::Failed(message) => old(status)@.with(
                MountState::Failed,
                "NFS mount failed"@,
                message@,
            ),
            MountOutcome::Crashed(message) => old(status)@.with(
                MountState::Failed,
                "Mount setup failed"@,
                message@,
            ),
        },
{
    match outcome {
        MountOutcome::Stopped => {
            set_status(status, MountState::Stopped, "Unmounted", "The mount stopped cleanly.");
        },
        MountOutcome::Failed(message) => {
            set_status(status, MountState::Failed, "NFS mount failed", message.as_str());
        },
        MountOutcome::Crashed(message) => {
            set_status(status, MountState::Failed, "Mount setup failed", message.as_str());
        },
    }
}

// ── The machine ─────────────────────────────────────────────────────────

/// The operating system in this window.
pub fn platform_label(platform: Platform) -> (r: &'static str)
    ensures
        r@ == match platform {
            Platform::Windows => "Windows"@,
            Platform::MacOs => "macOS"@,
            Platform::Linux => "Unix"@,
        },
{
    match platform {
        Platform::Windows => "Windows",
        Platform::MacOs => "macOS",
        Platform::Linux => "Unix",
    }
}

/// The mount point that is offered first.
pub open spec fn spec_default_mount_point(platform: Platform, temp_dir: Seq<char>) -> Seq<char> {
    if platform == Platform::Windows {
        "Z:"@
    } else {
        platform::spec_join(platform, temp_dir, "hf-mount"@)
    }
}

/// The mount point that is offered first.
pub fn default_mount_point(platform: Platform, temp_dir: &str) -> (r: String)
    ensures
        r@ == spec_default_mount_point(platform, temp_dir@),
{
    if platform == Platform::Windows {
        "Z:".to_owned()
    } else {
        platform::join(platform, temp_dir, "hf-mount")
    }
}

/// The check of a mount point on Windows.
pub open spec fn spec_windows_mount_point(mount_point: Seq<char>, f: Findings) -> preflight::CheckItemView {
    let path = text::spec_trim(mount_point);
    if windows::spec_drive_letter(path) is Some && !f.target_exists {
        preflight::item(
            CheckLevel::Pass,
            "Mount point"@,
            mount_command::spec_mount_target(path) + " is a drive-letter target."@,
        )
    } else {
        preflight::spec_windows_target_check(mount_point, f)
    }
}

/// The check of a mount point on Windows.
pub fn validate_windows_mount_point(mount_point: &str, f: &Findings) -> (r: CheckItem)
    ensures
        r@ == spec_windows_mount_point(mount_point@, *f),
{
    let path = text::trim(mount_point);
    if windows::drive_letter(path.as_str()).is_some() && !f.target_exists {
        let drive = mount_command::windows_nfs_mount_target(path.as_str());
        let detail = text::concat(drive.as_str(), " is a drive-letter target.");
        preflight::new_item(CheckLevel::Pass, "Mount point", detail.as_str())
    } else {
        preflight::windows_target_check(mount_point, f)
    }
}

/// All the checks of the operating system, in order.
pub open spec fn spec_preflight(platform: Platform, mount_point: Seq<char>, f: Findings) -> Seq<
    preflight::CheckItemView,
> {
    match platform {
        Platform::Windows => seq![
            preflight::spec_administrator_check(f),
            preflight::spec_client_check(f),
            preflight::spec_portmapper_check(f),
            spec_windows_mount_point(mount_point, f),
        ],
        Platform::MacOs => preflight::spec_preflight(platform, mount_point, f),
        Platform::Linux => seq![
            preflight::item(
                if text::spec_trim(mount_point).len() == 0 {
                    CheckLevel::Fail
                } else {
                    CheckLevel::Pass
                },
                "Mount point"@,
                "Path is set."@,
            ),
        ],
    }
}

/// All the checks of the operating system.
pub fn run_preflight_checks(platform: Platform, mount_point: &str, f: &Findings) -> (r: Vec<
    CheckItem,
>)
    ensures
        preflight::checks_view(r@) == spec_preflight(platform, mount_point@, *f),
{
    let mut checks: Vec<CheckItem> = Vec::new();
    match platform {
        Platform::Windows => {
            checks.push(preflight::administrator_check(f));
            checks.push(preflight::client_check(f));
            checks.push(preflight::portmapper_check(f));
            checks.push(validate_windows_mount_point(mount_point, f));
        },
        Platform::MacOs => {
            checks = preflight::run_preflight_checks(platform, mount_point, f);
        },
        Platform::Linux => {
            let path = text::trim(mount_point);
            let level = if path.as_str().is_empty() {
                CheckLevel::Fail
            } else {
                CheckLevel::Pass
            };
            checks.push(preflight::new_item(level, "Mount point", "Path is set."));
        },
    }
    assert(preflight::checks_view(checks@) =~= spec_preflight(platform, mount_point@, *f));
    checks
}

// ── The form and the mount ──────────────────────────────────────────────

/// The window: its form, its checks and its mount.
#[derive(Debug)]
pub struct CompactApp {
    pub source: GuiSource,
    pub source_id: String,
    pub revision: String,
    pub mount_point: String,
    pub hf_token: String,
    pub hub_endpoint: String,
    pub cache_dir: String,
    pub read_only: bool,
    pub show_advanced: bool,
    pub checks: Vec<CheckItem>,
    /// A thread serves the mount, or did and was not collected.
    pub mount_thread: bool,
    pub active_mount_point: Option<String>,
}

/// The two have the same form.
pub open spec fn same_form(a: CompactApp, b: CompactApp) -> bool {
    &&& a.source == b.source
    &&& a.source_id == b.source_id
    &&& a.revision == b.revision
    &&& a.mount_point == b.mount_point
    &&& a.hf_token == b.hf_token
    &&& a.hub_endpoint == b.hub_endpoint
    &&& a.cache_dir == b.cache_dir
    &&& a.read_only == b.read_only
    &&& a.show_advanced == b.show_advanced
}

/// The two have the same mount.
pub open spec fn same_mount(a: CompactApp, b: CompactApp) -> bool {
    &&& a.mount_thread == b.mount_thread
    &&& a.active_mount_point == b.active_mount_point
}

/// Why the form names no source and mount point.
pub open spec fn spec_source_error(app: CompactApp) -> Option<Seq<char>> {
    if text::spec_trim(app.source_id@).len() == 0 {
        Some("Source ID is required."@)
    } else {
        match util::spec_parse_path(app.mount_point@, "Mount point"@) {
            Ok(_) => None,
            Err(e) => Some(e),
        }
    }
}

/// The source is what the form asks for.
pub open spec fn is_form_source(source: Source, app: CompactApp) -> bool {
    match source {
        Source::Repo { repo_id, mount_point, revision } => {
            &&& app.source == GuiSource::Repo
            &&& repo_id@ == text::spec_trim(app.source_id@)
            &&& mount_point@ == text::spec_trim(app.mount_point@)
            &&& revision@ == util::spec_non_empty_or_default(app.revision@, "main"@)
        },
        Source::Bucket { bucket_id, mount_point } => {
            &&& app.source == GuiSource::Bucket
            &&& bucket_id@ == text::spec_trim(app.source_id@)
            &&& mount_point@ == text::spec_trim(app.mount_point@)
        },
    }
}

/// The options are what the form asks for. A repo is read-only whatever it
/// says.
pub open spec fn is_form_options(options: MountOptions, app: CompactApp) -> bool {
    &&& text::opt_string(options.hf_token) == util::spec_optional_text(app.hf_token@)
    &&& options.token_file is None
    &&& options.hub_endpoint@ == util::spec_non_empty_or_default(
        app.hub_endpoint@,
        "https://huggingface.co"@,
    )
    &&& options.cache_dir@ == text::spec_trim(app.cache_dir@)
    &&& options.read_only == (app.source == GuiSource::Repo || app.read_only)
    &&& !options.nfs_allow_unsafe_loopback
    &&& profile::has_other_defaults(options)
}

/// Why a mount does not start, as headline and detail, once the checks passed.
pub open spec fn spec_start_problem(app: CompactApp) -> Option<(Seq<char>, Seq<char>)> {
    match spec_source_error(app) {
        Some(e) => Some(("Invalid source"@, e)),
        None => match util::spec_parse_path(app.cache_dir@, "Cache directory"@) {
            Err(e) => Some(("Invalid mount options"@, e)),
            Ok(_) => None,
        },
    }
}

/// The status after the wish to start.
pub open spec fn spec_start_status(
    shown: CompactStatusView,
    app: CompactApp,
    checks: Seq<preflight::CheckItemView>,
) -> CompactStatusView {
    if preflight::any_level(checks, CheckLevel::Fail) {
        let failure = checks[choose|i: int| preflight::is_first_failure(checks, i)];
        shown.with(MountState::Failed, "Setup check failed: "@ + failure.label, failure.detail)
    } else {
        let logged = shown.logged(preflight::spec_summary(checks));
        match spec_start_problem(app) {
            Some((headline, detail)) => logged.with(MountState::Failed, headline, detail),
            None => logged.with(
                MountState::Mounting,
                "Preparing mount"@,
                "Target: "@ + text::spec_trim(app.mount_point@),
            ),
        }
    }
}

impl CompactApp {
    /// The window as it is first shown. `hf_token` is the value of `HF_TOKEN`,
    /// and `checks` are those of the mount point that is offered first.
    pub fn new(platform: Platform, temp_dir: &str, hf_token: Option<&str>, checks: Vec<CheckItem>) -> (r:
        CompactApp)
        ensures
            r.source == GuiSource::Repo,
            r.source_id@ == "openai-community/gpt2"@,
            r.revision@ == "main"@,
            r.mount_point@ == spec_default_mount_point(platform, temp_dir@),
            r.hf_token@ == (match hf_token {
                Some(token) => token@,
                None => Seq::empty(),
            }),
            r.hub_endpoint@ == "https://huggingface.co"@,
            r.cache_dir@ == platform::spec_join(platform, temp_dir@, "hf-mount-cache"@),
            r.read_only,
            !r.show_advanced,
            r.checks == checks,
            !r.mount_thread,
            r.active_mount_point is None,
    {
        let hf_token = match hf_token {
            Some(token) => token.to_owned(),
            None => String::new(),
        };
        CompactApp {
            source: GuiSource::Repo,
            source_id: "openai-community/gpt2".to_owned(),
            revision: "main".to_owned(),
            mount_point: default_mount_point(platform, temp_dir),
            hf_token,
            hub_endpoint: "https://huggingface.co".to_owned(),
            cache_dir: setup::default_cache_dir(platform, temp_dir),
            read_only: true,
            show_advanced: false,
            checks,
            mount_thread: false,
            active_mount_point: None,
        }
    }

    /// Chooses a kind of source. While it is a repo, the mount is read-only.
    pub fn select_source(&mut self, source: GuiSource)
        ensures
            *final(self) == (CompactApp {
                source,
                read_only: old(self).read_only || source == GuiSource::Repo,
                ..*old(self)
            }),
    {
        self.source = source;
        if source == GuiSource::Repo {
            self.read_only = true;
        }
    }

    /// Takes the last drive for the mount point.
    pub fn use_last_drive(&mut self)
        ensures
            final(self).mount_point@ == "Z:"@,
            *final(self) == (CompactApp { mount_point: final(self).mount_point, ..*old(self) }),
    {
        self.mount_point = "Z:".to_owned();
    }

    /// Shows new checks, and says in the log how they came out.
    pub fn refresh_checks(&mut self, shown: &mut CompactStatus, checks: Vec<CheckItem>)
        ensures
            *final(self) == (CompactApp { checks, ..*old(self) }),
            final(shown)@ == old(shown)@.logged(
                preflight::spec_summary(preflight::checks_view(checks@)),
            ),
    {
        let summary = preflight::summarize_checks(&checks);
        push_log(shown, summary.as_str());
        self.checks = checks;
    }

    /// The check that stands in the way of a mount.
    pub fn first_blocking_check(&self) -> (r: Option<&CheckItem>)
        ensures
            match r {
                Some(check) => exists|i: int|
                    #[trigger] preflight::is_blocker(preflight::checks_view(self.checks@), i)
                        && check@ == preflight::checks_view(self.checks@)[i],
                None => !preflight::any_level(
                    preflight::checks_view(self.checks@),
                    CheckLevel::Fail,
                ),
            },
    {
        match preflight::find_blocker(&self.checks) {
            Some(i) => {
                assert(preflight::checks_view(self.checks@)[i as int] == self.checks@[i as int]@);
                Some(&self.checks[i])
            },
            None => None,
        }
    }

    /// What the form mounts, and where.
    pub fn mount_source(&self) -> (r: Result<Source, String>)
        ensures
            match r {
                Err(e) => spec_source_error(*self) == Some(e@),
                Ok(source) => spec_source_error(*self) is None && is_form_source(source, *self),
            },
    {
        let id = text::trim(self.source_id.as_str());
        if id.as_str().is_empty() {
            return Err("Source ID is required.".to_owned());
        }
        match util::parse_path(self.mount_point.as_str(), "Mount point") {
            Err(e) => Err(e),
            Ok(mount_point) => Ok(
                match self.source {
                    GuiSource::Repo => Source::Repo {
                        repo_id: id,
                        mount_point,
                        revision: util::non_empty_or_default(self.revision.as_str(), "main"),
                    },
                    GuiSource::Bucket => Source::Bucket { bucket_id: id, mount_point },
                },
            ),
        }
    }

    /// The options that the form asks for.
    pub fn mount_options(&self) -> (r: Result<MountOptions, String>)
        ensures
            match r {
                Err(e) => util::spec_parse_path(self.cache_dir@, "Cache directory"@) == Err::<
                    Seq<char>,
                    Seq<char>,
                >(e@),
                Ok(options) => {
                    &&& util::spec_parse_path(self.cache_dir@, "Cache directory"@) is Ok
                    &&& is_form_options(options, *self)
                },
            },
    {
        match util::parse_path(self.cache_dir.as_str(), "Cache directory") {
            Err(e) => Err(e),
            Ok(cache_dir) => {
                let mut options = MountOptions::with_defaults(cache_dir);
                options.hf_token = util::optional_text(self.hf_token.as_str());
                options.hub_endpoint = util::non_empty_or_default(
                    self.hub_endpoint.as_str(),
                    "https://huggingface.co",
                );
                options.read_only = self.source == GuiSource::Repo || self.read_only;
                Ok(options)
            },
        }
    }

    /// Takes up the wish to start, with fresh checks. The caller runs what comes
    /// back on a thread.
    pub fn start_mount(&mut self, shown: &mut CompactStatus, checks: Vec<CheckItem>) -> (r: Option<
        (Source, MountOptions),
    >)
        ensures
            final(self).checks == checks,
            same_form(*final(self), *old(self)),
            final(shown)@ == spec_start_status(
                old(shown)@,
                *old(self),
                preflight::checks_view(checks@),
            ),
            match r {
                None => {
                    &&& same_mount(*final(self), *old(self))
                    &&& preflight::any_level(preflight::checks_view(checks@), CheckLevel::Fail)
                        || spec_start_problem(*old(self)) is Some
                },
                Some((source, options)) => {
                    &&& !preflight::any_level(preflight::checks_view(checks@), CheckLevel::Fail)
                    &&& spec_start_problem(*old(self)) is None
                    &&& is_form_source(source, *old(self))
                    &&& is_form_options(options, *old(self))
                    &&& final(self).mount_thread
                    &&& text::opt_string(final(self).active_mount_point) == Some(
                        source.spec_mount_point(),
                    )
                },
            },
    {
        let ghost all = preflight::checks_view(checks@);
        if let Some(k) = preflight::find_failure(&checks) {
            proof {
                let first = choose|i: int| preflight::is_first_failure(all, i);
                assert(preflight::is_first_failure(all, k as int));
                assert(preflight::is_first_failure(all, first));
                assert(first == k);
                assert(all[k as int] == checks@[k as int]@);
            }
            let headline = text::concat("Setup check failed: ", checks[k].label.as_str());
            set_status(
                shown,
                MountState::Failed,
                headline.as_str(),
                checks[k].detail.as_str(),
            );
            self.checks = checks;
            return None;
        }
        self.refresh_checks(shown, checks);
        let source = match self.mount_source() {
            Err(e) => {
                set_status(shown, MountState::Failed, "Invalid source", e.as_str());
                return None;
            },
            Ok(source) => source,
        };
        let options = match self.mount_options() {
            Err(e) => {
                set_status(shown, MountState::Failed, "Invalid mount options", e.as_str());
                return None;
            },
            Ok(options) => options,
        };
        let mount_point = source.mount_point().to_owned();
        let detail = text::concat("Target: ", mount_point.as_str());
        set_status(shown, MountState::Mounting, "Preparing mount", detail.as_str());
        self.active_mount_point = Some(mount_point);
        self.mount_thread = true;
        Some((source, options))
    }

    /// Takes up the wish to stop. The caller unmounts what comes back.
    pub fn stop_mount(&self, shown: &mut CompactStatus) -> (r: Option<String>)
        ensures
            text::opt_string(r) == text::opt_string(self.active_mount_point),
            final(shown)@ == match self.active_mount_point {
                None => old(shown)@.with(
                    MountState::Failed,
                    "No active mount"@,
                    "There is no recorded mount point to unmount."@,
                ),
                Some(path) => old(shown)@.with(
                    MountState::Stopping,
                    "Unmount requested"@,
                    "Target: "@ + path@,
                ),
            },
    {
        match &self.active_mount_point {
            None => {
                set_status(
                    shown,
                    MountState::Failed,
                    "No active mount",
                    "There is no recorded mount point to unmount.",
                );
                None
            },
            Some(path) => {
                let detail = text::concat("Target: ", path.as_str());
                set_status(shown, MountState::Stopping, "Unmount requested", detail.as_str());
                Some(path.clone())
            },
        }
    }

    /// Takes note of the end of the mount thread, which may have panicked.
    pub fn collect_finished_mount(&mut self, shown: &mut CompactStatus, panicked: bool)
        ensures
            *final(self) == (CompactApp {
                mount_thread: false,
                active_mount_point: None,
                ..*old(self)
            }),
            final(shown)@ == spec_collected(old(shown)@, panicked),
    {
        if panicked {
            set_status(
                shown,
                MountState::Failed,
                "Mount thread panicked",
                "The backend thread exited unexpectedly.",
            );
        }
        self.mount_thread = false;
        self.active_mount_point = None;
        match shown.state {
            MountState::Failed | MountState::Stopped => {},
            _ => {
                set_status(
                    shown,
                    MountState::Stopped,
                    "Unmounted",
                    "The mount process has stopped.",
                );
            },
        }
    }

    /// What is unmounted when the window closes.
    pub fn exit_unmount(&self) -> (r: Option<String>)
        ensures
            text::opt_string(r) == text::opt_string(self.active_mount_point),
    {
        match &self.active_mount_point {
            None => None,
            Some(path) => Some(path.clone()),
        }
    }
}

/// The status after the end of the mount thread: what the thread showed last
/// stands where it says that the mount is over.
pub open spec fn spec_collected(shown: CompactStatusView, panicked: bool) -> CompactStatusView {
    if panicked {
        shown.with(
            MountState::Failed,
            "Mount thread panicked"@,
            "The backend thread exited unexpectedly."@,
        )
    } else if shown.state == MountState::Failed || shown.state == MountState::Stopped {
        shown
    } else {
        shown.with(MountState::Stopped, "Unmounted"@, "The mount process has stopped."@)
    }
}

// ── Outcomes of what the user asked for ─────────────────────────────────

/// Shows that the unmount failed.
pub fn show_unmount_failure(shown: &mut CompactStatus, error: &str)
    ensures
        final(shown)@ == old(shown)@.with(MountState::Failed, "Unmount failed"@, error@),
{
    set_status(shown, MountState::Failed, "Unmount failed", error);
}

/// Shows whether the mount point was opened.
pub fn show_opened(shown: &mut CompactStatus, opened: &Result<(), String>)
    ensures
        final(shown)@ == match *opened {
            Ok(()) => old(shown)@.logged("Opened mount point"@),
            Err(e) => old(shown)@.with(MountState::Failed, "Could not open mount point"@, e@),
        },
{
    match opened {
        Ok(()) => push_log(shown, "Opened mount point"),
        Err(e) => set_status(shown, MountState::Failed, "Could not open mount point", e.as_str()),
    }
}

/// Shows whether Windows was asked to turn on its NFS client.
pub fn show_nfs_enabled(shown: &mut CompactStatus, asked: &Result<(), String>)
    ensures
        final(shown)@ == match *asked {
            Ok(()) => old(shown)@.with(
                MountState::Stopped,
                "NFS enable requested"@,
                "Approve the UAC prompt. Reboot if Windows asks, then press Recheck."@,
            ),
            Err(e) => old(shown)@.with(MountState::Failed, "Could not enable NFS"@, e@),
        },
{
    match asked {
        Ok(()) => set_status(
            shown,
            MountState::Stopped,
            "NFS enable requested",
            "Approve the UAC prompt. Reboot if Windows asks, then press Recheck.",
        ),
        Err(e) => set_status(shown, MountState::Failed, "Could not enable NFS", e.as_str()),
    }
}

/// Shows whether Windows was asked for raised rights.
pub fn show_elevation(shown: &mut CompactStatus, asked: &Result<(), String>)
    ensures
        final(shown)@ == match *asked {
            Ok(()) => old(shown)@.with(
                MountState::Stopped,
                "Elevation requested"@,
                "Approve the Windows UAC prompt, then use the elevated window."@,
            ),
            Err(e) => old(shown)@.with(MountState::Failed, "Could not relaunch as admin"@, e@),
        },
{
    match asked {
        Ok(()) => set_status(
            shown,
            MountState::Stopped,
            "Elevation requested",
            "Approve the Windows UAC prompt, then use the elevated window.",
        ),
        Err(e) => set_status(
            shown,
            MountState::Failed,
            "Could not relaunch as admin",
            e.as_str(),
        ),
    }
}

// ── What is drawn ───────────────────────────────────────────────────────

/// The parts of the form that depend on what was filled in.
#[derive(Clone, Copy, PartialEq, Eq, Debug)]
pub struct CompactForm {
    pub id_label: &'static str,
    pub id_hint: &'static str,
    /// There is a field for the revision.
    pub revision: bool,
    /// Whether a mount is read-only is not for the user to say.
    pub read_only_locked: bool,
    pub advanced_button: &'static str,
}

/// The parts of the form that depend on what was filled in.
pub fn form_parts(app: &CompactApp) -> (r: CompactForm)
    ensures
        r.id_label@ == (match app.source {
            GuiSource::Repo => "Repo ID"@,
            GuiSource::Bucket => "Bucket ID"@,
        }),
        r.id_hint@ == (match app.source {
            GuiSource::Repo => "openai-community/gpt2"@,
            GuiSource::Bucket => "namespace/bucket"@,
        }),
        r.revision == (app.source == GuiSource::Repo),
        r.read_only_locked == (app.source == GuiSource::Repo),
        r.advanced_button@ == (if app.show_advanced {
            "Hide advanced"@
        } else {
            "Show advanced"@
        }),
{
    let is_repo: bool = app.source == GuiSource::Repo;
    let advanced_button = if app.show_advanced {
        "Hide advanced"
    } else {
        "Show advanced"
    };
    let (id_label, id_hint) = match app.source {
        GuiSource::Repo => ("Repo ID", "openai-community/gpt2"),
        GuiSource::Bucket => ("Bucket ID", "namespace/bucket"),
    };
    CompactForm { id_label, id_hint, revision: is_repo, read_only_locked: is_repo, advanced_button }
}

/// The buttons below the form.
#[derive(Clone, Copy, PartialEq, Eq, Debug)]
pub struct CompactActions {
    pub start_label: &'static str,
    pub start_enabled: bool,
    pub stop_enabled: bool,
    pub open_enabled: bool,
}

/// The buttons below the form. `thread_running` says that the mount thread, if
/// there is one, has not ended.
pub fn mount_actions(app: &CompactApp, state: MountState, thread_running: bool) -> (r:
    CompactActions)
    ensures
        ({
            let running = app.mount_thread && thread_running;
            &&& r.start_label@ == (if running {
                "Mount running"@
            } else {
                "Start mount"@
            })
            &&& r.start_enabled == (!running && !preflight::any_level(
                preflight::checks_view(app.checks@),
                CheckLevel::Fail,
            ))
            &&& r.stop_enabled == running
            &&& r.open_enabled == (state == MountState::Mounted && app.active_mount_point is Some)
        }),
{
    let running: bool = app.mount_thread && thread_running;
    let start_label = if running {
        "Mount running"
    } else {
        "Start mount"
    };
    CompactActions {
        start_label,
        start_enabled: !running && !preflight::has_level(&app.checks, CheckLevel::Fail),
        stop_enabled: running,
        open_enabled: state == MountState::Mounted && app.active_mount_point.is_some(),
    }
}

/// What is offered about the check that stands in the way.
#[derive(Clone, Copy, PartialEq, Eq, Debug)]
pub struct BlockerHelp {
    pub action: BlockerAction,
    /// The last drive is offered for the mount point.
    pub last_drive: bool,
    pub note: Option<&'static str>,
}

/// What is offered about the check that stands in the way.
pub fn blocker_help(platform: Platform, check: &CheckItem) -> (r: BlockerHelp)
    ensures
        ({
            let action = view::spec_blocker_action(platform, check.label@);
            let has_button = action == BlockerAction::EnableNfs || action
                == BlockerAction::RestartAsAdmin;
            &&& r.action == (if has_button {
                action
            } else {
                BlockerAction::Nothing
            })
            &&& r.last_drive == (check.label@ == "Mount point"@)
            &&& text::opt_view(r.note) == (if has_button || check.label@ == "Mount point"@ {
                None
            } else {
                Some("Fix this blocker, then recheck."@)
            })
        }),
{
    let last_drive: bool = text::str_eq(check.label.as_str(), "Mount point");
    match view::blocker_action(platform, check) {
        BlockerAction::EnableNfs => BlockerHelp {
            action: BlockerAction::EnableNfs,
            last_drive,
            note: None,
        },
        BlockerAction::RestartAsAdmin => BlockerHelp {
            action: BlockerAction::RestartAsAdmin,
            last_drive,
            note: None,
        },
        _ => BlockerHelp {
            action: BlockerAction::Nothing,
            last_drive,
            note: if last_drive {
                None
            } else {
                Some("Fix this blocker, then recheck.")
            },
        },
    }
}

/// The checks in a word, and in numbers where there are any.
pub fn checks_summary(checks: &Vec<CheckItem>) -> (r: view::ChecksSummary)
    ensures
        ({
            let all = preflight::checks_view(checks@);
            let failures = view::count_level(all, CheckLevel::Fail);
            let warnings = view::count_level(all, CheckLevel::Warn);
            &&& r.chip.label@ == view::spec_summary_label(all)
            &&& r.chip.tone == view::spec_summary_tone(all)
            &&& text::opt_string(r.counts) == (if checks@.len() > 0 {
                Some(
                    text::spec_decimal(failures) + " blocking / "@ + text::spec_decimal(warnings)
                        + " warning"@,
                )
            } else {
                None
            })
        }),
{
    let chip = view::summary_chip(checks);
    let counts = if checks.len() > 0 {
        let mut line = text::decimal(view::level_count(checks, CheckLevel::Fail) as u64);
        line.append(" blocking / ");
        line.append(text::decimal(view::level_count(checks, CheckLevel::Warn) as u64).as_str());
        line.append(" warning");
        Some(line)
    } else {
        None
    };
    view::ChecksSummary { chip, counts }
}

/// The mark before a check.
pub fn check_mark(level: CheckLevel) -> (r: Chip)
    ensures
        r.label@ == (match level {
            CheckLevel::Pass => "OK"@,
            CheckLevel::Warn => "--"@,
            CheckLevel::Fail => "FIX"@,
        }),
        r.tone == (match level {
            CheckLevel::Pass => Tone::Good,
            CheckLevel::Warn => Tone::Warning,
            CheckLevel::Fail => Tone::Bad,
        }),
{
    match level {
        CheckLevel::Pass => Chip { label: "OK", tone: Tone::Good },
        CheckLevel::Warn => Chip { label: "--", tone: Tone::Warning },
        CheckLevel::Fail => Chip { label: "FIX", tone: Tone::Bad },
    }
}

// ── Laws ────────────────────────────────────────────────────────────────

/// The log never grows past its length, and its newest line is the one that was
/// added.
pub proof fn law_log_is_bounded(status: CompactStatusView, line: Seq<char>)
    ensures
        status.logged(line).log.len() <= MAX_LOG_LINES,
        status.logged(line).log.last() == line,
{
}

/// Once the mount thread has ended, the mount is shown to be over.
pub proof fn law_ended_mounts_are_over(shown: CompactStatusView, panicked: bool)
    ensures
        spec_collected(shown, panicked).state == MountState::Stopped || spec_collected(
            shown,
            panicked,
        ).state == MountState::Failed,
        panicked ==> spec_collected(shown, panicked).state == MountState::Failed,
{
}

/// A repo is mounted read-only whatever the form says.
pub proof fn law_repos_are_read_only(app: CompactApp, options: MountOptions)
    requires
        app.source == GuiSource::Repo,
        is_form_options(options, app),
    ensures
        options.read_only,
{
}

} // verus!
