//! The state behind the window: the form, the mount that it controls, and the
//! background worker that it follows.
//!
//! What takes time or touches the machine is done by the caller: a method says
//! what to do next, and the outcome goes back in through another. `time` is the
//! time of day for the log throughout.
use crate::nfs::FileTime;
use crate::platform::OpenTarget;
use crate::preflight;
use crate::preflight::{CheckItem, CheckLevel};
use crate::profile;
use crate::profile::{GuiSource, MountProfile, RecentSource};
use crate::setup::{MountOptions, Source};
use crate::status;
use crate::status::{LogLevel, MountState, SharedStatus, Tab};
use crate::text;
use crate::util;
use crate::worker;
use crate::worker::{WorkerSnapshot, WorkerState, WorkerStatus};
use vstd::prelude::*;

verus! {

// ── The form ────────────────────────────────────────────────────────────

/// What the user has filled in.
#[derive(Debug)]
pub struct MountForm {
    pub source: GuiSource,
    pub source_id: String,
    pub revision: String,
    pub mount_point: String,
    /// Never saved.
    pub hf_token: String,
    pub show_token: bool,
    pub token_file: String,
    pub hub_endpoint: String,
    pub cache_dir: String,
    pub read_only: bool,
    pub run_in_background: bool,
    pub nfs_allow_unsafe_loopback: bool,
    pub autostart_enabled: bool,
    pub show_advanced: bool,
    /// The most recent first.
    pub recent_sources: Vec<RecentSource>,
}

/// A copy of the recent sources.
fn clone_recents(recents: &Vec<RecentSource>) -> (r: Vec<RecentSource>)
    ensures
        profile::recents_view(r@) == profile::recents_view(recents@),
        r@.len() == recents@.len(),
{
    let ghost wanted = profile::recents_view(recents@);
    let mut out: Vec<RecentSource> = Vec::new();
    let mut i: usize = 0;
    while i < recents.len()
        invariant
            i <= recents@.len(),
            out@.len() == i,
            wanted == profile::recents_view(recents@),
            forall|j: int| 0 <= j < i ==> (#[trigger] out@[j])@ == wanted[j],
        decreases recents@.len() - i,
    {
        let copy = RecentSource {
            source: recents[i].source,
            source_id: recents[i].source_id.clone(),
            revision: recents[i].revision.clone(),
        };
        assert(copy@ == wanted[i as int]);
        out.push(copy);
        i = i + 1;
    }
    assert(profile::recents_view(out@) =~= wanted);
    out
}

/// The profile holds what the form says. A repo is read-only whatever it says.
pub open spec fn is_form_profile(p: MountProfile, form: MountForm) -> bool {
    &&& p.source == form.source
    &&& p.source_id == form.source_id
    &&& p.revision == form.revision
    &&& p.mount_point == form.mount_point
    &&& p.token_file == form.token_file
    &&& p.hub_endpoint == form.hub_endpoint
    &&& p.cache_dir == form.cache_dir
    &&& p.read_only == (form.source == GuiSource::Repo || form.read_only)
    &&& p.run_in_background == form.run_in_background
    &&& p.nfs_allow_unsafe_loopback == form.nfs_allow_unsafe_loopback
    &&& profile::recents_view(p.recent_sources@) == profile::recents_view(form.recent_sources@)
}

/// The form shows what the profile holds. A repo is read-only whatever it says.
pub open spec fn is_filled_from(form: MountForm, p: MountProfile) -> bool {
    &&& form.source == p.source
    &&& form.source_id == p.source_id
    &&& form.revision == p.revision
    &&& form.mount_point == p.mount_point
    &&& form.token_file == p.token_file
    &&& form.hub_endpoint == p.hub_endpoint
    &&& form.cache_dir == p.cache_dir
    &&& form.read_only == (p.read_only || p.source == GuiSource::Repo)
    &&& form.run_in_background == p.run_in_background
    &&& form.nfs_allow_unsafe_loopback == p.nfs_allow_unsafe_loopback
    &&& form.recent_sources == p.recent_sources
}

/// The two agree in what a profile does not hold.
pub open spec fn same_session_fields(a: MountForm, b: MountForm) -> bool {
    &&& a.hf_token == b.hf_token
    &&& a.show_token == b.show_token
    &&& a.autostart_enabled == b.autostart_enabled
    &&& a.show_advanced == b.show_advanced
}

/// The two agree in all but the recent sources.
pub open spec fn same_but_recents(a: MountForm, b: MountForm) -> bool {
    &&& same_session_fields(a, b)
    &&& a.source == b.source
    &&& a.source_id == b.source_id
    &&& a.revision == b.revision
    &&& a.mount_point == b.mount_point
    &&& a.token_file == b.token_file
    &&& a.hub_endpoint == b.hub_endpoint
    &&& a.cache_dir == b.cache_dir
    &&& a.read_only == b.read_only
    &&& a.run_in_background == b.run_in_background
    &&& a.nfs_allow_unsafe_loopback == b.nfs_allow_unsafe_loopback
}

/// The source in the form, as it is remembered.
pub open spec fn form_entry(form: MountForm) -> profile::RecentSourceView {
    profile::RecentSourceView {
        source: form.source,
        source_id: text::spec_trim(form.source_id@),
        revision: text::spec_trim(form.revision@),
    }
}

impl MountForm {
    /// The form as it is first shown. `hf_token` is the value of `HF_TOKEN`.
    pub fn new(
        mount_point: String,
        cache_dir: String,
        hf_token: Option<&str>,
        autostart_enabled: bool,
    ) -> (r: MountForm)
        ensures
            r.source == GuiSource::Repo,
            r.source_id@ == "openai-community/gpt2"@,
            r.revision@ == "main"@,
            r.mount_point == mount_point,
            r.hf_token@ == (match hf_token {
                Some(token) => token@,
                None => Seq::empty(),
            }),
            !r.show_token,
            r.token_file@ == Seq::<char>::empty(),
            r.hub_endpoint@ == "https://huggingface.co"@,
            r.cache_dir == cache_dir,
            r.read_only,
            !r.run_in_background,
            !r.nfs_allow_unsafe_loopback,
            r.autostart_enabled == autostart_enabled,
            !r.show_advanced,
            r.recent_sources@.len() == 0,
    {
        let hf_token = match hf_token {
            Some(token) => token.to_owned(),
            None => String::new(),
        };
        MountForm {
            source: GuiSource::Repo,
            source_id: "openai-community/gpt2".to_owned(),
            revision: "main".to_owned(),
            mount_point,
            hf_token,
            show_token: false,
            token_file: String::new(),
            hub_endpoint: "https://huggingface.co".to_owned(),
            cache_dir,
            read_only: true,
            run_in_background: false,
            nfs_allow_unsafe_loopback: false,
            autostart_enabled,
            show_advanced: false,
            recent_sources: Vec::new(),
        }
    }

    /// Fills in the form from a profile.
    pub fn apply_profile(&mut self, p: MountProfile)
        ensures
            same_session_fields(*final(self), *old(self)),
            is_filled_from(*final(self), p),
    {
        self.read_only = p.read_only || p.source == GuiSource::Repo;
        self.source = p.source;
        self.source_id = p.source_id;
        self.revision = p.revision;
        self.mount_point = p.mount_point;
        self.token_file = p.token_file;
        self.hub_endpoint = p.hub_endpoint;
        self.cache_dir = p.cache_dir;
        self.run_in_background = p.run_in_background;
        self.nfs_allow_unsafe_loopback = p.nfs_allow_unsafe_loopback;
        self.recent_sources = p.recent_sources;
    }

    /// The profile that the form makes up.
    pub fn profile(&self) -> (r: MountProfile)
        ensures
            is_form_profile(r, *self),
            r.recent_sources@.len() == self.recent_sources@.len(),
    {
        MountProfile {
            source: self.source,
            source_id: self.source_id.clone(),
            revision: self.revision.clone(),
            mount_point: self.mount_point.clone(),
            token_file: self.token_file.clone(),
            hub_endpoint: self.hub_endpoint.clone(),
            cache_dir: self.cache_dir.clone(),
            read_only: self.source == GuiSource::Repo || self.read_only,
            run_in_background: self.run_in_background,
            nfs_allow_unsafe_loopback: self.nfs_allow_unsafe_loopback,
            recent_sources: clone_recents(&self.recent_sources),
        }
    }

    /// Chooses a kind of source. Changing to a repo makes the mount read-only.
    pub fn select_source(&mut self, source: GuiSource)
        ensures
            final(self).source == source,
            final(self).read_only == (old(self).read_only || (source == GuiSource::Repo && source
                != old(self).source)),
            same_session_fields(*final(self), *old(self)),
            final(self).source_id == old(self).source_id,
            final(self).revision == old(self).revision,
            final(self).mount_point == old(self).mount_point,
            final(self).token_file == old(self).token_file,
            final(self).hub_endpoint == old(self).hub_endpoint,
            final(self).cache_dir == old(self).cache_dir,
            final(self).run_in_background == old(self).run_in_background,
            final(self).nfs_allow_unsafe_loopback == old(self).nfs_allow_unsafe_loopback,
            final(self).recent_sources == old(self).recent_sources,
    {
        if source == GuiSource::Repo && self.source != source {
            self.read_only = true;
        }
        self.source = source;
    }

    /// Fills in a source that was mounted before.
    pub fn apply_recent_source(&mut self, recent: &RecentSource)
        ensures
            same_session_fields(*final(self), *old(self)),
            final(self).source == recent.source,
            final(self).source_id == recent.source_id,
            final(self).revision@ == (if recent.source == GuiSource::Bucket {
                old(self).revision@
            } else if recent.revision@.len() == 0 {
                "main"@
            } else {
                recent.revision@
            }),
            final(self).read_only == (old(self).read_only || recent.source == GuiSource::Repo),
            final(self).mount_point == old(self).mount_point,
            final(self).token_file == old(self).token_file,
            final(self).hub_endpoint == old(self).hub_endpoint,
            final(self).cache_dir == old(self).cache_dir,
            final(self).run_in_background == old(self).run_in_background,
            final(self).nfs_allow_unsafe_loopback == old(self).nfs_allow_unsafe_loopback,
            final(self).recent_sources == old(self).recent_sources,
    {
        self.source = recent.source;
        self.source_id = recent.source_id.clone();
        if recent.source == GuiSource::Repo {
            if recent.revision.as_str().is_empty() {
                self.revision = "main".to_owned();
            } else {
                self.revision = recent.revision.clone();
            }
            self.read_only = true;
        }
    }

    /// Remembers the source in the form.
    pub fn remember_recent_source(&mut self)
        ensures
            same_but_recents(*final(self), *old(self)),
            profile::recents_view(final(self).recent_sources@) == profile::remembered(
                profile::recents_view(old(self).recent_sources@),
                form_entry(*old(self)),
            ),
    {
        let entry = RecentSource {
            source: self.source,
            source_id: text::trim(self.source_id.as_str()),
            revision: text::trim(self.revision.as_str()),
        };
        assert(entry@ == form_entry(*self));
        let mut p = self.profile();
        p.remember_recent(entry);
        self.recent_sources = p.recent_sources;
    }

    /// What is wrong with the source in the form.
    pub fn source_problem(&self) -> (r: Option<&'static str>)
        ensures
            text::opt_view(r) == profile::spec_source_id_problem(self.source, self.source_id@),
    {
        profile::source_id_problem(self.source, self.source_id.as_str())
    }

    /// The options that the form asks for. A token in the form goes before the
    /// one in the environment.
    pub fn mount_options(&self, p: &MountProfile, env_token: Option<&str>) -> (r: Result<
        MountOptions,
        String,
    >)
        ensures
            match r {
                Err(e) => util::spec_parse_path(p.cache_dir@, "Cache directory"@) == Err::<
                    Seq<char>,
                    Seq<char>,
                >(e@),
                Ok(options) => {
                    &&& util::spec_parse_path(p.cache_dir@, "Cache directory"@) is Ok
                    &&& is_form_options(options, *p, self.hf_token@, text::opt_view(env_token))
                },
            },
    {
        match profile::profile_mount_options(p, env_token) {
            Err(e) => Err(e),
            Ok(mut options) => {
                if let Some(token) = util::optional_text(self.hf_token.as_str()) {
                    options.hf_token = Some(token);
                }
                Ok(options)
            },
        }
    }
}

/// The token that a mount of this process uses.
pub open spec fn spec_token(inline: Seq<char>, env_token: Option<Seq<char>>) -> Option<Seq<char>> {
    match util::spec_optional_text(inline) {
        Some(token) => Some(token),
        None => spec_env_token(env_token),
    }
}

/// The token that the environment offers.
pub open spec fn spec_env_token(env_token: Option<Seq<char>>) -> Option<Seq<char>> {
    match env_token {
        Some(token) => util::spec_optional_text(token),
        None => None,
    }
}

/// The options of the profile, with the token of a mount of this process.
pub open spec fn is_form_options(
    options: MountOptions,
    p: MountProfile,
    inline: Seq<char>,
    env_token: Option<Seq<char>>,
) -> bool {
    &&& text::opt_string(options.hf_token) == spec_token(inline, env_token)
    &&& text::opt_string(options.token_file) == util::spec_optional_text(p.token_file@)
    &&& options.hub_endpoint@ == util::spec_non_empty_or_default(
        p.hub_endpoint@,
        "https://huggingface.co"@,
    )
    &&& options.cache_dir@ == text::spec_trim(p.cache_dir@)
    &&& options.read_only == (p.source == GuiSource::Repo || p.read_only)
    &&& options.nfs_allow_unsafe_loopback == p.nfs_allow_unsafe_loopback
    &&& profile::has_other_defaults(options)
}

/// A token was typed in that a background worker would not have: there is no
/// token file, and the environment offers another or none.
pub open spec fn is_token_lost(form: MountForm, env_token: Option<Seq<char>>) -> bool {
    &&& form.run_in_background
    &&& util::spec_optional_text(form.token_file@) is None
    &&& util::spec_optional_text(form.hf_token@) is Some
    &&& util::spec_optional_text(form.hf_token@) != spec_env_token(env_token)
}

/// Tells whether the typed token would not reach a background worker.
fn token_is_lost(form: &MountForm, env_token: Option<&str>) -> (r: bool)
    ensures
        r == is_token_lost(*form, text::opt_view(env_token)),
{
    if !form.run_in_background || util::optional_text(form.token_file.as_str()).is_some() {
        return false;
    }
    match (util::optional_text(form.hf_token.as_str()), util::current_env_hf_token(env_token)) {
        (None, _) => false,
        (Some(_), None) => true,
        (Some(typed), Some(offered)) => !text::str_eq(typed.as_str(), offered.as_str()),
    }
}

// ── The mount that is controlled ────────────────────────────────────────

/// What is known of the mount that the window controls.
#[derive(Debug)]
pub struct MountControl {
    /// A thread of this process serves the mount, or did and was not collected.
    pub mount_thread: bool,
    /// The thread can be told to stop; `true` once it was.
    pub shutdown: Option<bool>,
    /// A thread unmounts.
    pub stop_running: bool,
    /// The process of a background worker that this window launched.
    pub child: Option<u32>,
    /// A background worker serves the mount.
    pub active_background: bool,
    pub active_mount_point: Option<String>,
    /// What is mounted, as of the start of the mount.
    pub active_source_label: Option<String>,
    /// The seconds that a clock showed when the mount was first seen to be there.
    pub mounted_since: Option<u64>,
    pub last_worker_generation: u64,
    pub last_worker_status: Option<WorkerStatus>,
    /// The user ended the background worker, so its end is no failure.
    pub background_stop_requested: bool,
}

#[verifier::ext_equal]
pub ghost struct ControlView {
    pub mount_thread: bool,
    pub shutdown: Option<bool>,
    pub stop_running: bool,
    pub child: Option<u32>,
    pub active_background: bool,
    pub active_mount_point: Option<Seq<char>>,
    pub active_source_label: Option<Seq<char>>,
    pub mounted_since: Option<u64>,
    pub last_worker_generation: u64,
    pub last_worker_status: Option<worker::WorkerStatusView>,
    pub background_stop_requested: bool,
}

/// What an optional status holds.
pub open spec fn opt_status(s: Option<WorkerStatus>) -> Option<worker::WorkerStatusView> {
    match s {
        Some(status) => Some(status@),
        None => None,
    }
}

impl View for MountControl {
    type V = ControlView;

    open spec fn view(&self) -> ControlView {
        ControlView {
            mount_thread: self.mount_thread,
            shutdown: self.shutdown,
            stop_running: self.stop_running,
            child: self.child,
            active_background: self.active_background,
            active_mount_point: text::opt_string(self.active_mount_point),
            active_source_label: text::opt_string(self.active_source_label),
            mounted_since: self.mounted_since,
            last_worker_generation: self.last_worker_generation,
            last_worker_status: opt_status(self.last_worker_status),
            background_stop_requested: self.background_stop_requested,
        }
    }
}

impl ControlView {
    /// Nothing is mounted or under way.
    pub open spec fn idle() -> ControlView {
        ControlView {
            mount_thread: false,
            shutdown: None,
            stop_running: false,
            child: None,
            active_background: false,
            active_mount_point: None,
            active_source_label: None,
            mounted_since: None,
            last_worker_generation: 0,
            last_worker_status: None,
            background_stop_requested: false,
        }
    }

    /// No mount point is recorded any more.
    pub open spec fn without_target(self) -> ControlView {
        ControlView { active_mount_point: None, active_source_label: None, ..self }
    }

    /// There is no background worker and no mount point any more.
    pub open spec fn released(self) -> ControlView {
        ControlView { active_background: false, ..self.without_target() }
    }

    /// The last report of the worker was that the mount is there.
    pub open spec fn worker_reported_mounted(self) -> bool {
        self.last_worker_status matches Some(status) && status.state == WorkerState::Mounted
    }
}

impl MountControl {
    /// Nothing is mounted or under way.
    pub fn new() -> (r: MountControl)
        ensures
            r@ == ControlView::idle(),
    {
        MountControl {
            mount_thread: false,
            shutdown: None,
            stop_running: false,
            child: None,
            active_background: false,
            active_mount_point: None,
            active_source_label: None,
            mounted_since: None,
            last_worker_generation: 0,
            last_worker_status: None,
            background_stop_requested: false,
        }
    }

    pub open spec fn spec_is_running(self, thread_running: bool) -> bool {
        self.active_background || self.child is Some || (self.mount_thread && thread_running)
    }

    /// Tells whether a mount is there or under way. `thread_running` says that
    /// the thread of the mount, if there is one, has not ended.
    pub fn is_mount_running(&self, thread_running: bool) -> (r: bool)
        ensures
            r == self.spec_is_running(thread_running),
    {
        self.active_background || self.child.is_some() || (self.mount_thread && thread_running)
    }

    pub open spec fn spec_is_stopping(self) -> bool {
        self.stop_running || self.shutdown == Some(true)
    }

    /// Tells whether a mount is being stopped.
    pub fn is_stopping(&self) -> (r: bool)
        ensures
            r == self.spec_is_stopping(),
    {
        self.stop_running || match self.shutdown {
            Some(requested) => requested,
            None => false,
        }
    }

    /// Tells whether the last report of the worker was that the mount is there.
    pub fn worker_reported_mounted(&self) -> (r: bool)
        ensures
            r == self@.worker_reported_mounted(),
    {
        match &self.last_worker_status {
            Some(status) => status.state == WorkerState::Mounted,
            None => false,
        }
    }

    /// Forgets the mount point.
    fn clear_target(&mut self)
        ensures
            final(self)@ == old(self)@.without_target(),
    {
        self.active_mount_point = None;
        self.active_source_label = None;
    }

    /// Forgets the background worker and the mount point.
    fn release(&mut self)
        ensures
            final(self)@ == old(self)@.released(),
    {
        self.active_background = false;
        self.clear_target();
    }

    /// Keeps track of since when the mount is there. `now_secs` is what a clock
    /// shows.
    pub fn track_mounted_since(&mut self, state: MountState, now_secs: u64)
        ensures
            final(self)@ == (ControlView {
                mounted_since: if state != MountState::Mounted {
                    None
                } else if old(self)@.mounted_since is Some {
                    old(self)@.mounted_since
                } else {
                    Some(now_secs)
                },
                ..old(self)@
            }),
    {
        if state != MountState::Mounted {
            self.mounted_since = None;
        } else if self.mounted_since.is_none() {
            self.mounted_since = Some(now_secs);
        }
    }

    /// The seconds for which the mount is there.
    pub fn mounted_uptime_secs(&self, now_secs: u64) -> (r: Option<u64>)
        ensures
            r == match self.mounted_since {
                Some(since) => if now_secs >= since {
                    Some((now_secs - since) as u64)
                } else {
                    Some(0u64)
                },
                None => None,
            },
    {
        match self.mounted_since {
            Some(since) => {
                if now_secs >= since {
                    Some(now_secs - since)
                } else {
                    Some(0)
                }
            },
            None => None,
        }
    }

    /// Takes note of the end of the thread that unmounts.
    pub fn collect_stop_thread(&mut self, finished: bool)
        ensures
            final(self)@ == (ControlView {
                stop_running: old(self)@.stop_running && !finished,
                ..old(self)@
            }),
    {
        if finished {
            self.stop_running = false;
        }
    }
}

/// The state that a report of a worker stands for.
pub open spec fn spec_worker_mount_state(state: WorkerState) -> MountState {
    match state {
        WorkerState::Mounting => MountState::Mounting,
        WorkerState::Mounted => MountState::Mounted,
        WorkerState::Stopping => MountState::Stopping,
        WorkerState::Stopped => MountState::Stopped,
        WorkerState::Failed => MountState::Failed,
    }
}

/// The state that a report of a worker stands for.
pub fn worker_mount_state(state: WorkerState) -> (r: MountState)
    ensures
        r == spec_worker_mount_state(state),
{
    match state {
        WorkerState::Mounting => MountState::Mounting,
        WorkerState::Mounted => MountState::Mounted,
        WorkerState::Stopping => MountState::Stopping,
        WorkerState::Stopped => MountState::Stopped,
        WorkerState::Failed => MountState::Failed,
    }
}

/// A copy of an optional string.
fn clone_opt(s: &Option<String>) -> (r: Option<String>)
    ensures
        text::opt_string(r) == text::opt_string(*s),
{
    match s {
        Some(s) => Some(s.clone()),
        None => None,
    }
}

/// Tells whether the two hold the same.
fn same_opt(a: &Option<String>, b: &Option<String>) -> (r: bool)
    ensures
        r == (text::opt_string(*a) == text::opt_string(*b)),
{
    match (a, b) {
        (None, None) => true,
        (Some(a), Some(b)) => text::str_eq(a.as_str(), b.as_str()),
        _ => false,
    }
}

/// Tells whether the two reports say the same.
pub fn same_worker_status(a: &WorkerStatus, b: &WorkerStatus) -> (r: bool)
    ensures
        r == (a@ == b@),
{
    a.state == b.state && text::str_eq(a.headline.as_str(), b.headline.as_str()) && text::str_eq(
        a.detail.as_str(),
        b.detail.as_str(),
    ) && same_opt(&a.mount_point, &b.mount_point) && same_opt(&a.source_label, &b.source_label)
        && a.pid == b.pid && a.updated_at_secs == b.updated_at_secs
}

// ── The window ──────────────────────────────────────────────────────────

/// The state behind the window.
#[derive(Debug)]
pub struct MountGuiApp {
    pub form: MountForm,
    pub control: MountControl,
    pub tab: Tab,
    pub checks: Vec<CheckItem>,
}

/// A mount that is about to start.
#[derive(PartialEq, Eq, Debug)]
pub struct StartRequest {
    /// To be saved first.
    pub profile: MountProfile,
    pub source: Source,
    pub options: MountOptions,
    pub source_label: String,
    pub in_background: bool,
}

/// What follows the wish to start.
#[derive(PartialEq, Eq, Debug)]
pub enum StartStep {
    Refused,
    /// Save the profile, then go on with the request.
    Save(StartRequest),
}

/// What follows the saving of the profile.
#[derive(Clone, Copy, PartialEq, Eq, Structural, Debug)]
pub enum LaunchStep {
    Refused,
    /// Launch a background worker.
    Worker,
    /// Start a thread that mounts.
    Thread,
}

/// What follows the wish to stop.
#[derive(PartialEq, Eq, Debug)]
pub enum StopStep {
    Nothing,
    /// Tell the thread of the mount to stop.
    RequestShutdown,
    /// Find out whether the process is one of our workers.
    CheckWorker { pid: u32 },
    Terminate { pid: u32 },
    /// Unmount on a thread.
    Unmount { mount_point: String },
    /// Leave the status of a worker that was stopped.
    MarkStopped { mount_point: Option<String> },
}

/// What follows the end of a worker that had not mounted.
#[derive(PartialEq, Eq, Debug)]
pub struct WorkerCleanup {
    /// Leave the status of a worker that was stopped, with this mount point.
    pub mark_stopped: Option<String>,
    /// Unmount this on a thread, where the mount there is ours: the worker may
    /// have mounted just before it ended.
    pub unmount: Option<String>,
}

/// Why a mount does not start, as headline and detail, once the checks passed.
pub open spec fn spec_start_problem(form: MountForm, env_token: Option<Seq<char>>) -> Option<
    (Seq<char>, Seq<char>),
> {
    match profile::spec_source_id_problem(form.source, form.source_id@) {
        Some(problem) => Some(("Invalid source"@, problem)),
        None => match util::spec_parse_path(form.mount_point@, "Mount point"@) {
            Err(e) => Some(("Invalid source"@, e)),
            Ok(_) => match util::spec_parse_path(form.cache_dir@, "Cache directory"@) {
                Err(e) => Some(("Invalid mount options"@, e)),
                Ok(_) => if is_token_lost(form, env_token) {
                    Some(
                        (
                            "Token not available to background worker"@,
                            "Set HF_TOKEN before launching the GUI or provide a token file."@,
                        ),
                    )
                } else {
                    None
                },
            },
        },
    }
}

/// The status after the wish to start.
pub open spec fn spec_start_status(
    shown: status::StatusView,
    time: Seq<char>,
    form: MountForm,
    checks: Seq<preflight::CheckItemView>,
    env_token: Option<Seq<char>>,
) -> status::StatusView {
    if preflight::any_level(checks, CheckLevel::Fail) {
        let failure = checks[choose|i: int| preflight::is_first_failure(checks, i)];
        shown.with(
            time,
            MountState::Failed,
            "Setup check failed: "@ + failure.label,
            failure.detail,
        )
    } else {
        let logged = shown.logged(time, LogLevel::Info, preflight::spec_summary(checks));
        match spec_start_problem(form, env_token) {
            Some((headline, detail)) => logged.with(time, MountState::Failed, headline, detail),
            None => logged,
        }
    }
}

impl MountGuiApp {
    /// The window with a form, before anything is mounted.
    pub fn new(form: MountForm, checks: Vec<CheckItem>) -> (r: MountGuiApp)
        ensures
            r.form == form,
            r.control@ == ControlView::idle(),
            r.tab == Tab::Mount,
            r.checks == checks,
    {
        MountGuiApp { form, control: MountControl::new(), tab: Tab::Mount, checks }
    }

    /// Shows new checks, and says in the log how they came out.
    pub fn refresh_checks(&mut self, shown: &mut SharedStatus, time: &str, checks: Vec<CheckItem>)
        ensures
            final(self).checks == checks,
            final(self).form == old(self).form,
            final(self).control == old(self).control,
            final(self).tab == old(self).tab,
            final(shown)@ == old(shown)@.logged(
                time@,
                LogLevel::Info,
                preflight::spec_summary(preflight::checks_view(checks@)),
            ),
    {
        let summary = preflight::summarize_checks(&checks);
        status::push_log_at(shown, time, LogLevel::Info, summary.as_str());
        self.checks = checks;
    }

    /// The check that stands in the way of a mount.
    pub fn first_blocking_check(&self) -> (r: Option<&CheckItem>)
        ensures
            match r {
                Some(check) => exists|i: int|
                    #[trigger] preflight::is_blocker(preflight::checks_view(self.checks@), i) && check@
                        == preflight::checks_view(self.checks@)[i],
                None => !preflight::any_level(
                    preflight::checks_view(self.checks@),
                    CheckLevel::Fail,
                ),
            },
    {
        match preflight::find_blocker(&self.checks) {
            Some(i) => {
                assert(preflight::checks_view(self.checks@)[i as int] == self.checks@[i as int]@);
                Some(&self.checks[i])
            },
            None => None,
        }
    }

    // ── Start ───────────────────────────────────────────────────────────

    /// Takes up the wish to start, with fresh checks and the value of
    /// `HF_TOKEN`.
    pub fn start_mount(
        &mut self,
        shown: &mut SharedStatus,
        time: &str,
        checks: Vec<CheckItem>,
        env_token: Option<&str>,
    ) -> (r: StartStep)
        ensures
            final(self).checks == checks,
            final(self).control == old(self).control,
            final(self).tab == old(self).tab,
            final(shown)@ == spec_start_status(
                old(shown)@,
                time@,
                old(self).form,
                preflight::checks_view(checks@),
                text::opt_view(env_token),
            ),
            match r {
                StartStep::Refused => final(self).form == old(self).form && (preflight::any_level(
                    preflight::checks_view(checks@),
                    CheckLevel::Fail,
                ) || spec_start_problem(old(self).form, text::opt_view(env_token)) is Some),
                StartStep::Save(request) => {
                    &&& !preflight::any_level(
                        preflight::checks_view(checks@),
                        CheckLevel::Fail,
                    )
                    &&& spec_start_problem(old(self).form, text::opt_view(env_token)) is None
                    &&& same_but_recents(final(self).form, old(self).form)
                    &&& profile::recents_view(final(self).form.recent_sources@)
                        == profile::remembered(
                        profile::recents_view(old(self).form.recent_sources@),
                        form_entry(old(self).form),
                    )
                    &&& is_form_profile(request.profile, final(self).form)
                    &&& worker::is_profile_source(request.source, request.profile)
                    &&& is_form_options(
                        request.options,
                        request.profile,
                        old(self).form.hf_token@,
                        text::opt_view(env_token),
                    )
                    &&& request.source_label@ == request.source.spec_label()
                    &&& request.in_background == old(self).form.run_in_background
                },
            },
    {
        let ghost all = preflight::checks_view(checks@);
        let failure = preflight::find_failure(&checks);
        if let Some(k) = failure {
            proof {
                let first = choose|i: int| preflight::is_first_failure(all, i);
                assert(preflight::is_first_failure(all, k as int));
                assert(preflight::is_first_failure(all, first));
                assert(first == k);
                assert(all[k as int] == checks@[k as int]@);
            }
            let headline = text::concat("Setup check failed: ", checks[k].label.as_str());
            status::set_status_at(
                shown,
                time,
                MountState::Failed,
                headline.as_str(),
                checks[k].detail.as_str(),
            );
            self.checks = checks;
            return StartStep::Refused;
        }
        let summary = preflight::summarize_checks(&checks);
        status::push_log_at(shown, time, LogLevel::Info, summary.as_str());
        self.checks = checks;
        let before = self.form.profile();
        let source = match profile::profile_mount_source(&before) {
            Err(e) => {
                status::set_status_at(
                    shown,
                    time,
                    MountState::Failed,
                    "Invalid source",
                    e.as_str(),
                );
                return StartStep::Refused;
            },
            Ok(source) => source,
        };
        let options = match self.form.mount_options(&before, env_token) {
            Err(e) => {
                status::set_status_at(
                    shown,
                    time,
                    MountState::Failed,
                    "Invalid mount options",
                    e.as_str(),
                );
                return StartStep::Refused;
            },
            Ok(options) => options,
        };
        if token_is_lost(&self.form, env_token) {
            status::set_status_at(
                shown,
                time,
                MountState::Failed,
                "Token not available to background worker",
                "Set HF_TOKEN before launching the GUI or provide a token file.",
            );
            return StartStep::Refused;
        }
        let source_label = source.label();
        self.form.remember_recent_source();
        StartStep::Save(
            StartRequest {
                profile: self.form.profile(),
                source,
                options,
                source_label,
                in_background: self.form.run_in_background,
            },
        )
    }

    /// Goes on when the profile was saved or could not be.
    pub fn start_saved(
        &mut self,
        shown: &mut SharedStatus,
        time: &str,
        request: &StartRequest,
        saved: Result<(), String>,
    ) -> (r: LaunchStep)
        ensures
            final(self).form == old(self).form,
            final(self).checks == old(self).checks,
            final(self).tab == old(self).tab,
            final(shown)@ == match saved {
                Err(e) => old(shown)@.with(
                    time@,
                    MountState::Failed,
                    "Could not save settings"@,
                    e@,
                ),
                Ok(()) => old(shown)@.with(
                    time@,
                    MountState::Mounting,
                    "Preparing mount"@,
                    "Target: "@ + request.source.spec_mount_point(),
                ),
            },
            r == (if saved is Err {
                LaunchStep::Refused
            } else if request.in_background {
                LaunchStep::Worker
            } else {
                LaunchStep::Thread
            }),
            final(self).control@ == (if saved is Err {
                old(self).control@
            } else if request.in_background {
                ControlView { background_stop_requested: false, ..old(self).control@ }
            } else {
                ControlView {
                    mount_thread: true,
                    shutdown: Some(false),
                    active_background: false,
                    active_mount_point: Some(request.source.spec_mount_point()),
                    active_source_label: Some(request.source_label@),
                    ..old(self).control@
                }
            }),
    {
        if let Err(e) = &saved {
            status::set_status_at(
                shown,
                time,
                MountState::Failed,
                "Could not save settings",
                e.as_str(),
            );
            return LaunchStep::Refused;
        }
        let target = text::concat("Target: ", request.source.mount_point());
        status::set_status_at(
            shown,
            time,
            MountState::Mounting,
            "Preparing mount",
            target.as_str(),
        );
        if request.in_background {
            self.control.background_stop_requested = false;
            return LaunchStep::Worker;
        }
        self.control.mount_thread = true;
        self.control.shutdown = Some(false);
        self.control.active_background = false;
        self.control.active_mount_point = Some(request.source.mount_point().to_owned());
        self.control.active_source_label = Some(request.source_label.clone());
        LaunchStep::Thread
    }

    /// Goes on when the worker was launched, with its process, or could not be.
    pub fn worker_launched(
        &mut self,
        shown: &mut SharedStatus,
        time: &str,
        request: &StartRequest,
        launched: Result<u32, String>,
    )
        ensures
            final(self).form == old(self).form,
            final(self).checks == old(self).checks,
            final(self).tab == old(self).tab,
            match launched {
                Ok(pid) => {
                    &&& final(self).control@ == (ControlView {
                        child: Some(pid),
                        active_background: true,
                        active_mount_point: Some(request.source.spec_mount_point()),
                        active_source_label: Some(request.source_label@),
                        ..old(self).control@
                    })
                    &&& final(shown)@ == old(shown)@.with(
                        time@,
                        MountState::Mounting,
                        "Background mount starting"@,
                        "Target: "@ + request.source.spec_mount_point(),
                    )
                },
                Err(e) => {
                    &&& final(self).control == old(self).control
                    &&& final(shown)@ == old(shown)@.with(
                        time@,
                        MountState::Failed,
                        "Could not start background mount"@,
                        e@,
                    )
                },
            },
    {
        match launched {
            Ok(pid) => {
                self.control.child = Some(pid);
                self.control.active_background = true;
                self.control.active_mount_point = Some(request.source.mount_point().to_owned());
                self.control.active_source_label = Some(request.source_label.clone());
                let target = text::concat("Target: ", request.source.mount_point());
                status::set_status_at(
                    shown,
                    time,
                    MountState::Mounting,
                    "Background mount starting",
                    target.as_str(),
                );
            },
            Err(e) => {
                status::set_status_at(
                    shown,
                    time,
                    MountState::Failed,
                    "Could not start background mount",
                    e.as_str(),
                );
            },
        }
    }
}

// ── Stop ────────────────────────────────────────────────────────────────

/// What a step names, without its texts.
pub ghost enum StopStepView {
    Nothing,
    RequestShutdown,
    CheckWorker { pid: u32 },
    Terminate { pid: u32 },
    Unmount { mount_point: Seq<char> },
    MarkStopped { mount_point: Option<Seq<char>> },
}

impl View for StopStep {
    type V = StopStepView;

    open spec fn view(&self) -> StopStepView {
        match *self {
            StopStep::Nothing => StopStepView::Nothing,
            StopStep::RequestShutdown => StopStepView::RequestShutdown,
            StopStep::CheckWorker { pid } => StopStepView::CheckWorker { pid },
            StopStep::Terminate { pid } => StopStepView::Terminate { pid },
            StopStep::Unmount { mount_point } => StopStepView::Unmount { mount_point: mount_point@ },
            StopStep::MarkStopped { mount_point } => StopStepView::MarkStopped {
                mount_point: text::opt_string(mount_point),
            },
        }
    }
}

/// The process, unless it is none.
pub open spec fn real_pid(pid: Option<u32>) -> Option<u32> {
    if pid == Some(0u32) {
        None
    } else {
        pid
    }
}

/// The process that the worker last named.
pub open spec fn reported_pid(control: ControlView) -> Option<u32> {
    match control.last_worker_status {
        Some(status) => real_pid(status.pid),
        None => None,
    }
}

/// How the stop of a worker begins that has not mounted. The process of a
/// worker that this window launched is known to be ours; one that was only read
/// about may by now be another program.
pub open spec fn spec_stop_worker(
    control: ControlView,
    shown: status::StatusView,
    time: Seq<char>,
) -> (ControlView, status::StatusView, StopStepView) {
    match (real_pid(control.child), reported_pid(control)) {
        (Some(pid), _) => (control, shown, StopStepView::Terminate { pid }),
        (None, Some(pid)) => (control, shown, StopStepView::CheckWorker { pid }),
        (None, None) => (
            control,
            shown.with(
                time,
                MountState::Failed,
                "Could not stop background worker"@,
                "The worker process id is not known yet; try again in a moment."@,
            ),
            StopStepView::Nothing,
        ),
    }
}

/// What follows the wish to stop. A mount of this process is asked to end, also
/// while it comes up. A worker that has not mounted cannot be reached by an
/// unmount, so it is ended. Whatever is mounted is unmounted, and its server
/// notices.
pub open spec fn spec_stop(
    control: ControlView,
    shown: status::StatusView,
    time: Seq<char>,
    thread_running: bool,
) -> (ControlView, status::StatusView, StopStepView) {
    if control.mount_thread && thread_running && control.shutdown is Some {
        (
            ControlView { shutdown: Some(true), ..control },
            shown.with(
                time,
                MountState::Stopping,
                "Stop requested"@,
                "Waiting for the mount to shut down."@,
            ),
            StopStepView::RequestShutdown,
        )
    } else if control.active_background && !control.worker_reported_mounted() {
        spec_stop_worker(control, shown, time)
    } else {
        match control.active_mount_point {
            None => (
                control,
                shown.with(
                    time,
                    MountState::Failed,
                    "No active mount"@,
                    "There is no recorded mount point to unmount."@,
                ),
                StopStepView::Nothing,
            ),
            Some(mount_point) => if control.stop_running {
                (control, shown, StopStepView::Nothing)
            } else {
                (
                    ControlView { stop_running: true, ..control },
                    shown.with(
                        time,
                        MountState::Stopping,
                        "Unmount requested"@,
                        "Target: "@ + mount_point,
                    ),
                    StopStepView::Unmount { mount_point },
                )
            },
        }
    }
}

/// The process, unless it is none.
fn nonzero(pid: Option<u32>) -> (r: Option<u32>)
    ensures
        r == real_pid(pid),
{
    match pid {
        Some(pid) => {
            if pid == 0 {
                None
            } else {
                Some(pid)
            }
        },
        None => None,
    }
}

impl MountGuiApp {
    /// Begins the stop of a worker that has not mounted.
    fn stop_unmounted_background_worker(&mut self, shown: &mut SharedStatus, time: &str) -> (r:
        StopStep)
        ensures
            final(self).form == old(self).form,
            final(self).checks == old(self).checks,
            final(self).tab == old(self).tab,
            (final(self).control@, final(shown)@, r@) == spec_stop_worker(
                old(self).control@,
                old(shown)@,
                time@,
            ),
    {
        let reported = match &self.control.last_worker_status {
            Some(status) => nonzero(status.pid),
            None => None,
        };
        match (nonzero(self.control.child), reported) {
            (Some(pid), _) => StopStep::Terminate { pid },
            (None, Some(pid)) => StopStep::CheckWorker { pid },
            (None, None) => {
                status::set_status_at(
                    shown,
                    time,
                    MountState::Failed,
                    "Could not stop background worker",
                    "The worker process id is not known yet; try again in a moment.",
                );
                StopStep::Nothing
            },
        }
    }

    /// Takes up the wish to stop. `thread_running` says that the thread of the
    /// mount, if there is one, has not ended.
    pub fn stop_mount(&mut self, shown: &mut SharedStatus, time: &str, thread_running: bool) -> (r:
        StopStep)
        ensures
            final(self).form == old(self).form,
            final(self).checks == old(self).checks,
            final(self).tab == old(self).tab,
            (final(self).control@, final(shown)@, r@) == spec_stop(
                old(self).control@,
                old(shown)@,
                time@,
                thread_running,
            ),
    {
        if self.control.mount_thread && thread_running && self.control.shutdown.is_some() {
            self.control.shutdown = Some(true);
            status::set_status_at(
                shown,
                time,
                MountState::Stopping,
                "Stop requested",
                "Waiting for the mount to shut down.",
            );
            return StopStep::RequestShutdown;
        }
        if self.control.active_background && !self.control.worker_reported_mounted() {
            return self.stop_unmounted_background_worker(shown, time);
        }
        let mount_point = match &self.control.active_mount_point {
            None => {
                status::set_status_at(
                    shown,
                    time,
                    MountState::Failed,
                    "No active mount",
                    "There is no recorded mount point to unmount.",
                );
                return StopStep::Nothing;
            },
            Some(path) => path.clone(),
        };
        if self.control.stop_running {
            return StopStep::Nothing;
        }
        let target = text::concat("Target: ", mount_point.as_str());
        status::set_status_at(
            shown,
            time,
            MountState::Stopping,
            "Unmount requested",
            target.as_str(),
        );
        self.control.stop_running = true;
        StopStep::Unmount { mount_point }
    }

    /// Goes on when it is known whether the process is one of our workers. If
    /// it is not, the worker is gone, and nothing is ended.
    pub fn worker_checked(
        &mut self,
        shown: &mut SharedStatus,
        time: &str,
        pid: u32,
        is_ours: bool,
    ) -> (r: StopStep)
        ensures
            final(self).form == old(self).form,
            final(self).checks == old(self).checks,
            final(self).tab == old(self).tab,
            if is_ours {
                &&& final(self).control == old(self).control
                &&& final(shown)@ == old(shown)@
                &&& r@ == (StopStepView::Terminate { pid })
            } else {
                &&& final(self).control@ == old(self).control@.released()
                &&& final(shown)@ == old(shown)@.with(
                    time@,
                    MountState::Stopped,
                    "Background mount stopped"@,
                    "No live worker process was found; cleared the stale record."@,
                )
                &&& r@ == (StopStepView::MarkStopped {
                    mount_point: old(self).control@.active_mount_point,
                })
            },
    {
        if is_ours {
            return StopStep::Terminate { pid };
        }
        let mount_point = clone_opt(&self.control.active_mount_point);
        self.control.release();
        status::set_status_at(
            shown,
            time,
            MountState::Stopped,
            "Background mount stopped",
            "No live worker process was found; cleared the stale record.",
        );
        StopStep::MarkStopped { mount_point }
    }

    /// Goes on when the worker was ended or could not be.
    pub fn worker_terminated(
        &mut self,
        shown: &mut SharedStatus,
        time: &str,
        terminated: Result<(), String>,
    ) -> (r: Option<WorkerCleanup>)
        ensures
            final(self).form == old(self).form,
            final(self).checks == old(self).checks,
            final(self).tab == old(self).tab,
            match terminated {
                Err(e) => {
                    &&& final(self).control == old(self).control
                    &&& final(shown)@ == old(shown)@.with(
                        time@,
                        MountState::Failed,
                        "Could not stop background worker"@,
                        e@,
                    )
                    &&& r is None
                },
                Ok(()) => {
                    let target = old(self).control@.active_mount_point;
                    let cleans_up = target is Some && !old(self).control@.stop_running;
                    &&& final(self).control@ == (ControlView {
                        background_stop_requested: true,
                        stop_running: old(self).control@.stop_running || cleans_up,
                        ..old(self).control@.released()
                    })
                    &&& final(shown)@ == old(shown)@.with(
                        time@,
                        MountState::Stopped,
                        "Background mount stopped"@,
                        "The worker was stopped before the mount completed."@,
                    )
                    &&& r matches Some(cleanup) && {
                        &&& text::opt_string(cleanup.mark_stopped) == target
                        &&& text::opt_string(cleanup.unmount) == if cleans_up {
                            target
                        } else {
                            None
                        }
                    }
                },
            },
    {
        if let Err(e) = &terminated {
            status::set_status_at(
                shown,
                time,
                MountState::Failed,
                "Could not stop background worker",
                e.as_str(),
            );
            return None;
        }
        self.control.background_stop_requested = true;
        let mark_stopped = clone_opt(&self.control.active_mount_point);
        let unmount = if self.control.stop_running {
            None
        } else {
            clone_opt(&self.control.active_mount_point)
        };
        if unmount.is_some() {
            self.control.stop_running = true;
        }
        self.control.release();
        status::set_status_at(
            shown,
            time,
            MountState::Stopped,
            "Background mount stopped",
            "The worker was stopped before the mount completed.",
        );
        Some(WorkerCleanup { mark_stopped, unmount })
    }
}

/// Shows that the unmount failed.
pub fn show_unmount_failure(shown: &mut SharedStatus, time: &str, error: &str)
    ensures
        final(shown)@ == old(shown)@.with(time@, MountState::Failed, "Unmount failed"@, error@),
{
    status::set_status_at(shown, time, MountState::Failed, "Unmount failed", error);
}

/// Logs that the unmount after the end of a worker failed.
pub fn log_cleanup_failure(shown: &mut SharedStatus, time: &str, error: &str)
    ensures
        final(shown)@ == old(shown)@.logged(
            time@,
            LogLevel::Error,
            "Post-stop cleanup unmount failed: "@ + error@,
        ),
{
    let line = text::concat("Post-stop cleanup unmount failed: ", error);
    status::push_log_at(shown, time, LogLevel::Error, line.as_str());
}

// ── Following the worker ────────────────────────────────────────────────

/// A snapshot as it matters here.
pub ghost struct SnapshotView {
    pub generation: u64,
    pub status: Option<worker::WorkerStatusView>,
    pub live: bool,
    pub error: Option<Seq<char>>,
}

/// What a snapshot holds.
pub open spec fn snapshot_view(s: WorkerSnapshot) -> SnapshotView {
    SnapshotView {
        generation: s.generation,
        status: opt_status(s.status),
        live: s.live,
        error: text::opt_string(s.error),
    }
}

/// The record of a live worker: it is followed, under the mount point and the
/// source that it names.
pub open spec fn adopted(control: ControlView, report: worker::WorkerStatusView) -> ControlView {
    ControlView {
        active_background: true,
        active_mount_point: match worker::spec_claimed_mount_point(report) {
            Some(path) => Some(path),
            None => control.active_mount_point,
        },
        active_source_label: match report.source_label {
            Some(label) => Some(label),
            None => control.active_source_label,
        },
        ..control
    }
}

/// The record of a worker that is not alive: it is followed no more. The mount
/// point of a mount of this process stays.
pub open spec fn abandoned(control: ControlView) -> ControlView {
    if control.active_background {
        let left = ControlView { active_background: false, child: None, ..control };
        if control.mount_thread {
            left
        } else {
            left.without_target()
        }
    } else {
        control
    }
}

/// What a snapshot that holds a report changes in the record.
pub open spec fn spec_report_control(
    control: ControlView,
    report: worker::WorkerStatusView,
    live: bool,
) -> ControlView {
    let noted = ControlView { last_worker_status: Some(report), ..control };
    if report.state.spec_is_active() && live {
        adopted(noted, report)
    } else {
        abandoned(noted)
    }
}

/// The status once a live worker was found, or one that claims to be and is not.
pub open spec fn spec_report_liveness(
    control: ControlView,
    shown: status::StatusView,
    time: Seq<char>,
    report: worker::WorkerStatusView,
    live: bool,
    first: bool,
) -> status::StatusView {
    if report.state.spec_is_active() && live {
        if !control.active_background && first {
            shown.logged(time, LogLevel::Info, "Reconnected to background worker"@)
        } else {
            shown
        }
    } else if report.state.spec_is_active() && (control.active_background || first) {
        shown.with(
            time,
            MountState::Failed,
            "Background worker unavailable"@,
            "Saved background state is stale; start the mount again."@,
        )
    } else {
        shown
    }
}

/// The report is shown: never over a mount of this process, and the end of a
/// worker only when it is news, lest an old file write over what came later.
pub open spec fn is_mirrored(
    control: ControlView,
    report: worker::WorkerStatusView,
    live: bool,
    first: bool,
    thread_running: bool,
) -> bool {
    let news = control.last_worker_status != Some(report) || first;
    &&& !(control.mount_thread && thread_running)
    &&& spec_report_control(control, report, live).active_background || (
    !report.state.spec_is_active() && news)
}

/// What a snapshot changes. `first` says that it is the first.
pub open spec fn spec_snapshot(
    control: ControlView,
    shown: status::StatusView,
    time: Seq<char>,
    snapshot: SnapshotView,
    first: bool,
    thread_running: bool,
) -> (ControlView, status::StatusView) {
    match (snapshot.error, snapshot.status) {
        (Some(error), _) => (
            control,
            shown.logged(
                time,
                LogLevel::Error,
                "Could not read background status: "@ + error,
            ),
        ),
        (None, None) => {
            let noted = ControlView { last_worker_status: None, ..control };
            if control.active_background {
                (
                    noted.released(),
                    shown.with(
                        time,
                        MountState::Failed,
                        "Background worker unavailable"@,
                        "No background status file was found."@,
                    ),
                )
            } else {
                (noted, shown)
            }
        },
        (None, Some(report)) => {
            let told = spec_report_liveness(control, shown, time, report, snapshot.live, first);
            (
                spec_report_control(control, report, snapshot.live),
                if is_mirrored(control, report, snapshot.live, first, thread_running) {
                    told.with_if_changed(
                        time,
                        spec_worker_mount_state(report.state),
                        report.headline,
                        report.detail,
                    )
                } else {
                    told
                },
            )
        },
    }
}

/// What a snapshot changes, if it is not one that was seen.
pub open spec fn spec_consume(
    control: ControlView,
    shown: status::StatusView,
    time: Seq<char>,
    snapshot: SnapshotView,
    thread_running: bool,
) -> (ControlView, status::StatusView) {
    if snapshot.generation == 0 || snapshot.generation == control.last_worker_generation {
        (control, shown)
    } else {
        spec_snapshot(
            ControlView { last_worker_generation: snapshot.generation, ..control },
            shown,
            time,
            snapshot,
            control.last_worker_generation == 0,
            thread_running,
        )
    }
}

impl MountControl {
    /// Takes note of a report of the worker.
    fn apply_report(
        &mut self,
        shown: &mut SharedStatus,
        time: &str,
        report: WorkerStatus,
        live: bool,
        first: bool,
        thread_running: bool,
    )
        ensures
            (final(self)@, final(shown)@) == spec_snapshot(
                old(self)@,
                old(shown)@,
                time@,
                (SnapshotView { generation: 0, status: Some(report@), live, error: None }),
                first,
                thread_running,
            ),
    {
        let ghost before = self@;
        let changed: bool = match &self.last_worker_status {
            Some(last) => !same_worker_status(last, &report),
            None => true,
        };
        let active: bool = report.state.is_active();
        let state = worker_mount_state(report.state);
        let headline = report.headline.clone();
        let detail = report.detail.clone();
        let claimed = worker::claimed_mount_point(&report);
        let label = clone_opt(&report.source_label);
        let ghost view = report@;
        self.last_worker_status = Some(report);
        if active && live {
            let newly_connected: bool = !self.active_background;
            self.active_background = true;
            if claimed.is_some() {
                self.active_mount_point = claimed;
            }
            if label.is_some() {
                self.active_source_label = label;
            }
            if newly_connected && first {
                status::push_log_at(
                    shown,
                    time,
                    LogLevel::Info,
                    "Reconnected to background worker",
                );
            }
        } else {
            if active && (self.active_background || first) {
                status::set_status_at(
                    shown,
                    time,
                    MountState::Failed,
                    "Background worker unavailable",
                    "Saved background state is stale; start the mount again.",
                );
            }
            if self.active_background {
                self.active_background = false;
                self.child = None;
                if !self.mount_thread {
                    self.clear_target();
                }
            }
        }
        assert(self@ =~= spec_report_control(before, view, live));
        let foreground: bool = self.mount_thread && thread_running;
        if !foreground && (self.active_background || (!active && (changed || first))) {
            status::set_status_if_changed_at(
                shown,
                time,
                state,
                headline.as_str(),
                detail.as_str(),
            );
        }
    }

    /// Takes note of a snapshot. `first` says that it is the first.
    pub fn apply_worker_snapshot(
        &mut self,
        shown: &mut SharedStatus,
        time: &str,
        snapshot: WorkerSnapshot,
        first: bool,
        thread_running: bool,
    )
        ensures
            (final(self)@, final(shown)@) == spec_snapshot(
                old(self)@,
                old(shown)@,
                time@,
                snapshot_view(snapshot),
                first,
                thread_running,
            ),
    {
        if let Some(error) = &snapshot.error {
            let line = text::concat("Could not read background status: ", error.as_str());
            status::push_log_at(shown, time, LogLevel::Error, line.as_str());
            return ;
        }
        match snapshot.status {
            None => {
                self.last_worker_status = None;
                if self.active_background {
                    self.release();
                    status::set_status_at(
                        shown,
                        time,
                        MountState::Failed,
                        "Background worker unavailable",
                        "No background status file was found.",
                    );
                }
            },
            Some(report) => {
                self.apply_report(shown, time, report, snapshot.live, first, thread_running);
            },
        }
    }

    /// Takes note of a snapshot, if it is not one that was seen.
    pub fn consume_worker_snapshot(
        &mut self,
        shown: &mut SharedStatus,
        time: &str,
        snapshot: WorkerSnapshot,
        thread_running: bool,
    )
        ensures
            (final(self)@, final(shown)@) == spec_consume(
                old(self)@,
                old(shown)@,
                time@,
                snapshot_view(snapshot),
                thread_running,
            ),
    {
        if snapshot.generation == 0 || snapshot.generation == self.last_worker_generation {
            return ;
        }
        let first: bool = self.last_worker_generation == 0;
        self.last_worker_generation = snapshot.generation;
        self.apply_worker_snapshot(shown, time, snapshot, first, thread_running);
    }

    /// Takes over a worker that runs when the window opens, from what its status
    /// file says alone: a look at the mount could hang and keep the window from
    /// opening. The next snapshot corrects what is wrong with it.
    pub fn reconcile_existing_worker(
        &mut self,
        shown: &mut SharedStatus,
        time: &str,
        read: Option<WorkerStatus>,
        now: FileTime,
    )
        ensures
            ({
                let takes_over = read matches Some(report) && report.state.spec_is_active()
                    && worker::spec_heartbeat_fresh(
                    report.updated_at_secs,
                    util::spec_unix_secs(now),
                );
                if takes_over {
                    let report = read->0@;
                    &&& final(self)@ == (ControlView {
                        active_background: true,
                        active_mount_point: worker::spec_claimed_mount_point(report),
                        active_source_label: report.source_label,
                        last_worker_status: Some(report),
                        ..old(self)@
                    })
                    &&& final(shown)@ == old(shown)@.with_if_changed(
                        time@,
                        spec_worker_mount_state(report.state),
                        report.headline,
                        report.detail,
                    ).logged(
                        time@,
                        LogLevel::Info,
                        "Reconnected to existing background worker"@,
                    )
                } else {
                    final(self)@ == old(self)@ && final(shown)@ == old(shown)@
                }
            }),
    {
        let report = match read {
            None => {
                return ;
            },
            Some(report) => report,
        };
        if !report.state.is_active() || !worker::worker_status_heartbeat_fresh(&report, now) {
            return ;
        }
        self.active_background = true;
        self.active_mount_point = worker::claimed_mount_point(&report);
        self.active_source_label = clone_opt(&report.source_label);
        status::set_status_if_changed_at(
            shown,
            time,
            worker_mount_state(report.state),
            report.headline.as_str(),
            report.detail.as_str(),
        );
        self.last_worker_status = Some(report);
        status::push_log_at(
            shown,
            time,
            LogLevel::Info,
            "Reconnected to existing background worker",
        );
    }
}

// ── What has ended ──────────────────────────────────────────────────────

/// What is known of the process of a worker.
#[derive(PartialEq, Eq, Debug)]
pub enum ChildState {
    Running,
    Exited { success: bool, status: String },
    /// It cannot be found out.
    Unknown(String),
}

/// What the end of a worker that this window launched changes. Its own report
/// says more than its exit status, which counts only where there is none.
pub open spec fn spec_child(
    control: ControlView,
    shown: status::StatusView,
    time: Seq<char>,
    child: ChildState,
) -> (ControlView, status::StatusView) {
    if control.child is None {
        (control, shown)
    } else {
        match child {
            ChildState::Running => (control, shown),
            ChildState::Exited { success, status } => (
                ControlView {
                    child: None,
                    background_stop_requested: false,
                    ..control.released()
                },
                if success {
                    if shown.state == MountState::Stopped || shown.state == MountState::Failed {
                        shown
                    } else {
                        shown.with(
                            time,
                            MountState::Stopped,
                            "Background mount stopped"@,
                            "The background worker exited cleanly."@,
                        )
                    }
                } else if control.background_stop_requested || shown.state == MountState::Failed {
                    shown
                } else {
                    shown.with(
                        time,
                        MountState::Failed,
                        "Background mount exited"@,
                        "Worker exited with "@ + status@ + "."@,
                    )
                },
            ),
            ChildState::Unknown(e) => (
                ControlView { child: None, active_background: false, ..control },
                shown.with(
                    time,
                    MountState::Failed,
                    "Could not inspect background mount"@,
                    e@,
                ),
            ),
        }
    }
}

/// What the end of the thread of a mount changes.
pub open spec fn spec_thread_ended(
    control: ControlView,
    shown: status::StatusView,
    time: Seq<char>,
    panicked: bool,
) -> (ControlView, status::StatusView) {
    let told = if panicked {
        shown.with(
            time,
            MountState::Failed,
            "Mount thread panicked"@,
            "The backend thread exited unexpectedly."@,
        )
    } else {
        shown
    };
    let ended = ControlView { mount_thread: false, shutdown: None, ..control };
    (
        if control.active_background {
            ended
        } else {
            ended.without_target()
        },
        if told.state == MountState::Failed || told.state == MountState::Stopped {
            told
        } else {
            told.with(
                time,
                MountState::Stopped,
                "Unmounted"@,
                "The mount process has stopped."@,
            )
        },
    )
}

impl MountControl {
    /// Takes note of the end of a worker that this window launched.
    pub fn collect_background_child(
        &mut self,
        shown: &mut SharedStatus,
        time: &str,
        child: ChildState,
    )
        ensures
            (final(self)@, final(shown)@) == spec_child(old(self)@, old(shown)@, time@, child),
    {
        if self.child.is_none() {
            return ;
        }
        match child {
            ChildState::Running => {},
            ChildState::Exited { success, status: exit } => {
                self.child = None;
                self.release();
                if success {
                    if shown.state != MountState::Stopped && shown.state != MountState::Failed {
                        status::set_status_at(
                            shown,
                            time,
                            MountState::Stopped,
                            "Background mount stopped",
                            "The background worker exited cleanly.",
                        );
                    }
                } else if !self.background_stop_requested && shown.state != MountState::Failed {
                    let detail = text::concat3("Worker exited with ", exit.as_str(), ".");
                    status::set_status_at(
                        shown,
                        time,
                        MountState::Failed,
                        "Background mount exited",
                        detail.as_str(),
                    );
                }
                self.background_stop_requested = false;
            },
            ChildState::Unknown(e) => {
                self.child = None;
                self.active_background = false;
                status::set_status_at(
                    shown,
                    time,
                    MountState::Failed,
                    "Could not inspect background mount",
                    e.as_str(),
                );
            },
        }
    }

    /// Takes note of the end of the thread of a mount, where it has ended.
    pub fn collect_mount_thread(
        &mut self,
        shown: &mut SharedStatus,
        time: &str,
        finished: bool,
        panicked: bool,
    )
        ensures
            (final(self)@, final(shown)@) == if old(self)@.mount_thread && finished {
                spec_thread_ended(old(self)@, old(shown)@, time@, panicked)
            } else {
                (old(self)@, old(shown)@)
            },
    {
        if !self.mount_thread || !finished {
            return ;
        }
        self.mount_thread = false;
        if panicked {
            status::set_status_at(
                shown,
                time,
                MountState::Failed,
                "Mount thread panicked",
                "The backend thread exited unexpectedly.",
            );
        }
        self.shutdown = None;
        if !self.active_background {
            self.clear_target();
        }
        if shown.state != MountState::Failed && shown.state != MountState::Stopped {
            status::set_status_at(
                shown,
                time,
                MountState::Stopped,
                "Unmounted",
                "The mount process has stopped.",
            );
        }
    }
}

// ── Other actions ───────────────────────────────────────────────────────

impl MountGuiApp {
    /// Shows that the saved settings could not be loaded.
    pub fn show_load_failure(shown: &mut SharedStatus, time: &str, error: &str)
        ensures
            final(shown)@ == old(shown)@.logged(
                time@,
                LogLevel::Error,
                "Could not load saved settings: "@ + error@,
            ),
    {
        let line = text::concat("Could not load saved settings: ", error);
        status::push_log_at(shown, time, LogLevel::Error, line.as_str());
    }

    /// Goes on when the settings that autostart will use were saved or could
    /// not be. Returns whether the entry is to be changed.
    pub fn autostart_saved(
        &mut self,
        shown: &mut SharedStatus,
        time: &str,
        saved: Result<(), String>,
    ) -> (r: bool)
        ensures
            final(self).control == old(self).control,
            final(self).checks == old(self).checks,
            final(self).tab == old(self).tab,
            match saved {
                Ok(()) => r && final(self).form == old(self).form && final(shown)@ == old(shown)@,
                Err(e) => {
                    &&& !r
                    &&& final(self).form == (MountForm {
                        autostart_enabled: false,
                        ..old(self).form
                    })
                    &&& final(shown)@ == old(shown)@.with(
                        time@,
                        MountState::Failed,
                        "Could not save settings"@,
                        e@,
                    )
                },
            },
    {
        match &saved {
            Ok(()) => true,
            Err(e) => {
                self.form.autostart_enabled = false;
                status::set_status_at(
                    shown,
                    time,
                    MountState::Failed,
                    "Could not save settings",
                    e.as_str(),
                );
                false
            },
        }
    }

    /// Goes on when the autostart entry was changed or could not be. In the
    /// latter case the form shows again what is there.
    pub fn apply_autostart_setting(
        &mut self,
        shown: &mut SharedStatus,
        time: &str,
        applied: Result<(), String>,
    )
        ensures
            final(self).control == old(self).control,
            final(self).checks == old(self).checks,
            final(self).tab == old(self).tab,
            match applied {
                Ok(()) => {
                    &&& final(self).form == old(self).form
                    &&& final(shown)@ == old(shown)@.logged(
                        time@,
                        LogLevel::Info,
                        if old(self).form.autostart_enabled {
                            "Autostart enabled: the saved mount starts at login"@
                        } else {
                            "Autostart disabled: the login startup entry was removed"@
                        },
                    )
                },
                Err(e) => {
                    &&& final(self).form == (MountForm {
                        autostart_enabled: !old(self).form.autostart_enabled,
                        ..old(self).form
                    })
                    &&& final(shown)@ == old(shown)@.with(
                        time@,
                        MountState::Failed,
                        "Could not update autostart"@,
                        e@,
                    )
                },
            },
    {
        match &applied {
            Ok(()) => {
                let line = if self.form.autostart_enabled {
                    "Autostart enabled: the saved mount starts at login"
                } else {
                    "Autostart disabled: the login startup entry was removed"
                };
                status::push_log_at(shown, time, LogLevel::Info, line);
            },
            Err(e) => {
                self.form.autostart_enabled = !self.form.autostart_enabled;
                status::set_status_at(
                    shown,
                    time,
                    MountState::Failed,
                    "Could not update autostart",
                    e.as_str(),
                );
            },
        }
    }

    /// The mount point to show in the file manager.
    pub fn open_target(&self) -> (r: OpenTarget)
        ensures
            match (r, self.control@.active_mount_point) {
                (OpenTarget::Missing, None) => true,
                (OpenTarget::Path(path), Some(target)) => path@ == target,
                _ => false,
            },
    {
        match &self.control.active_mount_point {
            None => OpenTarget::Missing,
            Some(path) => OpenTarget::Path(path.clone()),
        }
    }

    /// Shows whether the mount point was opened.
    pub fn show_opened(shown: &mut SharedStatus, time: &str, opened: &Result<(), String>)
        ensures
            final(shown)@ == match *opened {
                Ok(()) => old(shown)@.logged(time@, LogLevel::Info, "Opened mount point"@),
                Err(e) => old(shown)@.with(
                    time@,
                    MountState::Failed,
                    "Could not open mount point"@,
                    e@,
                ),
            },
    {
        match opened {
            Ok(()) => status::push_log_at(shown, time, LogLevel::Info, "Opened mount point"),
            Err(e) => status::set_status_at(
                shown,
                time,
                MountState::Failed,
                "Could not open mount point",
                e.as_str(),
            ),
        }
    }

    /// Shows whether Windows was asked to turn on its NFS client.
    pub fn show_nfs_enabled(shown: &mut SharedStatus, time: &str, asked: &Result<(), String>)
        ensures
            final(shown)@ == match *asked {
                Ok(()) => old(shown)@.with(
                    time@,
                    MountState::Stopped,
                    "NFS enable requested"@,
                    "Approve the UAC prompt. Reboot if Windows asks, then press Recheck."@,
                ),
                Err(e) => old(shown)@.with(
                    time@,
                    MountState::Failed,
                    "Could not enable NFS"@,
                    e@,
                ),
            },
    {
        match asked {
            Ok(()) => status::set_status_at(
                shown,
                time,
                MountState::Stopped,
                "NFS enable requested",
                "Approve the UAC prompt. Reboot if Windows asks, then press Recheck.",
            ),
            Err(e) => status::set_status_at(
                shown,
                time,
                MountState::Failed,
                "Could not enable NFS",
                e.as_str(),
            ),
        }
    }

    /// Shows whether a restart with raised rights was asked for.
    pub fn show_elevation(shown: &mut SharedStatus, time: &str, asked: &Result<(), String>)
        ensures
            final(shown)@ == match *asked {
                Ok(()) => old(shown)@.with(
                    time@,
                    MountState::Stopped,
                    "Elevation requested"@,
                    "Approve the Windows UAC prompt, then use the elevated window."@,
                ),
                Err(e) => old(shown)@.with(
                    time@,
                    MountState::Failed,
                    "Could not relaunch as admin"@,
                    e@,
                ),
            },
    {
        match asked {
            Ok(()) => status::set_status_at(
                shown,
                time,
                MountState::Stopped,
                "Elevation requested",
                "Approve the Windows UAC prompt, then use the elevated window.",
            ),
            Err(e) => status::set_status_at(
                shown,
                time,
                MountState::Failed,
                "Could not relaunch as admin",
                e.as_str(),
            ),
        }
    }
}

/// The seconds that the closing window waits for a stop and for a mount.
pub const EXIT_WAIT_SECS: u64 = 8;

/// The seconds that it waits for an unmount that it forces.
pub const EXIT_UNMOUNT_SECS: u64 = 5;

/// What is done when the window closes, in the order of the fields. The profile
/// is saved first.
#[derive(Clone, Copy, PartialEq, Eq, Structural, Debug)]
pub struct ExitPlan {
    /// Wait for the unmount that is under way.
    pub wait_for_stop: bool,
    /// Tell the thread of the mount to stop.
    pub request_shutdown: bool,
    /// Wait for the thread of the mount.
    pub wait_for_thread: bool,
}

impl MountControl {
    /// What is done when the window closes. A mount of a background worker
    /// stays.
    pub fn exit_plan(&self) -> (r: ExitPlan)
        ensures
            r.wait_for_stop == self.stop_running,
            r.request_shutdown == (!self.active_background && self.shutdown is Some),
            r.wait_for_thread == (!self.active_background && self.mount_thread),
    {
        ExitPlan {
            wait_for_stop: self.stop_running,
            request_shutdown: !self.active_background && self.shutdown.is_some(),
            wait_for_thread: !self.active_background && self.mount_thread,
        }
    }

    /// The mount point to unmount by force, where the thread of the mount did
    /// not end in time, so that no dead mount stays behind.
    pub fn exit_unmount(&self, thread_finished: bool) -> (r: Option<String>)
        ensures
            text::opt_string(r) == if !self.active_background && self.mount_thread
                && !thread_finished {
                self@.active_mount_point
            } else {
                None
            },
    {
        if !self.active_background && self.mount_thread && !thread_finished {
            clone_opt(&self.active_mount_point)
        } else {
            None
        }
    }
}

// ── Laws ────────────────────────────────────────────────────────────────

/// A token that was typed in is never saved: the profile is the same whatever
/// the token.
pub proof fn law_typed_tokens_are_not_saved(p: MountProfile, form: MountForm, other: MountForm)
    requires
        is_form_profile(p, form),
        other == (MountForm { hf_token: other.hf_token, ..form }),
    ensures
        is_form_profile(p, other),
{
}

/// What was saved comes back: a form that is filled in from the profile of
/// another makes up the same profile.
pub proof fn law_profiles_round_trip(p: MountProfile, saved: MountForm, loaded: MountForm)
    requires
        is_form_profile(p, saved),
        is_filled_from(loaded, p),
    ensures
        is_form_profile(p, loaded),
        loaded.source_id == saved.source_id,
        loaded.mount_point == saved.mount_point,
        loaded.cache_dir == saved.cache_dir,
        loaded.read_only == (saved.source == GuiSource::Repo || saved.read_only),
{
}

/// Only the process of a worker that this window launched is ended without a
/// look at what it is.
pub proof fn law_strangers_are_not_ended(
    control: ControlView,
    shown: status::StatusView,
    time: Seq<char>,
    thread_running: bool,
    pid: u32,
)
    requires
        spec_stop(control, shown, time, thread_running).2 == (StopStepView::Terminate { pid }),
    ensures
        control.child == Some(pid),
        pid != 0,
{
}

/// The wish to stop always shows: the state is that of a mount that stops or of
/// a stop that failed, unless a stop is under way or the worker is looked up
/// and ended first.
pub proof fn law_a_stop_is_always_answered(
    control: ControlView,
    shown: status::StatusView,
    time: Seq<char>,
    thread_running: bool,
)
    ensures
        ({
            let (after, told, step) = spec_stop(control, shown, time, thread_running);
            ||| told.state == MountState::Stopping
            ||| told.state == MountState::Failed
            ||| step is CheckWorker
            ||| step is Terminate
            ||| control.stop_running
        }),
{
}

/// The end of a worker is shown once: the same report, read again, leaves what
/// came later in place.
pub proof fn law_old_reports_are_no_news(
    control: ControlView,
    shown: status::StatusView,
    time: Seq<char>,
    generation: u64,
    report: worker::WorkerStatusView,
    live: bool,
    thread_running: bool,
)
    requires
        !report.state.spec_is_active(),
        control.last_worker_status == Some(report),
    ensures
        spec_snapshot(
            control,
            shown,
            time,
            (SnapshotView { generation, status: Some(report), live, error: None }),
            false,
            thread_running,
        ).1 == shown,
{
}

/// While a mount of this process runs, no report of a worker takes the place of
/// its state.
pub proof fn law_reports_do_not_hide_a_mount(
    control: ControlView,
    report: worker::WorkerStatusView,
    live: bool,
    first: bool,
)
    requires
        control.mount_thread,
    ensures
        !is_mirrored(control, report, live, first, true),
{
}

/// A snapshot that was seen changes nothing.
pub proof fn law_a_snapshot_counts_once(
    control: ControlView,
    shown: status::StatusView,
    time: Seq<char>,
    snapshot: SnapshotView,
    thread_running: bool,
)
    ensures
        ({
            let (after, told) = spec_consume(control, shown, time, snapshot, thread_running);
            spec_consume(after, told, time, snapshot, thread_running) == (after, told)
        }),
{
}

/// A worker that the user ended is not reported as a failure.
pub proof fn law_ended_workers_did_not_fail(
    control: ControlView,
    shown: status::StatusView,
    time: Seq<char>,
    exit: String,
)
    requires
        control.child is Some,
        control.background_stop_requested,
    ensures
        spec_child(
            control,
            shown,
            time,
            ChildState::Exited { success: false, status: exit },
        ).1 == shown,
{
}

/// Once the thread of a mount has ended, the mount is shown as stopped or
/// failed, and this process holds no mount any more.
pub proof fn law_ended_mounts_are_shown(
    control: ControlView,
    shown: status::StatusView,
    time: Seq<char>,
    panicked: bool,
)
    ensures
        ({
            let (after, told) = spec_thread_ended(control, shown, time, panicked);
            &&& told.state == MountState::Failed || told.state == MountState::Stopped
            &&& panicked ==> told.state == MountState::Failed
            &&& !after.mount_thread
            &&& after.shutdown is None
        }),
{
}

} // verus!
