//! What the window shows, apart from how it is drawn.
use crate::gui::{MountControl, MountForm, MountGuiApp};
use crate::platform;
use crate::platform::Platform;
use crate::preflight;
use crate::preflight::{CheckItem, CheckLevel};
use crate::profile;
use crate::profile::GuiSource;
use crate::status::MountState;
use crate::text;
use crate::util;
use vstd::prelude::*;

verus! {

/// What a colour stands for.
#[derive(Clone, Copy, PartialEq, Eq, Structural, Debug)]
pub enum Tone {
    Plain,
    Good,
    Warning,
    Bad,
}

// ── The form ────────────────────────────────────────────────────────────

/// The texts of the form that depend on what was filled in.
#[derive(Clone, Copy, PartialEq, Eq, Debug)]
pub struct FormTexts {
    pub id_label: &'static str,
    pub id_hint: &'static str,
    /// What is wrong with the id.
    pub id_problem: Option<&'static str>,
    pub token_button: &'static str,
    pub advanced_button: &'static str,
}

/// The texts of the form that depend on what was filled in.
pub fn form_texts(form: &MountForm) -> (r: FormTexts)
    ensures
        r.id_label@ == (match form.source {
            GuiSource::Repo => "Repo ID"@,
            GuiSource::Bucket => "Bucket ID"@,
        }),
        r.id_hint@ == (match form.source {
            GuiSource::Repo => "openai-community/gpt2"@,
            GuiSource::Bucket => "namespace/bucket"@,
        }),
        text::opt_view(r.id_problem) == profile::spec_source_id_problem(
            form.source,
            form.source_id@,
        ),
        r.token_button@ == (if form.show_token {
            "Hide"@
        } else {
            "Show"@
        }),
        r.advanced_button@ == (if form.show_advanced {
            "Hide advanced options"@
        } else {
            "Show advanced options"@
        }),
{
    let (id_label, id_hint) = match form.source {
        GuiSource::Repo => ("Repo ID", "openai-community/gpt2"),
        GuiSource::Bucket => ("Bucket ID", "namespace/bucket"),
    };
    let token_button = if form.show_token {
        "Hide"
    } else {
        "Show"
    };
    let advanced_button = if form.show_advanced {
        "Hide advanced options"
    } else {
        "Show advanced options"
    };
    FormTexts { id_label, id_hint, id_problem: form.source_problem(), token_button, advanced_button }
}

/// The parts of the form that are there.
#[derive(Clone, Copy, PartialEq, Eq, Structural, Debug)]
pub struct FormParts {
    pub recent_sources: bool,
    pub revision: bool,
    /// Whether a mount is read-only is not for the user to say.
    pub read_only_locked: bool,
    pub drive_picker: bool,
    pub advanced: bool,
}

/// The parts of the form that are there.
pub fn form_parts(form: &MountForm, platform: Platform) -> (r: FormParts)
    ensures
        r.recent_sources == (form.recent_sources@.len() > 0),
        r.revision == (form.source == GuiSource::Repo),
        r.read_only_locked == (form.source == GuiSource::Repo),
        r.drive_picker == (platform == Platform::Windows),
        r.advanced == form.show_advanced,
{
    let is_repo: bool = form.source == GuiSource::Repo;
    FormParts {
        recent_sources: form.recent_sources.len() > 0,
        revision: is_repo,
        read_only_locked: is_repo,
        drive_picker: platform == Platform::Windows,
        advanced: form.show_advanced,
    }
}

/// A drive letter as it is offered.
pub fn drive_choice(letter: char) -> (r: String)
    ensures
        r@ == seq![letter, ':'],
{
    let mut r = String::new();
    r.push(letter);
    r.push(':');
    assert(r@ =~= seq![letter, ':']);
    r
}

// ── Start, stop and open ────────────────────────────────────────────────

/// The buttons of the mount page.
#[derive(PartialEq, Eq, Debug)]
pub struct Actions {
    pub start_label: &'static str,
    pub start_enabled: bool,
    pub stop_enabled: bool,
    pub open_enabled: bool,
    /// The line about the mount that is active.
    pub active_target: Option<String>,
}

/// Something stands in the way of a mount.
pub open spec fn is_blocked(app: MountGuiApp) -> bool {
    preflight::any_level(preflight::checks_view(app.checks@), CheckLevel::Fail)
        || profile::spec_source_id_problem(app.form.source, app.form.source_id@) is Some
}

/// A mount can be started.
pub open spec fn can_start(app: MountGuiApp, thread_running: bool) -> bool {
    !app.control.spec_is_running(thread_running) && !is_blocked(app)
}

/// A mount can be stopped.
pub open spec fn can_stop(app: MountGuiApp, thread_running: bool) -> bool {
    app.control.spec_is_running(thread_running) && !app.control.spec_is_stopping()
}

/// The buttons of the mount page. `thread_running` says that the thread of the
/// mount, if there is one, has not ended.
pub fn mount_actions(app: &MountGuiApp, state: MountState, thread_running: bool) -> (r: Actions)
    ensures
        ({
            let running = app.control.spec_is_running(thread_running);
            &&& r.start_label@ == (if running {
                "Mount running"@
            } else if app.form.run_in_background {
                "Start in background"@
            } else {
                "Start mount"@
            })
            &&& r.start_enabled == can_start(*app, thread_running)
            &&& r.stop_enabled == can_stop(*app, thread_running)
            &&& r.open_enabled == (state == MountState::Mounted
                && app.control.active_mount_point is Some)
            &&& text::opt_string(r.active_target) == (match app.control@.active_mount_point {
                Some(path) => if running {
                    Some("Active target: "@ + path)
                } else {
                    None
                },
                None => None,
            })
        }),
{
    let running: bool = app.control.is_mount_running(thread_running);
    let blocked: bool = preflight::has_level(&app.checks, CheckLevel::Fail)
        || app.form.source_problem().is_some();
    let start_label = if running {
        "Mount running"
    } else if app.form.run_in_background {
        "Start in background"
    } else {
        "Start mount"
    };
    let active_target = match &app.control.active_mount_point {
        Some(path) => {
            if running {
                Some(text::concat("Active target: ", path.as_str()))
            } else {
                None
            }
        },
        None => None,
    };
    Actions {
        start_label,
        start_enabled: !running && !blocked,
        stop_enabled: running && !app.control.is_stopping(),
        open_enabled: state == MountState::Mounted && app.control.active_mount_point.is_some(),
        active_target,
    }
}

/// While a mount is there or under way no second one can be started, and
/// without one there is nothing to stop.
pub proof fn law_start_and_stop_exclude_each_other(app: MountGuiApp, thread_running: bool)
    ensures
        !(can_start(app, thread_running) && can_stop(app, thread_running)),
        app.control.active_background ==> !can_start(app, thread_running),
{
}

/// What the user can have done about a check that failed.
#[derive(Clone, Copy, PartialEq, Eq, Structural, Debug)]
pub enum BlockerAction {
    Nothing,
    EnableNfs,
    RestartAsAdmin,
    UseFreeLetter,
}

pub open spec fn spec_blocker_action(platform: Platform, label: Seq<char>) -> BlockerAction {
    if platform != Platform::Windows {
        BlockerAction::Nothing
    } else if label == "Client for NFS"@ {
        BlockerAction::EnableNfs
    } else if label == "Administrator"@ {
        BlockerAction::RestartAsAdmin
    } else if label == "Mount point"@ {
        BlockerAction::UseFreeLetter
    } else {
        BlockerAction::Nothing
    }
}

/// What the user can have done about a check that failed.
pub fn blocker_action(platform: Platform, check: &CheckItem) -> (r: BlockerAction)
    ensures
        r == spec_blocker_action(platform, check.label@),
{
    if platform != Platform::Windows {
        return BlockerAction::Nothing;
    }
    let label = check.label.as_str();
    if text::str_eq(label, "Client for NFS") {
        BlockerAction::EnableNfs
    } else if text::str_eq(label, "Administrator") {
        BlockerAction::RestartAsAdmin
    } else if text::str_eq(label, "Mount point") {
        BlockerAction::UseFreeLetter
    } else {
        BlockerAction::Nothing
    }
}

/// The label of the button for it.
pub fn blocker_button(action: BlockerAction) -> (r: Option<&'static str>)
    ensures
        text::opt_view(r) == (match action {
            BlockerAction::Nothing => None,
            BlockerAction::EnableNfs => Some("Enable NFS"@),
            BlockerAction::RestartAsAdmin => Some("Restart as admin"@),
            BlockerAction::UseFreeLetter => Some("Use a free letter"@),
        }),
{
    match action {
        BlockerAction::Nothing => None,
        BlockerAction::EnableNfs => Some("Enable NFS"),
        BlockerAction::RestartAsAdmin => Some("Restart as admin"),
        BlockerAction::UseFreeLetter => Some("Use a free letter"),
    }
}

/// The banner about the check that stands in the way.
pub fn blocker_text(check: &CheckItem) -> (r: String)
    ensures
        r@ == check.label@ + ": "@ + check.detail@,
{
    text::concat3(check.label.as_str(), ": ", check.detail.as_str())
}

// ── The state ───────────────────────────────────────────────────────────

/// A word with a colour.
#[derive(Clone, Copy, PartialEq, Eq, Debug)]
pub struct Chip {
    pub label: &'static str,
    pub tone: Tone,
}

/// The state of a mount in a word.
pub fn state_chip(state: MountState) -> (r: Chip)
    ensures
        r.label@ == (match state {
            MountState::Ready => "Ready"@,
            MountState::Mounting => "Mounting"@,
            MountState::Mounted => "Mounted"@,
            MountState::Stopping => "Stopping"@,
            MountState::Stopped => "Stopped"@,
            MountState::Failed => "Error"@,
        }),
        r.tone == (match state {
            MountState::Ready => Tone::Plain,
            MountState::Mounting => Tone::Warning,
            MountState::Mounted => Tone::Good,
            MountState::Stopping => Tone::Warning,
            MountState::Stopped => Tone::Plain,
            MountState::Failed => Tone::Bad,
        }),
{
    match state {
        MountState::Ready => Chip { label: "Ready", tone: Tone::Plain },
        MountState::Mounting => Chip { label: "Mounting", tone: Tone::Warning },
        MountState::Mounted => Chip { label: "Mounted", tone: Tone::Good },
        MountState::Stopping => Chip { label: "Stopping", tone: Tone::Warning },
        MountState::Stopped => Chip { label: "Stopped", tone: Tone::Plain },
        MountState::Failed => Chip { label: "Error", tone: Tone::Bad },
    }
}

/// The line about the backend in the side bar.
pub fn backend_line(platform: Platform) -> (r: String)
    ensures
        r@ == (match platform {
            Platform::Windows => "Windows"@,
            Platform::MacOs => "macOS"@,
            Platform::Linux => "Linux"@,
        }) + " · NFS"@,
{
    text::concat(platform::platform_label(platform), " · NFS")
}

/// The line about how long the mount is there.
pub fn uptime_line(control: &MountControl, now_secs: u64) -> (r: Option<String>)
    ensures
        text::opt_string(r) == (match control.mounted_since {
            Some(since) => Some(
                "Up "@ + util::spec_format_elapsed(
                    if now_secs >= since {
                        (now_secs - since) as nat
                    } else {
                        0
                    },
                ),
            ),
            None => None,
        }),
{
    match control.mounted_uptime_secs(now_secs) {
        Some(secs) => {
            let elapsed = util::format_elapsed(secs);
            Some(text::concat("Up ", elapsed.as_str()))
        },
        None => None,
    }
}

// ── The checks ──────────────────────────────────────────────────────────

/// How many checks came out as `level`.
pub open spec fn count_level(checks: Seq<preflight::CheckItemView>, level: CheckLevel) -> nat
    decreases checks.len(),
{
    if checks.len() == 0 {
        0
    } else {
        count_level(checks.drop_last(), level) + (if checks.last().level == level {
            1nat
        } else {
            0nat
        })
    }
}

/// How many checks came out as `level`.
pub fn level_count(checks: &Vec<CheckItem>, level: CheckLevel) -> (r: usize)
    ensures
        r == count_level(preflight::checks_view(checks@), level),
        r <= checks@.len(),
{
    let ghost all = preflight::checks_view(checks@);
    let mut n: usize = 0;
    let mut i: usize = 0;
    assert(all.take(0) =~= Seq::<preflight::CheckItemView>::empty());
    while i < checks.len()
        invariant
            i <= checks@.len(),
            n <= i,
            all == preflight::checks_view(checks@),
            n == count_level(all.take(i as int), level),
        decreases checks@.len() - i,
    {
        proof {
            assert(all.take(i + 1).drop_last() =~= all.take(i as int));
            assert(all.take(i + 1).last() == checks@[i as int]@);
        }
        if checks[i].level == level {
            n = n + 1;
        }
        i = i + 1;
    }
    assert(all.take(i as int) =~= all);
    n
}

/// The checks in a word, and in numbers where not all passed.
#[derive(PartialEq, Eq, Debug)]
pub struct ChecksSummary {
    pub chip: Chip,
    pub counts: Option<String>,
}

/// The checks in a word.
pub open spec fn spec_summary_label(checks: Seq<preflight::CheckItemView>) -> Seq<char> {
    if checks.len() == 0 {
        "Not checked"@
    } else if count_level(checks, CheckLevel::Fail) > 0 {
        "Action needed"@
    } else if count_level(checks, CheckLevel::Warn) > 0 {
        "Usable with warnings"@
    } else {
        "Ready to mount"@
    }
}

/// The colour of that word.
pub open spec fn spec_summary_tone(checks: Seq<preflight::CheckItemView>) -> Tone {
    if checks.len() == 0 {
        Tone::Plain
    } else if count_level(checks, CheckLevel::Fail) > 0 {
        Tone::Bad
    } else if count_level(checks, CheckLevel::Warn) > 0 {
        Tone::Warning
    } else {
        Tone::Good
    }
}

/// The checks in a word.
pub fn summary_chip(checks: &Vec<CheckItem>) -> (r: Chip)
    ensures
        r.label@ == spec_summary_label(preflight::checks_view(checks@)),
        r.tone == spec_summary_tone(preflight::checks_view(checks@)),
{
    if checks.len() == 0 {
        Chip { label: "Not checked", tone: Tone::Plain }
    } else if level_count(checks, CheckLevel::Fail) > 0 {
        Chip { label: "Action needed", tone: Tone::Bad }
    } else if level_count(checks, CheckLevel::Warn) > 0 {
        Chip { label: "Usable with warnings", tone: Tone::Warning }
    } else {
        Chip { label: "Ready to mount", tone: Tone::Good }
    }
}

/// The checks in a word, and in numbers where not all passed.
pub fn checks_summary(checks: &Vec<CheckItem>) -> (r: ChecksSummary)
    ensures
        ({
            let all = preflight::checks_view(checks@);
            let failures = count_level(all, CheckLevel::Fail);
            let warnings = count_level(all, CheckLevel::Warn);
            &&& r.chip.label@ == spec_summary_label(all)
            &&& r.chip.tone == spec_summary_tone(all)
            &&& text::opt_string(r.counts) == (if failures > 0 || warnings > 0 {
                Some(
                    text::spec_decimal(failures) + " blocking · "@ + text::spec_decimal(warnings)
                        + " warning"@,
                )
            } else {
                None
            })
        }),
{
    let failures: usize = level_count(checks, CheckLevel::Fail);
    let warnings: usize = level_count(checks, CheckLevel::Warn);
    let counts = if failures > 0 || warnings > 0 {
        let mut line = text::decimal(failures as u64);
        line.append(" blocking · ");
        line.append(text::decimal(warnings as u64).as_str());
        line.append(" warning");
        Some(line)
    } else {
        None
    };
    ChecksSummary { chip: summary_chip(checks), counts }
}

/// How a check is shown on the setup page.
#[derive(Clone, Copy, PartialEq, Eq, Debug)]
pub struct CheckRow {
    pub mark: Chip,
    /// What the user can do about it.
    pub command: Option<&'static str>,
    /// What the user can have done about it.
    pub action: BlockerAction,
}

/// How a check is shown on the setup page. One that passed needs no help.
pub fn check_row(platform: Platform, check: &CheckItem) -> (r: CheckRow)
    ensures
        r.mark.label@ == (match check.level {
            CheckLevel::Pass => "OK"@,
            CheckLevel::Warn => "WARN"@,
            CheckLevel::Fail => "FIX"@,
        }),
        r.mark.tone == (match check.level {
            CheckLevel::Pass => Tone::Good,
            CheckLevel::Warn => Tone::Warning,
            CheckLevel::Fail => Tone::Bad,
        }),
        text::opt_view(r.command) == (if check.level == CheckLevel::Pass {
            None
        } else {
            preflight::spec_blocker_command(platform, check.label@)
        }),
        r.action == (if check.level == CheckLevel::Fail {
            spec_blocker_action(platform, check.label@)
        } else {
            BlockerAction::Nothing
        }),
{
    let mark = match check.level {
        CheckLevel::Pass => Chip { label: "OK", tone: Tone::Good },
        CheckLevel::Warn => Chip { label: "WARN", tone: Tone::Warning },
        CheckLevel::Fail => Chip { label: "FIX", tone: Tone::Bad },
    };
    let command = if check.level == CheckLevel::Pass {
        None
    } else {
        preflight::blocker_command(platform, check)
    };
    let action = if check.level == CheckLevel::Fail {
        blocker_action(platform, check)
    } else {
        BlockerAction::Nothing
    };
    CheckRow { mark, command, action }
}

/// The line about the program on the setup page.
pub fn version_line(version: &str, platform: Platform) -> (r: String)
    ensures
        r@ == "hf-mount-gui v"@ + version@ + " · "@ + (match platform {
            Platform::Windows => "Windows"@,
            Platform::MacOs => "macOS"@,
            Platform::Linux => "Linux"@,
        }) + " · NFS backend"@,
{
    let mut r = text::concat3("hf-mount-gui v", version, " · ");
    r.append(platform::platform_label(platform));
    r.append(" · NFS backend");
    r
}

/// The line about the log of the worker.
pub fn worker_log_line(path: &str) -> (r: String)
    ensures
        r@ == "Background worker log: "@ + path@,
{
    text::concat("Background worker log: ", path)
}

} // verus!
