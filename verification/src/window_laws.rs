//! What the window promises: what it shows, when it starts and stops a mount,
//! and how it follows a worker.
use crate::desktop_laws;
use crate::gui;
use crate::gui::{ChildState, MountControl, MountForm, MountGuiApp};
use crate::platform::Platform;
use crate::preflight;
use crate::preflight::{CheckLevel, Findings};
use crate::profile;
use crate::profile::{GuiSource, MountProfile};
use crate::session::NfsMountEvent;
use crate::setup::MountOptions;
use crate::status;
use crate::status::{LogLevel, MountOutcome, MountState};
use crate::text;
use crate::util;
use crate::view;
use crate::view::{BlockerAction, Tone};
use crate::windows;
use crate::worker;
use crate::worker::WorkerState;
use vstd::prelude::*;

verus! {

// ── What is shown ───────────────────────────────────────────────────────

/// A window begins ready, with that in its log.
pub proof fn law_windows_begin_ready(time: Seq<char>)
    ensures
        ({
            let s = status::StatusView::initial(time);
            &&& s.state is Ready
            &&& s.headline == "Ready"@
            &&& s.log.len() == 1
            &&& s.log[0].time == time
            &&& s.log[0].level is Info
            &&& s.log[0].text == "Ready"@
        }),
{
}

/// A line that is logged stands last in the log, with its time and its level,
/// behind the lines that were there. Of more than 200 the oldest goes. Nothing
/// else changes but the revision, which moves on.
pub proof fn law_lines_are_logged(s: status::StatusView, time: Seq<char>, level: LogLevel, line: Seq<char>)
    ensures
        ({
            let after = s.logged(time, level, line);
            let entry = status::LogEntryView { time, level, text: line };
            &&& after.state == s.state
            &&& after.headline == s.headline
            &&& after.detail == s.detail
            &&& s.log.len() < 200 ==> after.log == s.log.push(entry)
            &&& s.log.len() == 200 ==> after.log == s.log.skip(1).push(entry)
            &&& s.revision < u64::MAX ==> after.revision == s.revision + 1
            &&& s.revision == u64::MAX ==> after.revision == 0
        }),
{
    let entry = status::LogEntryView { time, level, text: line };
    if s.log.len() == 200 {
        assert(s.log.push(entry).skip(1) =~= s.log.skip(1).push(entry));
    }
}

/// A status that is set is shown as it was given, and logged in one line; a
/// failure is logged as an error and nothing else is.
pub proof fn law_status_is_shown(
    s: status::StatusView,
    time: Seq<char>,
    state: MountState,
    headline: Seq<char>,
    detail: Seq<char>,
)
    ensures
        ({
            let after = s.with(time, state, headline, detail);
            &&& after.state == state
            &&& after.headline == headline
            &&& after.detail == detail
            &&& after.log.len() > 0
            &&& after.log.last().time == time
            &&& after.log.last().text == headline + ": "@ + detail
            &&& after.log.last().level is Error <==> state is Failed
            &&& after.revision != s.revision
        }),
{
}

/// A status that says something new is shown; one that does not is not even
/// logged.
pub proof fn law_news_is_shown(
    s: status::StatusView,
    time: Seq<char>,
    state: MountState,
    headline: Seq<char>,
    detail: Seq<char>,
)
    ensures
        s.state == state && s.headline == headline && s.detail == detail ==> s.with_if_changed(
            time,
            state,
            headline,
            detail,
        ) == s,
        s.state != state || s.headline != headline || s.detail != detail ==> s.with_if_changed(
            time,
            state,
            headline,
            detail,
        ) == s.with(time, state, headline, detail),
{
}

/// A copy of the log has a line for each entry: its time, its level, its text.
pub proof fn law_logs_are_copied(log: Seq<status::LogEntryView>, e: status::LogEntryView)
    ensures
        ({
            let level = if e.level is Error {
                "ERROR"@
            } else {
                "INFO"@
            };
            let line = e.time + " "@ + level + " "@ + e.text;
            &&& status::spec_log_text(Seq::empty()) == Seq::<char>::empty()
            &&& status::spec_log_text(seq![e]) == line
            &&& log.len() > 0 ==> status::spec_log_text(log.push(e)) == status::spec_log_text(log)
                + "\n"@ + line
        }),
{
    if log.len() > 0 {
        assert(log.push(e).drop_last() =~= log);
        assert(log.push(e).last() == e);
    }
}

/// A mount is shown as mounted where it was, at the mount point that it has, as
/// stopping with the reason, and as mounting at the port that the server has.
/// The command that is run is only logged.
pub proof fn law_mount_events_are_shown(s: status::StatusView, time: Seq<char>, event: NfsMountEvent)
    ensures
        ({
            let after = status::spec_mount_event(s, time, event);
            match event {
                NfsMountEvent::ServerListening { port } => after.state is Mounting && after.detail
                    == "127.0.0.1:"@ + text::spec_decimal(port as nat) && after.log.last().text
                    == "Local NFS server is listening: 127.0.0.1:"@ + text::spec_decimal(
                    port as nat,
                ),
                NfsMountEvent::MountCommand { command } => after.state == s.state && after.headline
                    == s.headline && after.detail == s.detail && after.log.last().text == "Running "@
                    + command@ && after.log.last().level is Info,
                NfsMountEvent::Mounted { mount_point } => after.state is Mounted && after.headline
                    == "Mounted"@ && after.detail == "Mounted at "@ + mount_point@,
                NfsMountEvent::ShuttingDown { reason } => after.state is Stopping && after.headline
                    == "Shutting down"@ && after.detail == reason@,
            }
        }),
{
    if let NfsMountEvent::ServerListening { port } = event {
        reveal_strlit("Local NFS server is listening");
        reveal_strlit(": ");
        reveal_strlit("127.0.0.1:");
        reveal_strlit("Local NFS server is listening: 127.0.0.1:");
        let digits = text::spec_decimal(port as nat);
        assert("Local NFS server is listening"@ + ": "@ + ("127.0.0.1:"@ + digits)
            =~= "Local NFS server is listening: 127.0.0.1:"@ + digits);
    }
}

/// A mount that ends is shown as stopped where it was stopped or where the user
/// asked for it, and else as failed, with the reason. A crash is a failure even
/// so.
pub proof fn law_mount_outcomes_are_shown(
    s: status::StatusView,
    time: Seq<char>,
    outcome: MountOutcome,
    stop_requested: bool,
)
    ensures
        ({
            let after = status::spec_mount_outcome(s, time, outcome, stop_requested);
            &&& after.state is Failed <==> (outcome is Crashed || (outcome is Failed
                && !stop_requested))
            &&& after.state is Stopped <==> !(after.state is Failed)
            &&& outcome matches MountOutcome::Crashed(m) ==> after.detail == m@
            &&& outcome matches MountOutcome::Failed(m) ==> after.detail == if stop_requested {
                "Mount cancelled during startup ("@ + m@ + ")."@
            } else {
                m@
            }
        }),
{
}

// ── Setup checks ────────────────────────────────────────────────────────

/// The checks are summed up by the worst of them.
pub proof fn law_checks_are_summed_up(checks: Seq<preflight::CheckItemView>)
    ensures
        ({
            let fails = exists|i: int|
                0 <= i < checks.len() && (#[trigger] checks[i]).level is Fail;
            let warns = exists|i: int|
                0 <= i < checks.len() && (#[trigger] checks[i]).level is Warn;
            &&& preflight::any_level(checks, CheckLevel::Fail) <==> fails
            &&& fails ==> preflight::spec_summary(checks) == "Setup checks found a blocking issue"@
            &&& !fails && warns ==> preflight::spec_summary(checks)
                == "Setup checks passed with warnings"@
            &&& !fails && !warns ==> preflight::spec_summary(checks) == "Setup checks passed"@
        }),
{
    let fails = exists|i: int| 0 <= i < checks.len() && (#[trigger] checks[i]).level is Fail;
    let warns = exists|i: int| 0 <= i < checks.len() && (#[trigger] checks[i]).level is Warn;
    if fails {
        let i = choose|i: int| 0 <= i < checks.len() && (#[trigger] checks[i]).level is Fail;
        assert(checks[i].level == CheckLevel::Fail);
    }
    if warns {
        let i = choose|i: int| 0 <= i < checks.len() && (#[trigger] checks[i]).level is Warn;
        assert(checks[i].level == CheckLevel::Warn);
    }
}

/// On Windows four things are checked, in this order; on macOS the tool and
/// the mount point; on Linux the mount point.
pub proof fn law_what_is_checked(platform: Platform, target: Seq<char>, f: Findings)
    ensures
        ({
            let checks = preflight::spec_preflight(platform, target, f);
            match platform {
                Platform::Windows => {
                    &&& checks.len() == 4
                    &&& checks[0].label == "Administrator"@
                    &&& checks[1].label == "Client for NFS"@
                    &&& checks[2].label == "Portmapper"@
                    &&& checks[3].label == "Mount point"@
                },
                Platform::MacOs => {
                    &&& checks.len() == 2
                    &&& checks[0].label == "mount_nfs"@
                    &&& checks[1].label == "Mount point"@
                },
                Platform::Linux => {
                    &&& checks.len() == 1
                    &&& checks[0].label == "Mount point"@
                },
            }
        }),
{
}

/// On Windows a mount can begin where the window is elevated, both tools are
/// there, both ports can be had and the mount point is a drive that is not
/// there, or an absolute path that is no file.
pub proof fn law_windows_can_mount(target: Seq<char>, f: Findings)
    ensures
        ({
            let checks = preflight::spec_preflight(Platform::Windows, target, f);
            let path = text::spec_trim(target);
            let is_drive = windows::spec_drive_letter(path) is Some;
            &&& checks[0].level is Fail <==> !f.elevated
            &&& checks[1].level is Fail <==> !f.mount_tool_exists || !f.umount_tool_exists
            &&& checks[2].level is Fail <==> f.elevated && (f.udp_port is Err || f.tcp_port is Err)
            &&& checks[2].level is Warn <==> !f.elevated
            &&& checks[3].level is Fail <==> path.len() == 0 || (is_drive && f.target_exists) || (
            !is_drive && (!f.target_is_absolute || (f.target_exists && !f.target_is_dir)))
            &&& checks[3].level is Pass <==> is_drive && !f.target_exists
        }),
{
    let path = text::spec_trim(target);
    assert(path.len() == 0 ==> windows::spec_drive_letter(path) is None);
}

/// A port that cannot be had is told with the reason for it.
pub proof fn law_busy_ports_are_told(target: Seq<char>, f: Findings)
    requires
        f.elevated,
        f.udp_port is Err,
        f.tcp_port is Err,
    ensures
        preflight::spec_preflight(Platform::Windows, target, f)[2].detail
            == "Port 111 is not available: UDP="@ + (f.udp_port->Err_0)@ + " TCP="@ + (
        f.tcp_port->Err_0)@ + ". Close other NFS/portmap services or another hf-mount instance."@,
        preflight::spec_bind_label(Ok(())) == "ok"@,
{
}

/// Elsewhere a mount can begin at any absolute path, and on macOS where the
/// tool for it is there.
pub proof fn law_unix_can_mount(typed: Seq<char>, path: Seq<char>, f: Findings)
    requires
        desktop_laws::is_tidy(path),
        desktop_laws::is_padded(typed, path),
    ensures
        preflight::spec_preflight(Platform::Linux, typed, f)[0].level is Fail <==> path[0] != '/',
        preflight::spec_preflight(Platform::Linux, typed, f)[0].level is Pass <==> path[0] == '/',
        preflight::spec_preflight(Platform::MacOs, typed, f)[1].level is Fail <==> path[0] != '/',
        preflight::spec_preflight(Platform::MacOs, typed, f)[0].level is Fail
            <==> !f.mount_tool_exists,
        preflight::spec_preflight(Platform::MacOs, typed, f)[0].level is Pass
            <==> f.mount_tool_exists,
{
    desktop_laws::law_blanks_are_left_out(Seq::empty(), typed, path, Seq::empty());
}

/// The check that stands in the way is the missing client, where that failed,
/// and else the first that did.
pub proof fn law_the_client_comes_first(checks: Seq<preflight::CheckItemView>, i: int, j: int)
    requires
        preflight::is_blocker(checks, i),
        0 <= j < checks.len(),
        checks[j].level is Fail,
    ensures
        0 <= i < checks.len(),
        checks[i].level is Fail,
        checks[j].label == "Client for NFS"@ ==> checks[i].label == "Client for NFS"@,
        checks[i].label != "Client for NFS"@ ==> i <= j,
        checks[i].label == checks[j].label ==> i <= j,
{
    if checks[j].label == "Client for NFS"@ {
        assert(preflight::is_client_failure(checks[j]));
    }
    if j < i {
        assert(checks[j].level == CheckLevel::Fail);
    }
}

/// Help is offered on Windows, each with what mends it; elsewhere none is.
pub proof fn law_help_is_offered(platform: Platform, label: Seq<char>)
    ensures
        !(platform is Windows) ==> preflight::spec_blocker_command(platform, label) is None,
        !(platform is Windows) ==> view::spec_blocker_action(platform, label) is Nothing,
        view::spec_blocker_action(Platform::Windows, "Client for NFS"@) is EnableNfs,
        view::spec_blocker_action(Platform::Windows, "Administrator"@) is RestartAsAdmin,
        view::spec_blocker_action(Platform::Windows, "Mount point"@) is UseFreeLetter,
        view::spec_blocker_action(Platform::Windows, "Portmapper"@) is Nothing,
        preflight::spec_blocker_command(Platform::Windows, "Administrator"@) == Some(
            "Start-Process hf-mount-gui.exe -Verb RunAs"@,
        ),
        preflight::spec_blocker_command(Platform::Windows, "Mount point"@) == Some(
            "Use an unused drive letter such as Z:, Y:, or X:."@,
        ),
        preflight::spec_blocker_command(Platform::Windows, "Client for NFS"@) == Some(
            "Enable-WindowsOptionalFeature -Online -FeatureName ServicesForNFS-ClientOnly,ClientForNFS-Infrastructure -All"@,
        ),
{
    reveal_strlit("Client for NFS");
    reveal_strlit("Administrator");
    reveal_strlit("Mount point");
    reveal_strlit("Portmapper");
    assert("Client for NFS"@.len() == 14);
    assert("Administrator"@.len() == 13);
    assert("Mount point"@.len() == 11);
    assert("Portmapper"@.len() == 10);
}

/// Each check is counted once, at its level.
pub proof fn law_checks_are_counted(checks: Seq<preflight::CheckItemView>, check: preflight::CheckItemView, level: CheckLevel)
    ensures
        view::count_level(Seq::empty(), level) == 0,
        view::count_level(checks.push(check), level) == view::count_level(checks, level) + (
        if check.level == level {
            1int
        } else {
            0int
        }),
{
    assert(checks.push(check).drop_last() =~= checks);
}

/// The page of the checks says whether there is anything to do.
pub proof fn law_checks_have_their_chip(checks: Seq<preflight::CheckItemView>)
    ensures
        view::spec_summary_tone(Seq::empty()) is Plain,
        checks.len() > 0 ==> {
            &&& view::spec_summary_tone(checks) is Bad <==> view::count_level(checks, CheckLevel::Fail)
                > 0
            &&& view::spec_summary_tone(checks) is Good <==> view::count_level(
                checks,
                CheckLevel::Fail,
            ) == 0 && view::count_level(checks, CheckLevel::Warn) == 0
            &&& view::spec_summary_tone(checks) is Bad ==> view::spec_summary_label(checks)
                == "Action needed"@
            &&& view::spec_summary_tone(checks) is Warning ==> view::spec_summary_label(checks)
                == "Usable with warnings"@
            &&& view::spec_summary_tone(checks) is Good ==> view::spec_summary_label(checks)
                == "Ready to mount"@
        },
{
}

// ── The form ────────────────────────────────────────────────────────────

/// What is saved is what is in the form, field by field; a repo is saved as
/// read only.
pub proof fn law_forms_are_saved(p: MountProfile, form: MountForm)
    requires
        gui::is_form_profile(p, form),
    ensures
        p.source == form.source && p.source_id@ == form.source_id@ && p.revision@ == form.revision@,
        p.mount_point@ == form.mount_point@ && p.cache_dir@ == form.cache_dir@,
        p.token_file@ == form.token_file@ && p.hub_endpoint@ == form.hub_endpoint@,
        form.source is Repo ==> p.read_only,
        form.source is Bucket ==> p.read_only == form.read_only,
        p.run_in_background == form.run_in_background,
        p.nfs_allow_unsafe_loopback == form.nfs_allow_unsafe_loopback,
        profile::recents_view(p.recent_sources@) == profile::recents_view(form.recent_sources@),
{
}

/// A form is filled with what was saved, field by field.
pub proof fn law_forms_are_filled(form: MountForm, p: MountProfile)
    requires
        gui::is_filled_from(form, p),
    ensures
        form.source == p.source && form.source_id@ == p.source_id@ && form.revision@ == p.revision@,
        form.mount_point@ == p.mount_point@ && form.cache_dir@ == p.cache_dir@,
        form.token_file@ == p.token_file@ && form.hub_endpoint@ == p.hub_endpoint@,
        p.source is Repo ==> form.read_only,
        p.source is Bucket ==> form.read_only == p.read_only,
        form.run_in_background == p.run_in_background,
        form.nfs_allow_unsafe_loopback == p.nfs_allow_unsafe_loopback,
        form.recent_sources == p.recent_sources,
{
}

/// Filling a form keeps the token that was typed and what is shown of it.
pub proof fn law_filling_keeps_the_session(a: MountForm, b: MountForm)
    requires
        gui::same_session_fields(a, b),
    ensures
        a.hf_token@ == b.hf_token@,
        a.show_token == b.show_token,
        a.autostart_enabled == b.autostart_enabled,
        a.show_advanced == b.show_advanced,
{
}

/// A token that was typed comes before that of the environment, which serves
/// where none was.
pub proof fn law_typed_tokens_come_first(typed: Seq<char>, token: Seq<char>, blank: Seq<char>, env: Option<Seq<char>>)
    requires
        desktop_laws::is_tidy(token),
        desktop_laws::is_padded(typed, token),
        text::is_blank(blank),
    ensures
        gui::spec_token(typed, env) == Some(token),
        gui::spec_token(blank, Some(typed)) == Some(token),
        gui::spec_token(blank, Some(blank)) is None,
        gui::spec_token(blank, None) is None,
{
    desktop_laws::law_blanks_are_left_out(blank, typed, token, Seq::empty());
}

/// A mount in the background is refused a token that its worker could not find:
/// one that was typed, is not that of the environment, and has no file.
pub proof fn law_workers_cannot_be_told_tokens(form: MountForm, token: Seq<char>, other: Seq<char>)
    requires
        desktop_laws::is_tidy(token),
        desktop_laws::is_padded(form.hf_token@, token),
        desktop_laws::is_tidy(other),
        other != token,
    ensures
        form.run_in_background && text::is_blank(form.token_file@) ==> gui::is_token_lost(form, None)
            && gui::is_token_lost(form, Some(other)) && !gui::is_token_lost(form, Some(token)),
        !form.run_in_background ==> !gui::is_token_lost(form, None),
        desktop_laws::is_tidy(form.token_file@) ==> !gui::is_token_lost(form, None),
{
    let blank = Seq::<char>::empty();
    desktop_laws::law_blanks_are_left_out(blank, form.hf_token@, token, blank);
    lemma_is_its_own(token);
    lemma_is_its_own(other);
    desktop_laws::law_blanks_are_left_out(blank, token, token, blank);
    desktop_laws::law_blanks_are_left_out(blank, other, other, blank);
    if text::is_blank(form.token_file@) {
        desktop_laws::law_blanks_are_left_out(form.token_file@, token, token, blank);
    }
    if desktop_laws::is_tidy(form.token_file@) {
        lemma_is_its_own(form.token_file@);
        desktop_laws::law_blanks_are_left_out(blank, form.token_file@, form.token_file@, blank);
    }
}

proof fn lemma_is_its_own(s: Seq<char>)
    ensures
        desktop_laws::is_padded(s, s),
{
    let none = Seq::<char>::empty();
    assert(text::is_blank(none));
    assert(none + s + none =~= s);
}

/// A mount gets the options that the form asks for.
pub proof fn law_forms_set_their_options(
    options: MountOptions,
    p: MountProfile,
    typed: Seq<char>,
    token: Seq<char>,
    env: Option<Seq<char>>,
)
    requires
        gui::is_form_options(options, p, typed, env),
        desktop_laws::is_tidy(token),
        desktop_laws::is_padded(typed, token),
    ensures
        options.hf_token matches Some(t) && t@ == token,
        text::is_blank(p.token_file@) ==> options.token_file is None,
        desktop_laws::is_tidy(p.token_file@) ==> (options.token_file matches Some(f) && f@
            == p.token_file@),
        text::is_blank(p.hub_endpoint@) ==> options.hub_endpoint@ == "https://huggingface.co"@,
        desktop_laws::is_tidy(p.hub_endpoint@) ==> options.hub_endpoint@ == p.hub_endpoint@,
        desktop_laws::is_tidy(p.cache_dir@) ==> options.cache_dir@ == p.cache_dir@,
        p.source is Repo ==> options.read_only,
        p.source is Bucket ==> options.read_only == p.read_only,
        options.nfs_allow_unsafe_loopback == p.nfs_allow_unsafe_loopback,
        profile::has_other_defaults(options),
{
    let none = Seq::<char>::empty();
    desktop_laws::law_blanks_are_left_out(none, typed, token, none);
    lemma_is_its_own(p.token_file@);
    lemma_is_its_own(p.hub_endpoint@);
    lemma_is_its_own(p.cache_dir@);
    let default = "https://huggingface.co"@;
    if text::is_blank(p.token_file@) {
        desktop_laws::law_blanks_are_left_out(p.token_file@, typed, token, none);
    }
    if desktop_laws::is_tidy(p.token_file@) {
        desktop_laws::law_blanks_are_left_out(none, p.token_file@, p.token_file@, none);
    }
    if text::is_blank(p.hub_endpoint@) {
        desktop_laws::law_blanks_are_left_out(p.hub_endpoint@, typed, token, default);
    }
    if desktop_laws::is_tidy(p.hub_endpoint@) {
        desktop_laws::law_blanks_are_left_out(none, p.hub_endpoint@, p.hub_endpoint@, default);
    }
    if desktop_laws::is_tidy(p.cache_dir@) {
        desktop_laws::law_blanks_are_left_out(none, p.cache_dir@, p.cache_dir@, none);
    }
}

/// The source that is remembered is that of the form, without white space.
pub proof fn law_forms_are_remembered(form: MountForm, id: Seq<char>, revision: Seq<char>)
    requires
        desktop_laws::is_tidy(id),
        desktop_laws::is_padded(form.source_id@, id),
        desktop_laws::is_tidy(revision),
        desktop_laws::is_padded(form.revision@, revision),
    ensures
        gui::form_entry(form).source == form.source,
        gui::form_entry(form).source_id == id,
        gui::form_entry(form).revision == revision,
{
    let none = Seq::<char>::empty();
    desktop_laws::law_blanks_are_left_out(none, form.source_id@, id, none);
    desktop_laws::law_blanks_are_left_out(none, form.revision@, revision, none);
}

// ── Starting ────────────────────────────────────────────────────────────

/// A mount starts from a form with an id, a mount point, a place for the cache
/// and no token that would be lost.
pub proof fn law_forms_that_can_start(form: MountForm, env: Option<Seq<char>>)
    ensures
        gui::spec_start_problem(form, env) is None <==> profile::spec_source_id_problem(
            form.source,
            form.source_id@,
        ) is None && text::spec_trim(form.mount_point@).len() > 0 && text::spec_trim(
            form.cache_dir@,
        ).len() > 0 && !gui::is_token_lost(form, env),
        profile::spec_source_id_problem(form.source, form.source_id@) matches Some(problem)
            ==> gui::spec_start_problem(form, env) == Some(("Invalid source"@, problem)),
{
}

/// A failed check is shown in place of a start, the first of them; and a form
/// that cannot start is shown with what is wrong with it.
pub proof fn law_starts_that_fail_are_shown(
    s: status::StatusView,
    time: Seq<char>,
    form: MountForm,
    checks: Seq<preflight::CheckItemView>,
    env: Option<Seq<char>>,
    i: int,
)
    ensures
        preflight::is_first_failure(checks, i) ==> gui::spec_start_status(s, time, form, checks, env)
            == s.with(
            time,
            MountState::Failed,
            "Setup check failed: "@ + checks[i].label,
            checks[i].detail,
        ),
        !preflight::any_level(checks, CheckLevel::Fail) ==> {
            let after = gui::spec_start_status(s, time, form, checks, env);
            match gui::spec_start_problem(form, env) {
                Some((headline, detail)) => after.state is Failed && after.headline == headline
                    && after.detail == detail,
                None => after.state == s.state && after.headline == s.headline && after.detail
                    == s.detail && after.log.last().text == preflight::spec_summary(checks)
                    && after.log.last().level is Info,
            }
        },
{
    if preflight::is_first_failure(checks, i) {
        assert(checks[i].level == CheckLevel::Fail);
        assert(preflight::any_level(checks, CheckLevel::Fail));
        let j = choose|j: int| preflight::is_first_failure(checks, j);
        assert(preflight::is_first_failure(checks, j));
        assert(i == j);
    }
}

/// A mount runs while its thread does, and while there is a worker for it. It is
/// being stopped once that was asked for.
pub proof fn law_mounts_run(c: MountControl, thread_running: bool)
    ensures
        c.active_background ==> c.spec_is_running(thread_running),
        c.child is Some ==> c.spec_is_running(thread_running),
        !c.active_background && c.child is None ==> c.spec_is_running(thread_running) == (
        c.mount_thread && thread_running),
        c.stop_running ==> c.spec_is_stopping(),
        c.shutdown == Some(true) ==> c.spec_is_stopping(),
        !c.stop_running && c.shutdown != Some(true) ==> !c.spec_is_stopping(),
{
}

/// A mount can be started where none runs, no check failed and the id is one;
/// it can be stopped where one runs that is not being stopped.
pub proof fn law_buttons(app: MountGuiApp, thread_running: bool)
    ensures
        view::can_start(app, thread_running) <==> !app.control.active_background
            && app.control.child is None && !(app.control.mount_thread && thread_running)
            && !preflight::any_level(preflight::checks_view(app.checks@), CheckLevel::Fail)
            && profile::spec_source_id_problem(app.form.source, app.form.source_id@) is None,
        view::can_stop(app, thread_running) <==> (app.control.active_background
            || app.control.child is Some || (app.control.mount_thread && thread_running))
            && !app.control.stop_running && app.control.shutdown != Some(true),
{
}

// ── Stopping ────────────────────────────────────────────────────────────

/// A mount of this process is asked to shut down, and nothing else is done.
pub proof fn law_own_mounts_are_asked_to_stop(c: gui::ControlView, s: status::StatusView, time: Seq<char>)
    requires
        c.mount_thread,
        c.shutdown is Some,
    ensures
        ({
            let (after, told, step) = gui::spec_stop(c, s, time, true);
            &&& step is RequestShutdown
            &&& after.shutdown == Some(true)
            &&& after == (gui::ControlView { shutdown: after.shutdown, ..c })
            &&& told.state is Stopping
        }),
{
}

/// A worker that has not mounted is ended: the child that was started, where it
/// is known, or the process that it reported, once that was looked at. A worker
/// whose process is not known cannot be.
pub proof fn law_workers_are_ended(c: gui::ControlView, s: status::StatusView, time: Seq<char>, thread_running: bool)
    requires
        !(c.mount_thread && thread_running && c.shutdown is Some),
        c.active_background,
        c.last_worker_status matches Some(report) ==> !(report.state is Mounted),
    ensures
        ({
            let (after, told, step) = gui::spec_stop(c, s, time, thread_running);
            let child = c.child matches Some(pid) && pid != 0;
            let reported = c.last_worker_status matches Some(report) && report.pid matches Some(pid)
                && pid != 0;
            &&& after == c
            &&& child ==> step == (gui::StopStepView::Terminate { pid: c.child->0 }) && told == s
            &&& !child && reported ==> step == (gui::StopStepView::CheckWorker {
                pid: c.last_worker_status->0.pid->0,
            }) && told == s
            &&& !child && !reported ==> step is Nothing && told.state is Failed
        }),
{
}

/// A mount that is there, and is no other's to end, is unmounted at the mount
/// point that it has, once.
pub proof fn law_mounts_are_unmounted(c: gui::ControlView, s: status::StatusView, time: Seq<char>, thread_running: bool)
    requires
        !(c.mount_thread && thread_running && c.shutdown is Some),
        !c.active_background || (c.last_worker_status matches Some(report) && report.state is Mounted),
    ensures
        ({
            let (after, told, step) = gui::spec_stop(c, s, time, thread_running);
            match c.active_mount_point {
                None => step is Nothing && told.state is Failed && after == c,
                Some(path) => if c.stop_running {
                    step is Nothing && told == s && after == c
                } else {
                    &&& step == (gui::StopStepView::Unmount { mount_point: path })
                    &&& after == (gui::ControlView { stop_running: true, ..c })
                    &&& told.state is Stopping
                    &&& told.detail == "Target: "@ + path
                },
            }
        }),
{
}

/// A worker that is let go leaves no target behind, and nothing else changes.
pub proof fn law_workers_are_let_go(c: gui::ControlView)
    ensures
        c.released() == (gui::ControlView {
            active_background: false,
            active_mount_point: None,
            active_source_label: None,
            ..c
        }),
        c.without_target() == (gui::ControlView {
            active_mount_point: None,
            active_source_label: None,
            ..c
        }),
{
}

// ── Following a worker ──────────────────────────────────────────────────

/// A state of a worker is shown as what it is.
pub proof fn law_workers_are_shown_as_they_are(state: WorkerState)
    ensures
        gui::spec_worker_mount_state(state) is Mounting <==> state is Mounting,
        gui::spec_worker_mount_state(state) is Mounted <==> state is Mounted,
        gui::spec_worker_mount_state(state) is Stopping <==> state is Stopping,
        gui::spec_worker_mount_state(state) is Stopped <==> state is Stopped,
        gui::spec_worker_mount_state(state) is Failed <==> state is Failed,
{
}

/// A status that could not be read changes nothing, and is logged as an error.
pub proof fn law_unread_status_changes_nothing(
    c: gui::ControlView,
    s: status::StatusView,
    time: Seq<char>,
    snapshot: gui::SnapshotView,
    error: Seq<char>,
    first: bool,
    thread_running: bool,
)
    requires
        snapshot.error == Some(error),
    ensures
        ({
            let (after, told) = gui::spec_snapshot(c, s, time, snapshot, first, thread_running);
            &&& after == c
            &&& told.state == s.state
            &&& told.headline == s.headline
            &&& told.log.last().level is Error
            &&& told.log.last().text == "Could not read background status: "@ + error
        }),
{
}

/// A worker without a status is gone.
pub proof fn law_workers_without_a_status_are_gone(
    c: gui::ControlView,
    s: status::StatusView,
    time: Seq<char>,
    generation: u64,
    live: bool,
    first: bool,
    thread_running: bool,
)
    ensures
        ({
            let nothing = gui::SnapshotView { generation, status: None, live, error: None };
            let (after, told) = gui::spec_snapshot(c, s, time, nothing, first, thread_running);
            &&& !after.active_background
            &&& after.last_worker_status is None
            &&& c.active_background ==> told.state is Failed && after.active_mount_point is None
            &&& !c.active_background ==> told == s && after.active_mount_point
                == c.active_mount_point
        }),
{
}

/// A worker that is alive is taken over, with the mount point and the source
/// that it tells, and what it tells is shown unless a mount of this process
/// runs.
pub proof fn law_live_workers_are_taken_over(
    c: gui::ControlView,
    s: status::StatusView,
    time: Seq<char>,
    generation: u64,
    report: worker::WorkerStatusView,
    first: bool,
    thread_running: bool,
    path: Seq<char>,
    label: Seq<char>,
)
    requires
        !(report.state is Stopped),
        !(report.state is Failed),
        report.mount_point == Some(path),
        desktop_laws::is_tidy(path),
        report.source_label == Some(label),
    ensures
        ({
            let seen = gui::SnapshotView { generation, status: Some(report), live: true, error: None };
            let (after, told) = gui::spec_snapshot(c, s, time, seen, first, thread_running);
            &&& after.active_background
            &&& after.active_mount_point == Some(path)
            &&& after.active_source_label == Some(label)
            &&& after.last_worker_status == Some(report)
            &&& after.child == c.child
            &&& after.mount_thread == c.mount_thread
            &&& !(c.mount_thread && thread_running) ==> told.state == gui::spec_worker_mount_state(
                report.state,
            ) && told.headline == report.headline && told.detail == report.detail
            &&& c.mount_thread && thread_running ==> told.state == s.state && told.headline
                == s.headline && told.detail == s.detail
        }),
{
    desktop_laws::law_blank_mount_points_are_none(report, path);
}

/// A worker that says that it is under way, and is not alive, is gone: the
/// window lets it go and says so.
pub proof fn law_dead_workers_are_let_go(
    c: gui::ControlView,
    s: status::StatusView,
    time: Seq<char>,
    generation: u64,
    report: worker::WorkerStatusView,
    first: bool,
    thread_running: bool,
)
    requires
        !(report.state is Stopped),
        !(report.state is Failed),
    ensures
        ({
            let seen = gui::SnapshotView {
                generation,
                status: Some(report),
                live: false,
                error: None,
            };
            let (after, told) = gui::spec_snapshot(c, s, time, seen, first, thread_running);
            &&& !after.active_background
            &&& after.last_worker_status == Some(report)
            &&& c.active_background ==> after.child is None
            &&& c.active_background && !c.mount_thread ==> after.active_mount_point is None
            &&& c.mount_thread ==> after.active_mount_point == c.active_mount_point
            &&& c.active_background || first ==> told.state is Failed && told.headline
                == "Background worker unavailable"@
            &&& !c.active_background && !first ==> told == s
        }),
{
}

/// The end of a worker is shown once, as it told it, and the worker let go.
pub proof fn law_ends_of_workers_are_shown(
    c: gui::ControlView,
    s: status::StatusView,
    time: Seq<char>,
    generation: u64,
    report: worker::WorkerStatusView,
    live: bool,
    thread_running: bool,
)
    requires
        report.state is Stopped || report.state is Failed,
        c.last_worker_status != Some(report),
        !(c.mount_thread && thread_running),
    ensures
        ({
            let seen = gui::SnapshotView { generation, status: Some(report), live, error: None };
            let (after, told) = gui::spec_snapshot(c, s, time, seen, false, thread_running);
            &&& !after.active_background
            &&& told.state == gui::spec_worker_mount_state(report.state)
            &&& told.headline == report.headline
            &&& told.detail == report.detail
        }),
{
}

/// What was looked at once is not looked at again, and what was never looked at
/// is no look.
pub proof fn law_looks_count_once(
    c: gui::ControlView,
    s: status::StatusView,
    time: Seq<char>,
    snapshot: gui::SnapshotView,
    thread_running: bool,
)
    ensures
        snapshot.generation == 0 ==> gui::spec_consume(c, s, time, snapshot, thread_running) == (c, s),
        snapshot.generation == c.last_worker_generation ==> gui::spec_consume(
            c,
            s,
            time,
            snapshot,
            thread_running,
        ) == (c, s),
        gui::spec_consume(c, s, time, snapshot, thread_running).0.last_worker_generation
            == if snapshot.generation == 0 {
            c.last_worker_generation
        } else {
            snapshot.generation
        },
{
}

/// A child that runs changes nothing. One that ended well leaves the mount
/// stopped, one that did not leaves it failed, unless the end was shown or
/// asked for; either way it is let go.
pub proof fn law_children_end(c: gui::ControlView, s: status::StatusView, time: Seq<char>, child: ChildState)
    requires
        c.child is Some,
    ensures
        ({
            let (after, told) = gui::spec_child(c, s, time, child);
            match child {
                ChildState::Running => after == c && told == s,
                ChildState::Exited { success, status } => {
                    &&& after.child is None
                    &&& !after.active_background
                    &&& after.active_mount_point is None
                    &&& !after.background_stop_requested
                    &&& success ==> told.state is Stopped || told == s
                    &&& success && !(s.state is Stopped) && !(s.state is Failed)
                        ==> told.state is Stopped
                    &&& !success && !c.background_stop_requested ==> told.state is Failed
                    &&& !success && !c.background_stop_requested && !(s.state is Failed)
                        ==> told.detail == "Worker exited with "@ + status@ + "."@
                },
                ChildState::Unknown(e) => {
                    &&& after.child is None
                    &&& !after.active_background
                    &&& told.state is Failed
                    &&& told.detail == e@
                },
            }
        }),
{
}

/// Without a child there is nothing to look after.
pub proof fn law_no_child_no_change(c: gui::ControlView, s: status::StatusView, time: Seq<char>, child: ChildState)
    requires
        c.child is None,
    ensures
        gui::spec_child(c, s, time, child) == (c, s),
{
}

/// A mount of this process that ends leaves nothing to stop, and its target
/// only to a worker.
pub proof fn law_own_mounts_end(c: gui::ControlView, s: status::StatusView, time: Seq<char>, panicked: bool)
    ensures
        ({
            let (after, told) = gui::spec_thread_ended(c, s, time, panicked);
            &&& !after.mount_thread
            &&& after.shutdown is None
            &&& after.active_background == c.active_background
            &&& c.active_background ==> after.active_mount_point == c.active_mount_point
            &&& !c.active_background ==> after.active_mount_point is None
            &&& panicked ==> told.state is Failed && told.headline == "Mount thread panicked"@
            &&& !panicked && (s.state is Failed || s.state is Stopped) ==> told == s
            &&& !panicked && !(s.state is Failed) && !(s.state is Stopped) ==> told.state is Stopped
        }),
{
}

/// Before anything has happened nothing runs and nothing is known.
pub proof fn law_nothing_runs_at_first()
    ensures
        ({
            let c = gui::ControlView::idle();
            &&& !c.mount_thread && c.shutdown is None && !c.stop_running && c.child is None
            &&& !c.active_background && c.active_mount_point is None
            &&& c.active_source_label is None && c.mounted_since is None
            &&& c.last_worker_generation == 0 && c.last_worker_status is None
            &&& !c.background_stop_requested
        }),
{
}

/// Remembering a source changes nothing else of a form.
pub proof fn law_forms_stay(a: MountForm, b: MountForm)
    ensures
        gui::same_but_recents(a, b) <==> a == (MountForm { recent_sources: a.recent_sources, ..b }),
{
}

} // verus!
