//! What the command line, the entry that starts a mount at login and the compact
//! window promise.
use crate::autostart;
use crate::autostart::{AutostartEvidence, AutostartOutcome};
use crate::cli;
use crate::compact;
use crate::compact::CompactApp;
use crate::desktop_laws;
use crate::mount_command;
use crate::mount_command::Host;
use crate::platform;
use crate::platform::{CommandRun, Platform};
use crate::preflight;
use crate::preflight::{CheckLevel, Findings};
use crate::setup::{MountOptions, Source};
use crate::status::MountState;
use crate::text;
use crate::util::UserDirs;
use crate::windows;
use vstd::prelude::*;

verus! {

// ── The command line ────────────────────────────────────────────────────

/// Without arguments there is a window. The first argument decides; the second
/// is the mount point that is checked.
pub proof fn law_arguments_decide(rest: Seq<Seq<char>>, path: Seq<char>, has_worker: bool)
    ensures
        cli::spec_cli(Seq::empty(), has_worker) is Window,
        cli::spec_cli(seq!["-h"@] + rest, has_worker) is Help,
        cli::spec_cli(seq!["--help"@] + rest, has_worker) is Help,
        cli::spec_cli(seq!["-V"@] + rest, has_worker) is Version,
        cli::spec_cli(seq!["--version"@] + rest, has_worker) is Version,
        cli::spec_cli(seq!["--check-setup"@], has_worker) == cli::CliCommandView::CheckSetup(None),
        cli::spec_cli(seq!["--check-setup"@, path] + rest, has_worker)
            == cli::CliCommandView::CheckSetup(Some(path)),
        cli::spec_cli(seq!["--background-worker"@] + rest, true) is Worker,
        cli::spec_cli(seq!["--background-worker"@] + rest, false) == cli::CliCommandView::Unknown(
            "--background-worker"@,
        ),
{
    reveal_strlit("-h");
    reveal_strlit("--help");
    reveal_strlit("-V");
    reveal_strlit("--version");
    reveal_strlit("--check-setup");
    reveal_strlit("--background-worker");
    assert("-h"@.len() == 2 && "-V"@.len() == 2 && "-h"@[1] == 'h' && "-V"@[1] == 'V');
    assert("--help"@.len() == 6 && "--version"@.len() == 9);
    assert("--check-setup"@.len() == 13 && "--background-worker"@.len() == 19);
    assert((seq!["-h"@] + rest)[0] == "-h"@);
    assert((seq!["--help"@] + rest)[0] == "--help"@);
    assert((seq!["-V"@] + rest)[0] == "-V"@);
    assert((seq!["--version"@] + rest)[0] == "--version"@);
    assert((seq!["--check-setup"@, path] + rest)[0] == "--check-setup"@);
    assert((seq!["--check-setup"@, path] + rest)[1] == path);
    assert((seq!["--background-worker"@] + rest)[0] == "--background-worker"@);
}

/// An argument that is none of these is reported as it is.
pub proof fn law_other_arguments_are_unknown(arg: Seq<char>, rest: Seq<Seq<char>>, has_worker: bool)
    requires
        arg != "-h"@ && arg != "--help"@ && arg != "-V"@ && arg != "--version"@,
        arg != "--check-setup"@ && arg != "--background-worker"@,
    ensures
        cli::spec_cli(seq![arg] + rest, has_worker) == cli::CliCommandView::Unknown(arg),
{
    assert((seq![arg] + rest)[0] == arg);
}

// ── Starting at login ───────────────────────────────────────────────────

/// Text is written in XML with its markup escaped, character by character, and
/// all else as it is.
pub proof fn law_markup_is_escaped(s: Seq<char>, c: char)
    ensures
        autostart::spec_xml_escape(Seq::empty()) == Seq::<char>::empty(),
        autostart::spec_xml_escape(s.push('&')) == autostart::spec_xml_escape(s) + "&amp;"@,
        autostart::spec_xml_escape(s.push('<')) == autostart::spec_xml_escape(s) + "&lt;"@,
        autostart::spec_xml_escape(s.push('>')) == autostart::spec_xml_escape(s) + "&gt;"@,
        autostart::spec_xml_escape(s.push('"')) == autostart::spec_xml_escape(s) + "&quot;"@,
        autostart::spec_xml_escape(s.push('\'')) == autostart::spec_xml_escape(s) + "&apos;"@,
        c != '&' && c != '<' && c != '>' && c != '"' && c != '\'' ==> autostart::spec_xml_escape(
            s.push(c),
        ) == autostart::spec_xml_escape(s).push(c),
{
    assert(s.push('&').drop_last() =~= s);
    assert(s.push('<').drop_last() =~= s);
    assert(s.push('>').drop_last() =~= s);
    assert(s.push('"').drop_last() =~= s);
    assert(s.push('\'').drop_last() =~= s);
    assert(s.push(c).drop_last() =~= s);
    if c != '&' && c != '<' && c != '>' && c != '"' && c != '\'' {
        assert(autostart::spec_xml_escape(s) + seq![c] =~= autostart::spec_xml_escape(s).push(c));
    }
}

/// In quotes, a quote and a backslash have a backslash before them, and all else
/// is as it is.
pub proof fn law_quotes_are_escaped(s: Seq<char>, c: char)
    ensures
        autostart::spec_quoted(Seq::empty()) == Seq::<char>::empty(),
        autostart::spec_quoted(s.push('"')) == autostart::spec_quoted(s).push('\\').push('"'),
        autostart::spec_quoted(s.push('\\')) == autostart::spec_quoted(s).push('\\').push('\\'),
        c != '"' && c != '\\' ==> autostart::spec_quoted(s.push(c)) == autostart::spec_quoted(
            s,
        ).push(c),
{
    reveal_strlit("\\\\");
    reveal_strlit("\\\"");
    let q = autostart::spec_quoted(s);
    assert(s.push('"').drop_last() =~= s);
    assert(s.push('\\').drop_last() =~= s);
    assert(s.push(c).drop_last() =~= s);
    assert(q + "\\\""@ =~= q.push('\\').push('"'));
    assert(q + "\\\\"@ =~= q.push('\\').push('\\'));
    if c != '"' && c != '\\' {
        assert(q + seq![c] =~= q.push(c));
    }
}

proof fn lemma_plain_quoted(s: Seq<char>)
    requires
        !s.contains('"'),
        !s.contains('\\'),
    ensures
        autostart::spec_quoted(s) == s,
    decreases s.len(),
{
    if s.len() > 0 {
        let t = s.drop_last();
        assert forall|c: char| t.contains(c) implies s.contains(c) by {
            let i = t.index_of(c);
            assert(s[i] == c);
        }
        lemma_plain_quoted(t);
        law_quotes_are_escaped(t, s.last());
        assert(s.contains(s[s.len() - 1]));
        assert(t.push(s.last()) =~= s);
    }
}

/// The entry of a desktop starts the program as a worker, with no terminal.
pub proof fn law_desktop_entries_start_the_worker(exe: Seq<char>)
    requires
        !exe.contains('"'),
        !exe.contains('\\'),
    ensures
        exists|before: Seq<char>, after: Seq<char>|
            autostart::spec_desktop_entry(exe) == #[trigger] (before + ("\nExec=\""@ + exe
                + "\" --background-worker\nTerminal=false\n"@) + after),
{
    reveal_strlit("[Desktop Entry]\nType=Application\nName=");
    reveal_strlit("hf-mount autostart");
    reveal_strlit("\nExec=");
    reveal_strlit("\"");
    reveal_strlit(" ");
    reveal_strlit("--background-worker");
    reveal_strlit("\nTerminal=false\nX-GNOME-Autostart-enabled=true\n");
    reveal_strlit("\nExec=\"");
    reveal_strlit("\" --background-worker\nTerminal=false\n");
    reveal_strlit("X-GNOME-Autostart-enabled=true\n");
    lemma_plain_quoted(exe);
    let before = "[Desktop Entry]\nType=Application\nName="@ + "hf-mount autostart"@;
    let after = "X-GNOME-Autostart-enabled=true\n"@;
    assert(autostart::spec_desktop_entry(exe) =~= before + ("\nExec=\""@ + exe
        + "\" --background-worker\nTerminal=false\n"@) + after);
}

/// The agent of macOS starts the program as a worker at login, and its output
/// goes to the log.
pub proof fn law_launch_agents_start_the_worker(exe: Seq<char>, log_path: Seq<char>)
    ensures
        exists|before: Seq<char>, after: Seq<char>|
            autostart::spec_launch_agent(exe, log_path) == #[trigger] (before
                + ("<key>ProgramArguments</key>\n<array>\n<string>"@ + autostart::spec_xml_escape(
                exe,
            ) + "</string>\n<string>--background-worker</string>\n</array>\n<key>RunAtLoad</key>\n<true/>\n<key>StandardOutPath</key>\n<string>"@
                + autostart::spec_xml_escape(log_path)
                + "</string>\n<key>StandardErrorPath</key>\n<string>"@ + autostart::spec_xml_escape(
                log_path,
            ) + "</string>\n"@) + after),
{
    reveal_strlit("</string>\n<key>ProgramArguments</key>\n<array>\n<string>");
    reveal_strlit("</string>\n");
    reveal_strlit("<key>ProgramArguments</key>\n<array>\n<string>");
    reveal_strlit("</string>\n<string>");
    reveal_strlit("--background-worker");
    reveal_strlit("</string>\n</array>\n<key>RunAtLoad</key>\n<true/>\n<key>StandardOutPath</key>\n<string>");
    reveal_strlit("</string>\n<string>--background-worker</string>\n</array>\n<key>RunAtLoad</key>\n<true/>\n<key>StandardOutPath</key>\n<string>");
    reveal_strlit("</string>\n<key>StandardErrorPath</key>\n<string>");
    reveal_strlit("</string>\n</dict>\n</plist>\n");
    reveal_strlit("</dict>\n</plist>\n");
    let all = autostart::spec_launch_agent(exe, log_path);
    let e = autostart::spec_xml_escape(exe);
    let l = autostart::spec_xml_escape(log_path);
    let middle = "<key>ProgramArguments</key>\n<array>\n<string>"@ + e
        + "</string>\n<string>--background-worker</string>\n</array>\n<key>RunAtLoad</key>\n<true/>\n<key>StandardOutPath</key>\n<string>"@
        + l + "</string>\n<key>StandardErrorPath</key>\n<string>"@ + l + "</string>\n"@;
    let after = "</dict>\n</plist>\n"@;
    let before = all.take(all.len() - middle.len() - after.len());
    assert(all =~= before + middle + after);
}

proof fn lemma_nothing_replaced(s: Seq<char>, c: char, with: Seq<char>)
    requires
        !s.contains(c),
    ensures
        text::spec_replace(s, c, with) == s,
    decreases s.len(),
{
    if s.len() > 0 {
        let t = s.drop_last();
        assert(s.contains(s[s.len() - 1]));
        if t.contains(c) {
            let i = t.index_of(c);
            assert(s[i] == c);
        }
        lemma_nothing_replaced(t, c, with);
        assert(t.push(s.last()) =~= s);
        assert(t + seq![s.last()] =~= s);
    } else {
        assert(s =~= Seq::<char>::empty());
    }
}

/// The task of Windows runs the program, in quotes, as a worker.
pub proof fn law_tasks_run_the_worker(exe: Seq<char>)
    requires
        !exe.contains('"'),
    ensures
        autostart::spec_task_run(exe) == seq!['"'] + exe + "\" --background-worker"@,
{
    reveal_strlit("\"");
    reveal_strlit("\" ");
    reveal_strlit("--background-worker");
    reveal_strlit("\" --background-worker");
    lemma_nothing_replaced(exe, '"', "\\\""@);
    assert(autostart::spec_task_run(exe) =~= seq!['"'] + exe + "\" --background-worker"@);
}

/// On Windows the entry is a task of the tool for tasks: made to run at logon
/// with the highest rights in place of any before it, and deleted under the
/// same name.
pub proof fn law_the_entry_of_windows_is_a_task(host: Host, dirs: UserDirs, exe: Seq<char>)
    requires
        host.platform is Windows,
    ensures
        autostart::spec_autostart_step(host, dirs, exe, true) == Ok::<
            autostart::AutostartStepView,
            Seq<char>,
        >(
            autostart::AutostartStepView::Run(
                mount_command::CommandLineView {
                    program: host.spec_tool("schtasks.exe"@),
                    args: seq![
                        "/Create"@,
                        "/TN"@,
                        "hf-mount autostart"@,
                        "/TR"@,
                        autostart::spec_task_run(exe),
                        "/SC"@,
                        "ONLOGON"@,
                        "/RL"@,
                        "HIGHEST"@,
                        "/F"@,
                    ],
                },
            ),
        ),
        autostart::spec_autostart_step(host, dirs, exe, false) == Ok::<
            autostart::AutostartStepView,
            Seq<char>,
        >(
            autostart::AutostartStepView::Run(
                mount_command::CommandLineView {
                    program: host.spec_tool("schtasks.exe"@),
                    args: seq!["/Delete"@, "/TN"@, "hf-mount autostart"@, "/F"@],
                },
            ),
        ),
{
}

/// Elsewhere the entry is a file where the system looks for such; setting it
/// writes that file and unsetting it removes the same.
pub proof fn law_the_entry_elsewhere_is_a_file(host: Host, dirs: UserDirs, exe: Seq<char>, base: String)
    requires
        !(host.platform is Windows),
        base@.len() > 0,
        base@.last() != '/',
        dirs.home == Some(base),
        dirs.xdg_config_home is None || host.platform is Linux,
        dirs.xdg_config_home matches Some(config) ==> config@ == base@ + "/.config"@,
    ensures
        ({
            let path = if host.platform is MacOs {
                base@ + "/Library/LaunchAgents/co.huggingface.hf-mount-gui-autostart.plist"@
            } else {
                base@ + "/.config/autostart/hf-mount.desktop"@
            };
            &&& autostart::spec_autostart_step(host, dirs, exe, false) == Ok::<
                autostart::AutostartStepView,
                Seq<char>,
            >(autostart::AutostartStepView::RemoveFile { path })
            &&& autostart::spec_autostart_step(host, dirs, exe, true) matches Ok(
                autostart::AutostartStepView::WriteFile { path: p, content },
            ) && p == path && (host.platform is Linux ==> content == autostart::spec_desktop_entry(
                exe,
            )) && (host.platform is MacOs ==> content == autostart::spec_launch_agent(
                exe,
                base@ + "/Library/Application Support/hf-mount/background.log"@,
            ))
        }),
{
    reveal_strlit("Library");
    reveal_strlit("LaunchAgents");
    reveal_strlit("co.huggingface.hf-mount-gui-autostart");
    reveal_strlit(".plist");
    reveal_strlit("/Library/LaunchAgents/co.huggingface.hf-mount-gui-autostart.plist");
    reveal_strlit("/.config/autostart/hf-mount.desktop");
    reveal_strlit("/.config");
    reveal_strlit(".config");
    reveal_strlit("autostart");
    reveal_strlit("hf-mount.desktop");
    reveal_strlit("background.log");
    reveal_strlit("hf-mount");
    reveal_strlit("Application Support");
    reveal_strlit("/Library/Application Support/hf-mount/background.log");
    let b = base@;
    let mac = Platform::MacOs;
    let library = platform::spec_join(mac, b, "Library"@);
    assert(library =~= b + seq!['/'] + "Library"@);
    let agents = platform::spec_join(mac, library, "LaunchAgents"@);
    assert(agents =~= library + seq!['/'] + "LaunchAgents"@);
    let file = "co.huggingface.hf-mount-gui-autostart"@ + ".plist"@;
    assert(platform::spec_join(mac, agents, file) =~= b
        + "/Library/LaunchAgents/co.huggingface.hf-mount-gui-autostart.plist"@);
    let support = platform::spec_join(mac, library, "Application Support"@);
    assert(support =~= library + seq!['/'] + "Application Support"@);
    let settings = platform::spec_join(mac, support, "hf-mount"@);
    assert(settings =~= support + seq!['/'] + "hf-mount"@);
    assert(platform::spec_join(mac, settings, "background.log"@) =~= b
        + "/Library/Application Support/hf-mount/background.log"@);
    let linux = Platform::Linux;
    let config = platform::spec_join(linux, b, ".config"@);
    assert(config =~= b + "/.config"@);
    let entries = platform::spec_join(linux, config, "autostart"@);
    assert(entries =~= config + seq!['/'] + "autostart"@);
    assert(platform::spec_join(linux, entries, "hf-mount.desktop"@) =~= b
        + "/.config/autostart/hf-mount.desktop"@);
}

/// A user without a home has no entry.
pub proof fn law_no_home_no_entry(host: Host, dirs: UserDirs, exe: Seq<char>, enabled: bool)
    requires
        !(host.platform is Windows),
        dirs.home is None,
        dirs.xdg_config_home is None,
    ensures
        autostart::spec_autostart_step(host, dirs, exe, enabled) == Err::<
            autostart::AutostartStepView,
            Seq<char>,
        >("HOME is not set."@),
{
}

/// A mount starts at login where there is a task for it on Windows, and a file
/// for it elsewhere.
pub proof fn law_entries_are_found(platform: Platform, dirs: UserDirs, found: Option<bool>, exists: bool, home: String)
    ensures
        autostart::spec_autostart_enabled(
            Platform::Windows,
            dirs,
            AutostartEvidence::TaskQuery(found),
        ) <==> found == Some(true),
        !(platform is Windows) && dirs.home == Some(home) ==> autostart::spec_autostart_enabled(
            platform,
            dirs,
            AutostartEvidence::File(exists),
        ) == exists,
{
}

/// Setting the entry fails where its command did or its file could not be
/// written. Removing one that is gone does not.
pub proof fn law_entries_that_cannot_be_set(run: CommandRun, still_there: bool, path: String, error: String)
    ensures
        autostart::spec_autostart_failure(AutostartOutcome::Written) is None,
        autostart::spec_autostart_failure(AutostartOutcome::Removed) is None,
        autostart::spec_autostart_failure(AutostartOutcome::NotWritten { path, error }) == Some(
            "Failed to write "@ + path@ + ": "@ + error@,
        ),
        autostart::spec_autostart_failure(AutostartOutcome::NotRemoved { path, error }) == Some(
            "Failed to remove "@ + path@ + ": "@ + error@,
        ),
        autostart::spec_autostart_failure(
            AutostartOutcome::DirNotCreated { dir: path, error },
        ) == Some("Failed to create "@ + path@ + ": "@ + error@),
        autostart::spec_autostart_failure(AutostartOutcome::TaskCreated(run)) is None <==> (
        run matches CommandRun::Ended(output) && output.success),
        autostart::spec_autostart_failure(AutostartOutcome::TaskRemoved { run, still_there }) is None
            <==> (run matches CommandRun::Ended(output) && (output.success || !still_there)),
{
}

// ── The compact window ──────────────────────────────────────────────────

/// The compact window keeps 80 lines, the newest, and shows a status as it is
/// set.
pub proof fn law_the_compact_log(
    s: compact::CompactStatusView,
    line: Seq<char>,
    state: MountState,
    headline: Seq<char>,
    detail: Seq<char>,
)
    ensures
        s.log.len() < 80 ==> s.logged(line).log == s.log.push(line),
        s.log.len() == 80 ==> s.logged(line).log == s.log.skip(1).push(line),
        s.logged(line).state == s.state && s.logged(line).headline == s.headline && s.logged(
            line,
        ).detail == s.detail,
        s.with(state, headline, detail).state == state,
        s.with(state, headline, detail).headline == headline,
        s.with(state, headline, detail).detail == detail,
        s.with(state, headline, detail).log.last() == headline + ": "@ + detail,
        compact::CompactStatusView::initial().state is Ready,
        compact::CompactStatusView::initial().log == seq!["Ready"@],
{
    if s.log.len() == 80 {
        assert(s.log.push(line).skip(1) =~= s.log.skip(1).push(line));
    }
}

/// The compact window mounts on the last drive on Windows, and elsewhere in the
/// directory for temporary files.
pub proof fn law_the_compact_mount_point(dir: Seq<char>)
    requires
        dir.len() > 0,
        dir.last() != '/',
    ensures
        compact::spec_default_mount_point(Platform::Windows, dir) == "Z:"@,
        compact::spec_default_mount_point(Platform::Linux, dir) == dir + "/hf-mount"@,
        compact::spec_default_mount_point(Platform::MacOs, dir) == dir + "/hf-mount"@,
{
    reveal_strlit("hf-mount");
    reveal_strlit("/hf-mount");
    assert(dir + seq!['/'] + "hf-mount"@ =~= dir + "/hf-mount"@);
}

/// The compact window checks what the other does, and on Linux only that there
/// is a mount point.
pub proof fn law_the_compact_checks(target: Seq<char>, f: Findings)
    ensures
        ({
            let checks = compact::spec_preflight(Platform::Windows, target, f);
            let path = text::spec_trim(target);
            let is_drive = windows::spec_drive_letter(path) is Some;
            &&& checks.len() == 4
            &&& checks[0].level is Fail <==> !f.elevated
            &&& checks[1].level is Fail <==> !f.mount_tool_exists || !f.umount_tool_exists
            &&& checks[2].level is Fail <==> f.elevated && (f.udp_port is Err || f.tcp_port is Err)
            &&& checks[3].level is Fail <==> path.len() == 0 || (is_drive && f.target_exists) || (
            !is_drive && (!f.target_is_absolute || (f.target_exists && !f.target_is_dir)))
            &&& checks[3].level is Pass <==> is_drive && !f.target_exists
        }),
        ({
            let checks = compact::spec_preflight(Platform::Linux, target, f);
            &&& checks.len() == 1
            &&& checks[0].level is Fail <==> text::spec_trim(target).len() == 0
            &&& checks[0].level is Pass <==> text::spec_trim(target).len() > 0
        }),
        compact::spec_preflight(Platform::MacOs, target, f) == preflight::spec_preflight(
            Platform::MacOs,
            target,
            f,
        ),
{
    let path = text::spec_trim(target);
    assert(path.len() == 0 ==> windows::spec_drive_letter(path) is None);
}

/// The compact window mounts what its form names, and where.
pub proof fn law_compact_forms_name_their_source(
    source: Source,
    app: CompactApp,
    id: Seq<char>,
    target: Seq<char>,
    revision: Seq<char>,
)
    requires
        compact::is_form_source(source, app),
        desktop_laws::is_tidy(id),
        desktop_laws::is_padded(app.source_id@, id),
        desktop_laws::is_tidy(target),
        desktop_laws::is_padded(app.mount_point@, target),
        desktop_laws::is_tidy(revision),
        desktop_laws::is_padded(app.revision@, revision) || (text::is_blank(app.revision@)
            && revision == "main"@),
    ensures
        match source {
            Source::Repo { repo_id, mount_point, revision: r } => app.source is Repo && repo_id@
                == id && mount_point@ == target && r@ == revision,
            Source::Bucket { bucket_id, mount_point } => app.source is Bucket && bucket_id@ == id
                && mount_point@ == target,
        },
{
    let none = Seq::<char>::empty();
    desktop_laws::law_blanks_are_left_out(none, app.source_id@, id, none);
    desktop_laws::law_blanks_are_left_out(none, app.mount_point@, target, none);
    if desktop_laws::is_padded(app.revision@, revision) {
        desktop_laws::law_blanks_are_left_out(none, app.revision@, revision, "main"@);
    } else {
        desktop_laws::law_blanks_are_left_out(app.revision@, app.source_id@, id, "main"@);
    }
}

/// The compact window asks for what is in its form, and for no file with a
/// token.
pub proof fn law_compact_forms_set_their_options(options: MountOptions, app: CompactApp, cache: Seq<char>)
    requires
        compact::is_form_options(options, app),
        desktop_laws::is_tidy(cache),
        desktop_laws::is_padded(app.cache_dir@, cache),
    ensures
        options.cache_dir@ == cache,
        options.token_file is None,
        !options.nfs_allow_unsafe_loopback,
        app.source is Repo ==> options.read_only,
        app.source is Bucket ==> options.read_only == app.read_only,
        text::is_blank(app.hf_token@) ==> options.hf_token is None,
        text::is_blank(app.hub_endpoint@) ==> options.hub_endpoint@ == "https://huggingface.co"@,
        desktop_laws::is_tidy(app.hf_token@) ==> (options.hf_token matches Some(t) && t@
            == app.hf_token@),
        desktop_laws::is_tidy(app.hub_endpoint@) ==> options.hub_endpoint@ == app.hub_endpoint@,
{
    let none = Seq::<char>::empty();
    let default = "https://huggingface.co"@;
    desktop_laws::law_blanks_are_left_out(none, app.cache_dir@, cache, none);
    assert(text::is_blank(none));
    assert(none + app.hf_token@ + none =~= app.hf_token@);
    assert(none + app.hub_endpoint@ + none =~= app.hub_endpoint@);
    assert(desktop_laws::is_padded(app.hf_token@, app.hf_token@));
    assert(desktop_laws::is_padded(app.hub_endpoint@, app.hub_endpoint@));
    if text::is_blank(app.hf_token@) {
        desktop_laws::law_blanks_are_left_out(app.hf_token@, app.cache_dir@, cache, none);
    }
    if desktop_laws::is_tidy(app.hf_token@) {
        desktop_laws::law_blanks_are_left_out(none, app.hf_token@, app.hf_token@, none);
    }
    if text::is_blank(app.hub_endpoint@) {
        desktop_laws::law_blanks_are_left_out(app.hub_endpoint@, app.cache_dir@, cache, default);
    }
    if desktop_laws::is_tidy(app.hub_endpoint@) {
        desktop_laws::law_blanks_are_left_out(none, app.hub_endpoint@, app.hub_endpoint@, default);
    }
}

/// The compact window starts where no check failed and nothing is missing in
/// its form, and then shows the mount point that it prepares.
pub proof fn law_compact_starts(
    s: compact::CompactStatusView,
    app: CompactApp,
    checks: Seq<preflight::CheckItemView>,
    i: int,
)
    ensures
        compact::spec_start_problem(app) is None <==> text::spec_trim(app.source_id@).len() > 0
            && text::spec_trim(app.mount_point@).len() > 0 && text::spec_trim(app.cache_dir@).len()
            > 0,
        preflight::is_first_failure(checks, i) ==> compact::spec_start_status(s, app, checks)
            == s.with(
            MountState::Failed,
            "Setup check failed: "@ + checks[i].label,
            checks[i].detail,
        ),
        !preflight::any_level(checks, CheckLevel::Fail) ==> {
            let after = compact::spec_start_status(s, app, checks);
            match compact::spec_start_problem(app) {
                Some((headline, detail)) => after.state is Failed && after.headline == headline
                    && after.detail == detail,
                None => after.state is Mounting && after.detail == "Target: "@ + text::spec_trim(
                    app.mount_point@,
                ),
            }
        },
{
    if preflight::is_first_failure(checks, i) {
        assert(checks[i].level == CheckLevel::Fail);
        assert(preflight::any_level(checks, CheckLevel::Fail));
        let j = choose|j: int| preflight::is_first_failure(checks, j);
        assert(preflight::is_first_failure(checks, j));
        assert(i == j);
    }
}

/// The end of a mount is shown in the compact window, a panic as a failure.
pub proof fn law_compact_mounts_end(s: compact::CompactStatusView)
    ensures
        compact::spec_collected(s, true).state is Failed,
        s.state is Failed || s.state is Stopped ==> compact::spec_collected(s, false) == s,
        !(s.state is Failed) && !(s.state is Stopped) ==> compact::spec_collected(
            s,
            false,
        ).state is Stopped,
{
}

/// Starting and checking change nothing of the form of the compact window.
pub proof fn law_compact_forms_stay(a: CompactApp, b: CompactApp)
    ensures
        compact::same_form(a, b) && compact::same_mount(a, b) <==> a == (CompactApp {
            checks: a.checks,
            ..b
        }),
        compact::same_form(a, b) <==> a == (CompactApp {
            checks: a.checks,
            mount_thread: a.mount_thread,
            active_mount_point: a.active_mount_point,
            ..b
        }),
{
}

} // verus!
