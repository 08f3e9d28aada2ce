//! Starting with the user's session: a scheduled task on Windows, a launch agent
//! on macOS, an autostart entry on Linux desktops. All of them start the
//! background worker on the saved settings.
use crate::mount_command;
use crate::mount_command::{CommandLine, Host};
use crate::platform;
use crate::platform::{CommandRun, Platform};
use crate::text;
use crate::util;
use crate::util::UserDirs;
use crate::worker;
use vstd::prelude::*;

verus! {

pub open spec fn spec_autostart_name() -> Seq<char> {
    "hf-mount autostart"@
}

/// The name that the entry goes by.
pub fn autostart_name() -> (r: &'static str)
    ensures
        r@ == spec_autostart_name(),
{
    "hf-mount autostart"
}

pub open spec fn spec_autostart_label() -> Seq<char> {
    "co.huggingface.hf-mount-gui-autostart"@
}

/// The label of the launch agent.
pub fn autostart_label() -> (r: &'static str)
    ensures
        r@ == spec_autostart_label(),
{
    "co.huggingface.hf-mount-gui-autostart"
}

// ── Quoting ─────────────────────────────────────────────────────────────

/// How a character is written in XML.
pub open spec fn xml_char(c: char) -> Seq<char> {
    if c == '&' {
        "&amp;"@
    } else if c == '<' {
        "&lt;"@
    } else if c == '>' {
        "&gt;"@
    } else if c == '"' {
        "&quot;"@
    } else if c == '\'' {
        "&apos;"@
    } else {
        seq![c]
    }
}

/// How a text is written in XML.
pub open spec fn spec_xml_escape(s: Seq<char>) -> Seq<char>
    decreases s.len(),
{
    if s.len() == 0 {
        s
    } else {
        spec_xml_escape(s.drop_last()) + xml_char(s.last())
    }
}

/// How a text is written in XML.
pub fn xml_escape(s: &str) -> (r: String)
    ensures
        r@ == spec_xml_escape(s@),
{
    let chars = text::to_chars(s);
    let mut out = String::new();
    let mut i: usize = 0;
    assert(chars@.take(0) =~= Seq::<char>::empty());
    while i < chars.len()
        invariant
            i <= chars@.len(),
            out@ == spec_xml_escape(chars@.take(i as int)),
        decreases chars@.len() - i,
    {
        assert(chars@.take(i + 1).drop_last() =~= chars@.take(i as int));
        let ghost before = out@;
        let c: char = chars[i];
        if c == '&' {
            out.append("&amp;");
        } else if c == '<' {
            out.append("&lt;");
        } else if c == '>' {
            out.append("&gt;");
        } else if c == '"' {
            out.append("&quot;");
        } else if c == '\'' {
            out.append("&apos;");
        } else {
            out.push(c);
            assert(out@ =~= before + seq![c]);
        }
        i = i + 1;
    }
    assert(chars@.take(i as int) =~= s@);
    out
}

/// How a character is written inside double quotes.
pub open spec fn quoted_char(c: char) -> Seq<char> {
    if c == '\\' {
        "\\\\"@
    } else if c == '"' {
        "\\\""@
    } else {
        seq![c]
    }
}

/// How a text is written inside double quotes.
pub open spec fn spec_quoted(s: Seq<char>) -> Seq<char>
    decreases s.len(),
{
    if s.len() == 0 {
        s
    } else {
        spec_quoted(s.drop_last()) + quoted_char(s.last())
    }
}

/// A program as one argument of the command line of a desktop entry.
pub fn desktop_exec_quote(s: &str) -> (r: String)
    ensures
        r@ == "\""@ + spec_quoted(s@) + "\""@,
{
    let chars = text::to_chars(s);
    let mut inner = String::new();
    let mut i: usize = 0;
    assert(chars@.take(0) =~= Seq::<char>::empty());
    while i < chars.len()
        invariant
            i <= chars@.len(),
            inner@ == spec_quoted(chars@.take(i as int)),
        decreases chars@.len() - i,
    {
        assert(chars@.take(i + 1).drop_last() =~= chars@.take(i as int));
        let ghost before = inner@;
        let c: char = chars[i];
        if c == '\\' {
            inner.append("\\\\");
        } else if c == '"' {
            inner.append("\\\"");
        } else {
            inner.push(c);
            assert(inner@ =~= before + seq![c]);
        }
        i = i + 1;
    }
    assert(chars@.take(i as int) =~= s@);
    text::concat3("\"", inner.as_str(), "\"")
}

/// No character that XML gives a meaning to, but for the start of an escape, is
/// left in an escaped text.
pub proof fn law_escaped_text_has_no_markup(s: Seq<char>, c: char)
    requires
        c == '<' || c == '>' || c == '"' || c == '\'',
    ensures
        !spec_xml_escape(s).contains(c),
    decreases s.len(),
{
    reveal_strlit("&amp;");
    reveal_strlit("&lt;");
    reveal_strlit("&gt;");
    reveal_strlit("&quot;");
    reveal_strlit("&apos;");
    if s.len() > 0 {
        law_escaped_text_has_no_markup(s.drop_last(), c);
        let a = spec_xml_escape(s.drop_last());
        let b = xml_char(s.last());
        assert(!b.contains(c));
        if (a + b).contains(c) {
            let i = (a + b).index_of(c);
            if i < a.len() {
                assert(a[i] == c);
                assert(a.contains(c));
            } else {
                assert(b[i - a.len()] == c);
                assert(b.contains(c));
            }
        }
    }
}

// ── The entry ───────────────────────────────────────────────────────────

/// Where the entry is; on Windows it is no file.
pub open spec fn spec_autostart_path(platform: Platform, dirs: UserDirs) -> Result<
    Seq<char>,
    Seq<char>,
> {
    match platform {
        Platform::MacOs => match dirs.home {
            Some(home) => Ok(
                platform::spec_join(
                    platform,
                    platform::spec_join(
                        platform,
                        platform::spec_join(platform, home@, "Library"@),
                        "LaunchAgents"@,
                    ),
                    spec_autostart_label() + ".plist"@,
                ),
            ),
            None => Err("HOME is not set."@),
        },
        _ => match (dirs.xdg_config_home, dirs.home) {
            (Some(base), _) => Ok(
                platform::spec_join(
                    platform,
                    platform::spec_join(platform, base@, "autostart"@),
                    "hf-mount.desktop"@,
                ),
            ),
            (None, Some(home)) => Ok(
                platform::spec_join(
                    platform,
                    platform::spec_join(
                        platform,
                        platform::spec_join(platform, home@, ".config"@),
                        "autostart"@,
                    ),
                    "hf-mount.desktop"@,
                ),
            ),
            (None, None) => Err("HOME is not set."@),
        },
    }
}

/// Where the entry is; on Windows it is no file.
pub fn autostart_path(platform: Platform, dirs: &UserDirs) -> (r: Result<String, String>)
    ensures
        util::result_view(r) == spec_autostart_path(platform, *dirs),
{
    if platform == Platform::MacOs {
        return match &dirs.home {
            Some(home) => {
                let library = platform::join(platform, home.as_str(), "Library");
                let agents = platform::join(platform, library.as_str(), "LaunchAgents");
                let name = text::concat(autostart_label(), ".plist");
                Ok(platform::join(platform, agents.as_str(), name.as_str()))
            },
            None => Err("HOME is not set.".to_owned()),
        };
    }
    let base = match &dirs.xdg_config_home {
        Some(base) => base.clone(),
        None => match &dirs.home {
            Some(home) => platform::join(platform, home.as_str(), ".config"),
            None => {
                return Err("HOME is not set.".to_owned());
            },
        },
    };
    let dir = platform::join(platform, base.as_str(), "autostart");
    Ok(platform::join(platform, dir.as_str(), "hf-mount.desktop"))
}

/// The launch agent that starts the program `exe`.
pub open spec fn spec_launch_agent(exe: Seq<char>, log_path: Seq<char>) -> Seq<char> {
    "<?xml version=\"1.0\" encoding=\"UTF-8\"?>\n<!DOCTYPE plist PUBLIC \"-//Apple//DTD PLIST 1.0//EN\" \"http://www.apple.com/DTDs/PropertyList-1.0.dtd\">\n<plist version=\"1.0\">\n<dict>\n<key>Label</key>\n<string>"@
        + spec_autostart_label() + "</string>\n<key>ServiceDescription</key>\n<string>"@
        + spec_xml_escape(spec_autostart_name())
        + "</string>\n<key>ProgramArguments</key>\n<array>\n<string>"@ + spec_xml_escape(exe)
        + "</string>\n<string>"@ + worker::spec_background_worker_arg()
        + "</string>\n</array>\n<key>RunAtLoad</key>\n<true/>\n<key>StandardOutPath</key>\n<string>"@
        + spec_xml_escape(log_path) + "</string>\n<key>StandardErrorPath</key>\n<string>"@
        + spec_xml_escape(log_path) + "</string>\n</dict>\n</plist>\n"@
}

/// The launch agent that starts the program `exe`.
pub fn launch_agent(exe: &str, log_path: &str) -> (r: String)
    ensures
        r@ == spec_launch_agent(exe@, log_path@),
{
    let log_text = xml_escape(log_path);
    let mut r =
        "<?xml version=\"1.0\" encoding=\"UTF-8\"?>\n<!DOCTYPE plist PUBLIC \"-//Apple//DTD PLIST 1.0//EN\" \"http://www.apple.com/DTDs/PropertyList-1.0.dtd\">\n<plist version=\"1.0\">\n<dict>\n<key>Label</key>\n<string>".to_owned();
    r.append(autostart_label());
    r.append("</string>\n<key>ServiceDescription</key>\n<string>");
    r.append(xml_escape(autostart_name()).as_str());
    r.append("</string>\n<key>ProgramArguments</key>\n<array>\n<string>");
    r.append(xml_escape(exe).as_str());
    r.append("</string>\n<string>");
    r.append(worker::background_worker_arg());
    r.append(
        "</string>\n</array>\n<key>RunAtLoad</key>\n<true/>\n<key>StandardOutPath</key>\n<string>",
    );
    r.append(log_text.as_str());
    r.append("</string>\n<key>StandardErrorPath</key>\n<string>");
    r.append(log_text.as_str());
    r.append("</string>\n</dict>\n</plist>\n");
    r
}

/// The desktop entry that starts the program `exe`.
pub open spec fn spec_desktop_entry(exe: Seq<char>) -> Seq<char> {
    "[Desktop Entry]\nType=Application\nName="@ + spec_autostart_name() + "\nExec="@ + ("\""@
        + spec_quoted(exe) + "\""@) + " "@ + worker::spec_background_worker_arg()
        + "\nTerminal=false\nX-GNOME-Autostart-enabled=true\n"@
}

/// The desktop entry that starts the program `exe`.
pub fn desktop_entry(exe: &str) -> (r: String)
    ensures
        r@ == spec_desktop_entry(exe@),
{
    let mut r = "[Desktop Entry]\nType=Application\nName=".to_owned();
    r.append(autostart_name());
    r.append("\nExec=");
    r.append(desktop_exec_quote(exe).as_str());
    r.append(" ");
    r.append(worker::background_worker_arg());
    r.append("\nTerminal=false\nX-GNOME-Autostart-enabled=true\n");
    r
}

/// What the scheduled task runs.
pub open spec fn spec_task_run(exe: Seq<char>) -> Seq<char> {
    "\""@ + text::spec_replace(exe, '"', "\\\""@) + "\" "@ + worker::spec_background_worker_arg()
}

/// What the scheduled task runs.
pub fn task_run(exe: &str) -> (r: String)
    ensures
        r@ == spec_task_run(exe@),
{
    let escaped = text::replace(exe, '"', "\\\"");
    let mut r = text::concat3("\"", escaped.as_str(), "\" ");
    r.append(worker::background_worker_arg());
    r
}

/// How the entry is made or taken away.
#[derive(PartialEq, Eq, Debug)]
pub enum AutostartStep {
    /// Write the file, with its directory where there is none.
    WriteFile { path: String, content: String },
    /// Remove the file where it is there.
    RemoveFile { path: String },
    Run(CommandLine),
}

pub ghost enum AutostartStepView {
    WriteFile { path: Seq<char>, content: Seq<char> },
    RemoveFile { path: Seq<char> },
    Run(mount_command::CommandLineView),
}

impl View for AutostartStep {
    type V = AutostartStepView;

    open spec fn view(&self) -> AutostartStepView {
        match *self {
            AutostartStep::WriteFile { path, content } => AutostartStepView::WriteFile {
                path: path@,
                content: content@,
            },
            AutostartStep::RemoveFile { path } => AutostartStepView::RemoveFile { path: path@ },
            AutostartStep::Run(command) => AutostartStepView::Run(command@),
        }
    }
}

/// The arguments that have the task made or taken away.
pub open spec fn spec_task_args(exe: Seq<char>, enabled: bool) -> Seq<Seq<char>> {
    if enabled {
        seq![
            "/Create"@,
            "/TN"@,
            spec_autostart_name(),
            "/TR"@,
            spec_task_run(exe),
            "/SC"@,
            "ONLOGON"@,
            "/RL"@,
            "HIGHEST"@,
            "/F"@,
        ]
    } else {
        seq!["/Delete"@, "/TN"@, spec_autostart_name(), "/F"@]
    }
}

/// How the entry for the program `exe` is made or taken away, or why it cannot
/// be.
pub open spec fn spec_autostart_step(
    host: Host,
    dirs: UserDirs,
    exe: Seq<char>,
    enabled: bool,
) -> Result<AutostartStepView, Seq<char>> {
    if host.platform == Platform::Windows {
        Ok(
            AutostartStepView::Run(
                mount_command::CommandLineView {
                    program: host.spec_tool("schtasks.exe"@),
                    args: spec_task_args(exe, enabled),
                },
            ),
        )
    } else {
        match spec_autostart_path(host.platform, dirs) {
            Err(e) => Err(e),
            Ok(path) => if !enabled {
                Ok(AutostartStepView::RemoveFile { path })
            } else if host.platform == Platform::Linux {
                Ok(AutostartStepView::WriteFile { path, content: spec_desktop_entry(exe) })
            } else {
                match util::spec_config_file(host.platform, dirs, "background.log"@) {
                    Err(e) => Err(e),
                    Ok(log_path) => Ok(
                        AutostartStepView::WriteFile {
                            path,
                            content: spec_launch_agent(exe, log_path),
                        },
                    ),
                }
            },
        }
    }
}

/// How the entry for the program `exe` is made or taken away.
pub fn set_autostart_enabled(host: &Host, dirs: &UserDirs, exe: &str, enabled: bool) -> (r: Result<
    AutostartStep,
    String,
>)
    ensures
        match r {
            Ok(step) => spec_autostart_step(*host, *dirs, exe@, enabled) == Ok::<
                AutostartStepView,
                Seq<char>,
            >(step@),
            Err(e) => spec_autostart_step(*host, *dirs, exe@, enabled) == Err::<
                AutostartStepView,
                Seq<char>,
            >(e@),
        },
{
    match host.platform {
        Platform::Windows => {
            let program = host.tool("schtasks.exe");
            let name = autostart_name();
            if enabled {
                let run = task_run(exe);
                let args = [
                    "/Create",
                    "/TN",
                    name,
                    "/TR",
                    run.as_str(),
                    "/SC",
                    "ONLOGON",
                    "/RL",
                    "HIGHEST",
                    "/F",
                ];
                let c = mount_command::command_line(program.as_str(), args.as_slice());
                assert(c@.args =~= spec_task_args(exe@, enabled));
                Ok(AutostartStep::Run(c))
            } else {
                let args = ["/Delete", "/TN", name, "/F"];
                let c = mount_command::command_line(program.as_str(), args.as_slice());
                assert(c@.args =~= spec_task_args(exe@, enabled));
                Ok(AutostartStep::Run(c))
            }
        },
        platform => {
            let path = match autostart_path(platform, dirs) {
                Err(e) => {
                    return Err(e);
                },
                Ok(path) => path,
            };
            if !enabled {
                return Ok(AutostartStep::RemoveFile { path });
            }
            if platform == Platform::Linux {
                return Ok(AutostartStep::WriteFile { path, content: desktop_entry(exe) });
            }
            match worker::worker_log_path(platform, dirs) {
                Err(e) => Err(e),
                Ok(log_path) => Ok(
                    AutostartStep::WriteFile { path, content: launch_agent(exe, log_path.as_str()) },
                ),
            }
        },
    }
}

/// What shows whether the entry is there.
#[derive(PartialEq, Eq, Debug)]
pub enum AutostartEvidence {
    /// Whether the query for the task succeeded, on Windows; `None` where it
    /// could not be run.
    TaskQuery(Option<bool>),
    /// The file of the entry exists.
    File(bool),
}

/// The entry is there.
pub open spec fn spec_autostart_enabled(
    platform: Platform,
    dirs: UserDirs,
    evidence: AutostartEvidence,
) -> bool {
    match evidence {
        AutostartEvidence::TaskQuery(found) => platform == Platform::Windows && found == Some(true),
        AutostartEvidence::File(exists) => platform != Platform::Windows && spec_autostart_path(
            platform,
            dirs,
        ) is Ok && exists,
    }
}

/// Tells whether the entry is there.
pub fn autostart_is_enabled(platform: Platform, dirs: &UserDirs, evidence: &AutostartEvidence) -> (r:
    bool)
    ensures
        r == spec_autostart_enabled(platform, *dirs, *evidence),
{
    match evidence {
        AutostartEvidence::TaskQuery(found) => platform == Platform::Windows && match found {
            Some(success) => *success,
            None => false,
        },
        AutostartEvidence::File(exists) => platform != Platform::Windows && *exists
            && autostart_path(platform, dirs).is_ok(),
    }
}

/// The command that shows whether the task is there.
pub fn task_query_command(host: &Host) -> (r: CommandLine)
    ensures
        r@ == (mount_command::CommandLineView {
            program: host.spec_tool("schtasks.exe"@),
            args: seq!["/Query"@, "/TN"@, spec_autostart_name()],
        }),
{
    let program = host.tool("schtasks.exe");
    let args = ["/Query", "/TN", autostart_name()];
    let c = mount_command::command_line(program.as_str(), args.as_slice());
    assert(c@.args =~= seq!["/Query"@, "/TN"@, spec_autostart_name()]);
    c
}

pub open spec fn spec_task_created(run: CommandRun) -> Option<Seq<char>> {
    platform::spec_run_failure(run, "Failed to create scheduled task: "@, "schtasks /Create"@)
}

/// What is reported of the command that makes the task.
pub fn task_created(run: &CommandRun) -> (r: Result<(), String>)
    ensures
        util::failure_view(r) == spec_task_created(*run),
{
    platform::run_result(run, "Failed to create scheduled task: ", "schtasks /Create")
}

/// A task that is not there afterwards is gone, whatever the command says.
pub open spec fn spec_task_removed(run: CommandRun, still_there: bool) -> Option<Seq<char>> {
    if run is Ended && !still_there {
        None
    } else {
        platform::spec_run_failure(run, "Failed to remove scheduled task: "@, "schtasks /Delete"@)
    }
}

/// What is reported of the command that takes the task away.
pub fn task_removed(run: &CommandRun, still_there: bool) -> (r: Result<(), String>)
    ensures
        util::failure_view(r) == spec_task_removed(*run, still_there),
{
    let ended: bool = match run {
        CommandRun::NotRun(_) => false,
        CommandRun::Ended(_) => true,
    };
    if ended && !still_there {
        return Ok(());
    }
    platform::run_result(run, "Failed to remove scheduled task: ", "schtasks /Delete")
}

/// What became of a step.
#[derive(PartialEq, Eq, Debug)]
pub enum AutostartOutcome {
    /// The file was written.
    Written,
    /// The file was removed, or there was none.
    Removed,
    DirNotCreated { dir: String, error: String },
    NotWritten { path: String, error: String },
    NotRemoved { path: String, error: String },
    TaskCreated(CommandRun),
    /// `still_there` is what a query showed after the command.
    TaskRemoved { run: CommandRun, still_there: bool },
}

/// Why a step did not come out as it should.
pub open spec fn spec_autostart_failure(outcome: AutostartOutcome) -> Option<Seq<char>> {
    match outcome {
        AutostartOutcome::Written | AutostartOutcome::Removed => None,
        AutostartOutcome::DirNotCreated { dir, error } => Some(
            "Failed to create "@ + dir@ + ": "@ + error@,
        ),
        AutostartOutcome::NotWritten { path, error } => Some(
            "Failed to write "@ + path@ + ": "@ + error@,
        ),
        AutostartOutcome::NotRemoved { path, error } => Some(
            "Failed to remove "@ + path@ + ": "@ + error@,
        ),
        AutostartOutcome::TaskCreated(run) => spec_task_created(run),
        AutostartOutcome::TaskRemoved { run, still_there } => spec_task_removed(run, still_there),
    }
}

fn file_failure(before: &str, path: &str, error: &str) -> (r: String)
    ensures
        r@ == before@ + path@ + ": "@ + error@,
{
    let mut r = text::concat3(before, path, ": ");
    r.append(error);
    r
}

/// What is reported of a step.
pub fn autostart_result(outcome: &AutostartOutcome) -> (r: Result<(), String>)
    ensures
        util::failure_view(r) == spec_autostart_failure(*outcome),
{
    match outcome {
        AutostartOutcome::Written | AutostartOutcome::Removed => Ok(()),
        AutostartOutcome::DirNotCreated { dir, error } => Err(
            file_failure("Failed to create ", dir.as_str(), error.as_str()),
        ),
        AutostartOutcome::NotWritten { path, error } => Err(
            file_failure("Failed to write ", path.as_str(), error.as_str()),
        ),
        AutostartOutcome::NotRemoved { path, error } => Err(
            file_failure("Failed to remove ", path.as_str(), error.as_str()),
        ),
        AutostartOutcome::TaskCreated(run) => task_created(run),
        AutostartOutcome::TaskRemoved { run, still_there } => task_removed(run, *still_there),
    }
}

// ── The entries of a machine ────────────────────────────────────────────

/// What a machine holds for the start of a session: the content of each file,
/// and what each task runs.
#[verifier::ext_equal]
pub ghost struct Entries {
    pub files: Map<Seq<char>, Seq<char>>,
    pub tasks: Map<Seq<char>, Seq<char>>,
}

impl Entries {
    /// The entries once a step was carried out.
    pub open spec fn after(self, step: AutostartStepView) -> Entries {
        match step {
            AutostartStepView::WriteFile { path, content } => Entries {
                files: self.files.insert(path, content),
                ..self
            },
            AutostartStepView::RemoveFile { path } => Entries {
                files: self.files.remove(path),
                ..self
            },
            AutostartStepView::Run(command) => if makes_task(command) {
                Entries { tasks: self.tasks.insert(command.args[2], command.args[4]), ..self }
            } else if removes_task(command) {
                Entries { tasks: self.tasks.remove(command.args[2]), ..self }
            } else {
                self
            },
        }
    }

    /// What shows whether the entry is there.
    pub open spec fn evidence(self, platform: Platform, dirs: UserDirs) -> AutostartEvidence {
        if platform == Platform::Windows {
            AutostartEvidence::TaskQuery(Some(self.tasks.contains_key(spec_autostart_name())))
        } else {
            AutostartEvidence::File(
                spec_autostart_path(platform, dirs) matches Ok(path) && self.files.contains_key(path),
            )
        }
    }

    /// The entry is there.
    pub open spec fn is_enabled(self, platform: Platform, dirs: UserDirs) -> bool {
        spec_autostart_enabled(platform, dirs, self.evidence(platform, dirs))
    }
}

/// The command makes a task, or replaces it.
pub open spec fn makes_task(command: mount_command::CommandLineView) -> bool {
    command.args.len() >= 5 && command.args[0] == "/Create"@
}

/// The command takes a task away.
pub open spec fn removes_task(command: mount_command::CommandLineView) -> bool {
    command.args.len() >= 3 && command.args[0] == "/Delete"@
}

/// The command was run and succeeded.
pub open spec fn succeeded(run: CommandRun) -> bool {
    run matches CommandRun::Ended(output) && output.success
}

/// A step that was carried out where there was `before`, and came out as
/// `outcome`, may leave `after`. One that succeeded did what it is there for. A
/// file that is not there needs no removal, and a task command that fails
/// leaves all as it is.
pub open spec fn may_leave(
    before: Entries,
    step: AutostartStepView,
    outcome: AutostartOutcome,
    after: Entries,
) -> bool {
    match step {
        AutostartStepView::WriteFile { .. } => match outcome {
            AutostartOutcome::Written => after == before.after(step),
            AutostartOutcome::DirNotCreated { .. } | AutostartOutcome::NotWritten { .. } => true,
            _ => false,
        },
        AutostartStepView::RemoveFile { path } => match outcome {
            AutostartOutcome::Removed => after == before.after(step),
            AutostartOutcome::NotRemoved { .. } => before.files.contains_key(path),
            _ => false,
        },
        AutostartStepView::Run(command) => match outcome {
            AutostartOutcome::TaskCreated(run) => makes_task(command) && after == (if succeeded(
                run,
            ) {
                before.after(step)
            } else {
                before
            }),
            AutostartOutcome::TaskRemoved { run, still_there } => {
                &&& removes_task(command)
                &&& after == if succeeded(run) {
                    before.after(step)
                } else {
                    before
                }
                &&& still_there == after.tasks.contains_key(command.args[2])
            },
            _ => false,
        },
    }
}

/// Whatever was there before: once the entry was set without a failure, it is
/// found to be as it was set.
pub proof fn law_autostart_is_as_it_was_set(
    host: Host,
    dirs: UserDirs,
    exe: Seq<char>,
    enabled: bool,
    step: AutostartStepView,
    outcome: AutostartOutcome,
    before: Entries,
    after: Entries,
)
    requires
        spec_autostart_step(host, dirs, exe, enabled) == Ok::<AutostartStepView, Seq<char>>(step),
        may_leave(before, step, outcome, after),
        spec_autostart_failure(outcome) is None,
    ensures
        after.is_enabled(host.platform, dirs) == enabled,
{
    lemma_task_commands_differ();
}

/// Setting the entry once more to what it is set to changes nothing.
pub proof fn law_setting_autostart_again(
    host: Host,
    dirs: UserDirs,
    exe: Seq<char>,
    enabled: bool,
    step: AutostartStepView,
    first: AutostartOutcome,
    second: AutostartOutcome,
    before: Entries,
    between: Entries,
    after: Entries,
)
    requires
        spec_autostart_step(host, dirs, exe, enabled) == Ok::<AutostartStepView, Seq<char>>(step),
        may_leave(before, step, first, between),
        spec_autostart_failure(first) is None,
        may_leave(between, step, second, after),
        spec_autostart_failure(second) is None,
    ensures
        after == between,
{
    lemma_task_commands_differ();
}

/// An entry that is not there is taken away without a failure, as long as the
/// command for it can be run.
pub proof fn law_removing_no_entry_succeeds(
    host: Host,
    dirs: UserDirs,
    exe: Seq<char>,
    step: AutostartStepView,
    outcome: AutostartOutcome,
    before: Entries,
    after: Entries,
)
    requires
        spec_autostart_step(host, dirs, exe, false) == Ok::<AutostartStepView, Seq<char>>(step),
        may_leave(before, step, outcome, after),
        !before.is_enabled(host.platform, dirs),
        outcome matches AutostartOutcome::TaskRemoved { run, .. } ==> run is Ended,
    ensures
        spec_autostart_failure(outcome) is None,
        after == before,
{
    lemma_task_commands_differ();
}

/// No command both makes a task and takes it away.
proof fn lemma_task_commands_differ()
    ensures
        "/Create"@ != "/Delete"@,
{
    reveal_strlit("/Create");
    reveal_strlit("/Delete");
    assert("/Create"@[1] != "/Delete"@[1]);
}

/// On macOS and Linux the entry is there exactly when its file is.
pub proof fn law_the_entry_is_its_file(platform: Platform, dirs: UserDirs, exists: bool)
    requires
        platform != Platform::Windows,
        spec_autostart_path(platform, dirs) is Ok,
    ensures
        spec_autostart_enabled(platform, dirs, AutostartEvidence::File(exists)) == exists,
{
}

} // verus!
