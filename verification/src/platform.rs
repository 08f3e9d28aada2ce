//! What differs between operating systems: paths, commands and texts.
use crate::mount_command;
use crate::mount_command::{CommandLine, CommandOutput, Host, MountEvidence};
use crate::text;
use crate::windows;
use vstd::prelude::*;

verus! {

/// The operating systems that a mount runs on.
#[derive(Clone, Copy, PartialEq, Eq, Structural, Debug)]
pub enum Platform {
    Windows,
    MacOs,
    Linux,
}

// ── Paths ───────────────────────────────────────────────────────────────

/// A character that separates the components of a path.
pub open spec fn is_separator(platform: Platform, c: char) -> bool {
    c == '/' || (platform == Platform::Windows && c == '\\')
}

/// The separator that is written between components.
pub open spec fn separator(platform: Platform) -> Seq<char> {
    if platform == Platform::Windows {
        seq!['\\']
    } else {
        seq!['/']
    }
}

/// A path that is a Windows drive and no more: what follows it is relative to
/// the directory of that drive.
pub open spec fn is_bare_drive(platform: Platform, path: Seq<char>) -> bool {
    &&& platform == Platform::Windows
    &&& path.len() == 2
    &&& windows::is_ascii_letter(path[0])
    &&& path[1] == ':'
}

/// The path of `name` in the directory `base`.
pub open spec fn spec_join(platform: Platform, base: Seq<char>, name: Seq<char>) -> Seq<char> {
    if base.len() == 0 || is_separator(platform, base.last()) || is_bare_drive(platform, base) {
        base + name
    } else {
        base + separator(platform) + name
    }
}

/// The path of the component `name` in the directory `base`.
pub fn join(platform: Platform, base: &str, name: &str) -> (r: String)
    ensures
        r@ == spec_join(platform, base@, name@),
{
    let chars = text::to_chars(base);
    let n: usize = chars.len();
    let on_windows: bool = platform == Platform::Windows;
    let bare_drive: bool = on_windows && n == 2 && (('a' <= chars[0] && chars[0] <= 'z') || ('A'
        <= chars[0] && chars[0] <= 'Z')) && chars[1] == ':';
    let mut r = base.to_owned();
    if n > 0 && chars[n - 1] != '/' && !(on_windows && chars[n - 1] == '\\') && !bare_drive {
        if on_windows {
            r.push('\\');
            assert(r@ =~= base@ + seq!['\\']);
        } else {
            r.push('/');
            assert(r@ =~= base@ + seq!['/']);
        }
    }
    r.append(name);
    r
}

/// A path that starts at the root. On Windows that takes a drive or a share as
/// well as a separator, which the caller finds out.
pub open spec fn spec_is_absolute_unix(path: Seq<char>) -> bool {
    path.len() > 0 && path[0] == '/'
}

/// Tells whether a path of macOS or Linux starts at the root.
pub fn is_absolute_unix(path: &str) -> (r: bool)
    ensures
        r == spec_is_absolute_unix(path@),
{
    let chars = text::to_chars(path);
    chars.len() > 0 && chars[0] == '/'
}

// ── Texts ───────────────────────────────────────────────────────────────

/// The name of the operating system.
pub fn platform_label(platform: Platform) -> (r: &'static str)
    ensures
        r@ == match platform {
            Platform::Windows => "Windows"@,
            Platform::MacOs => "macOS"@,
            Platform::Linux => "Linux"@,
        },
{
    match platform {
        Platform::Windows => "Windows",
        Platform::MacOs => "macOS",
        Platform::Linux => "Linux",
    }
}

/// An example of a mount point.
pub fn default_mount_hint(platform: Platform) -> (r: &'static str)
    ensures
        r@ == if platform == Platform::Windows {
            "Z:"@
        } else {
            "/tmp/hf-mount"@
        },
{
    if platform == Platform::Windows {
        "Z:"
    } else {
        "/tmp/hf-mount"
    }
}

/// What makes a good mount point.
pub fn mount_point_hint(platform: Platform) -> (r: &'static str)
    ensures
        r@ == if platform == Platform::Windows {
            "Use an unused drive letter. Directory targets are less reliable."@
        } else {
            "Use an absolute folder path."@
        },
{
    if platform == Platform::Windows {
        "Use an unused drive letter. Directory targets are less reliable."
    } else {
        "Use an absolute folder path."
    }
}

/// The drive letters that are free. An empty mask means that they could not be
/// found out: then none is offered.
pub fn free_drive_letters(assigned_mask: u32) -> (r: Vec<char>)
    ensures
        forall|c: char|
            r@.contains(c) <==> assigned_mask != 0 && #[trigger] windows::is_free_drive(
                c,
                assigned_mask,
            ),
        forall|i: int, j: int| 0 <= i < j < r@.len() ==> r@[i] > r@[j],
{
    if assigned_mask == 0 {
        Vec::new()
    } else {
        windows::free_drive_letters(assigned_mask)
    }
}

/// The highest free letter, where there is one.
pub open spec fn is_best_drive(c: char, assigned_mask: u32) -> bool {
    &&& windows::is_free_drive(c, assigned_mask)
    &&& forall|other: char| #[trigger]
        windows::is_free_drive(other, assigned_mask) ==> other <= c
}

/// A letter is free.
pub open spec fn any_free_drive(assigned_mask: u32) -> bool {
    assigned_mask != 0 && exists|c: char| windows::is_free_drive(c, assigned_mask)
}

/// The mount point that is offered at first: the highest free drive letter on
/// Windows, and else a directory among the temporary files.
pub fn default_mount_point(platform: Platform, assigned_mask: u32, temp_dir: &str) -> (r: String)
    ensures
        platform != Platform::Windows ==> r@ == spec_join(platform, temp_dir@, "hf-mount"@),
        platform == Platform::Windows && any_free_drive(assigned_mask) ==> r@.len() == 2
            && is_best_drive(r@[0], assigned_mask) && r@[1] == ':',
        platform == Platform::Windows && !any_free_drive(assigned_mask) ==> r@ == "Z:"@,
{
    if platform != Platform::Windows {
        return join(platform, temp_dir, "hf-mount");
    }
    let free = free_drive_letters(assigned_mask);
    if free.len() == 0 {
        assert(forall|c: char| !free@.contains(c));
        assert(!any_free_drive(assigned_mask));
        return "Z:".to_owned();
    }
    let best: char = free[0];
    assert(free@.contains(best));
    assert(windows::is_free_drive(best, assigned_mask));
    assert forall|other: char| #[trigger] windows::is_free_drive(other, assigned_mask) implies other
        <= best by {
        assert(free@.contains(other));
        let i = free@.index_of(other);
        assert(free@[i] == other);
    }
    let mut r = String::new();
    r.push(best);
    r.push(':');
    r
}

// ── Unmounting and opening ──────────────────────────────────────────────

pub open spec fn spec_unmount_path(host: Host, mount_point: Seq<char>) -> mount_command::CommandLineView {
    match host.platform {
        Platform::Windows => mount_command::CommandLineView {
            program: host.spec_tool("umount.exe"@),
            args: seq!["-f"@, mount_command::spec_mount_target(mount_point)],
        },
        Platform::MacOs => mount_command::CommandLineView {
            program: "/sbin/umount"@,
            args: seq![mount_point],
        },
        Platform::Linux => mount_command::CommandLineView {
            program: "umount"@,
            args: seq![mount_point],
        },
    }
}

/// The command with which the window unmounts. `mount_point` is `None` where
/// the path is not text.
pub fn unmount_path(host: &Host, mount_point: Option<&str>) -> (r: Result<CommandLine, String>)
    ensures
        match (mount_point, r) {
            (Some(path), Ok(command)) => command@ == spec_unmount_path(*host, path@),
            (None, Err(e)) => e@ == "Mount point is not valid UTF-8"@,
            _ => false,
        },
{
    match mount_point {
        None => Err("Mount point is not valid UTF-8".to_owned()),
        Some(path) => {
            let command = match host.platform {
                Platform::Windows => {
                    let target = mount_command::windows_nfs_mount_target(path);
                    let program = host.tool("umount.exe");
                    let args = ["-f", target.as_str()];
                    let c = mount_command::command_line(program.as_str(), args.as_slice());
                    assert(c@.args =~= seq!["-f"@, target@]);
                    c
                },
                Platform::MacOs => {
                    let args = [path];
                    let c = mount_command::command_line("/sbin/umount", args.as_slice());
                    assert(c@.args =~= seq![path@]);
                    c
                },
                Platform::Linux => {
                    let args = [path];
                    let c = mount_command::command_line("umount", args.as_slice());
                    assert(c@.args =~= seq![path@]);
                    c
                },
            };
            Ok(command)
        },
    }
}

/// What came of running a command.
#[derive(PartialEq, Eq, Debug)]
pub enum CommandRun {
    /// It could not be run.
    NotRun(String),
    Ended(CommandOutput),
}

pub open spec fn spec_run_failure(
    run: CommandRun,
    not_run: Seq<char>,
    failed: Seq<char>,
) -> Option<Seq<char>> {
    match run {
        CommandRun::NotRun(e) => Some(not_run + e@),
        CommandRun::Ended(output) => if output.success {
            None
        } else {
            Some(
                failed + " failed with "@ + output.status@ + ": stdout="@ + text::spec_trim(
                    output.stdout@,
                ) + " stderr="@ + text::spec_trim(output.stderr@),
            )
        },
    }
}

/// What is reported of a command that could not be run, with `not_run` before
/// the reason, or that failed, with `failed` for its name.
pub fn run_result(run: &CommandRun, not_run: &str, failed: &str) -> (r: Result<(), String>)
    ensures
        match r {
            Ok(()) => spec_run_failure(*run, not_run@, failed@) is None,
            Err(e) => spec_run_failure(*run, not_run@, failed@) == Some(e@),
        },
{
    match run {
        CommandRun::NotRun(e) => Err(text::concat(not_run, e.as_str())),
        CommandRun::Ended(output) => {
            if output.success {
                return Ok(());
            }
            let mut e = failed.to_owned();
            e.append(" failed with ");
            e.append(output.status.as_str());
            e.append(": stdout=");
            e.append(text::trim(output.stdout.as_str()).as_str());
            e.append(" stderr=");
            e.append(text::trim(output.stderr.as_str()).as_str());
            Err(e)
        },
    }
}

/// What is reported of the unmount command.
pub fn unmount_path_result(run: &CommandRun) -> (r: Result<(), String>)
    ensures
        match r {
            Ok(()) => spec_run_failure(*run, "Failed to run unmount command: "@, "Unmount"@)
                is None,
            Err(e) => spec_run_failure(*run, "Failed to run unmount command: "@, "Unmount"@)
                == Some(e@),
        },
{
    run_result(run, "Failed to run unmount command: ", "Unmount")
}

/// The mount point that is to be opened.
#[derive(PartialEq, Eq, Debug)]
pub enum OpenTarget {
    /// None is recorded.
    Missing,
    /// The path is not text.
    NotText,
    Path(String),
}

/// The command that shows a mount point in the file manager.
pub fn open_mount_point(platform: Platform, target: &OpenTarget) -> (r: Result<CommandLine, String>)
    ensures
        match (*target, r) {
            (OpenTarget::Missing, Err(e)) => e@ == "No active mount point is recorded."@,
            (OpenTarget::NotText, Err(e)) => e@ == "Mount point is not valid UTF-8"@,
            (OpenTarget::Path(path), Ok(command)) => command@ == (mount_command::CommandLineView {
                program: match platform {
                    Platform::Windows => "explorer.exe"@,
                    Platform::MacOs => "/usr/bin/open"@,
                    Platform::Linux => "xdg-open"@,
                },
                args: seq![
                    if platform == Platform::Windows {
                        mount_command::spec_probe_path(path@)
                    } else {
                        path@
                    },
                ],
            }),
            _ => false,
        },
{
    match target {
        OpenTarget::Missing => Err("No active mount point is recorded.".to_owned()),
        OpenTarget::NotText => Err("Mount point is not valid UTF-8".to_owned()),
        OpenTarget::Path(path) => {
            let program = match platform {
                Platform::Windows => "explorer.exe",
                Platform::MacOs => "/usr/bin/open",
                Platform::Linux => "xdg-open",
            };
            let shown = if platform == Platform::Windows {
                mount_command::windows_nfs_probe_path(path.as_str())
            } else {
                path.clone()
            };
            let args = [shown.as_str()];
            let c = mount_command::command_line(program, args.as_slice());
            assert(c@.args =~= seq![shown@]);
            Ok(c)
        },
    }
}

/// What is reported where the file manager cannot be run.
pub fn open_failure(error: &str) -> (r: String)
    ensures
        r@ == "Failed to open mount point: "@ + error@,
{
    text::concat("Failed to open mount point: ", error)
}

/// What a quick look at a mount point showed.
#[derive(PartialEq, Eq, Debug)]
pub enum ActiveEvidence {
    /// What the system says of its mounts.
    Mounts(MountEvidence),
    /// There is something at the path; on Windows, where that is all that is
    /// looked at.
    Visible(bool),
}

/// The look showed what may be a mount.
pub open spec fn spec_appears_active(mount_point: Seq<char>, evidence: ActiveEvidence) -> bool {
    match evidence {
        ActiveEvidence::Mounts(mounts) => mount_command::spec_is_mounted(mount_point, mounts),
        ActiveEvidence::Visible(visible) => visible,
    }
}

/// Tells whether there seems to be a mount at the path. On Windows that is the
/// best that can be said: a directory that was left behind seems to be one too.
pub fn mount_point_appears_active(mount_point: &str, evidence: &ActiveEvidence) -> (r: bool)
    ensures
        r == spec_appears_active(mount_point@, *evidence),
{
    match evidence {
        ActiveEvidence::Mounts(mounts) => mount_command::is_mounted(mount_point, mounts),
        ActiveEvidence::Visible(visible) => *visible,
    }
}

// ── Processes ───────────────────────────────────────────────────────────

/// What a look for a process showed.
#[derive(PartialEq, Eq, Debug)]
pub enum ProcessEvidence {
    /// A signal would reach it, or would be refused for lack of permission.
    Signal { delivered: bool, not_permitted: bool },
    /// The list of processes with its number; `None` where there is no list.
    TaskList(Option<String>),
}

/// The number as the list of processes writes it.
pub open spec fn listed_pid(pid: u32) -> Seq<char> {
    ",\""@ + text::spec_decimal(pid as nat) + "\","@
}

pub open spec fn spec_process_is_running(pid: u32, evidence: ProcessEvidence) -> bool {
    pid != 0 && match evidence {
        ProcessEvidence::Signal { delivered, not_permitted } => delivered || not_permitted,
        ProcessEvidence::TaskList(Some(list)) => text::spec_contains(list@, listed_pid(pid)),
        ProcessEvidence::TaskList(None) => false,
    }
}

/// Tells whether the process runs. One that may not be signalled does.
pub fn process_is_running(pid: u32, evidence: &ProcessEvidence) -> (r: bool)
    ensures
        r == spec_process_is_running(pid, *evidence),
{
    if pid == 0 {
        return false;
    }
    match evidence {
        ProcessEvidence::Signal { delivered, not_permitted } => *delivered || *not_permitted,
        ProcessEvidence::TaskList(Some(list)) => {
            let number = text::decimal(pid as u64);
            let wanted = text::concat3(",\"", number.as_str(), "\",");
            text::contains(list.as_str(), wanted.as_str())
        },
        ProcessEvidence::TaskList(None) => false,
    }
}

/// The command that lists the process on Windows.
pub fn task_list_command(host: &Host, pid: u32) -> (r: CommandLine)
    ensures
        r@ == (mount_command::CommandLineView {
            program: host.spec_tool("tasklist.exe"@),
            args: seq![
                "/FI"@,
                "PID eq "@ + text::spec_decimal(pid as nat),
                "/FO"@,
                "CSV"@,
                "/NH"@,
            ],
        }),
{
    let number = text::decimal(pid as u64);
    let filter = text::concat("PID eq ", number.as_str());
    let program = host.tool("tasklist.exe");
    let args = ["/FI", filter.as_str(), "/FO", "CSV", "/NH"];
    let c = mount_command::command_line(program.as_str(), args.as_slice());
    assert(c@.args =~= seq!["/FI"@, filter@, "/FO"@, "CSV"@, "/NH"@]);
    c
}

/// How a process is ended.
#[derive(PartialEq, Eq, Debug)]
pub enum Termination {
    /// With the signal that lets it clean up.
    Signal,
    Run(CommandLine),
}

/// How the process is ended. On Windows its children end with it.
pub fn terminate_process(host: &Host, pid: u32) -> (r: Result<Termination, String>)
    ensures
        if pid == 0 {
            r matches Err(e) && e@ == "invalid process id"@
        } else if host.platform == Platform::Windows {
            r matches Ok(Termination::Run(c)) && c@ == (mount_command::CommandLineView {
                program: host.spec_tool("taskkill.exe"@),
                args: seq!["/PID"@, text::spec_decimal(pid as nat), "/T"@, "/F"@],
            })
        } else {
            r == Ok::<Termination, String>(Termination::Signal)
        },
{
    if pid == 0 {
        return Err("invalid process id".to_owned());
    }
    if host.platform != Platform::Windows {
        return Ok(Termination::Signal);
    }
    let number = text::decimal(pid as u64);
    let program = host.tool("taskkill.exe");
    let args = ["/PID", number.as_str(), "/T", "/F"];
    let c = mount_command::command_line(program.as_str(), args.as_slice());
    assert(c@.args =~= seq!["/PID"@, number@, "/T"@, "/F"@]);
    Ok(Termination::Run(c))
}

/// What is reported where the signal cannot be sent.
pub fn signal_failure(pid: u32, error: &str) -> (r: String)
    ensures
        r@ == "Failed to signal process "@ + text::spec_decimal(pid as nat) + ": "@ + error@,
{
    let number = text::decimal(pid as u64);
    let mut r = text::concat3("Failed to signal process ", number.as_str(), ": ");
    r.append(error);
    r
}

/// What is reported of the command that ends a process.
pub fn terminate_result(run: &CommandRun) -> (r: Result<(), String>)
    ensures
        match (*run, r) {
            (CommandRun::NotRun(e), Err(m)) => m@ == "Failed to run taskkill: "@ + e@,
            (CommandRun::Ended(output), Ok(())) => output.success,
            (CommandRun::Ended(output), Err(m)) => !output.success && m@
                == "taskkill failed with "@ + output.status@ + ": "@ + text::spec_trim(
                output.stderr@,
            ),
            _ => false,
        },
{
    match run {
        CommandRun::NotRun(e) => Err(text::concat("Failed to run taskkill: ", e.as_str())),
        CommandRun::Ended(output) => {
            if output.success {
                return Ok(());
            }
            let mut m = text::concat3("taskkill failed with ", output.status.as_str(), ": ");
            m.append(text::trim(output.stderr.as_str()).as_str());
            Err(m)
        },
    }
}

// ── Windows setup ───────────────────────────────────────────────────────

pub open spec fn spec_enable_nfs_command() -> Seq<char> {
    "Enable-WindowsOptionalFeature -Online -FeatureName ServicesForNFS-ClientOnly,ClientForNFS-Infrastructure -All"@
}

/// The command that turns on the NFS client of Windows.
pub fn windows_enable_nfs_command() -> (r: &'static str)
    ensures
        r@ == spec_enable_nfs_command(),
{
    "Enable-WindowsOptionalFeature -Online -FeatureName ServicesForNFS-ClientOnly,ClientForNFS-Infrastructure -All"
}

pub open spec fn spec_powershell(host: Host) -> Seq<char> {
    spec_join(
        Platform::Windows,
        spec_join(
            Platform::Windows,
            host.spec_tool("WindowsPowerShell"@),
            "v1.0"@,
        ),
        "powershell.exe"@,
    )
}

/// The path of PowerShell.
pub fn powershell_exe(host: &Host) -> (r: String)
    ensures
        r@ == spec_powershell(*host),
{
    let dir = host.tool("WindowsPowerShell");
    let version = join(Platform::Windows, dir.as_str(), "v1.0");
    join(Platform::Windows, version.as_str(), "powershell.exe")
}

/// The command that turns on the NFS client of Windows with raised rights,
/// which the user has to grant.
pub fn enable_windows_nfs_client(host: &Host) -> (r: CommandLine)
    ensures
        r@ == (mount_command::CommandLineView {
            program: spec_powershell(*host),
            args: seq![
                "-NoProfile"@,
                "-ExecutionPolicy"@,
                "Bypass"@,
                "-Command"@,
                "Start-Process -FilePath $args[0] -Verb RunAs -ArgumentList $args[1]"@,
                spec_powershell(*host),
                "-NoProfile -ExecutionPolicy Bypass -Command \""@ + spec_enable_nfs_command()
                    + "\""@,
            ],
        }),
{
    let powershell = powershell_exe(host);
    let raised = text::concat3(
        "-NoProfile -ExecutionPolicy Bypass -Command \"",
        windows_enable_nfs_command(),
        "\"",
    );
    let args = [
        "-NoProfile",
        "-ExecutionPolicy",
        "Bypass",
        "-Command",
        "Start-Process -FilePath $args[0] -Verb RunAs -ArgumentList $args[1]",
        powershell.as_str(),
        raised.as_str(),
    ];
    let c = mount_command::command_line(powershell.as_str(), args.as_slice());
    assert(c@.args =~= seq![
        "-NoProfile"@,
        "-ExecutionPolicy"@,
        "Bypass"@,
        "-Command"@,
        "Start-Process -FilePath $args[0] -Verb RunAs -ArgumentList $args[1]"@,
        powershell@,
        raised@,
    ]);
    c
}

/// The command that starts the program `exe` again with raised rights, which
/// the user has to grant.
pub fn restart_as_administrator(host: &Host, exe: &str) -> (r: CommandLine)
    ensures
        r@ == (mount_command::CommandLineView {
            program: spec_powershell(*host),
            args: seq![
                "-NoProfile"@,
                "-ExecutionPolicy"@,
                "Bypass"@,
                "-Command"@,
                "Start-Process -FilePath $args[0] -Verb RunAs"@,
                exe@,
            ],
        }),
{
    let powershell = powershell_exe(host);
    let args = [
        "-NoProfile",
        "-ExecutionPolicy",
        "Bypass",
        "-Command",
        "Start-Process -FilePath $args[0] -Verb RunAs",
        exe,
    ];
    let c = mount_command::command_line(powershell.as_str(), args.as_slice());
    assert(c@.args =~= seq![
        "-NoProfile"@,
        "-ExecutionPolicy"@,
        "Bypass"@,
        "-Command"@,
        "Start-Process -FilePath $args[0] -Verb RunAs"@,
        exe@,
    ]);
    c
}

/// What is reported of a PowerShell that asked for raised rights.
pub fn elevation_result(run: &CommandRun) -> (r: Result<(), String>)
    ensures
        match (*run, r) {
            (CommandRun::NotRun(e), Err(m)) => m@ == "Failed to launch the UAC prompt: "@ + e@,
            (CommandRun::Ended(output), Ok(())) => output.success,
            (CommandRun::Ended(output), Err(m)) => !output.success && m@
                == "PowerShell exited with "@ + output.status@,
            _ => false,
        },
{
    match run {
        CommandRun::NotRun(e) => Err(text::concat("Failed to launch the UAC prompt: ", e.as_str())),
        CommandRun::Ended(output) => {
            if output.success {
                Ok(())
            } else {
                Err(text::concat("PowerShell exited with ", output.status.as_str()))
            }
        },
    }
}

} // verus!
