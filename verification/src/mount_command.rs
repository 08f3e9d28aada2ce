//! The commands that mount and unmount, and what their output says.
use crate::platform::Platform;
use crate::setup::NfsSecurity;
use crate::text;
use crate::windows;
use vstd::prelude::*;

verus! {

/// A program to run, with its arguments.
#[derive(PartialEq, Eq, Debug)]
pub struct CommandLine {
    pub program: String,
    pub args: Vec<String>,
}

#[verifier::ext_equal]
pub ghost struct CommandLineView {
    pub program: Seq<char>,
    pub args: Seq<Seq<char>>,
}

impl View for CommandLine {
    type V = CommandLineView;

    open spec fn view(&self) -> CommandLineView {
        CommandLineView { program: self.program@, args: text::views(self.args@) }
    }
}

/// The machine and the user that a mount is made for.
#[derive(PartialEq, Eq, Debug)]
pub struct Host {
    pub platform: Platform,
    /// The process runs as root.
    pub is_root: bool,
    /// The value of `SystemRoot`.
    pub system_root: Option<String>,
}

impl Host {
    pub open spec fn spec_tool(self, name: Seq<char>) -> Seq<char> {
        windows::spec_system32_exe(text::opt_string(self.system_root), name)
    }

    /// The path of a tool of Windows.
    pub fn tool(&self, name: &str) -> (r: String)
        ensures
            r@ == self.spec_tool(name@),
    {
        match &self.system_root {
            Some(root) => windows::system32_exe(Some(root.as_str()), name),
            None => windows::system32_exe(None, name),
        }
    }
}

/// The program with the arguments.
pub fn command_line(program: &str, args: &[&str]) -> (r: CommandLine)
    ensures
        r@.program == program@,
        r@.args == args@.map_values(|a: &str| a@),
{
    let ghost wanted = args@.map_values(|a: &str| a@);
    let mut out: Vec<String> = Vec::new();
    let mut i: usize = 0;
    while i < args.len()
        invariant
            i <= args@.len(),
            wanted == args@.map_values(|a: &str| a@),
            text::views(out@) == wanted.take(i as int),
        decreases args@.len() - i,
    {
        let ghost before = out@;
        out.push(args[i].to_owned());
        i = i + 1;
        assert(text::views(out@) =~= text::views(before).push(wanted[i - 1]));
        assert(wanted.take(i as int) =~= wanted.take(i - 1).push(wanted[i - 1]));
    }
    assert(wanted.take(i as int) =~= wanted);
    CommandLine { program: program.to_owned(), args: out }
}

// ── Drive letters ───────────────────────────────────────────────────────

pub open spec fn spec_mount_target(path: Seq<char>) -> Seq<char> {
    match windows::spec_drive_letter(path) {
        Some(drive) => seq![drive, ':'],
        None => path,
    }
}

/// The mount target for `mount.exe`: a drive letter without a separator.
pub fn windows_nfs_mount_target(path: &str) -> (r: String)
    ensures
        r@ == spec_mount_target(path@),
{
    match windows::drive_letter(path) {
        Some(drive) => {
            let mut r = String::new();
            r.push(drive);
            r.push(':');
            assert(r@ =~= seq![drive, ':']);
            r
        },
        None => path.to_owned(),
    }
}

pub open spec fn spec_probe_path(path: Seq<char>) -> Seq<char> {
    match windows::spec_drive_letter(path) {
        Some(drive) => seq![drive, ':', '\\'],
        None => path,
    }
}

/// The path to look at: the root of a drive letter.
pub fn windows_nfs_probe_path(path: &str) -> (r: String)
    ensures
        r@ == spec_probe_path(path@),
{
    match windows::drive_letter(path) {
        Some(drive) => {
            let mut r = String::new();
            r.push(drive);
            r.push(':');
            r.push('\\');
            assert(r@ =~= seq![drive, ':', '\\']);
            r
        },
        None => path.to_owned(),
    }
}

pub open spec fn spec_share(export_name: Seq<char>) -> Seq<char> {
    "\\\\127.0.0.1\\"@ + export_name
}

/// The share that `mount.exe` mounts.
pub fn windows_nfs_share(export_name: &str) -> (r: String)
    ensures
        r@ == spec_share(export_name@),
{
    text::concat("\\\\127.0.0.1\\", export_name)
}

/// However a drive is written, it is mounted under one name, and looked at
/// through its root.
pub proof fn law_drive_targets_are_normalised(path: Seq<char>, drive: char)
    requires
        windows::spec_drive_letter(path) == Some(drive),
    ensures
        spec_mount_target(path) == seq![drive, ':'],
        spec_probe_path(path) == seq![drive, ':', '\\'],
        spec_mount_target(spec_mount_target(path)) == spec_mount_target(path),
        spec_mount_target(spec_probe_path(path)) == spec_mount_target(path),
{
}

// ── Mounting ────────────────────────────────────────────────────────────

/// The seconds for which a client keeps attributes: the milliseconds rounded
/// up, since zero would turn caching off.
pub open spec fn spec_actimeo(metadata_ttl_ms: u64) -> nat {
    ((metadata_ttl_ms + 999) / 1000) as nat
}

/// The seconds for which a client keeps attributes.
pub fn actimeo(metadata_ttl_ms: u64) -> (r: u64)
    ensures
        r == spec_actimeo(metadata_ttl_ms),
{
    let whole: u64 = metadata_ttl_ms / 1000;
    if metadata_ttl_ms % 1000 == 0 {
        whole
    } else {
        whole + 1
    }
}

/// A time to live above zero never turns caching off, and is not shortened.
pub proof fn law_short_ttls_still_cache(metadata_ttl_ms: u64)
    ensures
        metadata_ttl_ms > 0 ==> spec_actimeo(metadata_ttl_ms) >= 1,
        spec_actimeo(metadata_ttl_ms) * 1000 >= metadata_ttl_ms,
        spec_actimeo(metadata_ttl_ms) * 1000 < metadata_ttl_ms + 1000,
{
}

/// The part of the options that macOS and Linux share.
pub open spec fn spec_common_opts(actimeo: nat, port: u16) -> Seq<char> {
    ",vers=3,tcp,rsize=1048576,actimeo="@ + text::spec_decimal(actimeo) + ",port="@
        + text::spec_decimal(port as nat) + ",mountport="@ + text::spec_decimal(port as nat)
}

/// The options of the mount command. Locks stay with the client, since the
/// server has no lock service; on macOS that takes `locallocks`, for `nolocks`
/// would refuse every lock there.
pub open spec fn spec_mount_opts(
    platform: Platform,
    actimeo: nat,
    port: u16,
    read_only: bool,
) -> Seq<char> {
    match platform {
        Platform::MacOs => if read_only {
            "rdonly,locallocks"@ + spec_common_opts(actimeo, port)
        } else {
            "locallocks"@ + spec_common_opts(actimeo, port) + ",wsize=1048576"@
        },
        Platform::Linux => if read_only {
            "nolock"@ + spec_common_opts(actimeo, port)
        } else {
            "nolock"@ + spec_common_opts(actimeo, port) + ",wsize=1048576"@
        },
        Platform::Windows => "nolock,anon,mtype=hard,rsize=32,wsize=32,timeout=60"@,
    }
}

fn common_opts(actimeo: u64, port: u16) -> (r: String)
    ensures
        r@ == spec_common_opts(actimeo as nat, port),
{
    let port_text = text::decimal(port as u64);
    let mut r = ",vers=3,tcp,rsize=1048576,actimeo=".to_owned();
    r.append(text::decimal(actimeo).as_str());
    r.append(",port=");
    r.append(port_text.as_str());
    r.append(",mountport=");
    r.append(port_text.as_str());
    r
}

/// The options of the mount command.
pub fn mount_opts(platform: Platform, actimeo: u64, port: u16, read_only: bool) -> (r: String)
    ensures
        r@ == spec_mount_opts(platform, actimeo as nat, port, read_only),
{
    let common = common_opts(actimeo, port);
    match platform {
        Platform::MacOs => {
            if read_only {
                text::concat("rdonly,locallocks", common.as_str())
            } else {
                text::concat3("locallocks", common.as_str(), ",wsize=1048576")
            }
        },
        Platform::Linux => {
            if read_only {
                text::concat("nolock", common.as_str())
            } else {
                text::concat3("nolock", common.as_str(), ",wsize=1048576")
            }
        },
        Platform::Windows => "nolock,anon,mtype=hard,rsize=32,wsize=32,timeout=60".to_owned(),
    }
}

/// What is mounted, as the mount command takes it.
pub open spec fn spec_export(platform: Platform, export_name: Seq<char>) -> Seq<char> {
    if platform == Platform::Windows {
        spec_share(export_name)
    } else {
        "127.0.0.1:/"@ + export_name
    }
}

/// The target, as the mount command takes it.
pub open spec fn spec_target(platform: Platform, mount_point: Seq<char>) -> Seq<char> {
    if platform == Platform::Windows {
        spec_mount_target(mount_point)
    } else {
        mount_point
    }
}

/// The program that mounts.
pub open spec fn spec_mount_program(host: Host) -> Seq<char> {
    match host.platform {
        Platform::MacOs => "/sbin/mount_nfs"@,
        Platform::Linux => "mount.nfs"@,
        Platform::Windows => host.spec_tool("mount.exe"@),
    }
}

/// The mount command. A user other than root needs `sudo` on Linux.
pub open spec fn spec_mount_command(
    host: Host,
    opts: Seq<char>,
    export: Seq<char>,
    target: Seq<char>,
) -> CommandLineView {
    if host.platform == Platform::Linux && !host.is_root {
        CommandLineView {
            program: "sudo"@,
            args: seq!["-n"@, "mount.nfs"@, "-o"@, opts, export, target],
        }
    } else {
        CommandLineView {
            program: spec_mount_program(host),
            args: seq!["-o"@, opts, export, target],
        }
    }
}

/// The mount command as it is shown.
pub open spec fn spec_mount_display(
    host: Host,
    opts: Seq<char>,
    export: Seq<char>,
    target: Seq<char>,
) -> Seq<char> {
    spec_mount_program(host) + " -o "@ + opts + " "@ + export + " "@ + target
}

/// A mount command, and how it is shown.
#[derive(PartialEq, Eq, Debug)]
pub struct MountCommand {
    pub command: CommandLine,
    pub display: String,
}

/// The mount command for the export of a server at `port`.
pub fn mount_command(
    host: &Host,
    security: &NfsSecurity,
    metadata_ttl_ms: u64,
    read_only: bool,
    port: u16,
    mount_point: &str,
) -> (r: MountCommand)
    ensures
        ({
            let opts = spec_mount_opts(
                host.platform,
                spec_actimeo(metadata_ttl_ms),
                port,
                read_only,
            );
            let export = spec_export(host.platform, security.export_name@);
            let target = spec_target(host.platform, mount_point@);
            &&& r.command@ == spec_mount_command(*host, opts, export, target)
            &&& r.display@ == spec_mount_display(*host, opts, export, target)
        }),
{
    let opts = mount_opts(host.platform, actimeo(metadata_ttl_ms), port, read_only);
    let (export, target, program) = match host.platform {
        Platform::Windows => (
            windows_nfs_share(security.export_name.as_str()),
            windows_nfs_mount_target(mount_point),
            host.tool("mount.exe"),
        ),
        Platform::MacOs => (
            text::concat("127.0.0.1:/", security.export_name.as_str()),
            mount_point.to_owned(),
            "/sbin/mount_nfs".to_owned(),
        ),
        Platform::Linux => (
            text::concat("127.0.0.1:/", security.export_name.as_str()),
            mount_point.to_owned(),
            "mount.nfs".to_owned(),
        ),
    };
    let command = if host.platform == Platform::Linux && !host.is_root {
        let args = ["-n", "mount.nfs", "-o", opts.as_str(), export.as_str(), target.as_str()];
        let c = command_line("sudo", args.as_slice());
        assert(c@.args =~= seq!["-n"@, "mount.nfs"@, "-o"@, opts@, export@, target@]);
        c
    } else {
        let args = ["-o", opts.as_str(), export.as_str(), target.as_str()];
        let c = command_line(program.as_str(), args.as_slice());
        assert(c@.args =~= seq!["-o"@, opts@, export@, target@]);
        c
    };
    let mut display = program;
    display.append(" -o ");
    display.append(opts.as_str());
    display.append(" ");
    display.append(export.as_str());
    display.append(" ");
    display.append(target.as_str());
    MountCommand { command, display }
}

// ── Unmounting ──────────────────────────────────────────────────────────

/// The command that unmounts where the system call did not.
pub open spec fn spec_unmount_command(host: Host, mount_point: Seq<char>) -> CommandLineView {
    match host.platform {
        Platform::MacOs => CommandLineView {
            program: "/sbin/umount"@,
            args: seq![mount_point],
        },
        Platform::Linux => if host.is_root {
            CommandLineView { program: "umount"@, args: seq![mount_point] }
        } else {
            CommandLineView { program: "sudo"@, args: seq!["-n"@, "umount"@, mount_point] }
        },
        Platform::Windows => CommandLineView {
            program: host.spec_tool("umount.exe"@),
            args: seq!["-f"@, spec_mount_target(mount_point)],
        },
    }
}

/// The command that unmounts where the system call did not.
pub fn unmount_command(host: &Host, mount_point: &str) -> (r: CommandLine)
    ensures
        r@ == spec_unmount_command(*host, mount_point@),
{
    match host.platform {
        Platform::MacOs => {
            let args = [mount_point];
            let c = command_line("/sbin/umount", args.as_slice());
            assert(c@.args =~= seq![mount_point@]);
            c
        },
        Platform::Linux => {
            if host.is_root {
                let args = [mount_point];
                let c = command_line("umount", args.as_slice());
                assert(c@.args =~= seq![mount_point@]);
                c
            } else {
                let args = ["-n", "umount", mount_point];
                let c = command_line("sudo", args.as_slice());
                assert(c@.args =~= seq!["-n"@, "umount"@, mount_point@]);
                c
            }
        },
        Platform::Windows => {
            let target = windows_nfs_mount_target(mount_point);
            let program = host.tool("umount.exe");
            let args = ["-f", target.as_str()];
            let c = command_line(program.as_str(), args.as_slice());
            assert(c@.args =~= seq!["-f"@, target@]);
            c
        },
    }
}

/// What is tried next to unmount.
#[derive(PartialEq, Eq, Debug)]
pub enum UnmountStep {
    /// The system call, which takes no path with a zero character in it.
    SystemCall,
    Run(CommandLine),
    Finished(bool),
}

/// How an attempt to unmount begins.
pub fn unmount_begin(host: &Host, mount_point: &str) -> (r: UnmountStep)
    ensures
        host.platform != Platform::Windows && !mount_point@.contains('\0') ==> r is SystemCall,
        !(host.platform != Platform::Windows && !mount_point@.contains('\0')) ==> (r matches
            UnmountStep::Run(c) && c@ == spec_unmount_command(*host, mount_point@)),
{
    if host.platform != Platform::Windows && !text::contains_char(mount_point, '\0') {
        UnmountStep::SystemCall
    } else {
        UnmountStep::Run(unmount_command(host, mount_point))
    }
}

/// How it goes on when the system call has returned.
pub fn unmount_after_call(host: &Host, mount_point: &str, succeeded: bool) -> (r: UnmountStep)
    ensures
        succeeded ==> r == UnmountStep::Finished(true),
        !succeeded ==> (r matches UnmountStep::Run(c) && c@ == spec_unmount_command(
            *host,
            mount_point@,
        )),
{
    if succeeded {
        UnmountStep::Finished(true)
    } else {
        UnmountStep::Run(unmount_command(host, mount_point))
    }
}

/// How it ends when the command has; `None` where it could not be run.
pub fn unmount_after_command(succeeded: Option<bool>) -> (r: UnmountStep)
    ensures
        r == UnmountStep::Finished(succeeded == Some(true)),
{
    match succeeded {
        Some(true) => UnmountStep::Finished(true),
        _ => UnmountStep::Finished(false),
    }
}

// ── Is it mounted? ──────────────────────────────────────────────────────

/// The line of a mount table is that of the mount at `path`: its second word.
pub open spec fn line_mounts(line: Seq<char>, path: Seq<char>) -> bool {
    text::spec_words(line).len() >= 2 && text::spec_words(line)[1] == path
}

/// The mount table has a line for `path`.
pub open spec fn spec_table_lists(table: Seq<char>, path: Seq<char>) -> bool {
    exists|i: int|
        0 <= i < text::spec_split(table, '\n').len() && line_mounts(
            #[trigger] text::spec_split(table, '\n')[i],
            path,
        )
}

/// Tells whether the text of the mount table of Linux has a line for `path`.
pub fn mount_table_lists(table: &str, path: &str) -> (r: bool)
    ensures
        r == spec_table_lists(table@, path@),
{
    let lines = text::split(table, '\n');
    let ghost all = text::spec_split(table@, '\n');
    let mut i: usize = 0;
    while i < lines.len()
        invariant
            i <= lines@.len(),
            all == text::spec_split(table@, '\n'),
            text::views(lines@) == all,
            forall|j: int| 0 <= j < i ==> !line_mounts(#[trigger] all[j], path@),
        decreases lines@.len() - i,
    {
        assert(all[i as int] == lines@[i as int]@);
        let words = text::words(lines[i].as_str());
        if words.len() >= 2 {
            assert(text::views(words@)[1] == words@[1]@);
            if text::str_eq(words[1].as_str(), path) {
                return true;
            }
        }
        i = i + 1;
    }
    false
}

/// Tells whether the name of a file system of macOS is that of NFS.
pub fn is_nfs_type(name: &Vec<u8>) -> (r: bool)
    ensures
        r == (name@ == seq![110u8, 102u8, 115u8]),
{
    let same: bool = name.len() == 3 && name[0] == 110 && name[1] == 102 && name[2] == 115;
    assert(same ==> name@ =~= seq![110u8, 102u8, 115u8]);
    same
}

/// The source that a line of the mount table of Linux names for the mount at
/// `path`: the line starts with the source and the mount point.
pub open spec fn table_source(line: Seq<char>, path: Seq<char>) -> Option<Seq<char>> {
    if line_mounts(line, path) {
        Some(text::spec_words(line)[0])
    } else {
        None
    }
}

/// The text is the name of a share of some machine.
pub open spec fn is_share(s: Seq<char>) -> bool {
    s.len() >= 2 && s[0] == '\\' && s[1] == '\\'
}

/// The share that a line of what the NFS client of Windows prints names for the
/// mount at `target`: the line starts with the target, in whichever case, and
/// the share follows it.
pub open spec fn client_source(line: Seq<char>, target: Seq<char>) -> Option<Seq<char>> {
    let line = text::spec_trim(line);
    let n = target.len() as int;
    let rest = text::spec_words(line.skip(n));
    if n < line.len() && text::spec_is_whitespace(line[n]) && text::spec_ascii_lowercase(
        line.take(n),
    ) == text::spec_ascii_lowercase(target) && rest.len() > 0 && is_share(rest[0]) {
        Some(rest[0])
    } else {
        None
    }
}

/// The source that a line names for the mount at `path`; `client` says that it
/// is the NFS client of Windows that prints the line.
pub open spec fn spec_line_source(line: Seq<char>, path: Seq<char>, client: bool) -> Option<
    Seq<char>,
> {
    if client {
        client_source(line, path)
    } else {
        table_source(line, path)
    }
}

/// The source that a line names for the mount at `path`.
fn line_source(line: &str, path: &str, client: bool) -> (r: Option<String>)
    ensures
        text::opt_string(r) == spec_line_source(line@, path@, client),
{
    if !client {
        let words = text::words(line);
        if words.len() >= 2 {
            assert(text::views(words@)[0] == words@[0]@);
            assert(text::views(words@)[1] == words@[1]@);
            if text::str_eq(words[1].as_str(), path) {
                return Some(words[0].clone());
            }
        }
        return None;
    }
    let trimmed = text::trim(line);
    let chars = text::to_chars(trimmed.as_str());
    let n: usize = text::to_chars(path).len();
    if n >= chars.len() || !text::is_whitespace(chars[n]) {
        return None;
    }
    let start = text::substring(&chars, 0, n);
    let rest = text::substring(&chars, n, chars.len());
    assert(start@ =~= trimmed@.take(n as int));
    assert(rest@ =~= trimmed@.skip(n as int));
    if !text::str_eq(
        text::ascii_lowercase(start.as_str()).as_str(),
        text::ascii_lowercase(path).as_str(),
    ) {
        return None;
    }
    let words = text::words(rest.as_str());
    if words.len() == 0 {
        return None;
    }
    assert(text::views(words@)[0] == words@[0]@);
    let share = text::to_chars(words[0].as_str());
    if share.len() < 2 || share[0] != '\\' || share[1] != '\\' {
        return None;
    }
    Some(words[0].clone())
}

/// The source that the first line which names one names for the mount at
/// `path`.
pub open spec fn first_source(lines: Seq<Seq<char>>, path: Seq<char>, client: bool) -> Option<
    Seq<char>,
>
    decreases lines.len(),
{
    if lines.len() == 0 {
        None
    } else {
        match spec_line_source(lines[0], path, client) {
            Some(source) => Some(source),
            None => first_source(lines.skip(1), path, client),
        }
    }
}

/// The source that a table names for the mount at `path`.
fn find_source(table: &str, path: &str, client: bool) -> (r: Option<String>)
    ensures
        text::opt_string(r) == first_source(text::spec_split(table@, '\n'), path@, client),
{
    let lines = text::split(table, '\n');
    let ghost all = text::spec_split(table@, '\n');
    let mut i: usize = 0;
    assert(all.skip(0) =~= all);
    while i < lines.len()
        invariant
            i <= lines@.len(),
            all == text::spec_split(table@, '\n'),
            text::views(lines@) == all,
            first_source(all.skip(i as int), path@, client) == first_source(all, path@, client),
        decreases lines@.len() - i,
    {
        assert(all.skip(i as int)[0] == lines@[i as int]@);
        assert(all.skip(i as int).skip(1) =~= all.skip(i + 1));
        let source = line_source(lines[i].as_str(), path, client);
        if source.is_some() {
            return source;
        }
        i = i + 1;
    }
    None
}

/// What names the source of a mount.
#[derive(PartialEq, Eq, Debug)]
pub enum MountListing {
    /// The mount table of Linux; `None` where it cannot be read.
    Table(Option<String>),
    /// The source of the file system at the path, on macOS; `None` where there
    /// is none.
    FileSystem(Option<String>),
    /// What the NFS client of Windows prints of its mounts; `None` where it
    /// cannot be run.
    Client(Option<String>),
}

/// The source that is mounted at `path`.
pub open spec fn spec_mounted_from(path: Seq<char>, listing: MountListing) -> Option<Seq<char>> {
    match listing {
        MountListing::Table(Some(table)) => first_source(
            text::spec_split(table@, '\n'),
            path,
            false,
        ),
        MountListing::FileSystem(Some(source)) => Some(source@),
        MountListing::Client(Some(printed)) => first_source(
            text::spec_split(printed@, '\n'),
            spec_mount_target(path),
            true,
        ),
        _ => None,
    }
}

/// The source that the NFS client of Windows names for the mount at `path`.
fn client_lists(path: &str, printed: &str) -> (r: Option<String>)
    ensures
        text::opt_string(r) == first_source(
            text::spec_split(printed@, '\n'),
            spec_mount_target(path@),
            true,
        ),
{
    let target = windows_nfs_mount_target(path);
    find_source(printed, target.as_str(), true)
}

/// The source that is mounted at `path`.
pub fn mounted_from(path: &str, listing: &MountListing) -> (r: Option<String>)
    ensures
        text::opt_string(r) == spec_mounted_from(path@, *listing),
{
    match listing {
        MountListing::Table(Some(table)) => find_source(table.as_str(), path, false),
        MountListing::FileSystem(Some(source)) => Some(source.clone()),
        MountListing::Client(Some(printed)) => client_lists(path, printed.as_str()),
        _ => None,
    }
}

/// What can be found out about a mount point.
#[derive(PartialEq, Eq, Debug)]
pub enum MountEvidence {
    /// The mount table of Linux; `None` where it cannot be read.
    Table(Option<String>),
    /// The name of the file system at the path, on macOS; `None` where there is
    /// none.
    FileSystem(Option<Vec<u8>>),
    /// What the NFS client of Windows prints of its mounts; `None` where it
    /// cannot be run.
    Client(Option<String>),
}

/// The evidence shows a mount at `path`. That a directory exists is none.
pub open spec fn spec_is_mounted(path: Seq<char>, evidence: MountEvidence) -> bool {
    match evidence {
        MountEvidence::Table(Some(table)) => spec_table_lists(table@, path),
        MountEvidence::Table(None) => false,
        MountEvidence::FileSystem(Some(name)) => name@ == seq![110u8, 102u8, 115u8],
        MountEvidence::FileSystem(None) => false,
        MountEvidence::Client(printed) => spec_mounted_from(
            path,
            MountListing::Client(printed),
        ) is Some,
    }
}

/// Tells whether the evidence shows a mount at `path`.
pub fn is_mounted(path: &str, evidence: &MountEvidence) -> (r: bool)
    ensures
        r == spec_is_mounted(path@, *evidence),
{
    match evidence {
        MountEvidence::Table(Some(table)) => mount_table_lists(table.as_str(), path),
        MountEvidence::Table(None) => false,
        MountEvidence::FileSystem(Some(name)) => is_nfs_type(name),
        MountEvidence::FileSystem(None) => false,
        MountEvidence::Client(Some(printed)) => client_lists(path, printed.as_str()).is_some(),
        MountEvidence::Client(None) => false,
    }
}

/// Nothing is mounted at `path`: no line of the mount table or of what the NFS
/// client prints names a source for it, or its file system is not NFS.
pub open spec fn is_bare(path: Seq<char>, evidence: MountEvidence) -> bool {
    match evidence {
        MountEvidence::Table(Some(table)) => forall|i: int|
            0 <= i < text::spec_split(table@, '\n').len() ==> table_source(
                #[trigger] text::spec_split(table@, '\n')[i],
                path,
            ) is None,
        MountEvidence::Client(Some(printed)) => forall|i: int|
            0 <= i < text::spec_split(printed@, '\n').len() ==> client_source(
                #[trigger] text::spec_split(printed@, '\n')[i],
                spec_mount_target(path),
            ) is None,
        MountEvidence::FileSystem(Some(name)) => name@ != seq![110u8, 102u8, 115u8],
        _ => true,
    }
}

/// A path where nothing is mounted does not count as a mount, whatever is there
/// and whichever the system; every other does.
pub proof fn law_bare_directories_do_not_count(path: Seq<char>, evidence: MountEvidence)
    ensures
        spec_is_mounted(path, evidence) <==> !is_bare(path, evidence),
{
    if let MountEvidence::Client(Some(printed)) = evidence {
        lemma_first_source(text::spec_split(printed@, '\n'), spec_mount_target(path), true);
    }
}

/// The mount table of Linux names a source for `path` exactly where it shows a
/// mount there.
pub proof fn law_mounts_have_a_source(path: Seq<char>, table: Option<String>)
    ensures
        spec_is_mounted(path, MountEvidence::Table(table)) <==> spec_mounted_from(
            path,
            MountListing::Table(table),
        ) is Some,
{
    if let Some(table) = table {
        lemma_first_source(text::spec_split(table@, '\n'), path, false);
    }
}

/// A source is found exactly where some line names one.
proof fn lemma_first_source(lines: Seq<Seq<char>>, path: Seq<char>, client: bool)
    ensures
        first_source(lines, path, client) is Some <==> exists|i: int|
            0 <= i < lines.len() && spec_line_source(#[trigger] lines[i], path, client) is Some,
    decreases lines.len(),
{
    if lines.len() > 0 {
        let tail = lines.skip(1);
        lemma_first_source(tail, path, client);
        if first_source(tail, path, client) is Some {
            let i = choose|i: int|
                0 <= i < tail.len() && spec_line_source(#[trigger] tail[i], path, client) is Some;
            assert(lines[i + 1] == tail[i]);
        }
        if exists|i: int|
            0 <= i < lines.len() && spec_line_source(#[trigger] lines[i], path, client) is Some {
            let i = choose|i: int|
                0 <= i < lines.len() && spec_line_source(#[trigger] lines[i], path, client) is Some;
            if i > 0 {
                assert(tail[i - 1] == lines[i]);
            }
        }
    }
}

/// What is mounted there is an export of this program on this machine.
pub open spec fn spec_is_ours(platform: Platform, mounted: Option<Seq<char>>) -> bool {
    match mounted {
        Some(export) => text::spec_starts_with(export, spec_export(platform, "hf-mount-"@)),
        None => false,
    }
}

/// Tells whether what is mounted somewhere is an export of this program on this
/// machine, and no other mount that must not be touched. `mounted` is what the
/// machine says of the mount, if there is one.
pub fn mount_point_is_ours(platform: Platform, mounted: Option<&str>) -> (r: bool)
    ensures
        r == spec_is_ours(platform, text::opt_view(mounted)),
{
    match mounted {
        None => false,
        Some(export) => {
            let ours = if platform == Platform::Windows {
                windows_nfs_share("hf-mount-")
            } else {
                text::concat("127.0.0.1:/", "hf-mount-")
            };
            text::starts_with(export, ours.as_str())
        },
    }
}

/// Every mount that this program makes is known to be its own.
pub proof fn law_our_mounts_are_ours(platform: Platform, secret: Seq<u8>)
    ensures
        spec_is_ours(
            platform,
            Some(spec_export(platform, NfsSecurity::spec_export_name(secret))),
        ),
{
    let export = spec_export(platform, NfsSecurity::spec_export_name(secret));
    let ours = spec_export(platform, "hf-mount-"@);
    assert(export.subrange(0, ours.len() as int) =~= ours);
}

// ── Network error 53 ────────────────────────────────────────────────────

pub open spec fn is_digit(c: char) -> bool {
    '0' <= c <= '9'
}

/// The number 53 stands in the text at position `i`, with no digit beside it.
pub open spec fn is_code_53(s: Seq<char>, i: int) -> bool {
    &&& 0 <= i
    &&& i + 2 <= s.len()
    &&& s[i] == '5'
    &&& s[i + 1] == '3'
    &&& i == 0 || !is_digit(s[i - 1])
    &&& i + 2 == s.len() || !is_digit(s[i + 2])
}

/// The number 53 stands somewhere in the text.
pub open spec fn has_code_53(s: Seq<char>) -> bool {
    exists|i: int| is_code_53(s, i)
}

/// Tells whether the number 53 stands somewhere in the text.
pub fn windows_text_contains_code_53(s: &str) -> (r: bool)
    ensures
        r == has_code_53(s@),
{
    let chars = text::to_chars(s);
    let n: usize = chars.len();
    let mut i: usize = 0;
    while i < n
        invariant
            n == chars@.len(),
            chars@ == s@,
            i <= n,
            forall|j: int| 0 <= j < i ==> !is_code_53(s@, j),
        decreases n - i,
    {
        if n - i >= 2 && chars[i] == '5' && chars[i + 1] == '3' {
            let starts: bool = i == 0 || !('0' <= chars[i - 1] && chars[i - 1] <= '9');
            let ends: bool = n - i == 2 || !('0' <= chars[i + 2] && chars[i + 2] <= '9');
            if starts && ends {
                assert(is_code_53(s@, i as int));
                return true;
            }
        }
        i = i + 1;
    }
    false
}

/// The text in ASCII lower case.
pub open spec fn lowered(s: Seq<char>) -> Seq<char> {
    s.map_values(|c: char| text::spec_lower(c))
}

/// The text reports network error 53, in English or German.
pub open spec fn reports_error_53(s: Seq<char>) -> bool {
    &&& text::spec_contains(lowered(s), "network error"@) || text::spec_contains(
        lowered(s),
        "netzwerkfehler"@,
    )
    &&& has_code_53(lowered(s))
}

/// Tells whether the text reports network error 53, in English or German.
pub fn windows_mount_text_is_network_error_53(s: &str) -> (r: bool)
    ensures
        r == reports_error_53(s@),
{
    let lower = text::ascii_lowercase(s);
    (text::contains(lower.as_str(), "network error") || text::contains(
        lower.as_str(),
        "netzwerkfehler",
    )) && windows_text_contains_code_53(lower.as_str())
}

/// How a command ended.
#[derive(PartialEq, Eq, Debug)]
pub struct CommandOutput {
    pub success: bool,
    /// The status as it is shown.
    pub status: String,
    pub stdout: String,
    pub stderr: String,
}

impl CommandOutput {
    /// The output reports network error 53.
    pub open spec fn is_error_53(self) -> bool {
        reports_error_53(self.stdout@) || reports_error_53(self.stderr@)
    }
}

/// Tells whether the output reports network error 53.
pub fn windows_mount_output_is_network_error_53(output: &CommandOutput) -> (r: bool)
    ensures
        r == output.is_error_53(),
{
    windows_mount_text_is_network_error_53(output.stdout.as_str())
        || windows_mount_text_is_network_error_53(output.stderr.as_str())
}

/// What a user can do about a mount command that failed on Windows.
pub open spec fn spec_failure_hint(output: CommandOutput) -> Seq<char> {
    if output.is_error_53() {
        "Windows reported Network Error 53 while mounting the local NFS export. Confirm the process is elevated, Client for NFS is enabled, port 111 is available, and localhost NFS/RPC traffic is not blocked."@
    } else {
        "Client for NFS may be disabled, the process may not be elevated, or the mount target may be invalid."@
    }
}

/// What a user can do about a mount command that failed on Windows.
pub fn windows_mount_failure_hint(output: &CommandOutput) -> (r: &'static str)
    ensures
        r@ == spec_failure_hint(*output),
{
    if windows_mount_output_is_network_error_53(output) {
        "Windows reported Network Error 53 while mounting the local NFS export. Confirm the process is elevated, Client for NFS is enabled, port 111 is available, and localhost NFS/RPC traffic is not blocked."
    } else {
        "Client for NFS may be disabled, the process may not be elevated, or the mount target may be invalid."
    }
}

/// What is reported of a mount command that failed.
pub open spec fn spec_mount_failure(platform: Platform, output: CommandOutput, display: Seq<char>) -> Seq<
    char,
> {
    match platform {
        Platform::MacOs => "mount command failed with "@ + output.status@,
        Platform::Linux => "mount.nfs failed with "@ + output.status@ + ": stdout="@
            + output.stdout@ + " stderr="@ + output.stderr@,
        Platform::Windows => "mount.exe failed with "@ + output.status@ + ": "@
            + spec_failure_hint(output) + " cmd=`"@ + display + "` stdout="@ + text::spec_trim(
            output.stdout@,
        ) + " stderr="@ + text::spec_trim(output.stderr@),
    }
}

/// What is reported of a mount command that failed.
pub fn mount_failure(platform: Platform, output: &CommandOutput, display: &str) -> (r: String)
    ensures
        r@ == spec_mount_failure(platform, *output, display@),
{
    match platform {
        Platform::MacOs => text::concat("mount command failed with ", output.status.as_str()),
        Platform::Linux => {
            let mut r = text::concat("mount.nfs failed with ", output.status.as_str());
            r.append(": stdout=");
            r.append(output.stdout.as_str());
            r.append(" stderr=");
            r.append(output.stderr.as_str());
            r
        },
        Platform::Windows => {
            let mut r = text::concat("mount.exe failed with ", output.status.as_str());
            r.append(": ");
            r.append(windows_mount_failure_hint(output));
            r.append(" cmd=`");
            r.append(display);
            r.append("` stdout=");
            r.append(text::trim(output.stdout.as_str()).as_str());
            r.append(" stderr=");
            r.append(text::trim(output.stderr.as_str()).as_str());
            r
        },
    }
}

} // verus!
