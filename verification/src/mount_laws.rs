//! What can be relied on of a mount: when it is announced, what the mount
//! command is told, and how it ends.
use crate::mount_command;
use crate::mount_command::{CommandOutput, Host, MountEvidence, MountListing};
use crate::platform;
use crate::platform::Platform;
use crate::session;
use crate::session::{Phase, SessionEvent, SessionParams};
use crate::text;
use crate::windows;
use vstd::prelude::*;

verus! {

// ── The session ─────────────────────────────────────────────────────────

/// The action tells somebody that the mount is there.
pub open spec fn announces(action: session::ActionView) -> bool {
    ||| action is NotifyReady
    ||| action matches session::ActionView::Emit(event) && event is Mounted
}

/// Some action tells somebody that the mount is there.
pub open spec fn some_announces(actions: Seq<session::ActionView>) -> bool {
    exists|i: int| 0 <= i < actions.len() && announces(#[trigger] actions[i])
}

/// Both the user and the parent process are told that the mount is at `path`.
pub open spec fn announces_mount_at(actions: Seq<session::ActionView>, path: Seq<char>) -> bool {
    &&& actions.contains(
        session::ActionView::Emit(session::NfsMountEventView::Mounted { mount_point: path }),
    )
    &&& actions.contains(session::ActionView::NotifyReady)
}

/// The action runs the mount command.
pub open spec fn some_mounts(actions: Seq<session::ActionView>) -> bool {
    exists|i: int| 0 <= i < actions.len() && #[trigger] actions[i] is RunMount
}

/// A mount is announced, and served, exactly when the mount command succeeded.
/// Where it failed, it is tried again later, on Windows and a few times only, or
/// the server stops and the failure is reported, with what the command said.
pub proof fn law_only_mounts_are_announced(
    params: SessionParams,
    attempt: usize,
    output: CommandOutput,
)
    ensures
        ({
            let (next, actions) = session::spec_step(
                params,
                Phase::Mounting { attempt },
                SessionEvent::MountExited(output),
            );
            let again = params.host.platform == Platform::Windows && output.is_error_53() && attempt
                < 6;
            &&& some_announces(actions) <==> output.success
            &&& next is Serving <==> output.success
            &&& output.success && params.mount_point is Some ==> announces_mount_at(
                actions,
                params.mount_point->0@,
            )
            &&& !output.success && again ==> next == (Phase::Waiting {
                attempt: (attempt + 1) as usize,
            }) && actions == seq![session::ActionView::Backoff { ms: 300 }]
            &&& !output.success && !again ==> {
                &&& next == Phase::Over
                &&& actions.contains(session::ActionView::AbortServer)
                &&& params.host.platform == Platform::Windows ==> actions.contains(
                    session::ActionView::AbortPortmapper,
                )
                &&& actions.last() matches session::ActionView::Finish(
                    Err(session::MountErrorView::Other(message)),
                ) && says(message, output.status@) && (params.host.platform == Platform::Linux
                    ==> says(message, output.stderr@) && says(message, output.stdout@))
            }
        }),
{
    let (next, actions) = session::spec_step(
        params,
        Phase::Mounting { attempt },
        SessionEvent::MountExited(output),
    );
    if output.success {
        assert(announces(actions[0]));
        if let Some(path) = params.mount_point {
            assert(actions[0] == session::ActionView::Emit(
                session::NfsMountEventView::Mounted { mount_point: path@ },
            ));
        }
        assert(actions[1] == session::ActionView::NotifyReady);
    } else if next == Phase::Over {
        assert(actions[0] == session::ActionView::AbortServer);
        if params.host.platform == Platform::Windows {
            assert(actions[1] == session::ActionView::AbortPortmapper);
        }
        lemma_failure_says(params, output);
    }
}

/// The part stands somewhere in the whole.
pub open spec fn says(whole: Seq<char>, part: Seq<char>) -> bool {
    exists|before: Seq<char>, after: Seq<char>| whole == #[trigger] (before + part + after)
}

proof fn lemma_failure_says(params: SessionParams, output: CommandOutput)
    ensures
        ({
            let m = mount_command::spec_mount_failure(
                params.host.platform,
                output,
                params.spec_display(),
            );
            &&& says(m, output.status@)
            &&& params.host.platform == Platform::Linux ==> says(m, output.stderr@) && says(
                m,
                output.stdout@,
            )
        }),
{
    let m = mount_command::spec_mount_failure(params.host.platform, output, params.spec_display());
    let status = output.status@;
    match params.host.platform {
        Platform::MacOs => {
            let a = "mount command failed with "@;
            assert(m =~= a + status + Seq::<char>::empty());
        },
        Platform::Linux => {
            let a = "mount.nfs failed with "@;
            let b = ": stdout="@ + output.stdout@ + " stderr="@ + output.stderr@;
            assert(m =~= a + status + b);
            let c = a + status + ": stdout="@;
            assert(m =~= c + output.stdout@ + (" stderr="@ + output.stderr@));
            let d = a + status + ": stdout="@ + output.stdout@ + " stderr="@;
            assert(m =~= d + output.stderr@ + Seq::<char>::empty());
        },
        Platform::Windows => {
            let a = "mount.exe failed with "@;
            let b = m.skip((a.len() + status.len()) as int);
            assert(m =~= a + status + b);
        },
    }
}

/// A session starts with a server that listens on its port. Only then is the
/// mount command run, or on Windows the port mapper started. A session that is
/// to end already runs neither, and a mount point that is not text is refused.
pub proof fn law_sessions_begin_with_the_server(params: SessionParams, stop_requested: bool)
    ensures
        ({
            let (next, actions) = session::spec_begin(params, stop_requested);
            &&& actions[0] == session::ActionView::Emit(
                session::NfsMountEventView::ServerListening { port: params.port },
            )
            &&& !some_announces(actions)
            &&& params.mount_point is None ==> next == Phase::Over && actions.len() == 2
                && actions[1] == session::ActionView::Finish(
                Err(session::MountErrorView::InvalidPath),
            )
            &&& params.mount_point is Some ==> actions[1] == session::ActionView::StartServer
            &&& params.mount_point is Some && stop_requested ==> {
                &&& next == Phase::Over
                &&& !some_mounts(actions)
                &&& actions.last() == session::ActionView::Finish(Ok(()))
                &&& actions.contains(session::ActionView::AbortServer)
                &&& actions.contains(session::ActionView::ShutDownStorage)
            }
            &&& params.mount_point is Some && !stop_requested && params.host.platform
                == Platform::Windows ==> next == Phase::StartingPortmapper && !some_mounts(actions)
                && actions.last() == session::ActionView::StartPortmapper
            &&& params.mount_point is Some && !stop_requested && params.host.platform
                != Platform::Windows ==> next == (Phase::Mounting { attempt: 1 })
                && actions.last() == session::ActionView::RunMount(params.spec_command())
        }),
{
    let (next, actions) = session::spec_begin(params, stop_requested);
    if params.mount_point is Some && stop_requested {
        assert(actions[2] == session::ActionView::AbortServer);
        assert(actions[actions.len() - 2] == session::ActionView::ShutDownStorage);
    }
}

/// Once the port mapper answers, the mount command is shown and run, unless the
/// user is to run it: then the session serves at once. Where the port mapper
/// cannot be had, the server stops and the reason is reported.
pub proof fn law_the_port_mapper_comes_first(params: SessionParams, path: String, reason: String)
    requires
        params.host.platform == Platform::Windows,
        params.mount_point == Some(path),
    ensures
        ({
            let (next, actions) = session::spec_step(
                params,
                Phase::StartingPortmapper,
                SessionEvent::PortmapperStarted { result: Ok(()), stop_requested: false },
            );
            let (ended, failed) = session::spec_step(
                params,
                Phase::StartingPortmapper,
                SessionEvent::PortmapperStarted { result: Err(reason), stop_requested: false },
            );
            &&& actions[0] == session::ActionView::Emit(
                session::NfsMountEventView::MountCommand { command: params.spec_display() },
            )
            &&& !params.skip_auto_mount ==> next == (Phase::Mounting { attempt: 1 })
                && !some_announces(actions) && actions.last() == session::ActionView::RunMount(
                params.spec_command(),
            )
            &&& params.skip_auto_mount ==> next is Serving && !some_mounts(actions)
                && announces_mount_at(actions, path@)
            &&& ended == Phase::Over && !some_mounts(failed) && !some_announces(failed)
            &&& failed.contains(session::ActionView::AbortServer)
            &&& failed.last() matches session::ActionView::Finish(
                Err(session::MountErrorView::Other(message)),
            ) && says(message, reason@)
        }),
{
    let (next, actions) = session::spec_step(
        params,
        Phase::StartingPortmapper,
        SessionEvent::PortmapperStarted { result: Ok(()), stop_requested: false },
    );
    let (ended, failed) = session::spec_step(
        params,
        Phase::StartingPortmapper,
        SessionEvent::PortmapperStarted { result: Err(reason), stop_requested: false },
    );
    if params.skip_auto_mount {
        assert(actions[1] == session::ActionView::Emit(
            session::NfsMountEventView::Mounted { mount_point: path@ },
        ));
        assert(actions[2] == session::ActionView::NotifyReady);
    }
    assert(failed[0] == session::ActionView::AbortServer);
    let a = "failed to bind portmapper on 127.0.0.1:111: "@;
    let b = " (Administrator required, or another portmap is running)"@;
    assert(failed.last() == session::ActionView::Finish(
        Err(session::MountErrorView::Other(a + reason@ + b)),
    ));
}

/// After a pause the same command is run again; a command that cannot be run
/// ends the session with the reason.
pub proof fn law_tries_are_alike(params: SessionParams, attempt: usize, reason: String)
    ensures
        session::spec_step(
            params,
            Phase::Waiting { attempt },
            SessionEvent::BackoffOver { stop_requested: false },
        ) == (
            Phase::Mounting { attempt },
            seq![session::ActionView::RunMount(params.spec_command())],
        ),
        session::spec_step(
            params,
            Phase::Mounting { attempt },
            SessionEvent::MountNotRun(reason),
        ) == (
            Phase::Over,
            seq![
                session::ActionView::Finish(Err(session::MountErrorView::Other(reason@))),
            ],
        ),
{
}

/// What the user is told of the end of a mount that was there.
pub open spec fn end_reason(event: SessionEvent) -> Seq<char> {
    match event {
        SessionEvent::ClientMount(_) => "unmount detected"@,
        SessionEvent::ServerExited => "server exited"@,
        SessionEvent::CtrlC => "Ctrl+C received"@,
        SessionEvent::Terminate => "termination signal received"@,
        SessionEvent::StopRequested => "stop requested"@,
        _ => "mount disappeared"@,
    }
}

/// The event ends a mount: a client unmounts, the server or the mount is gone,
/// or somebody asks for the end. A mount that the user made is not looked for.
pub open spec fn ends_the_mount(params: SessionParams, event: SessionEvent) -> bool {
    match event {
        SessionEvent::ClientMount(message) => message != Some(true),
        SessionEvent::ServerExited => true,
        SessionEvent::CtrlC => true,
        SessionEvent::Terminate => true,
        SessionEvent::StopRequested => true,
        SessionEvent::ProbeDone { mounted } => !mounted && !(params.host.platform
            == Platform::Windows && params.skip_auto_mount),
        _ => false,
    }
}

/// A mount lasts until something ends it. Then the user is told why, first of
/// all; it is unmounted, if at all, while the server still answers, and only
/// after the server has stopped are the pooled handles written back and the
/// storage shut down.
pub proof fn law_mounts_end_in_order(
    params: SessionParams,
    probing: bool,
    event: SessionEvent,
    i: int,
    j: int,
)
    requires
        session::awaits(Phase::Serving { probing }, event),
    ensures
        ({
            let (next, actions) = session::spec_step(params, Phase::Serving { probing }, event);
            &&& next == Phase::Over <==> ends_the_mount(params, event)
            &&& ends_the_mount(params, event) ==> {
                &&& actions[0] == session::ActionView::Emit(
                    session::NfsMountEventView::ShuttingDown { reason: end_reason(event) },
                )
                &&& actions.contains(session::ActionView::AbortServer) <==> !(event is ServerExited)
                &&& actions.contains(session::ActionView::DrainPool)
                &&& actions.contains(session::ActionView::ShutDownStorage)
                &&& actions.last() == session::ActionView::Finish(Ok(()))
            }
            &&& 0 <= i < actions.len() && 0 <= j < actions.len() ==> {
                &&& actions[i] is Unmount && actions[j] is AbortServer ==> i < j
                &&& actions[i] is AbortServer && actions[j] is DrainPool ==> i < j
                &&& actions[i] is DrainPool && actions[j] is ShutDownStorage ==> i < j
            }
            &&& !ends_the_mount(params, event) && !(event is ProbeDue) ==> actions.len() == 0
                && next is Serving
            &&& event is ProbeDue ==> next == (Phase::Serving { probing: true }) && actions
                == seq![session::ActionView::Probe]
            &&& event is ProbeDone && next is Serving ==> next == (Phase::Serving {
                probing: false,
            })
        }),
{
    let (next, actions) = session::spec_step(params, Phase::Serving { probing }, event);
    if ends_the_mount(params, event) {
        let n = actions.len() as int;
        assert(actions[n - 3] == session::ActionView::DrainPool);
        assert(actions[n - 2] == session::ActionView::ShutDownStorage);
        if event is CtrlC || event is Terminate || event is StopRequested {
            assert(actions[2] == session::ActionView::AbortServer);
        } else if !(event is ServerExited) {
            assert(actions[1] == session::ActionView::AbortServer);
        }
    }
}

// ── The mount command ───────────────────────────────────────────────────

/// The mount command is given the export of this machine's server and the mount
/// point of the session, as its last two arguments.
pub proof fn law_the_command_mounts_the_export(params: SessionParams, path: String)
    requires
        params.mount_point == Some(path),
    ensures
        ({
            let command = params.spec_command();
            let n = command.args.len() as int;
            let name = params.security.export_name@;
            let opts = command.args[n - 3];
            &&& n >= 4
            &&& command.args[n - 4] == "-o"@
            &&& params.host.platform != Platform::Windows ==> command.args[n - 1] == path@
                && command.args[n - 2] == "127.0.0.1:/"@ + name
            &&& params.host.platform == Platform::Windows ==> command.args[n - 2]
                == "\\\\127.0.0.1\\"@ + name && n == 4
            &&& params.host.platform == Platform::Windows && path@.len() >= 4 ==> command.args[n
                - 1] == path@
            &&& params.host.platform == Platform::MacOs ==> command.program == "/sbin/mount_nfs"@
                && n == 4
            &&& params.host.platform == Platform::Linux && params.host.is_root ==> command.program
                == "mount.nfs"@ && n == 4
            &&& params.host.platform == Platform::Linux && !params.host.is_root ==> command.program
                == "sudo"@ && n == 6 && command.args[0] == "-n"@ && command.args[1] == "mount.nfs"@
        }),
{
}

/// A drive letter is mounted by its name alone, with or without a separator
/// after it.
pub proof fn law_drives_are_mounted_by_name(letter: char)
    requires
        ('a' <= letter <= 'z') || ('A' <= letter <= 'Z'),
    ensures
        mount_command::spec_target(Platform::Windows, seq![letter, ':']) == seq![letter, ':'],
        mount_command::spec_target(Platform::Windows, seq![letter, ':', '\\']) == seq![letter, ':'],
        mount_command::spec_target(Platform::Windows, seq![letter, ':', '/']) == seq![letter, ':'],
        mount_command::spec_probe_path(seq![letter, ':']) == seq![letter, ':', '\\'],
{
}

/// The options send the client to the port of the server, for mounting and for
/// the rest, and let it keep attributes for as long as they live. They differ
/// with the access: only a mount that can be written to has a size for writes,
/// and on macOS one that cannot is marked as such.
pub proof fn law_options_of_the_mount(actimeo: nat, port: u16)
    ensures
        ({
            let digits = text::spec_decimal(port as nat);
            let ports = ",port="@ + digits + ",mountport="@ + digits;
            let linux = mount_command::spec_mount_opts(Platform::Linux, actimeo, port, true);
            let linux_rw = mount_command::spec_mount_opts(Platform::Linux, actimeo, port, false);
            let mac = mount_command::spec_mount_opts(Platform::MacOs, actimeo, port, true);
            let mac_rw = mount_command::spec_mount_opts(Platform::MacOs, actimeo, port, false);
            &&& linux_rw == linux + ",wsize=1048576"@
            &&& "rdonly,"@ + mac_rw == mac + ",wsize=1048576"@
            &&& says(linux, ports) && says(mac, ports)
            &&& text::spec_starts_with(linux, "nolock,vers=3,tcp,"@)
            &&& text::spec_starts_with(mac_rw, "locallocks,vers=3,tcp,"@)
        }),
{
    let digits = text::spec_decimal(port as nat);
    let common = mount_command::spec_common_opts(actimeo, port);
    let ports = ",port="@ + digits + ",mountport="@ + digits;
    let linux = mount_command::spec_mount_opts(Platform::Linux, actimeo, port, true);
    let mac = mount_command::spec_mount_opts(Platform::MacOs, actimeo, port, true);
    let mac_rw = mount_command::spec_mount_opts(Platform::MacOs, actimeo, port, false);
    reveal_strlit("nolock");
    reveal_strlit("locallocks");
    reveal_strlit("rdonly,");
    reveal_strlit("rdonly,locallocks");
    reveal_strlit("nolock,vers=3,tcp,");
    reveal_strlit("locallocks,vers=3,tcp,");
    reveal_strlit(",vers=3,tcp,rsize=1048576,actimeo=");
    let head = ",vers=3,tcp,rsize=1048576,actimeo="@ + text::spec_decimal(actimeo);
    assert(linux =~= ("nolock"@ + head) + ports + Seq::<char>::empty());
    assert(mac =~= ("rdonly,locallocks"@ + head) + ports + Seq::<char>::empty());
    assert("rdonly,locallocks"@ =~= "rdonly,"@ + "locallocks"@);
    assert("rdonly,"@ + mac_rw =~= mac + ",wsize=1048576"@);
    assert(linux.subrange(0, 18) =~= "nolock,vers=3,tcp,"@);
    assert(mac_rw.subrange(0, 22) =~= "locallocks,vers=3,tcp,"@);
}

/// The time to live of attributes is in the options, in seconds.
pub proof fn law_options_keep_attributes(platform: Platform, actimeo: nat, port: u16, read_only: bool)
    requires
        platform != Platform::Windows,
    ensures
        says(
            mount_command::spec_mount_opts(platform, actimeo, port, read_only),
            ",actimeo="@ + text::spec_decimal(actimeo) + ",port="@,
        ),
{
    let opts = mount_command::spec_mount_opts(platform, actimeo, port, read_only);
    let start = if platform == Platform::Linux {
        "nolock"@
    } else if read_only {
        "rdonly,locallocks"@
    } else {
        "locallocks"@
    };
    let end = if read_only {
        Seq::<char>::empty()
    } else {
        ",wsize=1048576"@
    };
    reveal_strlit(",vers=3,tcp,rsize=1048576,actimeo=");
    reveal_strlit(",vers=3,tcp,rsize=1048576");
    reveal_strlit(",actimeo=");
    assert(",vers=3,tcp,rsize=1048576,actimeo="@ =~= ",vers=3,tcp,rsize=1048576"@ + ",actimeo="@);
    let digits = text::spec_decimal(port as nat);
    let part = ",actimeo="@ + text::spec_decimal(actimeo) + ",port="@;
    assert(opts =~= (start + ",vers=3,tcp,rsize=1048576"@) + part + (digits + ",mountport="@ + digits
        + end));
}

/// What is shown is the command that root would run, word by word.
pub proof fn law_the_command_is_shown(host: Host, opts: Seq<char>, export: Seq<char>, target: Seq<char>)
    ensures
        ({
            let command = mount_command::spec_mount_command(
                Host { is_root: true, ..host },
                opts,
                export,
                target,
            );
            let shown = mount_command::spec_mount_display(host, opts, export, target);
            &&& command.args.len() == 4
            &&& shown == command.program + " "@ + command.args[0] + " "@ + command.args[1] + " "@
                + command.args[2] + " "@ + command.args[3]
        }),
{
    let shown = mount_command::spec_mount_display(host, opts, export, target);
    reveal_strlit(" -o ");
    reveal_strlit("-o");
    reveal_strlit(" ");
    assert(" -o "@ =~= " "@ + "-o"@ + " "@);
    assert(shown =~= mount_command::spec_mount_program(host) + " "@ + "-o"@ + " "@ + opts + " "@
        + export + " "@ + target);
}

/// What is unmounted is the mount point, the last argument of the command; on
/// Windows it is the name that it was mounted under.
pub proof fn law_the_mount_point_is_unmounted(host: Host, path: Seq<char>)
    ensures
        mount_command::spec_unmount_command(host, path).args.last() == mount_command::spec_target(
            host.platform,
            path,
        ),
        host.platform != Platform::Windows ==> mount_command::spec_unmount_command(
            host,
            path,
        ).args.last() == path,
        host.platform == Platform::Linux && !host.is_root ==> mount_command::spec_unmount_command(
            host,
            path,
        ) == (mount_command::CommandLineView {
            program: "sudo"@,
            args: seq!["-n"@, "umount"@, path],
        }),
        host.platform == Platform::Linux && host.is_root ==> mount_command::spec_unmount_command(
            host,
            path,
        ).program == "umount"@,
        host.platform == Platform::MacOs ==> mount_command::spec_unmount_command(
            host,
            path,
        ).program == "/sbin/umount"@,
{
}

/// The tools of Windows are run from where Windows is, and from nowhere else.
pub proof fn law_tools_come_from_windows(root: Seq<char>, name: Seq<char>)
    requires
        root.len() > 2,
        root.last() != '\\',
        root.last() != '/',
    ensures
        windows::spec_system32_exe(Some(root), name) == root + "\\System32\\"@ + name,
        windows::spec_system32_exe(None, name) == "C:\\Windows\\System32\\"@ + name,
{
    reveal_strlit("\\System32\\");
    reveal_strlit("System32");
    reveal_strlit("C:\\Windows");
    reveal_strlit("C:\\Windows\\System32\\");
    assert(windows::spec_system32_exe(Some(root), name) =~= root + "\\System32\\"@ + name);
    assert(windows::spec_system32_exe(None, name) =~= "C:\\Windows\\System32\\"@ + name);
}

/// A line of the mount table shows a mount at `path`, from `source`, whatever
/// stands after and on other lines.
pub proof fn law_mount_tables_are_read(
    before: Seq<char>,
    source: Seq<char>,
    path: Seq<char>,
    rest: Seq<char>,
    after: Seq<char>,
)
    requires
        is_word(source),
        is_word(path),
        !rest.contains('\n'),
    ensures
        mount_command::spec_table_lists(
            before.push('\n') + (source.push(' ') + path.push(' ') + rest).push('\n') + after,
            path,
        ),
        mount_command::table_source(source.push(' ') + path.push(' ') + rest, path) == Some(source),
{
    let line = source.push(' ') + path.push(' ') + rest;
    text::law_white_space(' ');
    text::law_words(source, ' ', path.push(' ') + rest);
    text::law_words(path, ' ', rest);
    assert(line =~= source.push(' ') + (path.push(' ') + rest));
    let words = text::spec_words(line);
    assert(words =~= seq![source] + (seq![path] + text::spec_words(rest)));
    assert(words[0] == source && words[1] == path);
    lemma_no_line_end(source);
    lemma_no_line_end(path);
    assert(!line.contains('\n')) by {
        if line.contains('\n') {
            let i = line.index_of('\n');
            if i < source.len() {
                assert(source[i] == '\n');
                assert(source.contains('\n'));
            } else if i == source.len() {
            } else if i < source.len() + 1 + path.len() {
                assert(path[i - source.len() - 1] == '\n');
                assert(path.contains('\n'));
            } else if i == source.len() + 1 + path.len() {
            } else {
                assert(rest[i - source.len() - path.len() - 2] == '\n');
                assert(rest.contains('\n'));
            }
        }
    }
    let table = before.push('\n') + line.push('\n') + after;
    let tail = line.push('\n') + after;
    assert(table =~= before.push('\n') + tail);
    text::law_splitting(before, '\n', tail);
    text::law_splitting(line, '\n', after);
    let lines = text::spec_split(table, '\n');
    let k = text::spec_split(before, '\n').len() as int;
    assert(lines[k] == line);
    assert(mount_command::line_mounts(lines[k], path));
}

/// The text has no white space in it and is not empty.
pub open spec fn is_word(s: Seq<char>) -> bool {
    s.len() > 0 && forall|i: int| 0 <= i < s.len() ==> !text::spec_is_whitespace(#[trigger] s[i])
}

proof fn lemma_no_line_end(s: Seq<char>)
    requires
        is_word(s),
    ensures
        !s.contains('\n'),
{
    text::law_white_space('\n');
    if s.contains('\n') {
        let i = s.index_of('\n');
        assert(s[i] == '\n');
    }
}

/// Only a mount in the table, or a file system that says that it is NFS, is a
/// mount; where neither can be read there is none.
pub proof fn law_mounts_are_seen(path: Seq<char>, name: Vec<u8>)
    ensures
        mount_command::spec_is_mounted(path, MountEvidence::FileSystem(Some(name))) <==> name@
            == seq!['n' as u8, 'f' as u8, 's' as u8],
        !mount_command::spec_is_mounted(path, MountEvidence::FileSystem(None)),
        !mount_command::spec_is_mounted(path, MountEvidence::Table(None)),
        !mount_command::spec_is_mounted(path, MountEvidence::Client(None)),
        mount_command::spec_mounted_from(path, MountListing::Table(None)) is None,
        mount_command::spec_mounted_from(path, MountListing::FileSystem(None)) is None,
        mount_command::spec_mounted_from(path, MountListing::Client(None)) is None,
{
}

/// The file system of macOS names what it was mounted from.
pub proof fn law_file_systems_name_their_source(path: Seq<char>, source: String)
    ensures
        mount_command::spec_mounted_from(path, MountListing::FileSystem(Some(source))) == Some(
            source@,
        ),
{
}

/// The client of Windows lists a mount with its drive and its share, whatever
/// stands behind them; a line about another drive is none of this one's.
pub proof fn law_clients_list_their_mounts(letter: char, capital: char, share: Seq<char>, rest: Seq<char>)
    requires
        'a' <= letter <= 'z',
        capital as int - 'A' as int == letter as int - 'a' as int,
        is_word(share),
        share.len() > 2,
        share[0] == '\\',
        share[1] == '\\',
        rest.len() > 0,
        !text::spec_is_whitespace(rest.last()),
    ensures
        ({
            let line = seq![capital, ':', ' '] + (share.push(' ') + rest);
            &&& mount_command::client_source(line, seq![letter, ':']) == Some(share)
            &&& mount_command::client_source(line, seq![capital, ':']) == Some(share)
            &&& mount_command::client_source(line, seq!['/', ':']) is None
        }),
{
    let tail = share.push(' ') + rest;
    let line = seq![capital, ':', ' '] + tail;
    text::law_white_space(' ');
    text::law_white_space(capital);
    let none = Seq::<char>::empty();
    assert(line.last() == rest.last());
    assert(line[0] == capital);
    assert(none + line + none =~= line);
    text::law_trimming_takes_the_white_space_around(none, line, none);
    assert(line[2] == ' ');
    let behind = line.skip(2);
    assert(behind =~= none.push(' ') + tail);
    text::law_words(none, ' ', tail);
    text::law_words(share, ' ', rest);
    assert(text::spec_words(none) =~= Seq::<Seq<char>>::empty());
    assert(text::spec_words(behind)[0] == share);
    let front = line.take(2);
    assert(front =~= seq![capital, ':']);
    text::law_lower_case(capital);
    text::law_lower_case(letter);
    text::law_lower_case(':');
    assert(text::spec_ascii_lowercase(front) =~= seq![letter, ':']);
    assert(text::spec_ascii_lowercase(seq![letter, ':']) =~= seq![letter, ':']);
    assert(text::spec_ascii_lowercase(seq!['/', ':']) =~= seq!['/', ':']);
    assert(text::spec_ascii_lowercase(front)[0] != '/');
}

/// A line of the client that names no share behind the drive shows no mount, nor
/// does one where something else stands right behind it.
pub proof fn law_clients_list_shares(letter: char, word: Seq<char>, rest: Seq<char>)
    requires
        'a' <= letter <= 'z',
        is_word(word),
        word.len() < 2 || word[0] != '\\' || word[1] != '\\',
        rest.len() > 0,
        !text::spec_is_whitespace(rest.last()),
    ensures
        mount_command::client_source(
            seq![letter, ':', ' '] + (word.push(' ') + rest),
            seq![letter, ':'],
        ) is None,
        mount_command::client_source(seq![letter, ':'], seq![letter, ':']) is None,
        mount_command::client_source(
            seq![letter, ':'] + (word.push(' ') + rest),
            seq![letter, ':'],
        ) is None,
{
    let tail = word.push(' ') + rest;
    let line = seq![letter, ':', ' '] + tail;
    text::law_white_space(' ');
    text::law_white_space(letter);
    text::law_white_space(':');
    let none = Seq::<char>::empty();
    assert(line.last() == rest.last());
    assert(none + line + none =~= line);
    text::law_trimming_takes_the_white_space_around(none, line, none);
    assert(line.skip(2) =~= none.push(' ') + tail);
    text::law_words(none, ' ', tail);
    text::law_words(word, ' ', rest);
    assert(text::spec_words(none) =~= Seq::<Seq<char>>::empty());
    assert(text::spec_words(line.skip(2))[0] == word);
    let joined = seq![letter, ':'] + tail;
    assert(joined.last() == rest.last());
    assert(none + joined + none =~= joined);
    text::law_trimming_takes_the_white_space_around(none, joined, none);
    assert(joined[2] == word[0]);
    let bare = seq![letter, ':'];
    assert(none + bare + none =~= bare);
    text::law_trimming_takes_the_white_space_around(none, bare, none);
}

/// A mount is one of ours where it is of this machine and has our name.
pub proof fn law_ours_have_our_name(name: Seq<char>, other: Seq<char>)
    ensures
        mount_command::spec_is_ours(Platform::Linux, Some("127.0.0.1:/hf-mount-"@ + name)),
        mount_command::spec_is_ours(Platform::MacOs, Some("127.0.0.1:/hf-mount-"@ + name)),
        mount_command::spec_is_ours(
            Platform::Windows,
            Some("\\\\127.0.0.1\\hf-mount-"@ + name),
        ),
        !mount_command::spec_is_ours(Platform::Linux, None),
        !mount_command::spec_is_ours(Platform::Windows, None),
        (forall|y: Seq<char>| other != #[trigger] ("127.0.0.1:/hf-mount-"@ + y))
            ==> !mount_command::spec_is_ours(Platform::Linux, Some(other))
            && !mount_command::spec_is_ours(Platform::MacOs, Some(other)),
        (forall|y: Seq<char>| other != #[trigger] ("\\\\127.0.0.1\\hf-mount-"@ + y))
            ==> !mount_command::spec_is_ours(Platform::Windows, Some(other)),
{
    reveal_strlit("127.0.0.1:/");
    reveal_strlit("hf-mount-");
    reveal_strlit("127.0.0.1:/hf-mount-");
    reveal_strlit("\\\\127.0.0.1\\");
    reveal_strlit("\\\\127.0.0.1\\hf-mount-");
    let unix = "127.0.0.1:/hf-mount-"@;
    let share = "\\\\127.0.0.1\\hf-mount-"@;
    assert("127.0.0.1:/"@ + "hf-mount-"@ =~= unix);
    assert("\\\\127.0.0.1\\"@ + "hf-mount-"@ =~= share);
    text::law_searching(name, unix, name, other);
    text::law_searching(name, share, name, other);
}

// ── Failures of the command ─────────────────────────────────────────────

/// The code 53 is recognised where it stands for itself, and not inside another
/// number.
pub proof fn law_codes_stand_for_themselves(before: Seq<char>, after: Seq<char>, digit: char)
    requires
        '0' <= digit <= '9',
        before.len() > 0 ==> !('0' <= before.last() <= '9'),
        after.len() > 0 ==> !('0' <= after[0] <= '9'),
        forall|i: int| 0 <= i < before.len() ==> #[trigger] before[i] != '5',
        forall|i: int| 0 <= i < after.len() ==> #[trigger] after[i] != '5',
    ensures
        mount_command::has_code_53(before + seq!['5', '3'] + after),
        !mount_command::has_code_53(before + seq!['5', '3', digit] + after),
        digit != '5' ==> !mount_command::has_code_53(before + seq![digit, '5', '3'] + after),
        !mount_command::has_code_53(before + after),
{
    let one = before + seq!['5', '3'] + after;
    let n = before.len() as int;
    assert(one[n] == '5' && one[n + 1] == '3');
    if n > 0 {
        assert(one[n - 1] == before.last());
    }
    if after.len() > 0 {
        assert(one[n + 2] == after[0]);
    }
    assert(mount_command::is_code_53(one, n));
    let two = before + seq!['5', '3', digit] + after;
    if mount_command::has_code_53(two) {
        let i = choose|i: int| mount_command::is_code_53(two, i);
        assert(two[i] == '5' && two[i + 1] == '3');
        if i < n {
            assert(two[i] == before[i]);
        } else if i == n {
            assert(two[n + 2] == digit);
        } else if i == n + 1 {
            assert(two[i] == '3');
        } else if i == n + 2 {
            assert(i + 1 - n - 3 == 0 && two[i + 1] == after[0]);
        } else {
            assert(two[i] == after[i - n - 3]);
        }
    }
    let three = before + seq![digit, '5', '3'] + after;
    if digit != '5' && mount_command::has_code_53(three) {
        let i = choose|i: int| mount_command::is_code_53(three, i);
        assert(three[i] == '5' && three[i + 1] == '3');
        if i < n {
            assert(three[i] == before[i]);
        } else if i == n {
            assert(three[i] == digit);
        } else if i == n + 1 {
            assert(three[i - 1] == digit);
        } else if i == n + 2 {
            assert(three[i] == '3');
        } else {
            assert(three[i] == after[i - n - 3]);
        }
    }
    let none = before + after;
    if mount_command::has_code_53(none) {
        let i = choose|i: int| mount_command::is_code_53(none, i);
        assert(none[i] == '5');
        if i < n {
            assert(none[i] == before[i]);
        } else {
            assert(none[i] == after[i - n]);
        }
    }
}

/// A network error is recognised by its words, in capitals or not, and its code,
/// on either output of the command; neither words nor code alone make one.
pub proof fn law_network_errors_have_words_and_a_code(s: Seq<char>, output: CommandOutput)
    ensures
        mount_command::reports_error_53(s) <==> mount_command::has_code_53(
            mount_command::lowered(s),
        ) && (says(mount_command::lowered(s), "network error"@) || says(
            mount_command::lowered(s),
            "netzwerkfehler"@,
        )),
        mount_command::lowered(s).len() == s.len(),
        forall|i: int|
            0 <= i < s.len() ==> #[trigger] mount_command::lowered(s)[i] == text::spec_lower(s[i]),
        output.is_error_53() <==> mount_command::reports_error_53(output.stdout@)
            || mount_command::reports_error_53(output.stderr@),
{
    let low = mount_command::lowered(s);
    text::law_searching(low, "network error"@, low, low);
    text::law_searching(low, "netzwerkfehler"@, low, low);
    if says(low, "network error"@) {
        let (x, y) = choose|x: Seq<char>, y: Seq<char>| low == #[trigger] (x + "network error"@ + y);
        text::law_searching(x, "network error"@, y, low);
    }
    if says(low, "netzwerkfehler"@) {
        let (x, y) = choose|x: Seq<char>, y: Seq<char>| low == #[trigger] (x + "netzwerkfehler"@ + y);
        text::law_searching(x, "netzwerkfehler"@, y, low);
    }
}

/// On Windows a failure tells the command that was run and what it said.
pub proof fn law_windows_failures_tell_the_command(output: CommandOutput, display: Seq<char>)
    ensures
        says(mount_command::spec_mount_failure(Platform::Windows, output, display), display),
        says(
            mount_command::spec_mount_failure(Platform::Windows, output, display),
            " stdout="@ + text::spec_trim(output.stdout@) + " stderr="@ + text::spec_trim(
                output.stderr@,
            ),
        ),
        mount_command::spec_mount_failure(Platform::MacOs, output, display)
            == "mount command failed with "@ + output.status@,
{
    reveal_strlit("` stdout=");
    reveal_strlit(" stdout=");
    let all = mount_command::spec_mount_failure(Platform::Windows, output, display);
    let before = "mount.exe failed with "@ + output.status@ + ": "@
        + mount_command::spec_failure_hint(output) + " cmd=`"@;
    let out = text::spec_trim(output.stdout@);
    let err = text::spec_trim(output.stderr@);
    let after = "` stdout="@ + out + " stderr="@ + err;
    assert(all =~= before + display + after);
    let said = " stdout="@ + out + " stderr="@ + err;
    let front = before + display + seq!['`'];
    let none = Seq::<char>::empty();
    assert(all =~= front + said + none);
}

/// The options of a mount on Windows are those of its client, and the same for
/// every mount.
pub proof fn law_options_of_windows(actimeo: nat, port: u16, read_only: bool)
    ensures
        mount_command::spec_mount_opts(Platform::Windows, actimeo, port, read_only)
            == "nolock,anon,mtype=hard,rsize=32,wsize=32,timeout=60"@,
{
}

// ── The window ──────────────────────────────────────────────────────────

/// The window unmounts the mount point that it is given; on Windows by force,
/// under the name that it was mounted under, with the tool of Windows.
pub proof fn law_windows_unmount_what_they_are_given(host: Host, path: Seq<char>, letter: char)
    requires
        'a' <= letter <= 'z' || 'A' <= letter <= 'Z',
    ensures
        host.platform is Linux ==> platform::spec_unmount_path(host, path)
            == (mount_command::CommandLineView { program: "umount"@, args: seq![path] }),
        host.platform is MacOs ==> platform::spec_unmount_path(host, path)
            == (mount_command::CommandLineView { program: "/sbin/umount"@, args: seq![path] }),
        host.platform is Windows ==> platform::spec_unmount_path(host, seq![letter, ':', '\\'])
            == (mount_command::CommandLineView {
            program: host.spec_tool("umount.exe"@),
            args: seq!["-f"@, seq![letter, ':']],
        }),
        host.platform is Windows && path.len() > 3 ==> platform::spec_unmount_path(host, path)
            == (mount_command::CommandLineView {
            program: host.spec_tool("umount.exe"@),
            args: seq!["-f"@, path],
        }),
{
}

/// Callers are held to the rule, but on Windows and where the user gave that up.
pub proof fn law_callers_are_held_to_the_rule(params: SessionParams)
    ensures
        params.spec_authorizes() <==> !(params.host.platform is Windows)
            && !params.security.allow_unsafe_loopback,
{
}

/// A mount is unmounted exactly where somebody asks for its end, within ten
/// seconds.
pub proof fn law_unmounts_are_limited(params: SessionParams, probing: bool, event: SessionEvent)
    requires
        session::awaits(Phase::Serving { probing }, event),
    ensures
        ({
            let actions = session::spec_step(params, Phase::Serving { probing }, event).1;
            &&& actions.contains(session::ActionView::Unmount { limit_secs: 10 }) <==> event is CtrlC
                || event is Terminate || event is StopRequested
            &&& forall|i: int|
                0 <= i < actions.len() && #[trigger] actions[i] is Unmount ==> actions[i] == (
                session::ActionView::Unmount { limit_secs: 10 })
            &&& session::spec_step(params, Phase::Serving { probing }, event).0 == Phase::Over
                && params.host.platform is Windows ==> actions.contains(
                session::ActionView::AbortPortmapper,
            )
        }),
{
    let (next, actions) = session::spec_step(params, Phase::Serving { probing }, event);
    if event is CtrlC || event is Terminate || event is StopRequested {
        assert(actions[1] == (session::ActionView::Unmount { limit_secs: 10 }));
        if params.host.platform is Windows {
            assert(actions[3] == session::ActionView::AbortPortmapper);
        }
    } else if next == Phase::Over && params.host.platform is Windows {
        if event is ServerExited {
            assert(actions[1] == session::ActionView::AbortPortmapper);
        } else {
            assert(actions[2] == session::ActionView::AbortPortmapper);
        }
    }
}

/// The command of a session has the options of its port, of its time to live,
/// rounded up to seconds, and of its access.
pub proof fn law_the_command_has_the_options(params: SessionParams, seconds: nat)
    requires
        !(params.host.platform is Windows),
        seconds * 1000 >= params.metadata_ttl_ms,
        seconds * 1000 < params.metadata_ttl_ms + 1000,
    ensures
        ({
            let command = params.spec_command();
            let opts = command.args[command.args.len() - 3];
            let digits = text::spec_decimal(params.port as nat);
            let common = ",vers=3,tcp,rsize=1048576,actimeo="@ + text::spec_decimal(seconds)
                + ",port="@ + digits + ",mountport="@ + digits;
            let sizes = if params.read_only {
                Seq::<char>::empty()
            } else {
                ",wsize=1048576"@
            };
            let kind = if params.host.platform is Linux {
                "nolock"@
            } else if params.read_only {
                "rdonly,locallocks"@
            } else {
                "locallocks"@
            };
            opts == kind + common + sizes
        }),
{
    let command = params.spec_command();
    let opts = command.args[command.args.len() - 3];
    assert(mount_command::spec_actimeo(params.metadata_ttl_ms) == seconds);
    let digits = text::spec_decimal(params.port as nat);
    let common = ",vers=3,tcp,rsize=1048576,actimeo="@ + text::spec_decimal(seconds) + ",port="@
        + digits + ",mountport="@ + digits;
    let none = Seq::<char>::empty();
    if params.read_only {
        assert(opts + none =~= opts);
    }
    if params.host.platform is Linux {
        assert("nolock"@ + common + none =~= "nolock"@ + common);
    } else {
        assert("rdonly,locallocks"@ + common + none =~= "rdonly,locallocks"@ + common);
    }
}

/// The first line that shows a mount at the path tells what it was mounted
/// from; a line about another path tells nothing.
pub proof fn law_the_first_line_counts(line: Seq<char>, rest: Seq<Seq<char>>, path: Seq<char>)
    ensures
        mount_command::first_source(Seq::empty(), path, false) is None,
        mount_command::table_source(line, path) is Some ==> mount_command::first_source(
            seq![line] + rest,
            path,
            false,
        ) == mount_command::table_source(line, path),
        mount_command::table_source(line, path) is None ==> mount_command::first_source(
            seq![line] + rest,
            path,
            false,
        ) == mount_command::first_source(rest, path, false),
        mount_command::client_source(line, path) is Some ==> mount_command::first_source(
            seq![line] + rest,
            path,
            true,
        ) == mount_command::client_source(line, path),
        mount_command::client_source(line, path) is None ==> mount_command::first_source(
            seq![line] + rest,
            path,
            true,
        ) == mount_command::first_source(rest, path, true),
{
    let all = seq![line] + rest;
    assert(all[0] == line);
    assert(all.skip(1) =~= rest);
}

/// A line whose second word is another path shows no mount here.
pub proof fn law_other_paths_are_not_here(source: Seq<char>, other: Seq<char>, rest: Seq<char>, path: Seq<char>)
    requires
        is_word(source),
        is_word(other),
        other != path,
    ensures
        mount_command::table_source(source.push(' ') + other.push(' ') + rest, path) is None,
        !mount_command::line_mounts(source.push(' ') + other.push(' ') + rest, path),
        mount_command::table_source(source, path) is None,
{
    let line = source.push(' ') + other.push(' ') + rest;
    text::law_white_space(' ');
    assert(line =~= source.push(' ') + (other.push(' ') + rest));
    text::law_words(source, ' ', other.push(' ') + rest);
    text::law_words(other, ' ', rest);
    assert(text::spec_words(line)[1] == other);
}

/// What is done where a session is to end before its mount is there: the server
/// stops, on Windows the port mapper too, the user is told, and the storage is
/// shut down. That is no failure.
pub open spec fn ends_early(actions: Seq<session::ActionView>, platform: Platform) -> bool {
    let told = session::ActionView::Emit(
        session::NfsMountEventView::ShuttingDown { reason: "stop requested"@ },
    );
    if platform is Windows {
        actions == seq![
            session::ActionView::AbortServer,
            session::ActionView::AbortPortmapper,
            told,
            session::ActionView::ShutDownStorage,
            session::ActionView::Finish(Ok(())),
        ]
    } else {
        actions == seq![
            session::ActionView::AbortServer,
            told,
            session::ActionView::ShutDownStorage,
            session::ActionView::Finish(Ok(())),
        ]
    }
}

/// A stop ends a session at every point before its mount is there, in the same
/// way; where the command was to be run next, it is shown and not run.
pub proof fn law_stops_come_through(params: SessionParams, attempt: usize)
    ensures
        ({
            let (next, actions) = session::spec_step(
                params,
                Phase::Mounting { attempt },
                SessionEvent::StopRequested,
            );
            next == Phase::Over && ends_early(actions, params.host.platform)
        }),
        ({
            let (next, actions) = session::spec_step(
                params,
                Phase::Waiting { attempt },
                SessionEvent::StopRequested,
            );
            next == Phase::Over && ends_early(actions, params.host.platform)
        }),
        ({
            let (next, actions) = session::spec_step(
                params,
                Phase::Waiting { attempt },
                SessionEvent::BackoffOver { stop_requested: true },
            );
            next == Phase::Over && ends_early(actions, params.host.platform)
        }),
        !(params.host.platform is Windows && params.skip_auto_mount) ==> {
            let (next, actions) = session::spec_step(
                params,
                Phase::StartingPortmapper,
                SessionEvent::PortmapperStarted { result: Ok(()), stop_requested: true },
            );
            &&& next == Phase::Over
            &&& actions[0] == session::ActionView::Emit(
                session::NfsMountEventView::MountCommand { command: params.spec_display() },
            )
            &&& ends_early(actions.skip(1), params.host.platform)
        },
{
    let early = session::stopped_early(params, true);
    let told = session::ActionView::Emit(
        session::NfsMountEventView::ShuttingDown { reason: "stop requested"@ },
    );
    if params.host.platform is Windows {
        assert(early =~= seq![
            session::ActionView::AbortServer,
            session::ActionView::AbortPortmapper,
            told,
            session::ActionView::ShutDownStorage,
            session::ActionView::Finish(Ok(())),
        ]);
    } else {
        assert(early =~= seq![
            session::ActionView::AbortServer,
            told,
            session::ActionView::ShutDownStorage,
            session::ActionView::Finish(Ok(())),
        ]);
    }
    let (next, actions) = session::spec_step(
        params,
        Phase::StartingPortmapper,
        SessionEvent::PortmapperStarted { result: Ok(()), stop_requested: true },
    );
    if !(params.host.platform is Windows && params.skip_auto_mount) {
        assert(actions.skip(1) =~= early);
    }
}

/// On Windows a mount is unmounted by force, by the tool of Windows.
pub proof fn law_windows_unmounts_by_force(host: Host, path: Seq<char>, letter: char)
    requires
        host.platform is Windows,
        'a' <= letter <= 'z' || 'A' <= letter <= 'Z',
    ensures
        mount_command::spec_unmount_command(host, seq![letter, ':', '\\'])
            == (mount_command::CommandLineView {
            program: host.spec_tool("umount.exe"@),
            args: seq!["-f"@, seq![letter, ':']],
        }),
        path.len() > 3 ==> mount_command::spec_unmount_command(host, path)
            == (mount_command::CommandLineView {
            program: host.spec_tool("umount.exe"@),
            args: seq!["-f"@, path],
        }),
{
}

} // verus!
