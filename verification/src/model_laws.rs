//! What the models of the values of this library hold: nothing but what the
//! values do.
use crate::autostart;
use crate::autostart::AutostartStep;
use crate::cli;
use crate::cli::CliCommand;
use crate::compact::CompactStatus;
use crate::gui;
use crate::gui::{MountControl, StopStep};
use crate::mount_command::CommandLine;
use crate::nfs::{NfsAttr, NfsStat, Ownership, VfsSetAttr};
use crate::nfs_ops;
use crate::nfs_ops::{DirEntry, Effect, Next, NfsReply, NfsTask, Step, VfsCall, VfsDirEntry};
use crate::preflight;
use crate::preflight::CheckItem;
use crate::profile;
use crate::profile::RecentSource;
use crate::session;
use crate::session::{Action, MountError, NfsMountEvent};
use crate::setup;
use crate::setup::{BuildStep, RepoType, SourceKind};
use crate::status::SharedStatus;
use crate::text;
use crate::util;
use crate::worker::{WorkerSnapshot, WorkerStatus};
use vstd::prelude::*;

verus! {

/// A call of the storage is known by the files, the names and the data that it
/// holds.
pub proof fn law_calls_are_what_they_hold(
    dir: u64,
    to_dir: u64,
    name: String,
    to_name: String,
    target: String,
    owner: Ownership,
    attr: VfsSetAttr,
    ino: u64,
    inos: Vec<u64>,
    handle: u64,
    offset: u64,
    count: u32,
    data: Vec<u8>,
    writable: bool,
)
    ensures
        (VfsCall::Lookup { dir, name })@ == (nfs_ops::VfsCallView::Lookup { dir, name: name@ }),
        (VfsCall::Getattr { ino })@ == (nfs_ops::VfsCallView::Getattr { ino }),
        (VfsCall::GetattrEach { inos })@ == (nfs_ops::VfsCallView::GetattrEach { inos: inos@ }),
        (VfsCall::Setattr { ino, attr })@ == (nfs_ops::VfsCallView::Setattr { ino, attr }),
        (VfsCall::Open { ino, writable })@ == (nfs_ops::VfsCallView::Open { ino, writable }),
        (VfsCall::Read { handle, offset, count })@
            == (nfs_ops::VfsCallView::Read { handle, offset, count }),
        (VfsCall::Write { ino, handle, offset, data })@
            == (nfs_ops::VfsCallView::Write { ino, handle, offset, data: data@ }),
        (VfsCall::Create { dir, name, owner })@
            == (nfs_ops::VfsCallView::Create { dir, name: name@, owner }),
        (VfsCall::Mkdir { dir, name, owner })@
            == (nfs_ops::VfsCallView::Mkdir { dir, name: name@, owner }),
        (VfsCall::Unlink { dir, name })@ == (nfs_ops::VfsCallView::Unlink { dir, name: name@ }),
        (VfsCall::Rmdir { dir, name })@ == (nfs_ops::VfsCallView::Rmdir { dir, name: name@ }),
        (VfsCall::Symlink { dir, name, target, owner })@
            == (nfs_ops::VfsCallView::Symlink { dir, name: name@, target: target@, owner }),
        (VfsCall::Readlink { ino })@ == (nfs_ops::VfsCallView::Readlink { ino }),
        (VfsCall::Readdir { dir })@ == (nfs_ops::VfsCallView::Readdir { dir }),
        (VfsCall::Rename { from_dir: dir, from_name: name, to_dir, to_name })@
            == (nfs_ops::VfsCallView::Rename { from_dir: dir, from_name: name@, to_dir, to_name: to_name@ }),
{
}

/// An answer to a client is known by what it tells.
pub proof fn law_replies_are_what_they_hold(
    id: u64,
    attr: NfsAttr,
    bytes: Vec<u8>,
    eof: bool,
    entries: Vec<DirEntry>,
    end: bool,
    i: int,
)
    ensures
        NfsReply::Id(id)@ == nfs_ops::NfsReplyView::Id(id),
        NfsReply::Attr(attr)@ == nfs_ops::NfsReplyView::Attr(attr),
        (NfsReply::Data { bytes, eof })@ == (nfs_ops::NfsReplyView::Data { bytes: bytes@, eof }),
        (NfsReply::Created { id, attr })@ == (nfs_ops::NfsReplyView::Created { id, attr }),
        NfsReply::Done@ is Done,
        NfsReply::Path(bytes)@ == nfs_ops::NfsReplyView::Path(bytes@),
        (NfsReply::Entries { entries, end })@
            matches nfs_ops::NfsReplyView::Entries { entries: shown, end: e } && e == end
            && shown.len() == entries@.len() && (0 <= i < entries@.len()
            ==> shown[i].fileid == entries@[i].fileid && shown[i].name == entries@[i].name@
            && shown[i].attr == entries@[i].attr),
{
}

/// What a request still has to do is known by what it was asked.
pub proof fn law_tasks_are_what_they_hold(
    id: u64,
    offset: u64,
    count: u32,
    handle: u64,
    data: Vec<u8>,
    from_dir: u64,
    from_name: String,
    to_dir: u64,
    to_name: String,
    dest: u64,
    ino: u64,
    replaced: Option<u64>,
    exclusive: bool,
    start_after: u64,
    max_entries: usize,
)
    ensures
        NfsTask::Lookup@ == nfs_ops::NfsTaskView::Lookup,
        NfsTask::Attr@ == nfs_ops::NfsTaskView::Attr,
        NfsTask::NewEntry@ == nfs_ops::NfsTaskView::NewEntry,
        NfsTask::Readlink@ == nfs_ops::NfsTaskView::Readlink,
        (NfsTask::ReadOpen { id, offset, count })@
            == (nfs_ops::NfsTaskView::ReadOpen { id, offset, count }),
        (NfsTask::ReadData { id, offset, count, handle })@
            == (nfs_ops::NfsTaskView::ReadData { id, offset, count, handle }),
        (NfsTask::ReadReopen { offset, count })@
            == (nfs_ops::NfsTaskView::ReadReopen { offset, count }),
        (NfsTask::ReadAgain { handle })@ == (nfs_ops::NfsTaskView::ReadAgain { handle }),
        (NfsTask::ReaddirList { start_after, max_entries })@
            == (nfs_ops::NfsTaskView::ReaddirList { start_after, max_entries }),
        (NfsTask::WriteFast { id, offset, data, handle })@
            == (nfs_ops::NfsTaskView::WriteFast { id, offset, data: data@, handle }),
        (NfsTask::WriteOpen { id, offset, data })@
            == (nfs_ops::NfsTaskView::WriteOpen { id, offset, data: data@ }),
        (NfsTask::WriteSlow { id, offset, handle })@
            == (nfs_ops::NfsTaskView::WriteSlow { id, offset, handle }),
        (NfsTask::Create { exclusive })@ == (nfs_ops::NfsTaskView::Create { exclusive }),
        (NfsTask::Remove { ino })@ == (nfs_ops::NfsTaskView::Remove { ino }),
        (NfsTask::RenameDest { from_dir, from_name, to_dir, to_name })@
            == (nfs_ops::NfsTaskView::RenameDest { from_dir, from_name: from_name@, to_dir, to_name: to_name@ }),
        (NfsTask::RenameSource { from_dir, from_name, to_dir, to_name, dest })@
            == (nfs_ops::NfsTaskView::RenameSource { from_dir, from_name: from_name@, to_dir, to_name: to_name@, dest }),
        (NfsTask::Rename { replaced })@ == (nfs_ops::NfsTaskView::Rename { replaced }),
        (NfsTask::RemoveLookup { dir: from_dir, name: from_name })@
            == (nfs_ops::NfsTaskView::RemoveLookup { dir: from_dir, name: from_name@ }),
{
}

/// A step is known by what is to be done, and by the call or the answer that
/// follows.
pub proof fn law_steps_are_what_they_hold(
    effects: Vec<Effect>,
    call: VfsCall,
    task: NfsTask,
    reply: NfsReply,
    stat: NfsStat,
    next: Next,
)
    ensures
        (Step { effects, next })@ == (nfs_ops::StepView { effects: effects@, next: next@ }),
        (Next::Call { call, task })@ == (nfs_ops::NextView::Call { call: call@, task: task@ }),
        Next::Answer(Ok(reply))@ == nfs_ops::NextView::Answer(Ok(reply@)),
        Next::Answer(Err(stat))@ == nfs_ops::NextView::Answer(Err(stat)),
{
}

/// Entries of a directory are known by their numbers and names.
pub proof fn law_entries_are_what_they_hold(entries: Vec<VfsDirEntry>, i: int)
    ensures
        nfs_ops::entries_view(entries@).len() == entries@.len(),
        0 <= i < entries@.len() ==> nfs_ops::entries_view(entries@)[i].ino == entries@[i].ino
            && nfs_ops::entries_view(entries@)[i].name == entries@[i].name@,
{
}

/// An event of a mount is known by what it tells.
pub proof fn law_events_are_what_they_hold(port: u16, text: String)
    ensures
        (NfsMountEvent::ServerListening { port })@
            == (session::NfsMountEventView::ServerListening { port }),
        (NfsMountEvent::MountCommand { command: text })@
            == (session::NfsMountEventView::MountCommand { command: text@ }),
        (NfsMountEvent::Mounted { mount_point: text })@
            == (session::NfsMountEventView::Mounted { mount_point: text@ }),
        (NfsMountEvent::ShuttingDown { reason: text })@
            == (session::NfsMountEventView::ShuttingDown { reason: text@ }),
{
}

/// An action of a session is known by what is done.
pub proof fn law_actions_are_what_they_hold(
    event: NfsMountEvent,
    command: CommandLine,
    ms: u64,
    limit_secs: u64,
    error: MountError,
    message: String,
    actions: Vec<Action>,
    i: int,
)
    ensures
        Action::Emit(event)@ == session::ActionView::Emit(event@),
        Action::StartServer@ is StartServer,
        Action::AbortServer@ is AbortServer,
        Action::StartPortmapper@ is StartPortmapper,
        Action::AbortPortmapper@ is AbortPortmapper,
        Action::NotifyReady@ is NotifyReady,
        Action::Probe@ is Probe,
        Action::DrainPool@ is DrainPool,
        Action::ShutDownStorage@ is ShutDownStorage,
        Action::RunMount(command)@ == session::ActionView::RunMount(command@),
        (Action::Backoff { ms })@ == (session::ActionView::Backoff { ms }),
        (Action::Unmount { limit_secs })@ == (session::ActionView::Unmount { limit_secs }),
        Action::Finish(Ok(()))@ == session::ActionView::Finish(Ok(())),
        Action::Finish(Err(error))@ == session::ActionView::Finish(Err(error@)),
        MountError::InvalidPath@ is InvalidPath,
        MountError::Other(message)@ == session::MountErrorView::Other(message@),
        MountError::Other(message)@.message() == message@,
        session::actions_view(actions@).len() == actions@.len(),
        0 <= i < actions@.len() ==> session::actions_view(actions@)[i] == actions@[i]@,
{
}

/// A command is known by its program and its arguments.
pub proof fn law_commands_are_what_they_hold(command: CommandLine, i: int)
    ensures
        command@.program == command.program@,
        command@.args.len() == command.args@.len(),
        0 <= i < command.args@.len() ==> command@.args[i] == command.args@[i]@,
{
}

/// A step of a plan is known by the paths, the source and the sizes that it holds.
pub proof fn law_plans_are_what_they_hold(
    path: String,
    dir: String,
    size: u64,
    max_size: u64,
    read_only: bool,
    source: SourceKind,
    path_prefix: String,
    bucket_id: String,
    repo_id: String,
    repo_type: RepoType,
    revision: String,
    steps: Vec<BuildStep>,
    i: int,
)
    ensures
        (SourceKind::Bucket { bucket_id })@
            == (setup::SourceKindView::Bucket { bucket_id: bucket_id@ }),
        (SourceKind::Repo { repo_id, repo_type, revision })@
            == (setup::SourceKindView::Repo { repo_id: repo_id@, repo_type, revision: revision@ }),
        (BuildStep::PrepareCacheDir { path })@
            == (setup::BuildStepView::PrepareCacheDir { path: path@ }),
        (BuildStep::ConnectHub { source, path_prefix })@
            == (setup::BuildStepView::ConnectHub { source: source@, path_prefix: path_prefix@ }),
        BuildStep::CheckPathPrefix@ == setup::BuildStepView::CheckPathPrefix,
        BuildStep::CreateStorageContext@ == setup::BuildStepView::CreateStorageContext,
        (BuildStep::FetchStorageToken { read_only })@
            == (setup::BuildStepView::FetchStorageToken { read_only }),
        BuildStep::BuildStorageConfig@ == setup::BuildStepView::BuildStorageConfig,
        (BuildStep::CreateFileCache { dir, size })@
            == (setup::BuildStepView::CreateFileCache { dir: dir@, size }),
        (BuildStep::CreateChunkDir { dir })@
            == (setup::BuildStepView::CreateChunkDir { dir: dir@ }),
        (BuildStep::OpenChunkCache { dir, size })@
            == (setup::BuildStepView::OpenChunkCache { dir: dir@, size }),
        BuildStep::CreateStorageClient@ == setup::BuildStepView::CreateStorageClient,
        (BuildStep::CreateOverlayDir { path })@
            == (setup::BuildStepView::CreateOverlayDir { path: path@ }),
        (BuildStep::OpenOverlayDir { path })@
            == (setup::BuildStepView::OpenOverlayDir { path: path@ }),
        (BuildStep::CreateStagingDir { dir, max_size })@
            == (setup::BuildStepView::CreateStagingDir { dir: dir@, max_size }),
        (BuildStep::CreateMountPoint { path })@
            == (setup::BuildStepView::CreateMountPoint { path: path@ }),
        setup::steps_view(steps@).len() == steps@.len(),
        0 <= i < steps@.len() ==> setup::steps_view(steps@)[i] == steps@[i]@,
{
}

/// The status of a worker is known by what it tells.
pub proof fn law_reports_are_what_they_hold(status: WorkerStatus)
    ensures
        status@.state == status.state,
        status@.headline == status.headline@,
        status@.detail == status.detail@,
        status@.mount_point == text::opt_string(status.mount_point),
        status@.source_label == text::opt_string(status.source_label),
        status@.pid == status.pid,
        status@.updated_at_secs == status.updated_at_secs,
{
}

/// A text that may be missing is known by what it is, where it is there.
pub proof fn law_texts_may_be_missing(s: String, t: &str)
    ensures
        text::opt_string(Some(s)) == Some(s@),
        text::opt_string(None) is None,
        text::opt_view(Some(t)) == Some(t@),
        text::opt_view(None) is None,
{
}

/// What is shown is known by its state, its texts and its log.
pub proof fn law_the_log_is_what_it_holds(shown: SharedStatus, i: int)
    ensures
        shown@.revision == shown.revision,
        shown@.state == shown.state,
        shown@.headline == shown.headline@,
        shown@.detail == shown.detail@,
        shown@.log.len() == shown.log@.len(),
        0 <= i < shown.log@.len() ==> shown@.log[i].time == shown.log@[i].time@
            && shown@.log[i].level == shown.log@[i].level
            && shown@.log[i].text == shown.log@[i].text@,
{
}

/// What the compact window shows is known by its state, its texts and its log.
pub proof fn law_compact_logs_are_what_they_hold(shown: CompactStatus, i: int)
    ensures
        shown@.state == shown.state,
        shown@.headline == shown.headline@,
        shown@.detail == shown.detail@,
        shown@.log.len() == shown.log@.len(),
        0 <= i < shown.log@.len() ==> shown@.log[i] == shown.log@[i]@,
{
}

/// A check is known by its level and its texts.
pub proof fn law_checks_are_what_they_hold(checks: Vec<CheckItem>, i: int)
    ensures
        preflight::checks_view(checks@).len() == checks@.len(),
        0 <= i < checks@.len() ==> preflight::checks_view(checks@)[i].level == checks@[i].level
            && preflight::checks_view(checks@)[i].label == checks@[i].label@
            && preflight::checks_view(checks@)[i].detail == checks@[i].detail@,
{
}

/// A command of the command line is known by what it was given.
pub proof fn law_arguments_are_what_they_hold(path: Option<String>, arg: String)
    ensures
        CliCommand::Window@ is Window,
        CliCommand::Help@ is Help,
        CliCommand::Version@ is Version,
        CliCommand::Worker@ is Worker,
        CliCommand::CheckSetup(path)@ == cli::CliCommandView::CheckSetup(text::opt_string(path)),
        CliCommand::Unknown(arg)@ == cli::CliCommandView::Unknown(arg@),
{
}

/// A step that sets the entry at login is known by its file or its command.
pub proof fn law_entries_at_login_are_what_they_hold(
    path: String,
    content: String,
    command: CommandLine,
)
    ensures
        (AutostartStep::WriteFile { path, content })@
            == (autostart::AutostartStepView::WriteFile { path: path@, content: content@ }),
        (AutostartStep::RemoveFile { path })@
            == (autostart::AutostartStepView::RemoveFile { path: path@ }),
        AutostartStep::Run(command)@ == autostart::AutostartStepView::Run(command@),
{
}

/// A step that stops a mount is known by the process or the mount point that it
/// concerns.
pub proof fn law_stops_are_what_they_hold(pid: u32, path: String, target: Option<String>)
    ensures
        StopStep::Nothing@ is Nothing,
        StopStep::RequestShutdown@ is RequestShutdown,
        (StopStep::CheckWorker { pid })@ == (gui::StopStepView::CheckWorker { pid }),
        (StopStep::Terminate { pid })@ == (gui::StopStepView::Terminate { pid }),
        (StopStep::Unmount { mount_point: path })@
            == (gui::StopStepView::Unmount { mount_point: path@ }),
        (StopStep::MarkStopped { mount_point: target })@
            == (gui::StopStepView::MarkStopped { mount_point: text::opt_string(target) }),
{
}

/// What the window knows of its mount is known field by field.
pub proof fn law_controls_are_what_they_hold(c: MountControl)
    ensures
        c@.mount_thread == c.mount_thread,
        c@.shutdown == c.shutdown,
        c@.stop_running == c.stop_running,
        c@.child == c.child,
        c@.active_background == c.active_background,
        c@.active_mount_point == text::opt_string(c.active_mount_point),
        c@.active_source_label == text::opt_string(c.active_source_label),
        c@.mounted_since == c.mounted_since,
        c@.last_worker_generation == c.last_worker_generation,
        c.last_worker_status is None <==> c@.last_worker_status is None,
        c.last_worker_status matches Some(status) ==> c@.last_worker_status == Some(status@),
        c@.background_stop_requested == c.background_stop_requested,
{
}

/// A look at a worker is known by what it showed.
pub proof fn law_looks_are_what_they_hold(s: WorkerSnapshot)
    ensures
        gui::snapshot_view(s).generation == s.generation,
        gui::snapshot_view(s).live == s.live,
        gui::snapshot_view(s).error == text::opt_string(s.error),
        s.status is None <==> gui::snapshot_view(s).status is None,
        s.status matches Some(status) ==> gui::snapshot_view(s).status == Some(status@),
{
}

/// A source that was mounted before is known by its kind, id and revision.
pub proof fn law_sources_are_what_they_hold(recents: Vec<RecentSource>, i: int)
    ensures
        profile::recents_view(recents@).len() == recents@.len(),
        0 <= i < recents@.len()
            ==> profile::recents_view(recents@)[i].source == recents@[i].source
            && profile::recents_view(recents@)[i].source_id == recents@[i].source_id@
            && profile::recents_view(recents@)[i].revision == recents@[i].revision@,
{
}

/// A result is known by its text or by its error.
pub proof fn law_results_are_what_they_hold(s: String)
    ensures
        util::result_view(Ok(s)) == Ok::<Seq<char>, Seq<char>>(s@),
        util::result_view(Err(s)) == Err::<Seq<char>, Seq<char>>(s@),
        util::failure_view(Ok(())) is None,
        util::failure_view(Err(s)) == Some(s@),
        setup::split_error(Err(s)) == Some(s@),
        setup::split_error(Ok((s, s))) is None,
{
}

} // verus!
