//! The life of an NFS mount, from the server that listens to the teardown.
//!
//! A session takes events and answers each with the actions that follow, to be
//! carried out in order. The last of them is [`Action::Finish`].
use crate::mount_command;
use crate::mount_command::{CommandLine, CommandOutput, Host, MountCommand};
use crate::platform::Platform;
use crate::setup::NfsSecurity;
use crate::text;
use vstd::prelude::*;

verus! {

/// The times that a mount is tried on Windows while it ends in network error 53,
/// which passes by itself.
pub const WINDOWS_ERROR_53_RETRY_ATTEMPTS: usize = 6;

/// The milliseconds between two tries.
pub const WINDOWS_ERROR_53_RETRY_DELAY_MS: u64 = 300;

/// The seconds between two looks at whether the mount is still there.
pub const PROBE_INTERVAL_SECS: u64 = 2;

/// The seconds that the teardown waits for an unmount.
pub const UNMOUNT_LIMIT_SECS: u64 = 10;

/// What a mount tells of its progress.
#[derive(Clone, PartialEq, Eq, Debug)]
pub enum NfsMountEvent {
    ServerListening { port: u16 },
    MountCommand { command: String },
    Mounted { mount_point: String },
    ShuttingDown { reason: String },
}

pub ghost enum NfsMountEventView {
    ServerListening { port: u16 },
    MountCommand { command: Seq<char> },
    Mounted { mount_point: Seq<char> },
    ShuttingDown { reason: Seq<char> },
}

impl View for NfsMountEvent {
    type V = NfsMountEventView;

    open spec fn view(&self) -> NfsMountEventView {
        match *self {
            NfsMountEvent::ServerListening { port } => NfsMountEventView::ServerListening { port },
            NfsMountEvent::MountCommand { command } => NfsMountEventView::MountCommand {
                command: command@,
            },
            NfsMountEvent::Mounted { mount_point } => NfsMountEventView::Mounted {
                mount_point: mount_point@,
            },
            NfsMountEvent::ShuttingDown { reason } => NfsMountEventView::ShuttingDown {
                reason: reason@,
            },
        }
    }
}

/// Why a mount failed.
#[derive(PartialEq, Eq, Debug)]
pub enum MountError {
    /// The mount point is not text.
    InvalidPath,
    Other(String),
}

pub ghost enum MountErrorView {
    InvalidPath,
    Other(Seq<char>),
}

impl View for MountError {
    type V = MountErrorView;

    open spec fn view(&self) -> MountErrorView {
        match *self {
            MountError::InvalidPath => MountErrorView::InvalidPath,
            MountError::Other(message) => MountErrorView::Other(message@),
        }
    }
}

impl MountErrorView {
    /// The error as it is reported.
    pub open spec fn message(self) -> Seq<char> {
        match self {
            MountErrorView::InvalidPath => "invalid mount path"@,
            MountErrorView::Other(message) => message,
        }
    }
}

impl MountError {
    /// The error as it is reported.
    pub fn message(&self) -> (r: String)
        ensures
            r@ == self@.message(),
    {
        match self {
            MountError::InvalidPath => "invalid mount path".to_owned(),
            MountError::Other(message) => message.clone(),
        }
    }
}

/// Something to do for the session.
#[derive(PartialEq, Eq, Debug)]
pub enum Action {
    Emit(NfsMountEvent),
    /// Serve requests. The mount command needs somebody to talk to.
    StartServer,
    /// Stop the server and wait until it has.
    AbortServer,
    StartPortmapper,
    AbortPortmapper,
    /// Run the mount command; a request to stop kills it.
    RunMount(CommandLine),
    /// Wait before the next try.
    Backoff { ms: u64 },
    /// Tell the parent process that the mount is there.
    NotifyReady,
    /// Look whether the mount is still there, off the path of other events.
    Probe,
    /// Unmount, and wait for it no longer than the limit.
    Unmount { limit_secs: u64 },
    /// Commit and release every pooled handle.
    DrainPool,
    ShutDownStorage,
    Finish(Result<(), MountError>),
}

pub ghost enum ActionView {
    Emit(NfsMountEventView),
    StartServer,
    AbortServer,
    StartPortmapper,
    AbortPortmapper,
    RunMount(mount_command::CommandLineView),
    Backoff { ms: u64 },
    NotifyReady,
    Probe,
    Unmount { limit_secs: u64 },
    DrainPool,
    ShutDownStorage,
    Finish(Result<(), MountErrorView>),
}

impl View for Action {
    type V = ActionView;

    open spec fn view(&self) -> ActionView {
        match *self {
            Action::Emit(event) => ActionView::Emit(event@),
            Action::StartServer => ActionView::StartServer,
            Action::AbortServer => ActionView::AbortServer,
            Action::StartPortmapper => ActionView::StartPortmapper,
            Action::AbortPortmapper => ActionView::AbortPortmapper,
            Action::RunMount(command) => ActionView::RunMount(command@),
            Action::Backoff { ms } => ActionView::Backoff { ms },
            Action::NotifyReady => ActionView::NotifyReady,
            Action::Probe => ActionView::Probe,
            Action::Unmount { limit_secs } => ActionView::Unmount { limit_secs },
            Action::DrainPool => ActionView::DrainPool,
            Action::ShutDownStorage => ActionView::ShutDownStorage,
            Action::Finish(Ok(())) => ActionView::Finish(Ok(())),
            Action::Finish(Err(e)) => ActionView::Finish(Err(e@)),
        }
    }
}

/// What the actions hold.
pub open spec fn actions_view(actions: Seq<Action>) -> Seq<ActionView> {
    actions.map_values(|a: Action| a@)
}

/// Something that happened.
#[derive(PartialEq, Eq, Debug)]
pub enum SessionEvent {
    /// The port mapper listens, or why it does not.
    PortmapperStarted { result: Result<(), String>, stop_requested: bool },
    /// The mount command ended.
    MountExited(CommandOutput),
    /// The mount command could not be run.
    MountNotRun(String),
    /// The wait before the next try is over.
    BackoffOver { stop_requested: bool },
    /// The user asked for the end of the mount.
    StopRequested,
    /// A client mounted (`true`) or unmounted, or no client will any more.
    ClientMount(Option<bool>),
    ServerExited,
    CtrlC,
    Terminate,
    /// It is time to look whether the mount is still there.
    ProbeDue,
    /// What the look showed.
    ProbeDone { mounted: bool },
}

/// Where a session is.
#[derive(Clone, Copy, PartialEq, Eq, Structural, Debug)]
pub enum Phase {
    New,
    StartingPortmapper,
    /// The mount command runs for the `attempt`-th time.
    Mounting { attempt: usize },
    /// The `attempt`-th run of the mount command is next.
    Waiting { attempt: usize },
    /// The mount is there. `probing` while a look at it is under way.
    Serving { probing: bool },
    Over,
}

/// What is fixed about a mount.
#[derive(PartialEq, Eq, Debug)]
pub struct SessionParams {
    pub host: Host,
    pub metadata_ttl_ms: u64,
    pub read_only: bool,
    pub security: NfsSecurity,
    /// The port that the server listens on.
    pub port: u16,
    /// `None` where the mount point is not text.
    pub mount_point: Option<String>,
    /// On Windows: the user runs the mount command.
    pub skip_auto_mount: bool,
}

/// One mount.
#[derive(PartialEq, Eq, Debug)]
pub struct Session {
    pub params: SessionParams,
    pub phase: Phase,
}

// ── What follows what ───────────────────────────────────────────────────

impl SessionParams {
    pub open spec fn on_windows(self) -> bool {
        self.host.platform == Platform::Windows
    }

    pub open spec fn target(self) -> Seq<char> {
        match self.mount_point {
            Some(path) => path@,
            None => Seq::empty(),
        }
    }

    pub open spec fn spec_opts(self) -> Seq<char> {
        mount_command::spec_mount_opts(
            self.host.platform,
            mount_command::spec_actimeo(self.metadata_ttl_ms),
            self.port,
            self.read_only,
        )
    }

    pub open spec fn spec_command(self) -> mount_command::CommandLineView {
        mount_command::spec_mount_command(
            self.host,
            self.spec_opts(),
            mount_command::spec_export(self.host.platform, self.security.export_name@),
            mount_command::spec_target(self.host.platform, self.target()),
        )
    }

    pub open spec fn spec_display(self) -> Seq<char> {
        mount_command::spec_mount_display(
            self.host,
            self.spec_opts(),
            mount_command::spec_export(self.host.platform, self.security.export_name@),
            mount_command::spec_target(self.host.platform, self.target()),
        )
    }

    /// Calls are held to a rule: where the operating system can vouch for the
    /// callers, unless the user does without.
    pub open spec fn spec_authorizes(self) -> bool {
        !self.on_windows() && !self.security.allow_unsafe_loopback
    }

    /// The user runs the mount command.
    pub open spec fn is_manual(self) -> bool {
        self.on_windows() && self.skip_auto_mount
    }
}

/// The announcement that the mount ends.
pub open spec fn shutting_down(reason: Seq<char>) -> ActionView {
    ActionView::Emit(NfsMountEventView::ShuttingDown { reason })
}

/// The stop of the port mapper, where there is one.
pub open spec fn portmapper_stop(params: SessionParams) -> Seq<ActionView> {
    if params.on_windows() {
        seq![ActionView::AbortPortmapper]
    } else {
        seq![]
    }
}

/// The end of a session that never got to the mount: a request to stop is no
/// failure.
pub open spec fn stopped_early(params: SessionParams, portmapper: bool) -> Seq<ActionView> {
    seq![ActionView::AbortServer] + (if portmapper {
        portmapper_stop(params)
    } else {
        seq![]
    }) + seq![
        shutting_down("stop requested"@),
        ActionView::ShutDownStorage,
        ActionView::Finish(Ok(())),
    ]
}

/// The announcement of the mount command, and the command itself where the
/// session runs it. It does not where the user runs it, nor where
/// `stop_requested` says that the session is to end.
pub open spec fn mount_begins(params: SessionParams, stop_requested: bool) -> (
    Phase,
    Seq<ActionView>,
) {
    let announced = seq![
        ActionView::Emit(NfsMountEventView::MountCommand { command: params.spec_display() }),
    ];
    if params.is_manual() {
        (Phase::Serving { probing: false }, announced + mounted(params))
    } else if stop_requested {
        (Phase::Over, announced + stopped_early(params, true))
    } else {
        (
            Phase::Mounting { attempt: 1 },
            announced.push(ActionView::RunMount(params.spec_command())),
        )
    }
}

/// The announcement that the mount is there.
pub open spec fn mounted(params: SessionParams) -> Seq<ActionView> {
    seq![
        ActionView::Emit(NfsMountEventView::Mounted { mount_point: params.target() }),
        ActionView::NotifyReady,
    ]
}

/// The end of a mount that was there. It is unmounted where `unmount` says so,
/// while the server can still answer. Then the server stops, the pooled handles
/// are committed and released, and the storage shuts down.
pub open spec fn torn_down(
    params: SessionParams,
    reason: Seq<char>,
    unmount: bool,
    server_exited: bool,
) -> Seq<ActionView> {
    seq![shutting_down(reason)] + (if unmount {
        seq![ActionView::Unmount { limit_secs: UNMOUNT_LIMIT_SECS }]
    } else {
        seq![]
    }) + (if server_exited {
        seq![]
    } else {
        seq![ActionView::AbortServer]
    }) + portmapper_stop(params) + seq![
        ActionView::DrainPool,
        ActionView::ShutDownStorage,
        ActionView::Finish(Ok(())),
    ]
}

/// How a session begins, where `stop_requested` says that it is to end already.
pub open spec fn spec_begin(params: SessionParams, stop_requested: bool) -> (
    Phase,
    Seq<ActionView>,
) {
    let listening = seq![
        ActionView::Emit(NfsMountEventView::ServerListening { port: params.port }),
    ];
    if params.mount_point is None {
        (Phase::Over, listening.push(ActionView::Finish(Err(MountErrorView::InvalidPath))))
    } else if stop_requested {
        (
            Phase::Over,
            listening.push(ActionView::StartServer) + stopped_early(params, false),
        )
    } else if params.on_windows() {
        (
            Phase::StartingPortmapper,
            listening.push(ActionView::StartServer).push(ActionView::StartPortmapper),
        )
    } else {
        (
            mount_begins(params, false).0,
            listening.push(ActionView::StartServer) + mount_begins(params, false).1,
        )
    }
}

/// What follows the start of the port mapper.
pub open spec fn spec_portmapper_started(
    params: SessionParams,
    result: Result<(), String>,
    stop_requested: bool,
) -> (Phase, Seq<ActionView>) {
    match result {
        Ok(()) => mount_begins(params, stop_requested),
        Err(e) => (
            Phase::Over,
            seq![
                ActionView::AbortServer,
                ActionView::Finish(
                    Err(MountErrorView::Other(
                        "failed to bind portmapper on 127.0.0.1:111: "@ + e@
                            + " (Administrator required, or another portmap is running)"@,
                    )),
                ),
            ],
        ),
    }
}

/// The mount command is worth another try.
pub open spec fn is_worth_a_retry(
    params: SessionParams,
    attempt: usize,
    output: CommandOutput,
) -> bool {
    &&& params.on_windows()
    &&& !output.success
    &&& output.is_error_53()
    &&& attempt < WINDOWS_ERROR_53_RETRY_ATTEMPTS
}

/// What follows the end of the mount command.
pub open spec fn spec_mount_exited(params: SessionParams, attempt: usize, output: CommandOutput) -> (
    Phase,
    Seq<ActionView>,
) {
    if output.success {
        (Phase::Serving { probing: false }, mounted(params))
    } else if is_worth_a_retry(params, attempt, output) {
        (
            Phase::Waiting { attempt: (attempt + 1) as usize },
            seq![ActionView::Backoff { ms: WINDOWS_ERROR_53_RETRY_DELAY_MS }],
        )
    } else {
        (
            Phase::Over,
            seq![ActionView::AbortServer] + portmapper_stop(params) + seq![
                ActionView::Finish(
                    Err(MountErrorView::Other(
                        mount_command::spec_mount_failure(
                            params.host.platform,
                            output,
                            params.spec_display(),
                        )),
                    ),
                ),
            ],
        )
    }
}

/// What follows an event while the mount is there.
pub open spec fn spec_serving(params: SessionParams, probing: bool, event: SessionEvent) -> (
    Phase,
    Seq<ActionView>,
) {
    match event {
        SessionEvent::ClientMount(Some(true)) => (Phase::Serving { probing }, seq![]),
        SessionEvent::ClientMount(_) => (
            Phase::Over,
            torn_down(params, "unmount detected"@, false, false),
        ),
        SessionEvent::ServerExited => (
            Phase::Over,
            torn_down(params, "server exited"@, false, true),
        ),
        SessionEvent::CtrlC => (Phase::Over, torn_down(params, "Ctrl+C received"@, true, false)),
        SessionEvent::Terminate => (
            Phase::Over,
            torn_down(params, "termination signal received"@, true, false),
        ),
        SessionEvent::StopRequested => (
            Phase::Over,
            torn_down(params, "stop requested"@, true, false),
        ),
        SessionEvent::ProbeDue => (Phase::Serving { probing: true }, seq![ActionView::Probe]),
        SessionEvent::ProbeDone { mounted } => if mounted || params.is_manual() {
            (Phase::Serving { probing: false }, seq![])
        } else {
            (Phase::Over, torn_down(params, "mount disappeared"@, false, false))
        },
        _ => (Phase::Serving { probing }, seq![]),
    }
}

/// The phase waits for the event.
pub open spec fn awaits(phase: Phase, event: SessionEvent) -> bool {
    match phase {
        Phase::New => false,
        Phase::StartingPortmapper => event is PortmapperStarted,
        Phase::Mounting { .. } => event is MountExited || event is MountNotRun || event
            is StopRequested,
        Phase::Waiting { .. } => event is BackoffOver || event is StopRequested,
        Phase::Serving { probing } => {
            ||| event is ClientMount
            ||| event is ServerExited
            ||| event is CtrlC
            ||| event is Terminate
            ||| event is StopRequested
            ||| (event is ProbeDue && !probing)
            ||| (event is ProbeDone && probing)
        },
        Phase::Over => false,
    }
}

/// What follows an event that the phase waits for.
pub open spec fn spec_step(params: SessionParams, phase: Phase, event: SessionEvent) -> (
    Phase,
    Seq<ActionView>,
) {
    match (phase, event) {
        (
            Phase::StartingPortmapper,
            SessionEvent::PortmapperStarted { result, stop_requested },
        ) => spec_portmapper_started(params, result, stop_requested),
        (Phase::Mounting { attempt }, SessionEvent::MountExited(output)) => spec_mount_exited(
            params,
            attempt,
            output,
        ),
        (Phase::Mounting { .. }, SessionEvent::MountNotRun(e)) => (
            Phase::Over,
            seq![ActionView::Finish(Err(MountErrorView::Other(e@)))],
        ),
        (Phase::Mounting { .. }, SessionEvent::StopRequested) => (
            Phase::Over,
            stopped_early(params, true),
        ),
        (Phase::Waiting { attempt }, SessionEvent::BackoffOver { stop_requested }) => {
            if stop_requested {
                (Phase::Over, stopped_early(params, true))
            } else {
                (
                    Phase::Mounting { attempt },
                    seq![ActionView::RunMount(params.spec_command())],
                )
            }
        },
        (Phase::Waiting { .. }, SessionEvent::StopRequested) => (
            Phase::Over,
            stopped_early(params, true),
        ),
        (Phase::Serving { probing }, event) => spec_serving(params, probing, event),
        (phase, _) => (phase, seq![]),
    }
}

// ── The session ─────────────────────────────────────────────────────────

/// Adds an action.
fn push_action(actions: &mut Vec<Action>, action: Action)
    ensures
        actions_view(final(actions)@) == actions_view(old(actions)@).push(action@),
{
    actions.push(action);
    assert(actions_view(actions@) =~= actions_view(old(actions)@).push(action@));
}

impl Session {
    /// A session whose server listens.
    pub fn new(params: SessionParams) -> (r: Session)
        ensures
            r.params == params,
            r.phase == Phase::New,
    {
        Session { params, phase: Phase::New }
    }

    /// Tells whether calls are held to a rule.
    pub fn authorizes(&self) -> (r: bool)
        ensures
            r == self.params.spec_authorizes(),
    {
        self.params.host.platform != Platform::Windows
            && !self.params.security.allow_unsafe_loopback
    }

    /// Tells whether the session waits for the event.
    pub fn waits_for(&self, event: &SessionEvent) -> (r: bool)
        ensures
            r == awaits(self.phase, *event),
    {
        match (self.phase, event) {
            (Phase::StartingPortmapper, SessionEvent::PortmapperStarted { .. }) => true,
            (Phase::Mounting { .. }, SessionEvent::MountExited(_)) => true,
            (Phase::Mounting { .. }, SessionEvent::MountNotRun(_)) => true,
            (Phase::Mounting { .. }, SessionEvent::StopRequested) => true,
            (Phase::Waiting { .. }, SessionEvent::BackoffOver { .. }) => true,
            (Phase::Waiting { .. }, SessionEvent::StopRequested) => true,
            (Phase::Serving { .. }, SessionEvent::ClientMount(_)) => true,
            (Phase::Serving { .. }, SessionEvent::ServerExited) => true,
            (Phase::Serving { .. }, SessionEvent::CtrlC) => true,
            (Phase::Serving { .. }, SessionEvent::Terminate) => true,
            (Phase::Serving { .. }, SessionEvent::StopRequested) => true,
            (Phase::Serving { probing }, SessionEvent::ProbeDue) => !probing,
            (Phase::Serving { probing }, SessionEvent::ProbeDone { .. }) => probing,
            _ => false,
        }
    }

    /// The mount command of the session.
    pub fn mount_command(&self) -> (r: MountCommand)
        ensures
            r.command@ == self.params.spec_command(),
            r.display@ == self.params.spec_display(),
    {
        let p = &self.params;
        let nowhere = String::new();
        let target = match &p.mount_point {
            Some(path) => path.as_str(),
            None => nowhere.as_str(),
        };
        assert(target@ =~= p.target());
        mount_command::mount_command(
            &p.host,
            &p.security,
            p.metadata_ttl_ms,
            p.read_only,
            p.port,
            target,
        )
    }

    /// Adds the stop of the port mapper, where there is one.
    fn add_portmapper_stop(&self, actions: &mut Vec<Action>)
        ensures
            actions_view(final(actions)@) == actions_view(old(actions)@) + portmapper_stop(
                self.params,
            ),
    {
        let ghost before = actions_view(actions@);
        if self.params.host.platform == Platform::Windows {
            push_action(actions, Action::AbortPortmapper);
        }
        assert(actions_view(actions@) =~= before + portmapper_stop(self.params));
    }

    /// Adds the announcement that the mount ends.
    fn add_shutting_down(actions: &mut Vec<Action>, reason: &str)
        ensures
            actions_view(final(actions)@) == actions_view(old(actions)@).push(
                shutting_down(reason@),
            ),
    {
        push_action(
            actions,
            Action::Emit(NfsMountEvent::ShuttingDown { reason: reason.to_owned() }),
        );
    }

    /// Adds the end of a session that never got to the mount.
    fn add_stopped_early(&self, actions: &mut Vec<Action>, portmapper: bool)
        ensures
            actions_view(final(actions)@) == actions_view(old(actions)@) + stopped_early(
                self.params,
                portmapper,
            ),
    {
        let ghost before = actions_view(actions@);
        push_action(actions, Action::AbortServer);
        if portmapper {
            self.add_portmapper_stop(actions);
        }
        Self::add_shutting_down(actions, "stop requested");
        push_action(actions, Action::ShutDownStorage);
        push_action(actions, Action::Finish(Ok(())));
        assert(actions_view(actions@) =~= before + stopped_early(self.params, portmapper));
    }

    /// Adds the announcement that the mount is there.
    fn add_mounted(&self, actions: &mut Vec<Action>)
        ensures
            actions_view(final(actions)@) == actions_view(old(actions)@) + mounted(self.params),
    {
        let ghost before = actions_view(actions@);
        let mount_point = match &self.params.mount_point {
            Some(path) => path.clone(),
            None => String::new(),
        };
        assert(mount_point@ =~= self.params.target());
        push_action(actions, Action::Emit(NfsMountEvent::Mounted { mount_point }));
        push_action(actions, Action::NotifyReady);
        assert(actions_view(actions@) =~= before + mounted(self.params));
    }

    /// Announces the mount command, and runs it unless the session is to end.
    fn add_mount_begin(&mut self, actions: &mut Vec<Action>, stop_requested: bool)
        ensures
            final(self).params == old(self).params,
            final(self).phase == mount_begins(old(self).params, stop_requested).0,
            actions_view(final(actions)@) == actions_view(old(actions)@) + mount_begins(
                old(self).params,
                stop_requested,
            ).1,
    {
        let ghost before = actions_view(actions@);
        let command = self.mount_command();
        push_action(actions, Action::Emit(NfsMountEvent::MountCommand { command: command.display }));
        if self.params.host.platform == Platform::Windows && self.params.skip_auto_mount {
            self.add_mounted(actions);
            self.phase = Phase::Serving { probing: false };
        } else if stop_requested {
            self.add_stopped_early(actions, true);
            self.phase = Phase::Over;
        } else {
            push_action(actions, Action::RunMount(command.command));
            self.phase = Phase::Mounting { attempt: 1 };
        }
        assert(actions_view(actions@) =~= before + mount_begins(
            old(self).params,
            stop_requested,
        ).1);
    }

    /// Begins the session. `stop_requested` says that it is to end already.
    pub fn begin(&mut self, stop_requested: bool) -> (r: Vec<Action>)
        requires
            old(self).phase == Phase::New,
        ensures
            final(self).params == old(self).params,
            (final(self).phase, actions_view(r@)) == spec_begin(old(self).params, stop_requested),
    {
        let mut actions: Vec<Action> = Vec::new();
        push_action(&mut actions, Action::Emit(NfsMountEvent::ServerListening { port: self.params.port }));
        if self.params.mount_point.is_none() {
            push_action(&mut actions, Action::Finish(Err(MountError::InvalidPath)));
            self.phase = Phase::Over;
        } else {
            push_action(&mut actions, Action::StartServer);
            if stop_requested {
                self.add_stopped_early(&mut actions, false);
                self.phase = Phase::Over;
            } else if self.params.host.platform == Platform::Windows {
                push_action(&mut actions, Action::StartPortmapper);
                self.phase = Phase::StartingPortmapper;
            } else {
                self.add_mount_begin(&mut actions, false);
            }
        }
        assert(actions_view(actions@) =~= spec_begin(old(self).params, stop_requested).1);
        actions
    }

    /// Ends a mount that was there.
    fn tear_down(&mut self, reason: &str, unmount: bool, server_exited: bool) -> (r: Vec<Action>)
        ensures
            final(self).params == old(self).params,
            final(self).phase == Phase::Over,
            actions_view(r@) == torn_down(old(self).params, reason@, unmount, server_exited),
    {
        let mut actions: Vec<Action> = Vec::new();
        Self::add_shutting_down(&mut actions, reason);
        if unmount {
            push_action(&mut actions, Action::Unmount { limit_secs: UNMOUNT_LIMIT_SECS });
        }
        if !server_exited {
            push_action(&mut actions, Action::AbortServer);
        }
        self.add_portmapper_stop(&mut actions);
        push_action(&mut actions, Action::DrainPool);
        push_action(&mut actions, Action::ShutDownStorage);
        push_action(&mut actions, Action::Finish(Ok(())));
        self.phase = Phase::Over;
        assert(actions_view(actions@) =~= torn_down(
            old(self).params,
            reason@,
            unmount,
            server_exited,
        ));
        actions
    }

    /// Goes on when the mount command has ended.
    fn mount_exited(&mut self, attempt: usize, output: CommandOutput) -> (r: Vec<Action>)
        ensures
            final(self).params == old(self).params,
            (final(self).phase, actions_view(r@)) == spec_mount_exited(
                old(self).params,
                attempt,
                output,
            ),
    {
        let mut actions: Vec<Action> = Vec::new();
        if output.success {
            self.add_mounted(&mut actions);
            self.phase = Phase::Serving { probing: false };
        } else if self.params.host.platform == Platform::Windows && attempt
            < WINDOWS_ERROR_53_RETRY_ATTEMPTS
            && mount_command::windows_mount_output_is_network_error_53(&output) {
            push_action(&mut actions, Action::Backoff { ms: WINDOWS_ERROR_53_RETRY_DELAY_MS });
            self.phase = Phase::Waiting { attempt: attempt + 1 };
        } else {
            let display = self.mount_command().display;
            let message = mount_command::mount_failure(
                self.params.host.platform,
                &output,
                display.as_str(),
            );
            push_action(&mut actions, Action::AbortServer);
            self.add_portmapper_stop(&mut actions);
            push_action(&mut actions, Action::Finish(Err(MountError::Other(message))));
            self.phase = Phase::Over;
        }
        assert(actions_view(actions@) =~= spec_mount_exited(old(self).params, attempt, output).1);
        actions
    }

    /// Goes on when the port mapper listens or could not.
    fn portmapper_started(&mut self, result: Result<(), String>, stop_requested: bool) -> (r: Vec<
        Action,
    >)
        ensures
            final(self).params == old(self).params,
            (final(self).phase, actions_view(r@)) == spec_portmapper_started(
                old(self).params,
                result,
                stop_requested,
            ),
    {
        let mut actions: Vec<Action> = Vec::new();
        match &result {
            Ok(()) => {
                self.add_mount_begin(&mut actions, stop_requested);
            },
            Err(e) => {
                let message = text::concat3(
                    "failed to bind portmapper on 127.0.0.1:111: ",
                    e.as_str(),
                    " (Administrator required, or another portmap is running)",
                );
                push_action(&mut actions, Action::AbortServer);
                push_action(&mut actions, Action::Finish(Err(MountError::Other(message))));
                self.phase = Phase::Over;
            },
        }
        assert(actions_view(actions@) =~= spec_portmapper_started(
            old(self).params,
            result,
            stop_requested,
        ).1);
        actions
    }

    /// Goes on after an event that the session waits for.
    pub fn step(&mut self, event: SessionEvent) -> (r: Vec<Action>)
        requires
            awaits(old(self).phase, event),
        ensures
            final(self).params == old(self).params,
            (final(self).phase, actions_view(r@)) == spec_step(
                old(self).params,
                old(self).phase,
                event,
            ),
    {
        let ghost wanted = spec_step(self.params, self.phase, event).1;
        let mut actions: Vec<Action> = Vec::new();
        match (self.phase, event) {
            (
                Phase::StartingPortmapper,
                SessionEvent::PortmapperStarted { result, stop_requested },
            ) => {
                return self.portmapper_started(result, stop_requested);
            },
            (Phase::Mounting { attempt }, SessionEvent::MountExited(output)) => {
                return self.mount_exited(attempt, output);
            },
            (Phase::Mounting { .. }, SessionEvent::MountNotRun(e)) => {
                push_action(&mut actions, Action::Finish(Err(MountError::Other(e))));
                self.phase = Phase::Over;
            },
            (Phase::Mounting { .. }, SessionEvent::StopRequested) => {
                self.add_stopped_early(&mut actions, true);
                self.phase = Phase::Over;
            },
            (Phase::Waiting { attempt }, SessionEvent::BackoffOver { stop_requested }) => {
                if stop_requested {
                    self.add_stopped_early(&mut actions, true);
                    self.phase = Phase::Over;
                } else {
                    let command = self.mount_command().command;
                    push_action(&mut actions, Action::RunMount(command));
                    self.phase = Phase::Mounting { attempt };
                }
            },
            (Phase::Waiting { .. }, SessionEvent::StopRequested) => {
                self.add_stopped_early(&mut actions, true);
                self.phase = Phase::Over;
            },
            (Phase::Serving { .. }, SessionEvent::ClientMount(Some(true))) => {},
            (Phase::Serving { .. }, SessionEvent::ClientMount(_)) => {
                return self.tear_down("unmount detected", false, false);
            },
            (Phase::Serving { .. }, SessionEvent::ServerExited) => {
                return self.tear_down("server exited", false, true);
            },
            (Phase::Serving { .. }, SessionEvent::CtrlC) => {
                return self.tear_down("Ctrl+C received", true, false);
            },
            (Phase::Serving { .. }, SessionEvent::Terminate) => {
                return self.tear_down("termination signal received", true, false);
            },
            (Phase::Serving { .. }, SessionEvent::StopRequested) => {
                return self.tear_down("stop requested", true, false);
            },
            (Phase::Serving { .. }, SessionEvent::ProbeDue) => {
                push_action(&mut actions, Action::Probe);
                self.phase = Phase::Serving { probing: true };
            },
            (Phase::Serving { .. }, SessionEvent::ProbeDone { mounted }) => {
                let manual: bool = self.params.host.platform == Platform::Windows
                    && self.params.skip_auto_mount;
                if !mounted && !manual {
                    return self.tear_down("mount disappeared", false, false);
                }
                self.phase = Phase::Serving { probing: false };
            },
            _ => {},
        }
        assert(actions_view(actions@) =~= wanted);
        actions
    }
}

// ── Laws ────────────────────────────────────────────────────────────────

/// The actions end the session.
pub open spec fn finishes(actions: Seq<ActionView>) -> bool {
    actions.len() > 0 && actions.last() is Finish
}

/// The session is over exactly when its last action says so, and an action that
/// says so is the last.
pub proof fn law_sessions_finish_once(params: SessionParams, phase: Phase, event: SessionEvent)
    requires
        awaits(phase, event),
    ensures
        ({
            let (next, actions) = spec_step(params, phase, event);
            &&& next == Phase::Over <==> finishes(actions)
            &&& forall|i: int|
                0 <= i < actions.len() - 1 ==> !(#[trigger] actions[i] is Finish)
        }),
{
}

/// A request to stop, whenever it comes, ends the session without failure: the
/// server stops, the storage shuts down, and what is told is that a stop was
/// requested.
pub proof fn law_a_stop_is_no_failure(params: SessionParams, phase: Phase)
    requires
        awaits(phase, SessionEvent::StopRequested),
    ensures
        ({
            let (next, actions) = spec_step(params, phase, SessionEvent::StopRequested);
            &&& next == Phase::Over
            &&& actions.last() == ActionView::Finish(Ok(()))
            &&& actions.contains(ActionView::AbortServer)
            &&& actions.contains(ActionView::ShutDownStorage)
            &&& actions.contains(shutting_down("stop requested"@))
            &&& params.on_windows() ==> actions.contains(ActionView::AbortPortmapper)
        }),
{
    let (next, actions) = spec_step(params, phase, SessionEvent::StopRequested);
    let n = actions.len() as int;
    assert(actions[n - 2] == ActionView::ShutDownStorage);
    if phase is Serving {
        assert(actions[0] == shutting_down("stop requested"@));
        assert(actions[2] == ActionView::AbortServer);
        if params.on_windows() {
            assert(actions[3] == ActionView::AbortPortmapper);
        }
    } else {
        assert(actions[0] == ActionView::AbortServer);
        assert(actions[n - 3] == shutting_down("stop requested"@));
        if params.on_windows() {
            assert(actions[1] == ActionView::AbortPortmapper);
        }
    }
}

/// Where a stop was requested while the session waited for something else, the
/// mount command is not run any more, and the session ends without failure,
/// unless it is the user who runs the command or the port mapper failed.
pub proof fn law_a_pending_stop_runs_no_mount(params: SessionParams, phase: Phase, event: SessionEvent)
    requires
        awaits(phase, event),
        (event matches SessionEvent::PortmapperStarted { stop_requested, .. } && stop_requested)
            || (event matches SessionEvent::BackoffOver { stop_requested } && stop_requested),
    ensures
        ({
            let (next, actions) = spec_step(params, phase, event);
            &&& forall|i: int| 0 <= i < actions.len() ==> !(#[trigger] actions[i] is RunMount)
            &&& event is BackoffOver || (event->result is Ok && !params.is_manual()) ==> {
                &&& next == Phase::Over
                &&& actions.last() == ActionView::Finish(Ok(()))
            }
        }),
{
}

/// However a mount that was there ends, every pooled handle is committed and
/// released before the storage shuts down, and it ends without failure.
pub proof fn law_teardown_keeps_writes(params: SessionParams, probing: bool, event: SessionEvent)
    requires
        awaits(Phase::Serving { probing }, event),
        spec_serving(params, probing, event).0 == Phase::Over,
    ensures
        ({
            let actions = spec_serving(params, probing, event).1;
            let n = actions.len() as int;
            &&& n >= 4
            &&& actions[n - 3] == ActionView::DrainPool
            &&& actions[n - 2] == ActionView::ShutDownStorage
            &&& actions[n - 1] == ActionView::Finish(Ok(()))
            &&& actions[0] is Emit
        }),
{
}

/// The session unmounts where a signal or the user ends it, and only there: a
/// mount that is gone, or whose server is, needs no unmount.
pub proof fn law_only_requests_unmount(params: SessionParams, probing: bool, event: SessionEvent)
    requires
        awaits(Phase::Serving { probing }, event),
    ensures
        spec_serving(params, probing, event).1.contains(
            ActionView::Unmount { limit_secs: UNMOUNT_LIMIT_SECS },
        ) <==> event is CtrlC || event is Terminate || event is StopRequested,
{
    let actions = spec_serving(params, probing, event).1;
    if event is CtrlC || event is Terminate || event is StopRequested {
        assert(actions[1] == (ActionView::Unmount { limit_secs: UNMOUNT_LIMIT_SECS }));
    }
}

/// The number of tries stays within its limit, whatever the mount command does.
pub proof fn law_tries_are_bounded(params: SessionParams, phase: Phase, event: SessionEvent)
    requires
        awaits(phase, event),
        phase matches Phase::Mounting { attempt } ==> 1 <= attempt
            <= WINDOWS_ERROR_53_RETRY_ATTEMPTS,
        phase matches Phase::Waiting { attempt } ==> 1 < attempt <= WINDOWS_ERROR_53_RETRY_ATTEMPTS,
    ensures
        ({
            let next = spec_step(params, phase, event).0;
            &&& next matches Phase::Mounting { attempt } ==> 1 <= attempt
                <= WINDOWS_ERROR_53_RETRY_ATTEMPTS
            &&& next matches Phase::Waiting { attempt } ==> 1 < attempt
                <= WINDOWS_ERROR_53_RETRY_ATTEMPTS
        }),
{
}

/// The server runs before the mount command does.
pub proof fn law_server_runs_before_the_mount(params: SessionParams, stop_requested: bool, i: int)
    requires
        0 <= i < spec_begin(params, stop_requested).1.len(),
        spec_begin(params, stop_requested).1[i] is RunMount,
    ensures
        exists|j: int|
            0 <= j < i && #[trigger] spec_begin(params, stop_requested).1[j]
                == ActionView::StartServer,
{
    assert(spec_begin(params, stop_requested).1[1] == ActionView::StartServer);
}

} // verus!
