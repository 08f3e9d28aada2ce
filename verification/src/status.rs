//! What the window shows of a mount: its state in a headline and a detail, and
//! the log of the session.
use crate::session::NfsMountEvent;
use crate::text;
use std::collections::VecDeque;
use vstd::prelude::*;

verus! {

/// The number of lines that the log keeps.
pub const MAX_LOG_LINES: usize = 200;

/// The pages of the window.
#[derive(Clone, Copy, PartialEq, Eq, Structural, Debug)]
pub enum Tab {
    Mount,
    Activity,
    Setup,
}

/// The state of a mount.
#[derive(Clone, Copy, PartialEq, Eq, Structural, Debug)]
pub enum MountState {
    Ready,
    Mounting,
    Mounted,
    Stopping,
    Stopped,
    Failed,
}

/// How grave a line of the log is.
#[derive(Clone, Copy, PartialEq, Eq, Structural, Debug)]
pub enum LogLevel {
    Info,
    Error,
}

impl LogLevel {
    pub open spec fn spec_token(self) -> Seq<char> {
        match self {
            LogLevel::Info => "INFO"@,
            LogLevel::Error => "ERROR"@,
        }
    }

    /// The level in a copy of the log.
    pub fn as_token(self) -> (r: &'static str)
        ensures
            r@ == self.spec_token(),
    {
        match self {
            LogLevel::Info => "INFO",
            LogLevel::Error => "ERROR",
        }
    }
}

/// A line of the log.
#[derive(Clone, PartialEq, Eq, Debug)]
pub struct LogEntry {
    /// The time of day.
    pub time: String,
    pub level: LogLevel,
    pub text: String,
}

#[verifier::ext_equal]
pub ghost struct LogEntryView {
    pub time: Seq<char>,
    pub level: LogLevel,
    pub text: Seq<char>,
}

impl View for LogEntry {
    type V = LogEntryView;

    open spec fn view(&self) -> LogEntryView {
        LogEntryView { time: self.time@, level: self.level, text: self.text@ }
    }
}

/// The text is a time of day, as hours, minutes and seconds of two digits each.
pub open spec fn is_clock_text(s: Seq<char>) -> bool {
    exists|h: nat, m: nat, sec: nat| #[trigger] clock_text(h, m, sec) == s && h < 24 && m < 60 && sec
        <= 60
}

pub open spec fn clock_text(h: nat, m: nat, sec: nat) -> Seq<char> {
    text::spec_pad2(h) + seq![':'] + text::spec_pad2(m) + seq![':'] + text::spec_pad2(sec)
}

/// `chrono::Local::now`, formatted with `%H:%M:%S`: the time of day where the
/// machine is, as hours (to 23), minutes (to 59) and seconds (to 60, for a leap
/// second), each of two digits. Which time that is, is left open. It panics
/// where the clock of the machine shows a time before the epoch.
#[verifier::external_body]
fn local_clock() -> (r: String)
    ensures
        is_clock_text(r@),
{
    chrono::Local::now().format("%H:%M:%S").to_string()
}

/// The time of day.
pub fn current_time_text() -> (r: String)
    ensures
        is_clock_text(r@),
{
    local_clock()
}

/// What all parts of the program know of the mount.
#[derive(Clone, Debug)]
pub struct SharedStatus {
    /// Moves with every change, so that an unchanged log is not copied.
    pub revision: u64,
    pub state: MountState,
    pub headline: String,
    pub detail: String,
    /// The newest line last.
    pub log: VecDeque<LogEntry>,
}

#[verifier::ext_equal]
pub ghost struct StatusView {
    pub revision: u64,
    pub state: MountState,
    pub headline: Seq<char>,
    pub detail: Seq<char>,
    pub log: Seq<LogEntryView>,
}

/// What the lines hold.
pub open spec fn log_view(log: Seq<LogEntry>) -> Seq<LogEntryView> {
    log.map_values(|e: LogEntry| e@)
}

impl View for SharedStatus {
    type V = StatusView;

    open spec fn view(&self) -> StatusView {
        StatusView {
            revision: self.revision,
            state: self.state,
            headline: self.headline@,
            detail: self.detail@,
            log: log_view(self.log@),
        }
    }
}

/// A failure is an error in the log.
pub open spec fn spec_level_for_state(state: MountState) -> LogLevel {
    if state == MountState::Failed {
        LogLevel::Error
    } else {
        LogLevel::Info
    }
}

/// The level at which a state is logged.
pub fn level_for_state(state: MountState) -> (r: LogLevel)
    ensures
        r == spec_level_for_state(state),
{
    if state == MountState::Failed {
        LogLevel::Error
    } else {
        LogLevel::Info
    }
}

/// The newest lines, as many as the log keeps.
pub open spec fn newest(log: Seq<LogEntryView>) -> Seq<LogEntryView> {
    if log.len() > MAX_LOG_LINES {
        log.skip(log.len() - MAX_LOG_LINES)
    } else {
        log
    }
}

/// The successor of a revision. After the last comes the first.
pub open spec fn next_revision(revision: u64) -> u64 {
    if revision == u64::MAX {
        0
    } else {
        (revision + 1) as u64
    }
}

impl StatusView {
    /// The status with one more line in the log.
    pub open spec fn logged(self, time: Seq<char>, level: LogLevel, line: Seq<char>) -> StatusView {
        StatusView {
            revision: next_revision(self.revision),
            log: newest(self.log.push(LogEntryView { time, level, text: line })),
            ..self
        }
    }

    /// The status with a new state, headline and detail, which are logged.
    pub open spec fn with(
        self,
        time: Seq<char>,
        state: MountState,
        headline: Seq<char>,
        detail: Seq<char>,
    ) -> StatusView {
        StatusView { state, headline, detail, ..self }.logged(
            time,
            spec_level_for_state(state),
            headline + ": "@ + detail,
        )
    }

    /// As `with`, but unchanged where it says nothing new.
    pub open spec fn with_if_changed(
        self,
        time: Seq<char>,
        state: MountState,
        headline: Seq<char>,
        detail: Seq<char>,
    ) -> StatusView {
        if self.state == state && self.headline == headline && self.detail == detail {
            self
        } else {
            self.with(time, state, headline, detail)
        }
    }

    /// Before anything has happened.
    pub open spec fn initial(time: Seq<char>) -> StatusView {
        StatusView {
            revision: 1,
            state: MountState::Ready,
            headline: "Ready"@,
            detail: "Configure a source and start the mount."@,
            log: seq![LogEntryView { time, level: LogLevel::Info, text: "Ready"@ }],
        }
    }
}

impl SharedStatus {
    /// The status before anything has happened, as of `time`.
    pub fn initial_at(time: &str) -> (r: SharedStatus)
        ensures
            r@ == StatusView::initial(time@),
    {
        let mut log: VecDeque<LogEntry> = VecDeque::new();
        log.push_back(
            LogEntry { time: time.to_owned(), level: LogLevel::Info, text: "Ready".to_owned() },
        );
        let r = SharedStatus {
            revision: 1,
            state: MountState::Ready,
            headline: "Ready".to_owned(),
            detail: "Configure a source and start the mount.".to_owned(),
            log,
        };
        assert(r@.log =~= StatusView::initial(time@).log);
        r
    }
}

impl SharedStatus {
    /// A copy of the status.
    pub fn copy(&self) -> (r: SharedStatus)
        ensures
            r@ == self@,
    {
        let ghost all = self@.log;
        let mut log: VecDeque<LogEntry> = VecDeque::new();
        let mut i: usize = 0;
        while i < self.log.len()
            invariant
                i <= self.log@.len(),
                all == log_view(self.log@),
                log_view(log@) == all.take(i as int),
            decreases self.log@.len() - i,
        {
            let entry = &self.log[i];
            let ghost before = log@;
            log.push_back(
                LogEntry {
                    time: entry.time.clone(),
                    level: entry.level,
                    text: entry.text.clone(),
                },
            );
            proof {
                assert(log_view(log@) =~= log_view(before).push(all[i as int]));
                assert(all.take(i + 1) =~= all.take(i as int).push(all[i as int]));
            }
            i = i + 1;
        }
        assert(all.take(i as int) =~= all);
        SharedStatus {
            revision: self.revision,
            state: self.state,
            headline: self.headline.clone(),
            detail: self.detail.clone(),
            log,
        }
    }
}

impl Default for SharedStatus {
    fn default() -> (r: SharedStatus)
        ensures
            exists|time: Seq<char>|
                is_clock_text(time) && r@ == #[trigger] StatusView::initial(time),
    {
        let time = local_clock();
        SharedStatus::initial_at(time.as_str())
    }
}

/// Adds a line to the log, as of `time`.
pub fn push_log_at(status: &mut SharedStatus, time: &str, level: LogLevel, message: &str)
    ensures
        final(status)@ == old(status)@.logged(time@, level, message@),
{
    let ghost before = status@;
    let entry = LogEntry { time: time.to_owned(), level, text: message.to_owned() };
    let ghost added = before.log.push(entry@);
    status.revision = status.revision.wrapping_add(1);
    status.log.push_back(entry);
    assert(log_view(status.log@) =~= added);
    assert(added.skip(0) =~= added);
    let ghost mut dropped: int = 0;
    while status.log.len() > MAX_LOG_LINES
        invariant
            0 <= dropped <= added.len(),
            log_view(status.log@) == added.skip(dropped),
            dropped > 0 ==> added.len() - dropped >= MAX_LOG_LINES,
            status.revision == next_revision(before.revision),
            status.state == before.state,
            status.headline@ == before.headline,
            status.detail@ == before.detail,
        decreases status.log@.len(),
    {
        let ghost held = status.log@;
        assert(log_view(held).len() == held.len());
        status.log.pop_front();
        proof {
            assert(log_view(status.log@) =~= log_view(held).skip(1));
            assert(added.skip(dropped).skip(1) =~= added.skip(dropped + 1));
            dropped = dropped + 1;
        }
    }
    assert(log_view(status.log@).len() == status.log@.len());
    assert(log_view(status.log@) =~= newest(added));
}

/// Adds a line to the log.
pub fn push_log_with_level(status: &mut SharedStatus, level: LogLevel, message: &str)
    ensures
        exists|time: Seq<char>|
            is_clock_text(time) && final(status)@ == #[trigger] old(status)@.logged(
                time,
                level,
                message@,
            ),
{
    let time = local_clock();
    push_log_at(status, time.as_str(), level, message);
}

/// Adds a line to the log that is no error.
pub fn push_log(status: &mut SharedStatus, message: &str)
    ensures
        exists|time: Seq<char>|
            is_clock_text(time) && final(status)@ == #[trigger] old(status)@.logged(
                time,
                LogLevel::Info,
                message@,
            ),
{
    push_log_with_level(status, LogLevel::Info, message);
}

/// Sets the state, headline and detail and logs them, as of `time`.
pub fn set_status_at(
    status: &mut SharedStatus,
    time: &str,
    state: MountState,
    headline: &str,
    detail: &str,
)
    ensures
        final(status)@ == old(status)@.with(time@, state, headline@, detail@),
{
    status.state = state;
    status.headline = headline.to_owned();
    status.detail = detail.to_owned();
    let line = text::concat3(headline, ": ", detail);
    push_log_at(status, time, level_for_state(state), line.as_str());
}

/// Sets the state, headline and detail and logs them.
pub fn set_status(status: &mut SharedStatus, state: MountState, headline: &str, detail: &str)
    ensures
        exists|time: Seq<char>|
            is_clock_text(time) && final(status)@ == #[trigger] old(status)@.with(
                time,
                state,
                headline@,
                detail@,
            ),
{
    let time = local_clock();
    set_status_at(status, time.as_str(), state, headline, detail);
}

/// Sets the state, headline and detail and logs them, as of `time`, where they
/// say something new.
pub fn set_status_if_changed_at(
    status: &mut SharedStatus,
    time: &str,
    state: MountState,
    headline: &str,
    detail: &str,
)
    ensures
        final(status)@ == old(status)@.with_if_changed(time@, state, headline@, detail@),
{
    if status.state == state && text::str_eq(status.headline.as_str(), headline) && text::str_eq(
        status.detail.as_str(),
        detail,
    ) {
        return ;
    }
    set_status_at(status, time, state, headline, detail);
}

/// Sets the state, headline and detail and logs them, where they say something
/// new.
pub fn set_status_if_changed(
    status: &mut SharedStatus,
    state: MountState,
    headline: &str,
    detail: &str,
)
    ensures
        exists|time: Seq<char>|
            is_clock_text(time) && final(status)@ == #[trigger] old(status)@.with_if_changed(
                time,
                state,
                headline@,
                detail@,
            ),
{
    let time = local_clock();
    set_status_if_changed_at(status, time.as_str(), state, headline, detail);
}

/// Brings a copy of the status up to date. One with the same revision is taken
/// to be so.
pub fn refresh_status_cache(cache: &mut SharedStatus, shared: &SharedStatus)
    ensures
        final(cache)@ == (if shared.revision == old(cache).revision {
            old(cache)@
        } else {
            shared@
        }),
{
    if shared.revision != cache.revision {
        *cache = shared.copy();
    }
}

// ── The log as text ─────────────────────────────────────────────────────

/// A line of a copy of the log.
pub open spec fn log_line(e: LogEntryView) -> Seq<char> {
    e.time + " "@ + e.level.spec_token() + " "@ + e.text
}

/// A copy of the log: its lines, with line breaks between them.
pub open spec fn spec_log_text(log: Seq<LogEntryView>) -> Seq<char>
    decreases log.len(),
{
    if log.len() == 0 {
        Seq::empty()
    } else if log.len() == 1 {
        log_line(log[0])
    } else {
        spec_log_text(log.drop_last()) + "\n"@ + log_line(log.last())
    }
}

/// A copy of the log: its lines, with line breaks between them.
pub fn log_text(status: &SharedStatus) -> (r: String)
    ensures
        r@ == spec_log_text(status@.log),
{
    let ghost all = status@.log;
    let mut out = String::new();
    let mut i: usize = 0;
    assert(all.take(0) =~= Seq::<LogEntryView>::empty());
    while i < status.log.len()
        invariant
            i <= status.log@.len(),
            all == log_view(status.log@),
            out@ == spec_log_text(all.take(i as int)),
        decreases status.log@.len() - i,
    {
        let entry = &status.log[i];
        assert(all[i as int] == entry@);
        let ghost before = out@;
        let mut line = entry.time.clone();
        line.append(" ");
        line.append(entry.level.as_token());
        line.append(" ");
        line.append(entry.text.as_str());
        if i > 0 {
            out.append("\n");
        }
        out.append(line.as_str());
        proof {
            assert(all.take(i + 1).drop_last() =~= all.take(i as int));
            assert(all.take(i + 1).last() == all[i as int]);
            if i == 0 {
                assert(out@ =~= line@);
                assert(all.take(1)[0] == all[0]);
            }
        }
        i = i + 1;
    }
    assert(all.take(i as int) =~= all);
    out
}

// ── Events of a mount ───────────────────────────────────────────────────

/// The status after an event of a mount of this process.
pub open spec fn spec_mount_event(status: StatusView, time: Seq<char>, event: NfsMountEvent) -> StatusView {
    match event {
        NfsMountEvent::ServerListening { port } => status.with(
            time,
            MountState::Mounting,
            "Local NFS server is listening"@,
            "127.0.0.1:"@ + text::spec_decimal(port as nat),
        ),
        NfsMountEvent::MountCommand { command } => status.logged(
            time,
            LogLevel::Info,
            "Running "@ + command@,
        ),
        NfsMountEvent::Mounted { mount_point } => status.with(
            time,
            MountState::Mounted,
            "Mounted"@,
            "Mounted at "@ + mount_point@,
        ),
        NfsMountEvent::ShuttingDown { reason } => status.with(
            time,
            MountState::Stopping,
            "Shutting down"@,
            reason@,
        ),
    }
}

/// Shows an event of a mount of this process.
pub fn handle_mount_event(status: &mut SharedStatus, time: &str, event: &NfsMountEvent)
    ensures
        final(status)@ == spec_mount_event(old(status)@, time@, *event),
{
    match event {
        NfsMountEvent::ServerListening { port } => {
            let number = text::decimal(*port as u64);
            let detail = text::concat("127.0.0.1:", number.as_str());
            set_status_at(
                status,
                time,
                MountState::Mounting,
                "Local NFS server is listening",
                detail.as_str(),
            );
        },
        NfsMountEvent::MountCommand { command } => {
            let line = text::concat("Running ", command.as_str());
            push_log_at(status, time, LogLevel::Info, line.as_str());
        },
        NfsMountEvent::Mounted { mount_point } => {
            let detail = text::concat("Mounted at ", mount_point.as_str());
            set_status_at(status, time, MountState::Mounted, "Mounted", detail.as_str());
        },
        NfsMountEvent::ShuttingDown { reason } => {
            set_status_at(status, time, MountState::Stopping, "Shutting down", reason.as_str());
        },
    }
}

/// How a mount of this process ended.
#[derive(PartialEq, Eq, Debug)]
pub enum MountOutcome {
    Stopped,
    Failed(String),
    /// The backend panicked with the message.
    Crashed(String),
}

/// The status after the end of a mount of this process. A failure after the
/// user asked to stop comes of the stop.
pub open spec fn spec_mount_outcome(
    status: StatusView,
    time: Seq<char>,
    outcome: MountOutcome,
    stop_requested: bool,
) -> StatusView {
    match outcome {
        MountOutcome::Stopped => status.with(
            time,
            MountState::Stopped,
            "Unmounted"@,
            "The mount stopped cleanly."@,
        ),
        MountOutcome::Failed(message) => if stop_requested {
            status.with(
                time,
                MountState::Stopped,
                "Stopped"@,
                "Mount cancelled during startup ("@ + message@ + ")."@,
            )
        } else {
            status.with(time, MountState::Failed, "Mount failed"@, message@)
        },
        MountOutcome::Crashed(message) => status.with(
            time,
            MountState::Failed,
            "Mount crashed"@,
            message@,
        ),
    }
}

/// Shows the end of a mount of this process.
pub fn show_mount_outcome(
    status: &mut SharedStatus,
    time: &str,
    outcome: &MountOutcome,
    stop_requested: bool,
)
    ensures
        final(status)@ == spec_mount_outcome(old(status)@, time@, *outcome, stop_requested),
{
    match outcome {
        MountOutcome::Stopped => {
            set_status_at(
                status,
                time,
                MountState::Stopped,
                "Unmounted",
                "The mount stopped cleanly.",
            );
        },
        MountOutcome::Failed(message) => {
            if stop_requested {
                let detail = text::concat3(
                    "Mount cancelled during startup (",
                    message.as_str(),
                    ").",
                );
                set_status_at(status, time, MountState::Stopped, "Stopped", detail.as_str());
            } else {
                set_status_at(status, time, MountState::Failed, "Mount failed", message.as_str());
            }
        },
        MountOutcome::Crashed(message) => {
            set_status_at(status, time, MountState::Failed, "Mount crashed", message.as_str());
        },
    }
}

// ── Laws ────────────────────────────────────────────────────────────────

/// The log never grows past its length, and its newest line is the one that was
/// added.
pub proof fn law_log_is_bounded(
    status: StatusView,
    time: Seq<char>,
    level: LogLevel,
    line: Seq<char>,
)
    ensures
        status.logged(time, level, line).log.len() <= MAX_LOG_LINES,
        status.logged(time, level, line).log.last() == (LogEntryView { time, level, text: line }),
{
}

/// A log within its length loses its oldest line at most, and keeps the order
/// of the others.
pub proof fn law_log_keeps_the_newest(
    status: StatusView,
    time: Seq<char>,
    level: LogLevel,
    line: Seq<char>,
)
    requires
        status.log.len() <= MAX_LOG_LINES,
    ensures
        ({
            let after = status.logged(time, level, line).log;
            let kept = if status.log.len() < MAX_LOG_LINES {
                status.log
            } else {
                status.log.skip(1)
            };
            after == kept.push(LogEntryView { time, level, text: line })
        }),
{
    let entry = LogEntryView { time, level, text: line };
    if status.log.len() == MAX_LOG_LINES {
        assert(status.log.push(entry).skip(1) =~= status.log.skip(1).push(entry));
    }
}

/// Every line that is added moves the revision, so a reader that compares
/// revisions misses none.
pub proof fn law_changes_move_the_revision(
    status: StatusView,
    time: Seq<char>,
    level: LogLevel,
    line: Seq<char>,
)
    ensures
        status.logged(time, level, line).revision != status.revision,
{
}

/// Saying the same again changes nothing.
pub proof fn law_repeated_status_is_no_news(
    status: StatusView,
    time: Seq<char>,
    later: Seq<char>,
    state: MountState,
    headline: Seq<char>,
    detail: Seq<char>,
)
    ensures
        ({
            let once = status.with_if_changed(time, state, headline, detail);
            once.with_if_changed(later, state, headline, detail) == once
        }),
{
}

/// Once the user asked to stop, a mount that gives up is no failure.
pub proof fn law_stopping_does_not_fail(
    status: StatusView,
    time: Seq<char>,
    message: String,
)
    ensures
        spec_mount_outcome(status, time, MountOutcome::Failed(message), true).state
            == MountState::Stopped,
        spec_mount_outcome(status, time, MountOutcome::Stopped, true).state == MountState::Stopped,
{
}

} // verus!
