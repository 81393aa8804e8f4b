//! The supervisor of the backend server process.
//!
//! The backend binds a port of its own choosing and announces it on standard
//! output in a line `MUX_SERVER_PORT:<port>`. The supervisor follows the process
//! from launch to exit, publishes the announced port, and says which
//! notification each event calls for. The caller launches and kills the process,
//! reads its output, and sends the notifications.

use vstd::prelude::*;
use crate::error::{ErrorKind, SupervisorError};
use crate::text::{
    append_decimal, chars_of, decimal, decode_lossy, has_prefix, parse_u16, parse_u16_range,
    starts_with, trim, trim_range, utf8_lossy,
};

verus! {

/// The prefix of the line in which the backend announces its port.
pub open spec fn port_marker() -> Seq<char> {
    "MUX_SERVER_PORT:"@
}

/// The port that a line of backend output announces, if it announces one: the
/// line begins with the marker, and what follows it is, apart from surrounding
/// whitespace, a 16-bit decimal number.
pub open spec fn marker_port(line: Seq<char>) -> Option<u16> {
    if starts_with(line, port_marker()) {
        parse_u16(trim(line.skip(port_marker().len() as int)))
    } else {
        None
    }
}

/// Reads the port announcement out of one line of backend output.
pub fn parse_port_from_line(line: &str) -> (port: Option<u16>)
    ensures
        port == marker_port(line@),
{
    let chars: Vec<char> = chars_of(line);
    let marker: Vec<char> = chars_of("MUX_SERVER_PORT:");
    if !has_prefix(&chars, &marker) {
        return None;
    }
    let (start, end) = trim_range(&chars, marker.len(), chars.len());
    assert(chars@.subrange(marker.len() as int, chars.len() as int) =~= line@.skip(
        port_marker().len() as int,
    ));
    parse_u16_range(&chars, start, end)
}

/// The cell that holds the published backend port; 0 stands for "not known".
pub struct PublishedPort {
    value: u16,
}

impl View for PublishedPort {
    type V = u16;

    closed spec fn view(&self) -> u16 {
        self.value
    }
}

impl PublishedPort {
    /// A cell that holds no port yet.
    pub fn new() -> (cell: PublishedPort)
        ensures
            cell@ == 0,
    {
        PublishedPort { value: 0 }
    }
}

/// The published port, 0 while none is known.
pub fn get_sidecar_port(cell: &PublishedPort) -> (port: u16)
    ensures
        port == cell@,
{
    cell.value
}

/// Publishes `port`; 0 withdraws it.
pub fn set_sidecar_port(cell: &mut PublishedPort, port: u16)
    ensures
        final(cell)@ == port,
{
    cell.value = port;
}

/// Where the backend process stands.
#[derive(Clone, Copy, Debug, PartialEq, Eq, Structural)]
pub enum SidecarState {
    /// No launch was asked for yet.
    NotStarted,
    /// A launch was asked for; the backend has not announced its port.
    Starting,
    /// The backend announced this port.
    Running(u16),
    /// The process exited, was killed, or could not be launched.
    Terminated,
}

/// What the backend process did, as its output stream reports it.
#[derive(Clone, Debug, PartialEq, Eq)]
pub enum SidecarEvent {
    /// One line of standard output, as raw bytes.
    Stdout(Vec<u8>),
    /// One line of standard error, as raw bytes.
    Stderr(Vec<u8>),
    /// The stream reported an error.
    Error(String),
    /// The process exited, with this exit code if it had one.
    Terminated(Option<i32>),
}

/// What the caller sends out after an event.
#[derive(Clone, Copy, Debug, PartialEq, Eq, Structural)]
pub enum SidecarAction {
    /// Nothing: the event was diagnostic output.
    Nothing,
    /// "backend ready", with the port.
    AnnounceReady(u16),
    /// "backend terminated", with the exit code; the stream has ended.
    AnnounceTerminated(Option<i32>),
}

/// The step of a launch that failed.
#[derive(Clone, Copy, Debug, PartialEq, Eq, Structural)]
pub enum LaunchStage {
    /// The command for the backend executable could not be made.
    CreateCommand,
    /// The process could not be started.
    Spawn,
}

/// A launched process that the supervisor did not take over, with the
/// failure to report.
#[derive(Debug, PartialEq, Eq)]
pub struct RejectedLaunch<C> {
    pub child: C,
    pub error: SupervisorError,
}

/// A supervisor as contracts see it.
pub struct SupervisorView<C> {
    pub state: SidecarState,
    pub port: u16,
    pub child: Option<C>,
}

/// The rules that every supervisor keeps: a port is published only while the
/// backend runs, and it is the announced one; a process is tracked only while
/// starting or running, and always while running.
pub open spec fn view_wf<C>(v: SupervisorView<C>) -> bool {
    &&& v.port == (match v.state {
        SidecarState::Running(port) => port,
        _ => 0u16,
    })
    &&& (v.state is NotStarted || v.state is Terminated) ==> v.child is None
    &&& v.state is Running ==> v.child is Some
}

/// A launch may begin when no launch is under way and no process is tracked.
pub open spec fn can_spawn<C>(v: SupervisorView<C>) -> bool {
    v.state is NotStarted || v.state is Terminated
}

/// A launch was asked for and its outcome is still awaited.
pub open spec fn awaits_launch<C>(v: SupervisorView<C>) -> bool {
    v.state is Starting && v.child is None
}

/// The text of the failure of a launch, by the step that failed.
pub open spec fn launch_failure_text(stage: LaunchStage, detail: Seq<char>) -> Seq<char> {
    match stage {
        LaunchStage::CreateCommand => "Failed to create sidecar command: "@ + detail,
        LaunchStage::Spawn => "Failed to spawn sidecar: "@ + detail,
    }
}

/// The supervisor after one line of standard output.
pub open spec fn after_line<C>(v: SupervisorView<C>, line: Seq<char>) -> SupervisorView<C> {
    match marker_port(line) {
        Some(port) if v.child is Some => SupervisorView {
            state: SidecarState::Running(port),
            port: port,
            child: v.child,
        },
        _ => v,
    }
}

/// The notification that one line of standard output calls for: "backend
/// ready" at the first announcement of a launch, nothing otherwise.
pub open spec fn action_for_line<C>(v: SupervisorView<C>, line: Seq<char>) -> SidecarAction {
    match marker_port(line) {
        Some(port) if v.child is Some && v.state is Starting => SidecarAction::AnnounceReady(port),
        _ => SidecarAction::Nothing,
    }
}

/// The supervisor after the process has exited.
pub open spec fn after_exit<C>(v: SupervisorView<C>) -> SupervisorView<C> {
    SupervisorView { state: SidecarState::Terminated, port: 0, child: None }
}

/// The supervisor after an event.
pub open spec fn after_event<C>(v: SupervisorView<C>, event: SidecarEvent) -> SupervisorView<C> {
    match event {
        SidecarEvent::Stdout(bytes) => after_line(v, utf8_lossy(bytes@)),
        SidecarEvent::Stderr(_) => v,
        SidecarEvent::Error(_) => v,
        SidecarEvent::Terminated(_) => after_exit(v),
    }
}

/// The notification that an event calls for.
pub open spec fn action_for<C>(v: SupervisorView<C>, event: SidecarEvent) -> SidecarAction {
    match event {
        SidecarEvent::Stdout(bytes) => action_for_line(v, utf8_lossy(bytes@)),
        SidecarEvent::Stderr(_) => SidecarAction::Nothing,
        SidecarEvent::Error(_) => SidecarAction::Nothing,
        SidecarEvent::Terminated(code) => SidecarAction::AnnounceTerminated(code),
    }
}

/// The notification that the end of the output stream calls for: "backend
/// terminated" without an exit code, unless the process was seen to exit or
/// was terminated before.
pub open spec fn action_for_close<C>(v: SupervisorView<C>) -> SidecarAction {
    if v.state is Terminated {
        SidecarAction::Nothing
    } else {
        SidecarAction::AnnounceTerminated(None)
    }
}

/// The supervisor after a request to terminate the backend.
pub open spec fn after_terminate<C>(v: SupervisorView<C>) -> SupervisorView<C> {
    if v.child is Some {
        SupervisorView { state: SidecarState::Terminated, port: 0, child: None }
    } else {
        v
    }
}

/// The owner of the backend process: its handle of type `C`, its state and
/// the published port.
pub struct SidecarSupervisor<C> {
    state: SidecarState,
    port: PublishedPort,
    child: Option<C>,
}

impl<C> View for SidecarSupervisor<C> {
    type V = SupervisorView<C>;

    closed spec fn view(&self) -> SupervisorView<C> {
        SupervisorView { state: self.state, port: self.port@, child: self.child }
    }
}

impl<C> SidecarSupervisor<C> {
    /// Whether this supervisor keeps the rules of `view_wf`.
    pub open spec fn wf(&self) -> bool {
        view_wf(self@)
    }

    /// A supervisor that has launched nothing yet.
    pub fn new() -> (sup: SidecarSupervisor<C>)
        ensures
            sup.wf(),
            sup@ == (SupervisorView::<C> { state: SidecarState::NotStarted, port: 0, child: None }),
    {
        SidecarSupervisor { state: SidecarState::NotStarted, port: PublishedPort::new(), child: None }
    }

    /// Where the backend process stands.
    pub fn state(&self) -> (state: SidecarState)
        ensures
            state == self@.state,
    {
        self.state
    }

    /// The cell of the published port, for reading.
    pub fn published_port(&self) -> (cell: &PublishedPort)
        ensures
            cell@ == self@.port,
    {
        &self.port
    }

    /// Whether a process is tracked.
    pub fn is_tracking(&self) -> (tracking: bool)
        ensures
            tracking == self@.child is Some,
    {
        self.child.is_some()
    }

    /// Asks for a launch. Granted when nothing was launched yet or the last
    /// process is gone; refused, with nothing changed, while a launch is under
    /// way or a process is tracked, so that two backends never run at once.
    pub fn begin_spawn(&mut self) -> (r: Result<(), SupervisorError>)
        requires
            old(self).wf(),
        ensures
            final(self).wf(),
            match r {
                Ok(()) => can_spawn(old(self)@) && final(self)@ == (SupervisorView::<C> {
                    state: SidecarState::Starting,
                    port: 0,
                    child: None,
                }),
                Err(e) => !can_spawn(old(self)@) && final(self)@ == old(self)@ && e.kind
                    == ErrorKind::Spawn && e.detail@ == "Failed to spawn sidecar: "@
                    + "already running"@,
            },
    {
        match self.state {
            SidecarState::NotStarted | SidecarState::Terminated => {
                self.state = SidecarState::Starting;
                Ok(())
            },
            _ => Err(
                SupervisorError::with_context(
                    ErrorKind::Spawn,
                    "Failed to spawn sidecar: ",
                    "already running",
                ),
            ),
        }
    }

    /// Takes over the launched process. Where no launch is awaited nothing
    /// changes, and the process comes back with the failure to report, for
    /// the caller to dispose of.
    pub fn launch_succeeded(&mut self, child: C) -> (r: Result<(), RejectedLaunch<C>>)
        requires
            old(self).wf(),
        ensures
            final(self).wf(),
            match r {
                Ok(()) => awaits_launch(old(self)@) && final(self)@ == (SupervisorView {
                    child: Some(child),
                    ..old(self)@
                }),
                Err(rejected) => !awaits_launch(old(self)@) && final(self)@ == old(self)@
                    && rejected.child == child && rejected.error.kind == ErrorKind::Spawn
                    && rejected.error.detail@ == "Failed to spawn sidecar: "@
                    + "no launch awaited"@,
            },
    {
        let awaited: bool = match self.state {
            SidecarState::Starting => self.child.is_none(),
            _ => false,
        };
        if awaited {
            self.child = Some(child);
            Ok(())
        } else {
            Err(
                RejectedLaunch {
                    child,
                    error: SupervisorError::with_context(
                        ErrorKind::Spawn,
                        "Failed to spawn sidecar: ",
                        "no launch awaited",
                    ),
                },
            )
        }
    }

    /// Records that the awaited launch failed, and gives the failure to report.
    /// The supervisor is terminated; a later launch may be asked for.
    pub fn launch_failed(&mut self, stage: LaunchStage, detail: &str) -> (e: SupervisorError)
        requires
            old(self).wf(),
        ensures
            final(self).wf(),
            e.kind == ErrorKind::Spawn,
            e.detail@ == launch_failure_text(stage, detail@),
            awaits_launch(old(self)@) ==> final(self)@ == (SupervisorView::<C> {
                state: SidecarState::Terminated,
                port: 0,
                child: None,
            }),
            !awaits_launch(old(self)@) ==> final(self)@ == old(self)@,
    {
        let awaited: bool = match self.state {
            SidecarState::Starting => self.child.is_none(),
            _ => false,
        };
        if awaited {
            self.state = SidecarState::Terminated;
        }
        match stage {
            LaunchStage::CreateCommand => SupervisorError::with_context(
                ErrorKind::Spawn,
                "Failed to create sidecar command: ",
                detail,
            ),
            LaunchStage::Spawn => SupervisorError::with_context(
                ErrorKind::Spawn,
                "Failed to spawn sidecar: ",
                detail,
            ),
        }
    }

    /// Takes in one decoded line of standard output. An announcement from the
    /// tracked process publishes its port; the first one of a launch calls for
    /// "backend ready". Every other line is diagnostic.
    pub fn handle_line(&mut self, line: &str) -> (action: SidecarAction)
        requires
            old(self).wf(),
        ensures
            final(self).wf(),
            final(self)@ == after_line(old(self)@, line@),
            action == action_for_line(old(self)@, line@),
    {
        match parse_port_from_line(line) {
            Some(port) => {
                if self.child.is_some() {
                    let first: bool = match self.state {
                        SidecarState::Starting => true,
                        _ => false,
                    };
                    self.state = SidecarState::Running(port);
                    set_sidecar_port(&mut self.port, port);
                    if first {
                        SidecarAction::AnnounceReady(port)
                    } else {
                        SidecarAction::Nothing
                    }
                } else {
                    SidecarAction::Nothing
                }
            },
            None => SidecarAction::Nothing,
        }
    }

    /// Takes in one event of the backend's output stream and says which
    /// notification it calls for. Standard error and stream errors change
    /// nothing. The exit of the process drops its handle, withdraws the port
    /// and calls for "backend terminated".
    pub fn handle_event(&mut self, event: SidecarEvent) -> (action: SidecarAction)
        requires
            old(self).wf(),
        ensures
            final(self).wf(),
            final(self)@ == after_event(old(self)@, event),
            action == action_for(old(self)@, event),
    {
        match event {
            SidecarEvent::Stdout(bytes) => {
                let line: String = decode_lossy(bytes.as_slice());
                self.handle_line(line.as_str())
            },
            SidecarEvent::Stderr(_) => SidecarAction::Nothing,
            SidecarEvent::Error(_) => SidecarAction::Nothing,
            SidecarEvent::Terminated(code) => {
                self.child = None;
                self.state = SidecarState::Terminated;
                set_sidecar_port(&mut self.port, 0);
                SidecarAction::AnnounceTerminated(code)
            },
        }
    }

    /// Takes in the end of the backend's output stream. The process counts as
    /// gone: its handle is dropped and the port withdrawn. Where no exit was
    /// seen before, this calls for "backend terminated", without an exit code.
    pub fn stream_closed(&mut self) -> (action: SidecarAction)
        requires
            old(self).wf(),
        ensures
            final(self).wf(),
            final(self)@ == after_exit(old(self)@),
            action == action_for_close(old(self)@),
    {
        let seen: bool = match self.state {
            SidecarState::Terminated => true,
            _ => false,
        };
        self.child = None;
        self.state = SidecarState::Terminated;
        set_sidecar_port(&mut self.port, 0);
        if seen {
            SidecarAction::Nothing
        } else {
            SidecarAction::AnnounceTerminated(None)
        }
    }

    /// Gives up the tracked process, for the caller to kill, and withdraws the
    /// port. Without a tracked process nothing changes.
    pub fn terminate(&mut self) -> (child: Option<C>)
        requires
            old(self).wf(),
        ensures
            final(self).wf(),
            child == old(self)@.child,
            final(self)@ == after_terminate(old(self)@),
    {
        let child: Option<C> = self.child.take();
        if child.is_some() {
            self.state = SidecarState::Terminated;
            set_sidecar_port(&mut self.port, 0);
        }
        child
    }
}

/// The backend port as requests see it: the published port, 0 while the
/// backend has not announced one or is gone.
pub fn get_backend_port<C>(sup: &SidecarSupervisor<C>) -> (port: u16)
    ensures
        port == sup@.port,
{
    get_sidecar_port(sup.published_port())
}

/// The failure to report when the kill signal could not be sent.
pub fn kill_outcome(outcome: Result<(), String>) -> (r: Result<(), SupervisorError>)
    ensures
        match r {
            Ok(()) => outcome is Ok,
            Err(e) => outcome matches Err(detail) && e.kind == ErrorKind::Io && e.detail@
                == "Failed to kill sidecar: "@ + detail@,
        },
{
    match outcome {
        Ok(()) => Ok(()),
        Err(detail) => Err(
            SupervisorError::with_context(ErrorKind::Io, "Failed to kill sidecar: ", detail.as_str()),
        ),
    }
}

/// The bound on a health probe, in seconds.
pub const HEALTH_TIMEOUT_SECS: u64 = 2;

/// The address of the backend on the loopback interface.
pub open spec fn backend_base(port: u16) -> Seq<char> {
    "http://127.0.0.1:"@ + decimal(port as nat)
}

/// The address of the backend's health endpoint.
pub open spec fn health_url(port: u16) -> Seq<char> {
    backend_base(port) + "/health"@
}

/// The backend's address on the loopback interface, followed by `path`.
pub fn backend_address(port: u16, path: &str) -> (url: String)
    ensures
        url@ == backend_base(port) + path@,
{
    let mut url: String = String::from_str("http://127.0.0.1:");
    append_decimal(&mut url, port as u64);
    url.append(path);
    url
}

/// A request to make for a health check: a GET of `url` that is given up
/// after `timeout_secs` seconds.
#[derive(Clone, Debug, PartialEq, Eq)]
pub struct HealthProbe {
    pub url: String,
    pub timeout_secs: u64,
}

/// How a health probe went.
#[derive(Clone, Copy, Debug, PartialEq, Eq, Structural)]
pub enum ProbeOutcome {
    /// The backend answered with this HTTP status.
    Status(u16),
    /// No answer came within the bound.
    TimedOut,
    /// The request failed otherwise.
    Unreachable,
}

/// The HTTP statuses that stand for success: 200 to 299.
pub open spec fn is_success(code: u16) -> bool {
    200 <= code && code <= 299
}

/// Whether an HTTP status stands for success.
#[verifier::when_used_as_spec(is_success)]
pub fn is_success_status(code: u16) -> (ok: bool)
    ensures
        ok == is_success(code),
{
    200 <= code && code <= 299
}

/// The probe to make for a health check of the backend on `port`: none
/// while the port is not known.
pub fn health_probe(port: u16) -> (probe: Option<HealthProbe>)
    ensures
        match probe {
            None => port == 0,
            Some(p) => port != 0 && p.url@ == health_url(port) && p.timeout_secs
                == HEALTH_TIMEOUT_SECS,
        },
{
    if port == 0 {
        None
    } else {
        Some(HealthProbe { url: backend_address(port, "/health"), timeout_secs: HEALTH_TIMEOUT_SECS })
    }
}

/// The backend is healthy when its port is known and the probe was answered
/// with a success status.
pub open spec fn backend_healthy(port: u16, outcome: Option<ProbeOutcome>) -> bool {
    port != 0 && (match outcome {
        Some(ProbeOutcome::Status(code)) => is_success(code),
        _ => false,
    })
}

/// The verdict of a health check, from the published port and how the probe
/// went, if one was made. A probe that failed or timed out means "not
/// healthy"; it is no failure of the request.
pub fn check_backend_health(port: u16, outcome: Option<ProbeOutcome>) -> (healthy: bool)
    ensures
        healthy == backend_healthy(port, outcome),
{
    if port == 0 {
        return false;
    }
    match outcome {
        Some(ProbeOutcome::Status(code)) => is_success_status(code),
        _ => false,
    }
}

/// The text for a probe that does not count as healthy.
pub open spec fn probe_failure_text(outcome: ProbeOutcome) -> Seq<char> {
    match outcome {
        ProbeOutcome::Status(code) => "Health probe failed with status: "@ + decimal(code as nat),
        ProbeOutcome::TimedOut => "Health probe failed: "@ + "timed out"@,
        ProbeOutcome::Unreachable => "Health probe failed: "@ + "backend unreachable"@,
    }
}

/// Why a probe counts as "not healthy", for the record: nothing for a
/// success status, a timeout for a probe that ran out of time, an I/O failure
/// otherwise.
pub fn probe_failure(outcome: ProbeOutcome) -> (failure: Option<SupervisorError>)
    ensures
        match failure {
            None => outcome matches ProbeOutcome::Status(code) && is_success(code),
            Some(e) => !(outcome matches ProbeOutcome::Status(code) && is_success(code))
                && e.detail@ == probe_failure_text(outcome) && e.kind == (if outcome is TimedOut {
                ErrorKind::Timeout
            } else {
                ErrorKind::Io
            }),
        },
{
    match outcome {
        ProbeOutcome::Status(code) => {
            if is_success_status(code) {
                None
            } else {
                let mut text: String = String::from_str("Health probe failed with status: ");
                append_decimal(&mut text, code as u64);
                Some(SupervisorError { kind: ErrorKind::Io, detail: text })
            }
        },
        ProbeOutcome::TimedOut => Some(
            SupervisorError::with_context(ErrorKind::Timeout, "Health probe failed: ", "timed out"),
        ),
        ProbeOutcome::Unreachable => Some(
            SupervisorError::with_context(
                ErrorKind::Io,
                "Health probe failed: ",
                "backend unreachable",
            ),
        ),
    }
}

} // verus!
