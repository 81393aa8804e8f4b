//! The registry of pseudo-terminal sessions.
//!
//! Each session is an interactive shell on a pseudo-terminal. The registry owns
//! the handles of the live sessions, issues their identifiers, keeps their
//! geometry, and turns the outcome of each stream operation into the result
//! that the request reports. Opening terminals and moving bytes is the caller's
//! part; `H` is the type of whatever it holds for one session.

use vstd::prelude::*;
use std::collections::HashMap;
use crate::error::{ErrorKind, SupervisorError};
use crate::text::{append_decimal, decimal};

verus! {

broadcast use vstd::std_specs::hash::group_hash_axioms;

/// The size of a terminal, in character cells.
#[derive(Clone, Copy, Debug, PartialEq, Eq, Structural)]
pub struct Geometry {
    pub rows: u16,
    pub cols: u16,
}

/// Rows of a new session's terminal.
pub const INITIAL_ROWS: u16 = 24;

/// Columns of a new session's terminal.
pub const INITIAL_COLS: u16 = 80;

/// The most bytes that one read takes from a session.
pub const READ_CHUNK: usize = 8192;

/// The geometry that every session starts with.
pub open spec fn initial_geometry_spec() -> Geometry {
    Geometry { rows: INITIAL_ROWS, cols: INITIAL_COLS }
}

/// The geometry that every session starts with: 80 columns by 24 rows.
#[verifier::when_used_as_spec(initial_geometry_spec)]
pub fn initial_geometry() -> (g: Geometry)
    ensures
        g == initial_geometry_spec(),
{
    Geometry { rows: INITIAL_ROWS, cols: INITIAL_COLS }
}

/// One live session: its geometry, and what the caller holds for it.
pub struct Session<H> {
    pub geometry: Geometry,
    pub handle: H,
}

/// A registry as contracts see it: the identifier that the next session gets,
/// and the live sessions by identifier.
pub struct RegistryView<H> {
    pub next_id: nat,
    pub live: Map<u32, Session<H>>,
}

/// Every live identifier was issued: it is at least 1 and below the next one.
pub open spec fn view_wf<H>(v: RegistryView<H>) -> bool {
    &&& 1 <= v.next_id <= u32::MAX + 1
    &&& forall|id: u32| #[trigger] v.live.contains_key(id) ==> 1 <= id < v.next_id
}

/// The registry after a session with `handle` was asked for. Where the
/// identifiers have run out nothing changes.
pub open spec fn after_create<H>(v: RegistryView<H>, handle: H) -> RegistryView<H> {
    if v.next_id <= u32::MAX {
        RegistryView {
            next_id: v.next_id + 1,
            live: v.live.insert(
                v.next_id as u32,
                Session { geometry: initial_geometry_spec(), handle },
            ),
        }
    } else {
        v
    }
}

/// The registry after the handle of session `id` was replaced.
pub open spec fn after_touch<H>(v: RegistryView<H>, id: u32, handle: H) -> RegistryView<H> {
    if v.live.contains_key(id) {
        RegistryView {
            next_id: v.next_id,
            live: v.live.insert(id, Session { geometry: v.live[id].geometry, handle }),
        }
    } else {
        v
    }
}

/// The registry after session `id` was given a new geometry.
pub open spec fn after_resize<H>(v: RegistryView<H>, id: u32, geometry: Geometry) -> RegistryView<
    H,
> {
    if v.live.contains_key(id) {
        RegistryView {
            next_id: v.next_id,
            live: v.live.insert(id, Session { geometry, handle: v.live[id].handle }),
        }
    } else {
        v
    }
}

/// The registry after session `id` was closed.
pub open spec fn after_close<H>(v: RegistryView<H>, id: u32) -> RegistryView<H> {
    RegistryView { next_id: v.next_id, live: v.live.remove(id) }
}

/// The text of the failure for a session that is not live.
pub open spec fn not_found_text(id: u32) -> Seq<char> {
    "PTY "@ + decimal(id as nat) + " not found"@
}

/// The failure for a request that names a session that is not live.
pub fn not_found(id: u32) -> (e: SupervisorError)
    ensures
        e.kind == ErrorKind::NotFound,
        e.detail@ == not_found_text(id),
{
    let mut text: String = String::from_str("PTY ");
    append_decimal(&mut text, id as u64);
    text.append(" not found");
    SupervisorError { kind: ErrorKind::NotFound, detail: text }
}

/// Calls `HashMap::get_mut`. Trusted: the entry of `id` comes back for
/// changing if the map holds one, and what is written through it is what the
/// map holds for `id` afterwards; every other entry stays as it is.
#[verifier::external_body]
fn entry_mut<V>(sessions: &mut HashMap<u32, V>, id: u32) -> (r: Option<&mut V>)
    ensures
        match r {
            Some(entry) => old(sessions)@.contains_key(id) && *entry == old(sessions)@[id]
                && final(sessions)@ == old(sessions)@.insert(id, *final(entry)),
            None => !old(sessions)@.contains_key(id) && final(sessions)@ == old(sessions)@,
        },
{
    sessions.get_mut(&id)
}

/// The registry of live sessions, each with a handle of type `H`.
pub struct SessionRegistry<H> {
    next_id: u64,
    sessions: HashMap<u32, Session<H>>,
}

impl<H> View for SessionRegistry<H> {
    type V = RegistryView<H>;

    closed spec fn view(&self) -> RegistryView<H> {
        RegistryView { next_id: self.next_id as nat, live: self.sessions@ }
    }
}

impl<H> SessionRegistry<H> {
    /// Whether the registry is in order: identifiers are issued from 1
    /// upwards, and every live one was issued.
    pub closed spec fn wf(&self) -> bool {
        &&& 1 <= self.next_id <= u32::MAX + 1
        &&& forall|id: u32| #[trigger]
            self.sessions@.contains_key(id) ==> 1 <= id < self.next_id
    }

    /// In a registry that is in order every live identifier was issued.
    pub proof fn lemma_wf_view(&self)
        requires
            self.wf(),
        ensures
            view_wf(self@),
    {
    }

    /// A registry without sessions; the first session gets the identifier 1.
    pub fn new() -> (registry: SessionRegistry<H>)
        ensures
            registry.wf(),
            registry@ == (RegistryView::<H> { next_id: 1, live: Map::empty() }),
    {
        SessionRegistry { next_id: 1, sessions: HashMap::new() }
    }

    /// Whether `id` names a live session.
    pub fn contains(&self, id: u32) -> (live: bool)
        requires
            self.wf(),
        ensures
            live == self@.live.contains_key(id),
    {
        self.sessions.contains_key(&id)
    }

    /// Registers a session that was just launched, with the initial geometry,
    /// and gives its identifier: the next one, never one that was issued
    /// before. Where the identifiers have run out the session is refused and
    /// its handle released.
    pub fn create(&mut self, handle: H) -> (r: Result<u32, SupervisorError>)
        requires
            old(self).wf(),
        ensures
            final(self).wf(),
            final(self)@ == after_create(old(self)@, handle),
            match r {
                Ok(id) => id == old(self)@.next_id,
                Err(e) => old(self)@.next_id > u32::MAX && e.kind == ErrorKind::Spawn && e.detail@
                    == "Failed to open PTY: "@ + "session identifiers exhausted"@,
            },
    {
        if self.next_id > u32::MAX as u64 {
            return Err(
                SupervisorError::with_context(
                    ErrorKind::Spawn,
                    "Failed to open PTY: ",
                    "session identifiers exhausted",
                ),
            );
        }
        let id: u32 = self.next_id as u32;
        self.sessions.insert(id, Session { geometry: initial_geometry(), handle });
        self.next_id = self.next_id + 1;
        Ok(id)
    }

    /// The handle of session `id`, to read from or write to.
    pub fn handle_mut(&mut self, id: u32) -> (r: Result<&mut H, SupervisorError>)
        requires
            old(self).wf(),
        ensures
            final(self).wf(),
            match r {
                Ok(handle) => old(self)@.live.contains_key(id) && *handle == old(
                    self,
                )@.live[id].handle && final(self)@ == after_touch(old(self)@, id, *final(handle)),
                Err(e) => !old(self)@.live.contains_key(id) && final(self)@ == old(self)@ && e.kind
                    == ErrorKind::NotFound && e.detail@ == not_found_text(id),
            },
    {
        match entry_mut(&mut self.sessions, id) {
            Some(session) => Ok(&mut session.handle),
            None => Err(not_found(id)),
        }
    }

    /// The geometry of session `id`.
    pub fn geometry(&self, id: u32) -> (r: Result<Geometry, SupervisorError>)
        requires
            self.wf(),
        ensures
            match r {
                Ok(g) => self@.live.contains_key(id) && g == self@.live[id].geometry,
                Err(e) => !self@.live.contains_key(id) && e.kind == ErrorKind::NotFound && e.detail@
                    == not_found_text(id),
            },
    {
        match self.sessions.get(&id) {
            Some(session) => Ok(session.geometry),
            None => Err(not_found(id)),
        }
    }

    /// Records the new geometry of session `id`. The caller applies it to the
    /// live terminal, through the session's handle.
    pub fn resize(&mut self, id: u32, cols: u16, rows: u16) -> (r: Result<(), SupervisorError>)
        requires
            old(self).wf(),
        ensures
            final(self).wf(),
            final(self)@ == after_resize(old(self)@, id, Geometry { rows, cols }),
            match r {
                Ok(()) => old(self)@.live.contains_key(id),
                Err(e) => !old(self)@.live.contains_key(id) && e.kind == ErrorKind::NotFound
                    && e.detail@ == not_found_text(id),
            },
    {
        match entry_mut(&mut self.sessions, id) {
            Some(session) => {
                session.geometry = Geometry { rows, cols };
                Ok(())
            },
            None => Err(not_found(id)),
        }
    }

    /// Takes session `id` out of the registry and gives up its handle;
    /// dropping the handle releases the terminal and with it ends the shell.
    /// The identifier is not issued again.
    pub fn close(&mut self, id: u32) -> (r: Result<H, SupervisorError>)
        requires
            old(self).wf(),
        ensures
            final(self).wf(),
            match r {
                Ok(handle) => old(self)@.live.contains_key(id) && handle == old(
                    self,
                )@.live[id].handle && final(self)@ == after_close(old(self)@, id),
                Err(e) => !old(self)@.live.contains_key(id) && final(self)@ == old(self)@ && e.kind
                    == ErrorKind::NotFound && e.detail@ == not_found_text(id),
            },
    {
        match self.sessions.remove(&id) {
            Some(session) => Ok(session.handle),
            None => {
                assert(self.sessions@ =~= old(self).sessions@);
                Err(not_found(id))
            },
        }
    }

    /// The number of live sessions.
    pub fn len(&self) -> (n: usize)
        requires
            self.wf(),
        ensures
            n == self@.live.len(),
            self@.live.dom().finite(),
    {
        self.sessions.len()
    }
}

/// The step of launching a session that failed.
#[derive(Clone, Copy, Debug, PartialEq, Eq, Structural)]
pub enum SpawnStage {
    /// The pseudo-terminal could not be opened.
    OpenPty,
    /// The shell could not be started on it.
    SpawnShell,
    /// The output stream could not be had.
    CloneReader,
    /// The input stream could not be had.
    TakeWriter,
}

/// The text of the failure to launch a session, by the step that failed.
pub open spec fn spawn_failure_text(stage: SpawnStage, detail: Seq<char>) -> Seq<char> {
    match stage {
        SpawnStage::OpenPty => "Failed to open PTY: "@ + detail,
        SpawnStage::SpawnShell => "Failed to spawn shell: "@ + detail,
        SpawnStage::CloneReader => "Failed to clone reader: "@ + detail,
        SpawnStage::TakeWriter => "Failed to get writer: "@ + detail,
    }
}

/// The failure to report when a session could not be launched.
pub fn spawn_failure(stage: SpawnStage, detail: &str) -> (e: SupervisorError)
    ensures
        e.kind == ErrorKind::Spawn,
        e.detail@ == spawn_failure_text(stage, detail@),
{
    match stage {
        SpawnStage::OpenPty => SupervisorError::with_context(
            ErrorKind::Spawn,
            "Failed to open PTY: ",
            detail,
        ),
        SpawnStage::SpawnShell => SupervisorError::with_context(
            ErrorKind::Spawn,
            "Failed to spawn shell: ",
            detail,
        ),
        SpawnStage::CloneReader => SupervisorError::with_context(
            ErrorKind::Spawn,
            "Failed to clone reader: ",
            detail,
        ),
        SpawnStage::TakeWriter => SupervisorError::with_context(
            ErrorKind::Spawn,
            "Failed to get writer: ",
            detail,
        ),
    }
}

/// The shell that a new session runs: `cmd.exe` on Windows; elsewhere the
/// value of the `SHELL` variable, or `/bin/bash` where it is not set.
pub fn default_shell(windows: bool, shell_var: Option<String>) -> (shell: String)
    ensures
        shell@ == (if windows {
            "cmd.exe"@
        } else {
            match shell_var {
                Some(value) => value@,
                None => "/bin/bash"@,
            }
        }),
{
    if windows {
        String::from_str("cmd.exe")
    } else {
        match shell_var {
            Some(value) => value,
            None => String::from_str("/bin/bash"),
        }
    }
}

/// The step of a write that failed.
#[derive(Clone, Copy, Debug, PartialEq, Eq, Structural)]
pub enum WriteStage {
    /// Handing the bytes to the stream.
    Write,
    /// Flushing the stream.
    Flush,
}

/// How a write to a session's input went.
#[derive(Clone, Debug, PartialEq, Eq)]
pub enum WriteOutcome {
    /// All bytes were written and flushed.
    Done,
    /// A step failed, with the system's words for it.
    Failed(WriteStage, String),
}

/// The text of a failure on a live session: the operation, the session's
/// identifier, and the system's words.
pub open spec fn session_failure_text(operation: Seq<char>, id: u32, detail: Seq<char>) -> Seq<
    char,
> {
    operation + decimal(id as nat) + ": "@ + detail
}

/// A failure of kind `Io` on session `id`, with the text of
/// `session_failure_text`.
pub fn session_failure(operation: &str, id: u32, detail: &str) -> (e: SupervisorError)
    ensures
        e.kind == ErrorKind::Io,
        e.detail@ == session_failure_text(operation@, id, detail@),
{
    let mut text: String = String::from_str(operation);
    append_decimal(&mut text, id as u64);
    text.append(": ");
    text.append(detail);
    SupervisorError { kind: ErrorKind::Io, detail: text }
}

/// The text of the failure of a write to session `id`, by the step that
/// failed.
pub open spec fn write_failure_text(id: u32, stage: WriteStage, detail: Seq<char>) -> Seq<char> {
    match stage {
        WriteStage::Write => session_failure_text("Failed to write to PTY "@, id, detail),
        WriteStage::Flush => session_failure_text("Failed to flush PTY "@, id, detail),
    }
}

/// The text of the failure of a read from session `id`.
pub open spec fn read_failure_text(id: u32, detail: Seq<char>) -> Seq<char> {
    session_failure_text("Failed to read from PTY "@, id, detail)
}

/// The text of the failure to apply a geometry to the terminal of session
/// `id`.
pub open spec fn resize_failure_text(id: u32, detail: Seq<char>) -> Seq<char> {
    session_failure_text("Failed to resize PTY "@, id, detail)
}

/// The result of a write request to session `id`, from how the write went.
pub fn write_result(id: u32, outcome: WriteOutcome) -> (r: Result<(), SupervisorError>)
    ensures
        match r {
            Ok(()) => outcome is Done,
            Err(e) => outcome matches WriteOutcome::Failed(stage, detail) && e.kind
                == ErrorKind::Io && e.detail@ == write_failure_text(id, stage, detail@),
        },
{
    match outcome {
        WriteOutcome::Done => Ok(()),
        WriteOutcome::Failed(stage, detail) => match stage {
            WriteStage::Write => Err(
                session_failure("Failed to write to PTY ", id, detail.as_str()),
            ),
            WriteStage::Flush => Err(session_failure("Failed to flush PTY ", id, detail.as_str())),
        },
    }
}

/// How one read from a session's output went.
#[derive(Clone, Debug, PartialEq, Eq)]
pub enum ReadOutcome {
    /// This many bytes were put at the front of the buffer.
    Data(usize),
    /// No output is pending; the read would have had to wait.
    WouldBlock,
    /// The read failed, with the system's words for it.
    Failed(String),
}

/// The bytes that a read request returns.
pub open spec fn read_bytes(buffer: Seq<u8>, outcome: ReadOutcome) -> Seq<u8> {
    match outcome {
        ReadOutcome::Data(n) => if n <= buffer.len() {
            buffer.take(n as int)
        } else {
            buffer
        },
        _ => Seq::empty(),
    }
}

/// A zeroed buffer for one read.
pub fn read_buffer() -> (buffer: Vec<u8>)
    ensures
        buffer@.len() == READ_CHUNK,
        forall|i: int| 0 <= i < buffer@.len() ==> buffer@[i] == 0,
{
    vec![0u8; READ_CHUNK]
}

/// The result of a read request to session `id`, from the buffer that was
/// read into and how the read went. Pending output comes back as read; no
/// pending output is an empty result and no failure.
pub fn read_result(id: u32, buffer: Vec<u8>, outcome: ReadOutcome) -> (r: Result<
    Vec<u8>,
    SupervisorError,
>)
    ensures
        match r {
            Ok(bytes) => !(outcome is Failed) && bytes@ == read_bytes(buffer@, outcome),
            Err(e) => outcome matches ReadOutcome::Failed(detail) && e.kind == ErrorKind::Io
                && e.detail@ == read_failure_text(id, detail@),
        },
{
    match outcome {
        ReadOutcome::Data(n) => {
            let mut bytes: Vec<u8> = buffer;
            bytes.truncate(n);
            Ok(bytes)
        },
        ReadOutcome::WouldBlock => Ok(Vec::new()),
        ReadOutcome::Failed(detail) => Err(
            session_failure("Failed to read from PTY ", id, detail.as_str()),
        ),
    }
}

/// The result of a resize request to session `id`, from how applying the
/// geometry to the live terminal went.
pub fn resize_result(id: u32, outcome: Result<(), String>) -> (r: Result<(), SupervisorError>)
    ensures
        match r {
            Ok(()) => outcome is Ok,
            Err(e) => outcome matches Err(detail) && e.kind == ErrorKind::Io && e.detail@
                == resize_failure_text(id, detail@),
        },
{
    match outcome {
        Ok(()) => Ok(()),
        Err(detail) => Err(session_failure("Failed to resize PTY ", id, detail.as_str())),
    }
}

} // verus!
