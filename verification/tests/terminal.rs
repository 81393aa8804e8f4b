use mup_supervisor::error::{ErrorKind, SupervisorError};
use mup_supervisor::terminal::{
    default_shell, initial_geometry, not_found, read_buffer, read_result, resize_result,
    spawn_failure, write_result, Geometry, ReadOutcome, SessionRegistry, SpawnStage, WriteOutcome,
    WriteStage, READ_CHUNK,
};

/// A stand-in for a shell on a pseudo-terminal: what is written comes back.
struct Echo {
    pending: Vec<u8>,
}

impl Echo {
    fn new() -> Echo {
        Echo { pending: Vec::new() }
    }

    fn write(&mut self, data: &[u8]) -> WriteOutcome {
        self.pending.extend_from_slice(data);
        WriteOutcome::Done
    }

    fn read(&mut self, buffer: &mut [u8]) -> ReadOutcome {
        if self.pending.is_empty() {
            return ReadOutcome::WouldBlock;
        }
        let n = self.pending.len().min(buffer.len());
        buffer[..n].copy_from_slice(&self.pending[..n]);
        self.pending.drain(..n);
        ReadOutcome::Data(n)
    }
}

fn write_session(reg: &mut SessionRegistry<Echo>, id: u32, data: &[u8]) -> Result<(), SupervisorError> {
    let outcome = reg.handle_mut(id)?.write(data);
    write_result(id, outcome)
}

fn read_session(reg: &mut SessionRegistry<Echo>, id: u32) -> Result<Vec<u8>, SupervisorError> {
    let handle = reg.handle_mut(id)?;
    let mut buffer = read_buffer();
    let outcome = handle.read(&mut buffer);
    read_result(id, buffer, outcome)
}

fn assert_not_found(e: SupervisorError, id: u32) {
    assert_eq!(e.kind, ErrorKind::NotFound);
    assert_eq!(e.detail, format!("PTY {} not found", id));
}

#[test]
fn session_scenario() {
    let mut reg: SessionRegistry<Echo> = SessionRegistry::new();
    assert_eq!(reg.create(Echo::new()), Ok(1));
    assert_eq!(write_session(&mut reg, 1, b"echo hi\n"), Ok(()));
    let mut seen: Vec<u8> = Vec::new();
    for _ in 0..3 {
        seen.extend(read_session(&mut reg, 1).unwrap());
    }
    assert!(seen.windows(2).any(|w| w == b"hi"));
    assert!(reg.close(1).is_ok());
    assert_not_found(read_session(&mut reg, 1).unwrap_err(), 1);
}

#[test]
fn identifiers_increase_and_are_not_reused() {
    let mut reg: SessionRegistry<u8> = SessionRegistry::new();
    assert_eq!(reg.create(10), Ok(1));
    assert_eq!(reg.create(20), Ok(2));
    assert_eq!(reg.close(1), Ok(10));
    assert_eq!(reg.create(30), Ok(3));
    assert_eq!(reg.close(3), Ok(30));
    assert_eq!(reg.close(2), Ok(20));
    assert_eq!(reg.len(), 0);
    assert_eq!(reg.create(40), Ok(4));
    assert_eq!(reg.create(50), Ok(5));
    assert_eq!(reg.len(), 2);
    assert!(!reg.contains(1));
    assert!(reg.contains(4));
    assert!(reg.contains(5));
}

#[test]
fn written_bytes_come_back_in_order() {
    let mut reg: SessionRegistry<Echo> = SessionRegistry::new();
    let id = reg.create(Echo::new()).unwrap();
    write_session(&mut reg, id, b"abc").unwrap();
    write_session(&mut reg, id, b"def").unwrap();
    assert_eq!(read_session(&mut reg, id).unwrap(), b"abcdef".to_vec());
}

#[test]
fn read_takes_at_most_one_chunk() {
    let mut reg: SessionRegistry<Echo> = SessionRegistry::new();
    let id = reg.create(Echo::new()).unwrap();
    let data: Vec<u8> = (0..10000u32).map(|i| (i % 251) as u8).collect();
    write_session(&mut reg, id, &data).unwrap();
    let first = read_session(&mut reg, id).unwrap();
    assert_eq!(first.len(), 8192);
    assert_eq!(first, data[..8192].to_vec());
    let second = read_session(&mut reg, id).unwrap();
    assert_eq!(second, data[8192..].to_vec());
    assert_eq!(read_session(&mut reg, id).unwrap(), Vec::<u8>::new());
}

#[test]
fn read_without_pending_output_is_empty() {
    let mut reg: SessionRegistry<Echo> = SessionRegistry::new();
    let id = reg.create(Echo::new()).unwrap();
    assert_eq!(read_session(&mut reg, id), Ok(Vec::new()));
    assert_eq!(read_result(1, read_buffer(), ReadOutcome::WouldBlock), Ok(Vec::new()));
    assert_eq!(read_result(7, vec![1, 2, 3], ReadOutcome::Data(0)), Ok(Vec::new()));
}

#[test]
fn read_result_keeps_what_was_read() {
    assert_eq!(read_result(7, vec![1, 2, 3, 0, 0], ReadOutcome::Data(3)), Ok(vec![1, 2, 3]));
    assert_eq!(read_result(7, vec![1, 2, 3], ReadOutcome::Data(3)), Ok(vec![1, 2, 3]));
    assert_eq!(read_result(7, vec![1, 2, 3], ReadOutcome::Data(9)), Ok(vec![1, 2, 3]));
    let e = read_result(7, vec![1, 2, 3], ReadOutcome::Failed("Input/output error".to_string()))
        .unwrap_err();
    assert_eq!(e.kind, ErrorKind::Io);
    assert_eq!(e.detail, "Failed to read from PTY 7: Input/output error");
}

#[test]
fn read_buffer_is_one_zeroed_chunk() {
    let buffer = read_buffer();
    assert_eq!(READ_CHUNK, 8192);
    assert_eq!(buffer.len(), 8192);
    assert!(buffer.iter().all(|b| *b == 0));
}

#[test]
fn write_failures_are_io_errors() {
    assert_eq!(write_result(3, WriteOutcome::Done), Ok(()));
    let e = write_result(3, WriteOutcome::Failed(WriteStage::Write, "Broken pipe".to_string()))
        .unwrap_err();
    assert_eq!(e.kind, ErrorKind::Io);
    assert_eq!(e.detail, "Failed to write to PTY 3: Broken pipe");
    let e = write_result(3, WriteOutcome::Failed(WriteStage::Flush, "Broken pipe".to_string()))
        .unwrap_err();
    assert_eq!(e.kind, ErrorKind::Io);
    assert_eq!(e.detail, "Failed to flush PTY 3: Broken pipe");
}

#[test]
fn unknown_sessions_are_not_found() {
    let mut reg: SessionRegistry<u8> = SessionRegistry::new();
    for id in [0u32, 1, 7, u32::MAX] {
        assert_not_found(reg.handle_mut(id).unwrap_err(), id);
        assert_not_found(reg.resize(id, 100, 40).unwrap_err(), id);
        assert_not_found(reg.geometry(id).unwrap_err(), id);
        assert_not_found(reg.close(id).unwrap_err(), id);
        assert!(!reg.contains(id));
    }
    assert_eq!(reg.create(1), Ok(1));
    assert_not_found(reg.close(2).unwrap_err(), 2);
}

#[test]
fn closed_sessions_are_not_found() {
    let mut reg: SessionRegistry<u8> = SessionRegistry::new();
    let id = reg.create(9).unwrap();
    assert_eq!(reg.close(id), Ok(9));
    assert_not_found(reg.close(id).unwrap_err(), id);
    assert_not_found(reg.handle_mut(id).unwrap_err(), id);
    assert_not_found(reg.resize(id, 1, 1).unwrap_err(), id);
    assert_not_found(reg.geometry(id).unwrap_err(), id);
    reg.create(9).unwrap();
    assert_not_found(reg.close(id).unwrap_err(), id);
}

#[test]
fn not_found_names_the_session() {
    assert_eq!(not_found(7).detail, "PTY 7 not found");
    assert_eq!(not_found(0).detail, "PTY 0 not found");
    assert_eq!(not_found(10).detail, "PTY 10 not found");
    assert_eq!(not_found(4294967295).detail, "PTY 4294967295 not found");
    assert_eq!(not_found(7).kind, ErrorKind::NotFound);
}

#[test]
fn sessions_start_at_80_by_24_and_can_be_resized() {
    assert_eq!(initial_geometry(), Geometry { rows: 24, cols: 80 });
    let mut reg: SessionRegistry<u8> = SessionRegistry::new();
    let a = reg.create(1).unwrap();
    let b = reg.create(2).unwrap();
    assert_eq!(reg.geometry(a), Ok(Geometry { rows: 24, cols: 80 }));
    assert_eq!(reg.resize(a, 120, 40), Ok(()));
    assert_eq!(reg.geometry(a), Ok(Geometry { rows: 40, cols: 120 }));
    assert_eq!(reg.geometry(b), Ok(Geometry { rows: 24, cols: 80 }));
    assert_eq!(reg.close(a), Ok(1));
}

#[test]
fn handle_changes_stay_in_the_registry() {
    let mut reg: SessionRegistry<u8> = SessionRegistry::new();
    let a = reg.create(1).unwrap();
    let b = reg.create(2).unwrap();
    *reg.handle_mut(a).unwrap() = 11;
    assert_eq!(*reg.handle_mut(b).unwrap(), 2);
    assert_eq!(reg.close(a), Ok(11));
    assert_eq!(reg.close(b), Ok(2));
}

#[test]
fn resize_failure_is_an_io_error() {
    assert_eq!(resize_result(12, Ok(())), Ok(()));
    let e = resize_result(12, Err("Bad file descriptor".to_string())).unwrap_err();
    assert_eq!(e.kind, ErrorKind::Io);
    assert_eq!(e.detail, "Failed to resize PTY 12: Bad file descriptor");
}

#[test]
fn launch_failures_are_spawn_errors() {
    let cases = [
        (SpawnStage::OpenPty, "Failed to open PTY: denied"),
        (SpawnStage::SpawnShell, "Failed to spawn shell: denied"),
        (SpawnStage::CloneReader, "Failed to clone reader: denied"),
        (SpawnStage::TakeWriter, "Failed to get writer: denied"),
    ];
    for (stage, text) in cases {
        let e = spawn_failure(stage, "denied");
        assert_eq!(e.kind, ErrorKind::Spawn);
        assert_eq!(e.detail, text);
    }
}

#[test]
fn default_shell_by_platform() {
    assert_eq!(default_shell(true, None), "cmd.exe");
    assert_eq!(default_shell(true, Some("/bin/zsh".to_string())), "cmd.exe");
    assert_eq!(default_shell(false, Some("/bin/zsh".to_string())), "/bin/zsh");
    assert_eq!(default_shell(false, Some(String::new())), "");
    assert_eq!(default_shell(false, None), "/bin/bash");
}

/// A stand-in for a shell that has exited: every write fails.
struct Gone;

#[test]
fn failed_write_names_the_session_and_keeps_it() {
    let mut reg: SessionRegistry<Gone> = SessionRegistry::new();
    let first = reg.create(Gone).unwrap();
    let second = reg.create(Gone).unwrap();
    assert!(reg.handle_mut(second).is_ok());
    let outcome = WriteOutcome::Failed(WriteStage::Write, "Input/output error".to_string());
    let e = write_result(second, outcome).unwrap_err();
    assert_eq!(e.kind, ErrorKind::Io);
    assert_eq!(e.detail, "Failed to write to PTY 2: Input/output error");
    assert!(e.detail.contains(&second.to_string()));
    assert!(reg.contains(second));
    assert!(reg.contains(first));
    assert_eq!(reg.len(), 2);
    let e = read_result(4294967295, Vec::new(), ReadOutcome::Failed("gone".to_string()))
        .unwrap_err();
    assert_eq!(e.detail, "Failed to read from PTY 4294967295: gone");
    let e = resize_result(0, Err("gone".to_string())).unwrap_err();
    assert_eq!(e.detail, "Failed to resize PTY 0: gone");
}
