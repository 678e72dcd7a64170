use miniftp::connection::Connection;
use miniftp::connection::State;
use miniftp::flags::EventFlags;
use miniftp::flags::EVENT_IN;
use miniftp::flags::EVENT_OUT;

fn readable() -> EventFlags {
    EventFlags::from_bits(EVENT_IN)
}

/// A read cycle that sees one full scratch buffer (1024 bytes) and then a
/// shorter read of 200 bytes leaves 1224 bytes accumulated and the state
/// `Finished`.
#[test]
fn read_cycle_full_chunk_then_short() {
    let (rd, wr) = nix::unistd::pipe().unwrap();
    let payload = vec![7u8; 1224];
    assert_eq!(nix::unistd::write(wr, &payload).unwrap(), 1224);
    nix::unistd::close(wr).unwrap();

    let mut conn = Connection::new(rd);
    let state = conn.dispatch(readable());
    assert_eq!(state, State::Finished);
    let msg = conn.get_msg();
    assert_eq!(msg.len(), 1224);
    assert_eq!(msg, payload);
    nix::unistd::close(rd).unwrap();
}

/// A read returning 0 bytes (orderly end-of-stream) sets `Finished` and
/// raises no error.
#[test]
fn read_of_zero_bytes_finishes() {
    let (rd, wr) = nix::unistd::pipe().unwrap();
    nix::unistd::close(wr).unwrap();

    let mut conn = Connection::new(rd);
    let state = conn.dispatch(readable());
    assert_eq!(state, State::Finished);
    assert!(conn.connected());
    assert!(conn.get_msg().is_empty());
    nix::unistd::close(rd).unwrap();
}

/// An error other than interrupted/would-block during read closes the
/// connection at once.
#[test]
fn fatal_read_error_closes() {
    let mut conn = Connection::new(-1);
    let state = conn.dispatch(readable());
    assert_eq!(state, State::Closed);
    assert!(!conn.connected());
    assert!(conn.get_msg().is_empty());
}

/// `get_msg` drains: the whole accumulated buffer comes back once, and
/// the next call finds an empty buffer.
#[test]
fn get_msg_drains_not_peeks() {
    let (rd, wr) = nix::unistd::pipe().unwrap();
    assert_eq!(nix::unistd::write(wr, b"hello, worker").unwrap(), 13);
    nix::unistd::close(wr).unwrap();

    let mut conn = Connection::new(rd);
    assert_eq!(conn.dispatch(readable()), State::Finished);
    let first = conn.get_msg();
    assert_eq!(first, b"hello, worker".to_vec());
    let second = conn.get_msg();
    assert!(second.is_empty());
    nix::unistd::close(rd).unwrap();
}

/// The write cycle drains queued bytes to the descriptor.
#[test]
fn write_cycle_drains_queued_bytes() {
    let (rd, wr) = nix::unistd::pipe().unwrap();
    let mut conn = Connection::new(wr);
    conn.write_buf(b"reply 200");
    conn.dispatch(EventFlags::from_bits(EVENT_OUT));

    let mut buf = [0u8; 64];
    let n = nix::unistd::read(rd, &mut buf).unwrap();
    assert_eq!(&buf[..n], b"reply 200");
    nix::unistd::close(rd).unwrap();
    nix::unistd::close(wr).unwrap();
}

/// `send` is an immediate write, not a queued one.
#[test]
fn send_writes_immediately() {
    let (rd, wr) = nix::unistd::pipe().unwrap();
    let mut conn = Connection::new(wr);
    conn.send(b"220 ready");
    assert_eq!(conn.get_state(), State::Ready);

    let mut buf = [0u8; 64];
    let n = nix::unistd::read(rd, &mut buf).unwrap();
    assert_eq!(&buf[..n], b"220 ready");
    nix::unistd::close(rd).unwrap();
    nix::unistd::close(wr).unwrap();
}

/// A fatal error on `send` closes the connection.
#[test]
fn send_on_dead_descriptor_closes() {
    let mut conn = Connection::new(-1);
    conn.send(b"x");
    assert_eq!(conn.get_state(), State::Closed);
}

#[test]
fn new_connection_starts_ready_and_empty() {
    let mut conn = Connection::new(5);
    assert_eq!(conn.get_fd(), 5);
    assert_eq!(conn.get_state(), State::Ready);
    assert!(conn.connected());
    assert!(conn.get_msg().is_empty());
}

/// Accepting on a dead descriptor reports failure instead of fabricating
/// a connection.
#[test]
fn accept_on_bad_descriptor_fails() {
    assert!(Connection::accept(-1).is_err());
}

/// A write cycle against a descriptor that takes only part of the queued
/// bytes sends a prefix and keeps exactly the unwritten remainder
/// queued; would-block is a pause, not an error.
#[test]
fn write_cycle_keeps_unwritten_remainder() {
    let (rd, wr) = nix::unistd::pipe().unwrap();
    nix::fcntl::fcntl(wr, nix::fcntl::FcntlArg::F_SETFL(nix::fcntl::OFlag::O_NONBLOCK)).unwrap();
    nix::fcntl::fcntl(rd, nix::fcntl::FcntlArg::F_SETFL(nix::fcntl::OFlag::O_NONBLOCK)).unwrap();

    let mut conn = Connection::new(wr);
    let payload = vec![9u8; 200_000];
    conn.write_buf(&payload);
    conn.dispatch(EventFlags::from_bits(EVENT_OUT));
    let queued = conn.write_buf.len();
    assert!(queued > 0, "a pipe cannot take 200000 bytes at once");
    assert_eq!(conn.get_state(), State::Ready);

    // What the pipe took plus the queued remainder makes up the payload.
    let mut taken = 0usize;
    let mut buf = [0u8; 4096];
    loop {
        match nix::unistd::read(rd, &mut buf) {
            Ok(0) => break,
            Ok(n) => taken += n,
            Err(_) => break,
        }
    }
    assert_eq!(taken + queued, payload.len());

    // The next write-readiness dispatch resumes with the remainder.
    conn.dispatch(EventFlags::from_bits(EVENT_OUT));
    assert!(conn.write_buf.len() < queued);

    nix::unistd::close(rd).unwrap();
    nix::unistd::close(wr).unwrap();
}
