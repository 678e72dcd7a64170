use miniftp::connection::Connection;
use miniftp::connection::State;
use miniftp::flags::EventFlags;
use miniftp::flags::EVENT_IN;
use miniftp::reactor::EventLoop;
use miniftp::reactor::Token;
use miniftp::server::Config;
use miniftp::server::FtpServer;

use nix::sys::socket::AddressFamily;
use nix::sys::socket::SockAddr;
use nix::sys::socket::SockFlag;
use nix::sys::socket::SockType;
use nix::sys::socket::UnixAddr;

fn test_config(max_clients: usize) -> Config {
    Config {
        max_clients,
        idle_time_out: 60,
        num_workers: 0,
        server_addr: String::from("127.0.0.1"),
        server_port: 0,
    }
}

/// A listening stream socket in the abstract namespace, so the accept
/// path runs against a real OS socket without touching the network.
fn listening_socket(tag: &[u8]) -> (i32, SockAddr) {
    let lfd = nix::sys::socket::socket(
        AddressFamily::Unix,
        SockType::Stream,
        SockFlag::empty(),
        None,
    )
    .unwrap();
    let mut name = format!("miniftp-test-{}-", nix::unistd::getpid()).into_bytes();
    name.extend_from_slice(tag);
    let addr = SockAddr::Unix(UnixAddr::new_abstract(&name).unwrap());
    nix::sys::socket::bind(lfd, &addr).unwrap();
    nix::sys::socket::listen(lfd, 16).unwrap();
    (lfd, addr)
}

fn client_socket(addr: &SockAddr) -> i32 {
    let cfd = nix::sys::socket::socket(
        AddressFamily::Unix,
        SockType::Stream,
        SockFlag::empty(),
        None,
    )
    .unwrap();
    nix::sys::socket::connect(cfd, addr).unwrap();
    cfd
}

fn readable() -> EventFlags {
    EventFlags::from_bits(EVENT_IN)
}

/// End-to-end: client connects, the server accepts under the ceiling and
/// registers the connection, the client sends a 50-byte command, dispatch
/// drains it into the inbound buffer, the session handle travels over the
/// queue, and a worker drains the 50 bytes and echoes them back.
#[test]
fn end_to_end_request_round_trip() {
    let (lfd, addr) = listening_socket(b"round-trip");
    let mut el = EventLoop::new(lfd).unwrap();
    let mut server = FtpServer::new(test_config(4), &mut el);

    let cfd = client_socket(&addr);
    let conn = Connection::accept(lfd).unwrap();
    let fd = conn.get_fd();
    assert!(server.enroll(&mut el, conn, 100));
    assert_eq!(server.sessions.len(), 1);
    assert!(el.table.contains_key(&fd));

    let command = [b'C'; 50];
    assert_eq!(nix::unistd::write(cfd, &command).unwrap(), 50);

    // The reactor wakes with a readable flag; the accepted socket is
    // non-blocking, so retry until loopback delivery is visible.
    let mut state = State::Ready;
    for _ in 0..100 {
        state = server.dispatch_session(fd, readable()).unwrap();
        if state == State::Finished {
            break;
        }
    }
    assert_eq!(state, State::Finished);

    assert!(server.on_notify(&mut el, Token::Notify(fd), readable()));
    assert_eq!(server.take_task(), Some(fd));
    assert_eq!(server.take_task(), None);

    // The worker drains the buffer and hands the 50 bytes to the
    // protocol collaborator.
    let msg = server.drain_session(fd).unwrap();
    assert_eq!(msg.len(), 50);
    assert_eq!(msg, command.to_vec());
    // The buffer was drained, not peeked.
    assert!(server.drain_session(fd).unwrap().is_empty());

    nix::unistd::close(cfd).unwrap();
    nix::unistd::close(lfd).unwrap();
}

/// Accepting at the ceiling shuts the newcomer down without inserting it
/// into the session map or the reactor table.
#[test]
fn admission_at_ceiling_rejects() {
    let (lfd, addr) = listening_socket(b"ceiling");
    let mut el = EventLoop::new(lfd).unwrap();
    let mut server = FtpServer::new(test_config(1), &mut el);

    let cfd1 = client_socket(&addr);
    let conn1 = Connection::accept(lfd).unwrap();
    assert!(server.enroll(&mut el, conn1, 100));
    assert_eq!(server.sessions.len(), 1);

    // sessions.len() == config.max_clients: the next connection must be
    // rejected.
    let cfd2 = client_socket(&addr);
    let conn2 = Connection::accept(lfd).unwrap();
    let fd2 = conn2.get_fd();
    assert!(!server.enroll(&mut el, conn2, 101));
    assert_eq!(server.sessions.len(), 1);
    assert!(!el.table.contains_key(&fd2));

    // The rejected client observes the shutdown as end-of-stream.
    let mut buf = [0u8; 8];
    assert_eq!(nix::unistd::read(cfd2, &mut buf).unwrap(), 0);

    nix::unistd::close(cfd1).unwrap();
    nix::unistd::close(cfd2).unwrap();
    nix::unistd::close(lfd).unwrap();
}

/// The same rejection through the reactor callback: with the ceiling at
/// zero, `ready` on the listening token admits nobody and the session map
/// stays empty.
#[test]
fn ready_with_zero_ceiling_admits_nobody() {
    let (lfd, addr) = listening_socket(b"zero-ceiling");
    let mut el = EventLoop::new(lfd).unwrap();
    let mut server = FtpServer::new(test_config(0), &mut el);

    let cfd = client_socket(&addr);
    assert!(!server.on_ready(&mut el, Token::Listen(lfd), readable()));
    assert_eq!(server.sessions.len(), 0);

    nix::unistd::close(cfd).unwrap();
    nix::unistd::close(lfd).unwrap();
}

/// One round of the reactor loop classifies the listening socket's
/// readiness and drives the accept path.
#[test]
fn run_once_accepts_through_handler() {
    let (lfd, addr) = listening_socket(b"run-once");
    let mut el = EventLoop::new(lfd).unwrap();
    let mut server = FtpServer::new(test_config(4), &mut el);

    let cfd = client_socket(&addr);
    let mut rounds = 0;
    while server.sessions.len() == 0 && rounds < 100 {
        el.run_once(&mut server, 100);
        rounds += 1;
    }
    assert_eq!(server.sessions.len(), 1);

    nix::unistd::close(cfd).unwrap();
    nix::unistd::close(lfd).unwrap();
}

/// A notify token of an unknown descriptor enqueues nothing.
#[test]
fn notify_unknown_session_pushes_nothing() {
    let (lfd, _addr) = listening_socket(b"notify-unknown");
    let mut el = EventLoop::new(lfd).unwrap();
    let mut server = FtpServer::new(test_config(4), &mut el);

    assert!(!server.on_notify(&mut el, Token::Notify(1234), readable()));
    assert_eq!(server.take_task(), None);
    nix::unistd::close(lfd).unwrap();
}

/// The idle sweep evicts exactly the sessions idle beyond the threshold
/// and tears them down like a connection-fatal close.
#[test]
fn idle_sweep_evicts_stale_sessions() {
    let (lfd, addr) = listening_socket(b"sweep");
    let mut el = EventLoop::new(lfd).unwrap();
    let mut server = FtpServer::new(test_config(4), &mut el);

    let cfd1 = client_socket(&addr);
    let conn1 = Connection::accept(lfd).unwrap();
    let fd1 = conn1.get_fd();
    assert!(server.enroll(&mut el, conn1, 100));

    let cfd2 = client_socket(&addr);
    let conn2 = Connection::accept(lfd).unwrap();
    let fd2 = conn2.get_fd();
    assert!(server.enroll(&mut el, conn2, 140));
    server.set_data_channel(fd1, 999);

    // At 161 the first session is 61s idle (threshold 60), the second
    // only 21s.
    server.sweep_idle(&mut el, 161);
    assert!(!server.sessions.contains_key(&fd1));
    assert!(server.sessions.contains_key(&fd2));
    assert!(!el.table.contains_key(&fd1));
    assert!(el.table.contains_key(&fd2));
    assert_eq!(server.get_data_channel(fd1), None);

    // The evicted client observes the shutdown as end-of-stream.
    let mut buf = [0u8; 8];
    assert_eq!(nix::unistd::read(cfd1, &mut buf).unwrap(), 0);

    nix::unistd::close(cfd1).unwrap();
    nix::unistd::close(cfd2).unwrap();
    nix::unistd::close(lfd).unwrap();
}

/// The data-channel correlation map follows a session's life cycle.
#[test]
fn data_channel_map_set_get_teardown() {
    let (lfd, _addr) = listening_socket(b"data-map");
    let mut el = EventLoop::new(lfd).unwrap();
    let mut server = FtpServer::new(test_config(4), &mut el);

    server.set_data_channel(7, 8);
    assert_eq!(server.get_data_channel(7), Some(8));
    assert_eq!(server.get_data_channel(8), None);
    server.teardown(&mut el, 7);
    assert_eq!(server.get_data_channel(7), None);
    nix::unistd::close(lfd).unwrap();
}

/// A worker's reply is queued on the session and drained to the client by
/// the write cycle on the next write-readiness dispatch.
#[test]
fn reply_queued_and_flushed_on_writable() {
    let (lfd, addr) = listening_socket(b"reply-flush");
    let mut el = EventLoop::new(lfd).unwrap();
    let mut server = FtpServer::new(test_config(4), &mut el);

    let cfd = client_socket(&addr);
    let conn = Connection::accept(lfd).unwrap();
    let fd = conn.get_fd();
    assert!(server.enroll(&mut el, conn, 100));

    assert!(server.queue_reply(fd, b"250 OK"));
    assert!(!server.queue_reply(-5, b"nobody"));
    server.dispatch_session(fd, EventFlags::from_bits(miniftp::flags::EVENT_OUT));

    let mut buf = [0u8; 16];
    let n = nix::unistd::read(cfd, &mut buf).unwrap();
    assert_eq!(&buf[..n], b"250 OK");

    nix::unistd::close(cfd).unwrap();
    nix::unistd::close(lfd).unwrap();
}

/// A refused registration of the listening socket aborts reactor setup.
#[test]
fn event_loop_setup_on_bad_descriptor_fails() {
    assert!(EventLoop::new(-1).is_err());
}
