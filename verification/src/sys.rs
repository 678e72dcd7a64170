//! Trusted boundary to the operating system.  Each function here wraps one
//! call of the `nix` crate; Verus believes the stated contract and does not
//! read the body.  Everything the library proves about socket handling
//! rests on these contracts and on nothing else.

use vstd::prelude::*;

verus! {

/// Size in bytes of the scratch buffer of one read step.
pub const READ_CHUNK: usize = 1024;

/// Outcome of one read from a non-blocking descriptor.
pub enum ReadEvent {
    /// Bytes the OS handed over; an empty vector means orderly end-of-stream.
    Data(Vec<u8>),
    /// The call was interrupted by a signal; the read may be retried.
    Interrupted,
    /// The descriptor has nothing more to give right now.
    WouldBlock,
    /// Any other error; fatal for the connection.
    Failed,
}

/// Outcome of one write to a non-blocking descriptor.
pub enum WriteEvent {
    /// Number of bytes the OS took, at most the length offered.
    Wrote(usize),
    /// The call was interrupted by a signal; the write may be retried.
    Interrupted,
    /// The descriptor cannot take more right now.
    WouldBlock,
    /// Any other error; fatal for the connection.
    Failed,
}

/// Which change `sys_epoll_ctl` asks of the registration table.
pub enum CtlOp {
    Add,
    Modify,
    Delete,
}

/// Relies on `nix::unistd::read`: at most `READ_CHUNK` bytes are read into
/// a scratch buffer of that size and handed back; a count of zero means
/// orderly end-of-stream.  Which bytes arrive depends on the peer, so
/// nothing is promised of the contents.
#[verifier::external_body]
pub(crate) fn sys_read_chunk(fd: i32) -> (r: ReadEvent)
    ensures
        r matches ReadEvent::Data(v) ==> v@.len() <= READ_CHUNK,
{
    let mut buf = [0u8; 1024];
    match nix::unistd::read(fd, &mut buf) {
        Ok(n) => ReadEvent::Data(buf[..n].to_vec()),
        Err(nix::errno::Errno::EINTR) => ReadEvent::Interrupted,
        Err(nix::errno::Errno::EAGAIN) => ReadEvent::WouldBlock,
        Err(_) => ReadEvent::Failed,
    }
}

/// Relies on `nix::unistd::write`: at most `buf.len()` bytes are written
/// and that count is returned.
#[verifier::external_body]
pub(crate) fn sys_write_once(fd: i32, buf: &[u8]) -> (r: WriteEvent)
    ensures
        r matches WriteEvent::Wrote(n) ==> n <= buf@.len(),
{
    match nix::unistd::write(fd, buf) {
        Ok(n) => WriteEvent::Wrote(n),
        Err(nix::errno::Errno::EINTR) => WriteEvent::Interrupted,
        Err(nix::errno::Errno::EAGAIN) => WriteEvent::WouldBlock,
        Err(_) => WriteEvent::Failed,
    }
}

/// Relies on `nix::sys::socket::shutdown` with `Shutdown::Both`: closes
/// both halves of the socket; reports only whether the OS accepted the
/// call.
#[verifier::external_body]
pub(crate) fn sys_shutdown(fd: i32) -> (r: bool)
{
    nix::sys::socket::shutdown(fd, nix::sys::socket::Shutdown::Both).is_ok()
}

/// Relies on `nix::sys::socket::accept4` with the close-on-exec and
/// non-blocking flags set atomically: on success the descriptor of the
/// accepted connection, which POSIX documents as non-negative.
#[verifier::external_body]
pub(crate) fn sys_accept(listen_fd: i32) -> (r: Result<i32, ()>)
    ensures
        r matches Ok(fd) ==> fd >= 0,
{
    let flags = nix::sys::socket::SockFlag::SOCK_CLOEXEC | nix::sys::socket::SockFlag::SOCK_NONBLOCK;
    match nix::sys::socket::accept4(listen_fd, flags) {
        Ok(fd) => Ok(fd),
        Err(_) => Err(()),
    }
}

/// Relies on `nix::sys::socket::setsockopt` with `sockopt::TcpNoDelay`:
/// switches Nagle's algorithm off; reports only whether the OS accepted
/// the call.
#[verifier::external_body]
pub(crate) fn sys_set_nodelay(fd: i32) -> (r: bool)
{
    nix::sys::socket::setsockopt(fd, nix::sys::socket::sockopt::TcpNoDelay, &true).is_ok()
}

/// Relies on `nix::sys::epoll::epoll_create1` with the close-on-exec flag:
/// on success a non-negative descriptor of a fresh epoll instance.
#[verifier::external_body]
pub(crate) fn sys_epoll_create() -> (r: Result<i32, ()>)
    ensures
        r matches Ok(fd) ==> fd >= 0,
{
    match nix::sys::epoll::epoll_create1(nix::sys::epoll::EpollCreateFlags::EPOLL_CLOEXEC) {
        Ok(fd) => Ok(fd),
        Err(_) => Err(()),
    }
}

/// Relies on `nix::sys::epoll::epoll_ctl`: adds, rearms or removes
/// interest in `fd` on the epoll instance `epfd`, with `data` delivered
/// back verbatim on readiness; reports only whether the OS accepted the
/// call.
#[verifier::external_body]
pub(crate) fn sys_epoll_ctl(epfd: i32, op: CtlOp, fd: i32, bits: u32, data: u64) -> (r: bool)
{
    let ep_flags = nix::sys::epoll::EpollFlags::from_bits_truncate(bits as i32);
    let mut ev = nix::sys::epoll::EpollEvent::new(ep_flags, data);
    let ep_op = match op {
        CtlOp::Add => nix::sys::epoll::EpollOp::EpollCtlAdd,
        CtlOp::Modify => nix::sys::epoll::EpollOp::EpollCtlMod,
        CtlOp::Delete => nix::sys::epoll::EpollOp::EpollCtlDel,
    };
    nix::sys::epoll::epoll_ctl(epfd, ep_op, fd, &mut ev).is_ok()
}

/// Relies on `nix::sys::epoll::epoll_wait`: blocks up to `timeout_ms`
/// milliseconds (forever when negative) and hands back, for each ready
/// descriptor, the registered data word and the readiness bits.  The
/// wait buffer holds 64 entries, so at most 64 pairs come back; which
/// descriptors wake is up to the OS, so nothing more is promised.
#[verifier::external_body]
pub(crate) fn sys_epoll_wait(epfd: i32, timeout_ms: i32) -> (r: Vec<(u64, u32)>)
    ensures
        r@.len() <= 64,
{
    let mut evs = [nix::sys::epoll::EpollEvent::empty(); 64];
    let mut out = Vec::new();
    if let Ok(n) = nix::sys::epoll::epoll_wait(epfd, &mut evs, timeout_ms as isize) {
        for e in &evs[..n] {
            out.push((e.data(), e.events().bits() as u32));
        }
    }
    out
}

/// Relies on `nix::time::clock_gettime` with the monotonic clock: the
/// second count of a clock that does not go backwards.  The value depends
/// on the machine's uptime, so nothing is promised of it.
#[verifier::external_body]
pub(crate) fn sys_monotonic_secs() -> (r: u64)
{
    match nix::time::clock_gettime(nix::time::ClockId::CLOCK_MONOTONIC) {
        Ok(ts) => ts.tv_sec() as u64,
        Err(_) => 0,
    }
}

} // verus!
