//! One client connection: a socket descriptor, a small state machine and
//! the inbound/outbound byte buffers.  All state transitions go through
//! `dispatch`, called once per reactor wake for this descriptor.

use vstd::prelude::*;

use crate::flags::EventFlags;
use crate::reactor::EventLoop;
use crate::reactor::Token;
use crate::reactor::READ_INTEREST;
use crate::sys;
use crate::sys::ReadEvent;
use crate::sys::WriteEvent;
use crate::sys::READ_CHUNK;

verus! {

/// Ceiling on the inbound buffer: once a read cycle has accumulated this
/// much, it stops early to bound memory growth.
pub const MAX_READ_BUF: usize = 65536;

/// Ceiling on the iterations of one read or write cycle, so that a storm
/// of interrupted calls cannot spin in place forever; the next readiness
/// event resumes the work.
pub const CYCLE_BUDGET: usize = 4096;

/// Position of a connection in its read/write life cycle.
#[derive(Debug, PartialEq, Eq, Structural, Copy, Clone)]
pub enum State {
    Reading,
    Ready,
    Writing,
    Finished,
    Closed,
}

/// A connection that owns one socket descriptor for its lifetime.
#[derive(Debug)]
pub struct Connection {
    pub fd: i32,
    pub state: State,
    pub write_buf: Vec<u8>,
    pub read_buf: Vec<u8>,
}

impl Connection {
    pub fn new(fd: i32) -> (c: Connection)
        ensures
            c.fd == fd,
            c.state == State::Ready,
            c.read_buf@ == Seq::<u8>::empty(),
            c.write_buf@ == Seq::<u8>::empty(),
    {
        Connection { fd, state: State::Ready, write_buf: Vec::new(), read_buf: Vec::new() }
    }

    /// Accepts one pending connection on `listen_fd`, non-blocking and
    /// close-on-exec, with Nagle's algorithm disabled.  Whether a
    /// connection is pending is the OS's to decide, so only the success
    /// case is pinned down; on failure nothing was created.
    pub fn accept(listen_fd: i32) -> (r: Result<Connection, ()>)
        ensures
            r matches Ok(c) ==> c.fd >= 0 && c.state == State::Ready
                && c.read_buf@ == Seq::<u8>::empty() && c.write_buf@ == Seq::<u8>::empty(),
    {
        match sys::sys_accept(listen_fd) {
            Ok(fd) => {
                sys::sys_set_nodelay(fd);
                Ok(Connection::new(fd))
            },
            Err(()) => Err(()),
        }
    }

    pub fn connected(&self) -> (r: bool)
        ensures
            r == (self.state != State::Closed),
    {
        self.state != State::Closed
    }

    pub fn get_fd(&self) -> (r: i32)
        ensures
            r == self.fd,
    {
        self.fd
    }

    pub fn get_state(&self) -> (r: State)
        ensures
            r == self.state,
    {
        self.state
    }

    /// Drains the inbound buffer: the whole accumulated sequence is
    /// returned and the buffer is left empty, so a second call yields
    /// nothing.
    pub fn get_msg(&mut self) -> (msg: Vec<u8>)
        ensures
            msg@ == old(self).read_buf@,
            final(self).read_buf@ == Seq::<u8>::empty(),
            final(self).fd == old(self).fd,
            final(self).state == old(self).state,
            final(self).write_buf == old(self).write_buf,
    {
        let mut buf: Vec<u8> = Vec::new();
        core::mem::swap(&mut buf, &mut self.read_buf);
        buf
    }

    /// Applies one read outcome to the state machine.  Returns whether the
    /// read cycle should issue another read:
    /// - zero bytes mean orderly end-of-stream, so the state becomes
    ///   `Finished` with no error raised;
    /// - a full scratch buffer may leave more data in the kernel, so the
    ///   cycle goes on, unless the inbound buffer has reached its ceiling;
    /// - a shorter read means the socket is drained for now: `Finished`;
    /// - an interrupted call is retried; a would-block outcome hands
    ///   control back to the reactor until the next readiness event;
    /// - any other error is fatal: `Closed`, and the cycle stops at once.
    pub fn read_step(&mut self, ev: ReadEvent) -> (go_on: bool)
        ensures
            final(self).fd == old(self).fd,
            final(self).write_buf == old(self).write_buf,
            match ev {
                ReadEvent::Data(v) => {
                    &&& (v@.len() == 0 ==> final(self).state == State::Finished
                        && final(self).read_buf == old(self).read_buf && !go_on)
                    &&& (v@.len() > 0 ==> final(self).read_buf@ == old(self).read_buf@ + v@)
                    &&& (0 < v@.len() < READ_CHUNK ==> final(self).state == State::Finished
                        && !go_on)
                    &&& (v@.len() == READ_CHUNK ==> final(self).state == State::Reading
                        && (go_on <==> final(self).read_buf@.len() < MAX_READ_BUF))
                },
                ReadEvent::Interrupted => *final(self) == *old(self) && go_on,
                ReadEvent::WouldBlock => *final(self) == *old(self) && !go_on,
                ReadEvent::Failed => final(self).state == State::Closed
                    && final(self).read_buf == old(self).read_buf && !go_on,
            },
    {
        match ev {
            ReadEvent::Data(mut v) => {
                if v.len() == 0 {
                    self.state = State::Finished;
                    false
                } else {
                    let full = v.len() == READ_CHUNK;
                    self.read_buf.append(&mut v);
                    if full {
                        self.state = State::Reading;
                        self.read_buf.len() < MAX_READ_BUF
                    } else {
                        self.state = State::Finished;
                        false
                    }
                }
            },
            ReadEvent::Interrupted => true,
            ReadEvent::WouldBlock => false,
            ReadEvent::Failed => {
                self.state = State::Closed;
                false
            },
        }
    }

    /// The read cycle: reads scratch-buffer-sized chunks until the socket
    /// is drained, the stream ends, the inbound ceiling is hit, or an
    /// error closes the connection.  Bytes already accumulated are kept:
    /// the old inbound buffer is a prefix of the new one.
    pub fn read(&mut self)
        ensures
            final(self).fd == old(self).fd,
            final(self).write_buf == old(self).write_buf,
            old(self).read_buf@.is_prefix_of(final(self).read_buf@),
            final(self).state == old(self).state || final(self).state == State::Reading
                || final(self).state == State::Finished || final(self).state == State::Closed,
    {
        let mut go_on = true;
        let mut budget: usize = CYCLE_BUDGET;
        while budget > 0 && go_on && !(self.state == State::Finished || self.state == State::Closed)
            invariant
                self.fd == old(self).fd,
                self.write_buf == old(self).write_buf,
                old(self).read_buf@.is_prefix_of(self.read_buf@),
                self.state == old(self).state || self.state == State::Reading
                    || self.state == State::Finished || self.state == State::Closed,
            decreases budget,
        {
            budget = budget - 1;
            let ev = sys::sys_read_chunk(self.fd);
            go_on = self.read_step(ev);
        }
    }

    /// Applies one write outcome to the state machine.  Returns whether
    /// the write cycle should offer the remainder again:
    /// - `n` accepted bytes leave the buffer without its first `n` bytes
    ///   and the cycle goes on; zero accepted bytes stop it, so a cycle
    ///   never spins on a descriptor that takes nothing;
    /// - an interrupted call is retried; a would-block outcome leaves the
    ///   remainder queued for the next write-readiness event;
    /// - any other error is fatal: `Closed`, and the cycle stops at once.
    pub fn write_step(&mut self, ev: WriteEvent) -> (go_on: bool)
        ensures
            final(self).fd == old(self).fd,
            final(self).read_buf == old(self).read_buf,
            match ev {
                WriteEvent::Wrote(n) => {
                    &&& final(self).state == old(self).state
                    &&& (n == 0 ==> *final(self) == *old(self) && !go_on)
                    &&& (0 < n <= old(self).write_buf@.len() ==> final(self).write_buf@ == old(
                        self,
                    ).write_buf@.skip(n as int) && go_on)
                    &&& (n > old(self).write_buf@.len() ==> final(self).write_buf@
                        == Seq::<u8>::empty() && go_on)
                },
                WriteEvent::Interrupted => *final(self) == *old(self) && go_on,
                WriteEvent::WouldBlock => *final(self) == *old(self) && !go_on,
                WriteEvent::Failed => final(self).state == State::Closed
                    && final(self).write_buf == old(self).write_buf && !go_on,
            },
    {
        match ev {
            WriteEvent::Wrote(n) => {
                if n == 0 {
                    false
                } else if n >= self.write_buf.len() {
                    self.write_buf.clear();
                    proof {
                        if n <= old(self).write_buf@.len() {
                            assert(self.write_buf@ =~= old(self).write_buf@.skip(n as int));
                        }
                    }
                    true
                } else {
                    let rest = self.write_buf.split_off(n);
                    self.write_buf = rest;
                    proof {
                        assert(self.write_buf@ =~= old(self).write_buf@.skip(n as int));
                    }
                    true
                }
            },
            WriteEvent::Interrupted => true,
            WriteEvent::WouldBlock => false,
            WriteEvent::Failed => {
                self.state = State::Closed;
                false
            },
        }
    }

    /// The write cycle: drains the outbound buffer until the OS would
    /// block, the buffer is empty, or an error closes the connection.
    /// What remains is a suffix of what was queued.
    pub fn write(&mut self)
        ensures
            final(self).fd == old(self).fd,
            final(self).read_buf == old(self).read_buf,
            final(self).write_buf@.is_suffix_of(old(self).write_buf@),
            final(self).state == old(self).state || final(self).state == State::Closed,
    {
        let mut go_on = true;
        let mut budget: usize = CYCLE_BUDGET;
        while budget > 0 && go_on && self.write_buf.len() > 0
            invariant
                self.fd == old(self).fd,
                self.read_buf == old(self).read_buf,
                self.write_buf@.is_suffix_of(old(self).write_buf@),
                self.state == old(self).state || self.state == State::Closed,
            decreases budget,
        {
            budget = budget - 1;
            let ev = sys::sys_write_once(self.fd, self.write_buf.as_slice());
            go_on = self.write_step(ev);
            proof {
                let c = old(self).write_buf@;
                assert(self.write_buf@ =~= c.subrange(
                    c.len() - self.write_buf@.len(),
                    c.len() as int,
                ));
            }
        }
    }

    /// Queues bytes for a later write cycle.
    pub fn write_buf(&mut self, buf: &[u8])
        ensures
            final(self).fd == old(self).fd,
            final(self).state == old(self).state,
            final(self).read_buf == old(self).read_buf,
            final(self).write_buf@ == old(self).write_buf@ + buf@,
    {
        self.write_buf.extend_from_slice(buf);
    }

    /// One immediate write, mirroring the fire-and-forget send of the
    /// command channel: a short write is not retried; only a fatal error
    /// is recorded, by closing the connection.
    pub fn send(&mut self, buf: &[u8])
        ensures
            final(self).fd == old(self).fd,
            final(self).read_buf == old(self).read_buf,
            final(self).write_buf == old(self).write_buf,
            final(self).state == old(self).state || final(self).state == State::Closed,
    {
        match sys::sys_write_once(self.fd, buf) {
            WriteEvent::Failed => {
                self.state = State::Closed;
            },
            _ => {},
        }
    }

    /// Shuts both halves of the socket down; a refusal by the OS (for an
    /// already dead descriptor, say) is deliberately ignored, so closing
    /// twice is a no-op.
    pub fn shutdown(&self) {
        sys::sys_shutdown(self.fd);
    }

    /// Arms this connection's descriptor for edge-triggered read, write,
    /// hangup and error interest, and empties the inbound buffer for the
    /// next request.
    pub fn register_read(&mut self, event_loop: &mut EventLoop)
        ensures
            final(self).fd == old(self).fd,
            final(self).state == old(self).state,
            final(self).write_buf == old(self).write_buf,
            final(self).read_buf@ == Seq::<u8>::empty(),
            final(event_loop).epfd == old(event_loop).epfd,
            final(event_loop).running == old(event_loop).running,
            final(event_loop).table@ == old(event_loop).table@.insert(
                old(self).fd,
                Token::Notify(old(self).fd),
            ),
    {
        self.read_buf.clear();
        event_loop.reregister(self.fd, EventFlags::from_bits(READ_INTEREST));
    }

    /// Removes this connection from the reactor and shuts the socket
    /// down.
    pub fn deregister(&self, event_loop: &mut EventLoop)
        ensures
            final(event_loop).epfd == old(event_loop).epfd,
            final(event_loop).running == old(event_loop).running,
            final(event_loop).table@ == old(event_loop).table@.remove(self.fd),
    {
        event_loop.deregister(self.fd);
        self.shutdown();
    }

    /// The single state-transition entry point, invoked once per reactor
    /// wake for this descriptor.  Resets to `Ready`, runs the read cycle
    /// on read-readiness and the write cycle on write-readiness, and lets
    /// an error or close condition force `Closed`, which takes precedence
    /// over any buffered data.
    pub fn dispatch(&mut self, revents: EventFlags) -> (s: State)
        ensures
            s == final(self).state,
            final(self).fd == old(self).fd,
            old(self).read_buf@.is_prefix_of(final(self).read_buf@),
            revents.error() || revents.close() ==> final(self).state == State::Closed,
            !revents.readable() ==> final(self).read_buf == old(self).read_buf,
            !revents.writeable() ==> final(self).write_buf == old(self).write_buf,
            !revents.readable() && !revents.writeable() && !revents.error()
                && !revents.close() ==> final(self).state == State::Ready,
    {
        self.state = State::Ready;
        if revents.is_readable() {
            self.read();
        }
        if revents.is_writeable() {
            self.write();
        }
        if revents.is_error() {
            self.state = State::Closed;
        }
        if revents.is_close() {
            self.state = State::Closed;
        }
        self.state
    }
}

} // verus!
