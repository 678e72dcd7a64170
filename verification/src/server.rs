//! The orchestrator: accepts new connections under an admission ceiling,
//! keeps one session per live connection, routes sessions with inbound
//! work onto the bounded task queue, and evicts sessions idle beyond the
//! configured threshold.

use vstd::prelude::*;
use vstd::hash_map::HashMapWithView;

use crate::connection::Connection;
use crate::connection::State;
use crate::flags::EventFlags;
use crate::queue::BlockingQueue;
use crate::reactor::EventLoop;
use crate::reactor::Handler;
use crate::reactor::Token;
use crate::sys;
use crate::timer_list::TimerList;

verus! {

broadcast use vstd::std_specs::hash::group_hash_axioms;

/// Capacity of the reactor-to-workers task queue.
pub const TASK_QUEUE_CAP: usize = 64;

/// Idle threshold in seconds.
pub const DEFAULT_TIME_OUT: u64 = 60;

/// Immutable settings snapshot, read once at startup; parsing the
/// configuration file is the process glue's job.
pub struct Config {
    pub max_clients: usize,
    pub idle_time_out: u64,
    pub num_workers: usize,
    pub server_addr: String,
    pub server_port: u16,
}

/// One client session: the unit of work handed to workers.  The protocol
/// step that interprets its bytes is an external collaborator; the
/// session owns the control connection and its buffers.
pub struct Session {
    pub conn: Connection,
}

impl Session {
    pub fn new(conn: Connection) -> (s: Session)
        ensures
            s.conn == conn,
    {
        Session { conn }
    }
}

/// The server state: live sessions keyed by control-channel descriptor,
/// the control-to-data channel correlation, the idle tracker, and the
/// task queue towards the workers.
pub struct FtpServer {
    pub conn_list: TimerList,
    pub request_queue: BlockingQueue,
    pub sessions: HashMapWithView<i32, Session>,
    pub conn_map: HashMapWithView<i32, i32>,
    pub config: Config,
}

impl FtpServer {
    /// Well-formedness carried through every operation: the queue and the
    /// idle tracker are sound, and each session sits under its own
    /// connection's descriptor.
    pub open spec fn wf(&self) -> bool {
        &&& self.request_queue.wf()
        &&& self.conn_list.wf()
        &&& forall|fd: i32| #[trigger]
            self.sessions@.contains_key(fd) ==> self.sessions@[fd].conn.fd == fd
    }

    pub fn new(config: Config, event_loop: &mut EventLoop) -> (s: FtpServer)
        ensures
            s.wf(),
            s.sessions@ == Map::<i32, Session>::empty(),
            s.conn_map@ == Map::<i32, i32>::empty(),
            s.conn_list@ == Seq::<(i32, u64)>::empty(),
            s.conn_list.timeout == config.idle_time_out,
            s.request_queue@ == Seq::<i32>::empty(),
            s.request_queue.cap == TASK_QUEUE_CAP,
            s.config == config,
            *final(event_loop) == *old(event_loop),
    {
        let idle_time_out = config.idle_time_out;
        FtpServer {
            conn_list: TimerList::new(idle_time_out),
            request_queue: BlockingQueue::new(TASK_QUEUE_CAP),
            sessions: HashMapWithView::new(),
            conn_map: HashMapWithView::new(),
            config,
        }
    }

    /// Admission control: the accepted connection is registered for read
    /// interest and recorded as a session exactly while the live-session
    /// count is below the configured ceiling.  At the ceiling it is shut
    /// down at once — a deliberate rejection, not a queued retry — and
    /// neither the session map nor the reactor table changes.
    pub fn enroll(&mut self, event_loop: &mut EventLoop, conn: Connection, now: u64) -> (admitted:
        bool)
        requires
            old(self).wf(),
        ensures
            final(self).wf(),
            final(self).config == old(self).config,
            final(self).request_queue == old(self).request_queue,
            final(self).conn_map == old(self).conn_map,
            final(event_loop).epfd == old(event_loop).epfd,
            final(event_loop).running == old(event_loop).running,
            admitted == (old(self).sessions@.len() < old(self).config.max_clients),
            admitted ==> {
                &&& final(self).sessions@ == old(self).sessions@.insert(
                    conn.fd,
                    final(self).sessions@[conn.fd],
                )
                &&& final(self).sessions@.contains_key(conn.fd)
                &&& final(self).sessions@[conn.fd].conn.fd == conn.fd
                &&& final(self).sessions@[conn.fd].conn.state == conn.state
                &&& final(self).sessions@[conn.fd].conn.read_buf@ == Seq::<u8>::empty()
                &&& final(self).sessions@[conn.fd].conn.write_buf == conn.write_buf
                &&& final(event_loop).table@ == old(event_loop).table@.insert(
                    conn.fd,
                    Token::Notify(conn.fd),
                )
                &&& final(self).conn_list@.contains((conn.fd, now))
            },
            !admitted ==> {
                &&& final(self).sessions@ == old(self).sessions@
                &&& final(self).conn_list == old(self).conn_list
                &&& *final(event_loop) == *old(event_loop)
            },
    {
        let fd = conn.get_fd();
        if self.sessions.len() < self.config.max_clients {
            let mut conn = conn;
            conn.register_read(event_loop);
            self.conn_list.touch(fd, now);
            let s = Session::new(conn);
            self.sessions.insert(fd, s);
            true
        } else {
            conn.shutdown();
            false
        }
    }

    /// Handles new-connection readiness on the listening socket: accepts
    /// one connection and applies admission control.  Whether a
    /// connection is pending is the OS's to decide; whatever came back,
    /// at the ceiling nothing is admitted and nothing changes.
    pub fn on_ready(&mut self, event_loop: &mut EventLoop, token: Token, revents: EventFlags) -> (admitted:
        bool)
        requires
            old(self).wf(),
        ensures
            final(self).wf(),
            final(self).config == old(self).config,
            final(self).request_queue == old(self).request_queue,
            final(self).conn_map == old(self).conn_map,
            final(event_loop).epfd == old(event_loop).epfd,
            final(event_loop).running == old(event_loop).running,
            admitted ==> (token matches Token::Listen(_)) && old(self).sessions@.len() < old(
                self,
            ).config.max_clients,
            !admitted ==> final(self).sessions@ == old(self).sessions@ && final(self).conn_list
                == old(self).conn_list && *final(event_loop) == *old(event_loop),
            old(self).sessions@.len() >= old(self).config.max_clients ==> final(self).sessions@
                == old(self).sessions@ && *final(event_loop) == *old(event_loop),
    {
        match token {
            Token::Listen(listen_fd) => {
                match Connection::accept(listen_fd) {
                    Ok(conn) => {
                        let now = sys::sys_monotonic_secs();
                        self.enroll(event_loop, conn, now)
                    },
                    Err(()) => false,
                }
            },
            _ => false,
        }
    }

    /// Routes an existing session's readiness to the workers: its handle
    /// is appended to the bounded task queue — the sole hand-off point
    /// from the reactor thread — exactly when the session is known and a
    /// slot is free; with the queue full the handle is not enqueued and
    /// the caller's blocking shell decides when to retry.  A timer tick
    /// instead sweeps the idle tracker, evicting stale sessions.
    pub fn on_notify(&mut self, event_loop: &mut EventLoop, token: Token, revents: EventFlags) -> (pushed:
        bool)
        requires
            old(self).wf(),
        ensures
            final(self).wf(),
            final(self).config == old(self).config,
            match token {
                Token::Notify(fd) => {
                    &&& pushed == (old(self).sessions@.contains_key(fd)
                        && old(self).request_queue.can_push())
                    &&& (pushed ==> final(self).request_queue@ == old(self).request_queue@.push(
                        fd,
                    ))
                    &&& (!pushed ==> final(self).request_queue@ == old(self).request_queue@)
                    &&& final(self).request_queue.cap == old(self).request_queue.cap
                    &&& final(self).sessions@ == old(self).sessions@
                    &&& final(self).conn_map == old(self).conn_map
                    &&& final(self).conn_list == old(self).conn_list
                    &&& *final(event_loop) == *old(event_loop)
                },
                Token::Timer(_) => {
                    &&& !pushed
                    &&& final(self).request_queue == old(self).request_queue
                    &&& forall|fd: i32| #[trigger]
                        final(self).sessions@.contains_key(fd) ==> old(
                            self,
                        ).sessions@.contains_key(fd) && final(self).sessions@[fd] == old(
                            self,
                        ).sessions@[fd]
                },
                Token::Listen(_) => !pushed && *final(self) == *old(self) && *final(event_loop)
                    == *old(event_loop),
            },
    {
        match token {
            Token::Notify(fd) => {
                if self.sessions.contains_key(&fd) {
                    self.request_queue.push_back(fd)
                } else {
                    false
                }
            },
            Token::Timer(_) => {
                let now = sys::sys_monotonic_secs();
                self.sweep_idle(event_loop, now);
                false
            },
            Token::Listen(_) => false,
        }
    }

    /// Destroys the session of `fd`: deregistered from the reactor, its
    /// socket shut down, and every map entry keyed by `fd` purged.  The
    /// teardown is idempotent: on a descriptor already gone it only
    /// re-removes absent entries.
    pub fn teardown(&mut self, event_loop: &mut EventLoop, fd: i32)
        requires
            old(self).wf(),
        ensures
            final(self).wf(),
            final(self).config == old(self).config,
            final(self).request_queue == old(self).request_queue,
            final(self).sessions@ == old(self).sessions@.remove(fd),
            final(self).conn_map@ == old(self).conn_map@.remove(fd),
            !final(self).conn_list.spec_contains(fd),
            final(self).conn_list.timeout == old(self).conn_list.timeout,
            forall|e: (i32, u64)|
                e.0 != fd ==> (final(self).conn_list@.contains(e) <==> old(
                    self,
                ).conn_list@.contains(e)),
            final(event_loop).epfd == old(event_loop).epfd,
            final(event_loop).running == old(event_loop).running,
            final(event_loop).table@ == old(event_loop).table@.remove(fd),
    {
        match self.sessions.remove(&fd) {
            Some(s) => {
                s.conn.deregister(event_loop);
            },
            None => {
                event_loop.deregister(fd);
                proof {
                    assert(old(self).sessions@.remove(fd) =~= old(self).sessions@);
                }
            },
        }
        self.conn_map.remove(&fd);
        proof {
            if !old(self).conn_map@.contains_key(fd) {
                assert(old(self).conn_map@.remove(fd) =~= old(self).conn_map@);
            }
        }
        self.conn_list.remove(fd);
    }

    /// The idle sweep: every session idle beyond the threshold at `now`
    /// receives the same teardown as a connection-fatal close, and every
    /// session still within the threshold survives, with its idle-tracker
    /// entry kept.  No order among evicted connections is promised.
    pub fn sweep_idle(&mut self, event_loop: &mut EventLoop, now: u64)
        requires
            old(self).wf(),
        ensures
            final(self).wf(),
            final(self).config == old(self).config,
            final(self).request_queue == old(self).request_queue,
            forall|e: (i32, u64)| #[trigger]
                old(self).conn_list@.contains(e) && old(self).conn_list.expired_at(e.1, now)
                    ==> !final(self).sessions@.contains_key(e.0)
                    && !final(self).conn_map@.contains_key(e.0),
            forall|e: (i32, u64)| #[trigger]
                old(self).conn_list@.contains(e) && !old(self).conn_list.expired_at(e.1, now)
                    ==> final(self).conn_list@.contains(e) && (old(
                    self,
                ).sessions@.contains_key(e.0) ==> final(self).sessions@.contains_key(e.0)) && (
                old(self).conn_map@.contains_key(e.0) ==> final(self).conn_map@.contains_key(
                    e.0,
                )),
            forall|fd: i32| #[trigger]
                final(self).sessions@.contains_key(fd) ==> old(self).sessions@.contains_key(fd)
                    && final(self).sessions@[fd] == old(self).sessions@[fd],
            forall|fd: i32| #[trigger]
                final(self).conn_map@.contains_key(fd) ==> old(self).conn_map@.contains_key(fd)
                    && final(self).conn_map@[fd] == old(self).conn_map@[fd],
            final(event_loop).epfd == old(event_loop).epfd,
            final(event_loop).running == old(event_loop).running,
    {
        let evicted = self.conn_list.expired(now);
        let ghost pre = *old(self);
        let mut i: usize = 0;
        while i < evicted.len()
            invariant
                self.wf(),
                self.config == pre.config,
                self.request_queue == pre.request_queue,
                self.conn_list.timeout == pre.conn_list.timeout,
                event_loop.epfd == old(event_loop).epfd,
                event_loop.running == old(event_loop).running,
                forall|e: (i32, u64)| #[trigger]
                    pre.conn_list@.contains(e) ==> (evicted@.contains(e.0)
                        <==> pre.conn_list.expired_at(e.1, now)),
                forall|j: int|
                    0 <= j < i ==> !self.sessions@.contains_key(#[trigger] evicted@[j])
                        && !self.conn_map@.contains_key(evicted@[j]),
                forall|e: (i32, u64)| #[trigger]
                    pre.conn_list@.contains(e) && !pre.conn_list.expired_at(e.1, now)
                        ==> self.conn_list@.contains(e) && (pre.sessions@.contains_key(e.0)
                        ==> self.sessions@.contains_key(e.0)) && (pre.conn_map@.contains_key(
                        e.0,
                    ) ==> self.conn_map@.contains_key(e.0)),
                forall|fd: i32| #[trigger]
                    self.sessions@.contains_key(fd) ==> pre.sessions@.contains_key(fd)
                        && self.sessions@[fd] == pre.sessions@[fd],
                forall|fd: i32| #[trigger]
                    self.conn_map@.contains_key(fd) ==> pre.conn_map@.contains_key(fd)
                        && self.conn_map@[fd] == pre.conn_map@[fd],
            decreases evicted@.len() - i,
        {
            let fd = evicted[i];
            self.teardown(event_loop, fd);
            proof {
                assert forall|j: int| 0 <= j < i + 1 implies !self.sessions@.contains_key(
                    #[trigger] evicted@[j],
                ) && !self.conn_map@.contains_key(evicted@[j]) by {
                    if j < i {
                        assert(!self.sessions@.contains_key(evicted@[j]));
                    }
                }
                assert forall|e: (i32, u64)| #[trigger]
                    pre.conn_list@.contains(e) && !pre.conn_list.expired_at(e.1, now)
                    implies self.conn_list@.contains(e) && (pre.sessions@.contains_key(e.0)
                    ==> self.sessions@.contains_key(e.0)) && (pre.conn_map@.contains_key(e.0)
                    ==> self.conn_map@.contains_key(e.0)) by {
                    assert(!evicted@.contains(e.0));
                    assert(evicted@[i as int] == fd);
                    assert(e.0 != fd);
                }
            }
            i = i + 1;
        }
        proof {
            assert forall|e: (i32, u64)| #[trigger]
                pre.conn_list@.contains(e) && pre.conn_list.expired_at(e.1, now)
                implies !self.sessions@.contains_key(e.0) && !self.conn_map@.contains_key(
                e.0,
            ) by {
                assert(evicted@.contains(e.0));
                let j = choose|j: int| 0 <= j < evicted@.len() && evicted@[j] == e.0;
            }
        }
    }

    /// Pops the oldest queued session handle for a worker.
    pub fn take_task(&mut self) -> (r: Option<i32>)
        requires
            old(self).wf(),
        ensures
            final(self).wf(),
            final(self).config == old(self).config,
            final(self).sessions@ == old(self).sessions@,
            final(self).conn_map == old(self).conn_map,
            final(self).conn_list == old(self).conn_list,
            final(self).request_queue.cap == old(self).request_queue.cap,
            match r {
                Some(fd) => old(self).request_queue@.len() > 0 && fd == old(
                    self,
                ).request_queue@[0] && final(self).request_queue@ == old(
                    self,
                ).request_queue@.drop_first(),
                None => old(self).request_queue@.len() == 0 && final(self).request_queue@ == old(
                    self,
                ).request_queue@,
            },
    {
        self.request_queue.pop_front()
    }

    /// Runs one readiness dispatch for the session of `fd` on the reactor
    /// thread: ownership is taken out of the registry for the step and
    /// returned afterwards.  Returns the resulting connection state, or
    /// nothing for an unknown descriptor.
    pub fn dispatch_session(&mut self, fd: i32, revents: EventFlags) -> (r: Option<State>)
        requires
            old(self).wf(),
        ensures
            final(self).wf(),
            final(self).config == old(self).config,
            final(self).request_queue == old(self).request_queue,
            final(self).conn_map == old(self).conn_map,
            final(self).conn_list == old(self).conn_list,
            match r {
                Some(st) => {
                    &&& old(self).sessions@.contains_key(fd)
                    &&& final(self).sessions@ == old(self).sessions@.insert(
                        fd,
                        final(self).sessions@[fd],
                    )
                    &&& final(self).sessions@.contains_key(fd)
                    &&& st == final(self).sessions@[fd].conn.state
                    &&& old(self).sessions@[fd].conn.read_buf@.is_prefix_of(
                        final(self).sessions@[fd].conn.read_buf@,
                    )
                    &&& (revents.error() || revents.close() ==> st == State::Closed)
                },
                None => !old(self).sessions@.contains_key(fd) && final(self).sessions@ == old(
                    self,
                ).sessions@,
            },
    {
        match self.sessions.remove(&fd) {
            Some(mut s) => {
                let st = s.conn.dispatch(revents);
                self.sessions.insert(fd, s);
                proof {
                    assert(final(self).sessions@ =~= old(self).sessions@.insert(
                        fd,
                        final(self).sessions@[fd],
                    ));
                }
                Some(st)
            },
            None => None,
        }
    }

    /// Hands a worker the whole accumulated request of `fd`'s session and
    /// leaves its inbound buffer empty — a drain, not a peek.  Returns
    /// nothing for an unknown descriptor.
    pub fn drain_session(&mut self, fd: i32) -> (r: Option<Vec<u8>>)
        requires
            old(self).wf(),
        ensures
            final(self).wf(),
            final(self).config == old(self).config,
            final(self).request_queue == old(self).request_queue,
            final(self).conn_map == old(self).conn_map,
            final(self).conn_list == old(self).conn_list,
            match r {
                Some(msg) => {
                    &&& old(self).sessions@.contains_key(fd)
                    &&& final(self).sessions@ == old(self).sessions@.insert(
                        fd,
                        final(self).sessions@[fd],
                    )
                    &&& final(self).sessions@.contains_key(fd)
                    &&& msg@ == old(self).sessions@[fd].conn.read_buf@
                    &&& final(self).sessions@[fd].conn.read_buf@ == Seq::<u8>::empty()
                    &&& final(self).sessions@[fd].conn.state == old(
                        self,
                    ).sessions@[fd].conn.state
                    &&& final(self).sessions@[fd].conn.fd == old(self).sessions@[fd].conn.fd
                    &&& final(self).sessions@[fd].conn.write_buf == old(
                        self,
                    ).sessions@[fd].conn.write_buf
                },
                None => !old(self).sessions@.contains_key(fd) && final(self).sessions@ == old(
                    self,
                ).sessions@,
            },
    {
        match self.sessions.remove(&fd) {
            Some(mut s) => {
                let msg = s.conn.get_msg();
                self.sessions.insert(fd, s);
                proof {
                    assert(final(self).sessions@ =~= old(self).sessions@.insert(
                        fd,
                        final(self).sessions@[fd],
                    ));
                }
                Some(msg)
            },
            None => None,
        }
    }

    /// Queues a worker's reply for `fd`'s session, to be drained by the
    /// write cycle on the next write-readiness dispatch.  Workers never
    /// touch the socket themselves; this queued buffer is how their
    /// results reach the reactor thread.  Reports whether the session is
    /// known.
    pub fn queue_reply(&mut self, fd: i32, reply: &[u8]) -> (r: bool)
        requires
            old(self).wf(),
        ensures
            final(self).wf(),
            final(self).config == old(self).config,
            final(self).request_queue == old(self).request_queue,
            final(self).conn_map == old(self).conn_map,
            final(self).conn_list == old(self).conn_list,
            r == old(self).sessions@.contains_key(fd),
            r ==> {
                &&& final(self).sessions@ == old(self).sessions@.insert(
                    fd,
                    final(self).sessions@[fd],
                )
                &&& final(self).sessions@.contains_key(fd)
                &&& final(self).sessions@[fd].conn.write_buf@ == old(
                    self,
                ).sessions@[fd].conn.write_buf@ + reply@
                &&& final(self).sessions@[fd].conn.read_buf == old(
                    self,
                ).sessions@[fd].conn.read_buf
                &&& final(self).sessions@[fd].conn.state == old(self).sessions@[fd].conn.state
            },
            !r ==> final(self).sessions@ == old(self).sessions@,
    {
        match self.sessions.remove(&fd) {
            Some(mut s) => {
                s.conn.write_buf(reply);
                self.sessions.insert(fd, s);
                proof {
                    assert(final(self).sessions@ =~= old(self).sessions@.insert(
                        fd,
                        final(self).sessions@[fd],
                    ));
                }
                true
            },
            None => false,
        }
    }

    /// Records the data-channel descriptor of a control connection, so
    /// the protocol layer can correlate control commands with their data
    /// transfer.
    pub fn set_data_channel(&mut self, cmd_fd: i32, data_fd: i32)
        requires
            old(self).wf(),
        ensures
            final(self).wf(),
            final(self).config == old(self).config,
            final(self).request_queue == old(self).request_queue,
            final(self).sessions@ == old(self).sessions@,
            final(self).conn_list == old(self).conn_list,
            final(self).conn_map@ == old(self).conn_map@.insert(cmd_fd, data_fd),
    {
        self.conn_map.insert(cmd_fd, data_fd);
    }

    /// Looks the data channel of a control connection up.
    pub fn get_data_channel(&self, cmd_fd: i32) -> (r: Option<i32>)
        ensures
            match r {
                Some(data_fd) => self.conn_map@.contains_key(cmd_fd) && data_fd
                    == self.conn_map@[cmd_fd],
                None => !self.conn_map@.contains_key(cmd_fd),
            },
    {
        match self.conn_map.get(&cmd_fd) {
            Some(d) => Some(*d),
            None => None,
        }
    }
}

/// Law: a session is never destroyed twice.  Tearing the same descriptor
/// down a second time leaves every map exactly as the first teardown left
/// it — closing an already-closed connection is a no-op, stated over the
/// map view that `teardown` is specified against.
pub proof fn lemma_teardown_idempotent(sessions: Map<i32, Session>, fd: i32)
    ensures
        sessions.remove(fd).remove(fd) == sessions.remove(fd),
{
    assert(sessions.remove(fd).remove(fd) =~= sessions.remove(fd));
}

impl Handler for FtpServer {
    open spec fn inv(&self) -> bool {
        self.wf()
    }

    fn ready(&mut self, event_loop: &mut EventLoop, token: Token, revents: EventFlags) {
        self.on_ready(event_loop, token, revents);
    }

    /// A refused push (queue full) drops this wake's hand-off, which
    /// under edge-triggered readiness would stall the session.  The
    /// driving loop must therefore drain `take_task` to empty between
    /// waits: one wait delivers at most as many `Notify` events as the
    /// wait buffer holds, and `TASK_QUEUE_CAP` covers that, so a queue
    /// drained each round never refuses within a round.
    fn notify(&mut self, event_loop: &mut EventLoop, token: Token, revents: EventFlags) {
        self.on_notify(event_loop, token, revents);
    }
}

} // verus!
