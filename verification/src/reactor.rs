//! The reactor: owns the OS readiness facility and the registration table
//! mapping each descriptor to its logical token, waits for readiness and
//! delivers each event to exactly one of the handler's two callbacks.
//! It runs single-threaded; every socket operation and state transition
//! happens on the thread that drives it.

use vstd::prelude::*;
use vstd::hash_map::HashMapWithView;

use crate::flags::EVENT_ERR;
use crate::flags::EVENT_ET;
use crate::flags::EVENT_HUP;
use crate::flags::EVENT_IN;
use crate::flags::EVENT_OUT;
use crate::flags::EventFlags;
use crate::sys;
use crate::sys::CtlOp;

verus! {

broadcast use vstd::std_specs::hash::group_hash_axioms;

/// Interest set a connection is armed with: read, write, hangup and
/// error, edge-triggered.
pub const READ_INTEREST: u32 = EVENT_HUP | EVENT_ERR | EVENT_IN | EVENT_OUT | EVENT_ET;

/// Interest set of the listening socket: level-triggered readability, so
/// a pending connection keeps waking the loop until it is accepted.
pub const LISTEN_INTEREST: u32 = EVENT_IN;

/// Interest set of a tick source: edge-triggered readability, so each
/// expiration wakes the loop once without the counter being drained.
pub const TIMER_INTEREST: u32 = EVENT_IN | EVENT_ET;

/// Semantic origin of a readiness event.  Tokens never alias across
/// categories: each registered descriptor has exactly one.
#[derive(Debug, PartialEq, Eq, Structural, Copy, Clone)]
pub enum Token {
    /// New-connection readiness on the accepting socket.
    Listen(i32),
    /// A control-channel descriptor with new application-level work.
    Notify(i32),
    /// An idle-sweep tick.
    Timer(i32),
}

/// The two callbacks of the orchestrator sitting on top of the reactor:
/// `ready` fires for `Listen` tokens, `notify` for `Notify` and `Timer`
/// tokens.  The invariant `inv` is whatever well-formedness the handler
/// carries through every callback.
pub trait Handler: Sized {
    spec fn inv(&self) -> bool;

    fn ready(&mut self, event_loop: &mut EventLoop, token: Token, revents: EventFlags)
        requires
            old(self).inv(),
        ensures
            final(self).inv(),
    ;

    fn notify(&mut self, event_loop: &mut EventLoop, token: Token, revents: EventFlags)
        requires
            old(self).inv(),
        ensures
            final(self).inv(),
    ;
}

/// The reactor state: the epoll instance and the descriptor-to-token
/// registration table.
pub struct EventLoop {
    pub epfd: i32,
    pub table: HashMapWithView<i32, Token>,
    pub running: bool,
}

impl EventLoop {
    /// Creates the readiness facility and registers the listening socket
    /// under its `Listen` token.  Fails only if the OS refuses one of the
    /// two setup calls; setup-time errors are unrecoverable by design, so
    /// nothing is retried.
    pub fn new(listen_fd: i32) -> (r: Result<EventLoop, ()>)
        ensures
            r matches Ok(el) ==> el.epfd >= 0 && el.running
                && el.table@ == Map::<i32, Token>::empty().insert(
                listen_fd,
                Token::Listen(listen_fd),
            ),
    {
        match sys::sys_epoll_create() {
            Ok(epfd) => {
                if sys::sys_epoll_ctl(epfd, CtlOp::Add, listen_fd, LISTEN_INTEREST,
                    #[verifier::truncate] (listen_fd as u64)) {
                    let mut table: HashMapWithView<i32, Token> = HashMapWithView::new();
                    table.insert(listen_fd, Token::Listen(listen_fd));
                    Ok(EventLoop { epfd, table, running: true })
                } else {
                    Err(())
                }
            },
            Err(()) => Err(()),
        }
    }

    /// (Re)arms `fd` with the given interest set under its `Notify`
    /// token, adding or modifying the kernel entry as needed.
    pub fn reregister(&mut self, fd: i32, interest: EventFlags)
        ensures
            final(self).epfd == old(self).epfd,
            final(self).running == old(self).running,
            final(self).table@ == old(self).table@.insert(fd, Token::Notify(fd)),
    {
        let op = if self.table.contains_key(&fd) {
            CtlOp::Modify
        } else {
            CtlOp::Add
        };
        sys::sys_epoll_ctl(self.epfd, op, fd, interest.bits, #[verifier::truncate] (fd as u64));
        self.table.insert(fd, Token::Notify(fd));
    }

    /// Registers an idle-sweep tick source under its `Timer` token.
    pub fn register_timer(&mut self, timer_fd: i32)
        ensures
            final(self).epfd == old(self).epfd,
            final(self).running == old(self).running,
            final(self).table@ == old(self).table@.insert(timer_fd, Token::Timer(timer_fd)),
    {
        sys::sys_epoll_ctl(self.epfd, CtlOp::Add, timer_fd, TIMER_INTEREST,
            #[verifier::truncate] (timer_fd as u64));
        self.table.insert(timer_fd, Token::Timer(timer_fd));
    }

    /// Removes `fd` from the kernel facility and from the table.
    pub fn deregister(&mut self, fd: i32)
        ensures
            final(self).epfd == old(self).epfd,
            final(self).running == old(self).running,
            final(self).table@ == old(self).table@.remove(fd),
    {
        sys::sys_epoll_ctl(self.epfd, CtlOp::Delete, fd, 0, 0);
        self.table.remove(&fd);
        proof {
            if !old(self).table@.contains_key(fd) {
                assert(old(self).table@.remove(fd) =~= old(self).table@);
            }
        }
    }

    pub fn is_running(&self) -> (r: bool)
        ensures
            r == self.running,
    {
        self.running
    }

    /// Asks the driving loop to stop after the current round.
    pub fn stop(&mut self)
        ensures
            final(self).epfd == old(self).epfd,
            final(self).table@ == old(self).table@,
            !final(self).running,
    {
        self.running = false;
    }

    /// One round of the loop: waits up to `timeout_ms` milliseconds for
    /// readiness, classifies each delivered event by its registered token
    /// and invokes exactly one of the two handler callbacks — `ready` for
    /// `Listen` tokens, `notify` for the rest.  Events of descriptors no
    /// longer in the table are dropped.  The endless `run` of the server
    /// is this round repeated by the process glue while `is_running`.
    pub fn run_once<H: Handler>(&mut self, handler: &mut H, timeout_ms: i32)
        requires
            old(handler).inv(),
        ensures
            final(handler).inv(),
    {
        let events = sys::sys_epoll_wait(self.epfd, timeout_ms);
        let mut i: usize = 0;
        while i < events.len()
            invariant
                handler.inv(),
            decreases events@.len() - i,
        {
            let data = events[i].0;
            let bits = events[i].1;
            let fd = #[verifier::truncate] (data as i32);
            let revents = EventFlags::from_bits(bits);
            let token = match self.table.get(&fd) {
                Some(t) => Some(*t),
                None => None,
            };
            match token {
                Some(t) => match t {
                    Token::Listen(_) => handler.ready(self, t, revents),
                    Token::Notify(_) => handler.notify(self, t, revents),
                    Token::Timer(_) => handler.notify(self, t, revents),
                },
                None => {},
            }
            i = i + 1;
        }
    }
}

} // verus!
