//! Readiness and interest masks, numerically identical to the host's
//! epoll event mask so that a mask read from the OS can be carried as a
//! plain integer.

use vstd::prelude::*;

verus! {

/// "data ready" bit.
pub const EVENT_IN: u32 = 0x001;

/// "priority data ready" bit.
pub const EVENT_PRI: u32 = 0x002;

/// "can write" bit.
pub const EVENT_OUT: u32 = 0x004;

/// "error" bit.
pub const EVENT_ERR: u32 = 0x008;

/// "peer hung up" bit.
pub const EVENT_HUP: u32 = 0x010;

/// "edge triggered" bit.
pub const EVENT_ET: u32 = 0x8000_0000;

/// A set of readiness (or interest) bits delivered by the reactor.
#[derive(Clone, Copy, PartialEq, Eq, Structural, Debug)]
pub struct EventFlags {
    pub bits: u32,
}

impl EventFlags {
    /// "data ready" or "priority data ready" is set.
    pub open spec fn readable(self) -> bool {
        self.bits & (EVENT_IN | EVENT_PRI) != 0
    }

    /// "can write" is set.
    pub open spec fn writeable(self) -> bool {
        self.bits & EVENT_OUT != 0
    }

    /// "data ready" alone: the bit consulted by the close condition.
    pub open spec fn has_data(self) -> bool {
        self.bits & EVENT_IN != 0
    }

    /// Peer hung up and no inbound data remains to be drained.
    pub open spec fn close(self) -> bool {
        self.bits & EVENT_HUP != 0 && !(self.bits & EVENT_IN != 0)
    }

    /// "error" is set.
    pub open spec fn error(self) -> bool {
        self.bits & EVENT_ERR != 0
    }

    /// Peer hung up, whether or not data remains.
    pub open spec fn hup(self) -> bool {
        self.bits & EVENT_HUP != 0
    }

    pub fn from_bits(bits: u32) -> (r: EventFlags)
        ensures
            r.bits == bits,
    {
        EventFlags { bits }
    }

    pub fn is_readable(&self) -> (r: bool)
        ensures
            r == self.readable(),
    {
        self.bits & (EVENT_IN | EVENT_PRI) != 0
    }

    pub fn is_writeable(&self) -> (r: bool)
        ensures
            r == self.writeable(),
    {
        self.bits & EVENT_OUT != 0
    }

    pub fn is_close(&self) -> (r: bool)
        ensures
            r == self.close(),
    {
        self.bits & EVENT_HUP != 0 && !(self.bits & EVENT_IN != 0)
    }

    pub fn is_error(&self) -> (r: bool)
        ensures
            r == self.error(),
    {
        self.bits & EVENT_ERR != 0
    }

    pub fn is_hup(&self) -> (r: bool)
        ensures
            r == self.hup(),
    {
        self.bits & EVENT_HUP != 0
    }
}

/// Law: for every mask, the close condition holds exactly when hangup is
/// set and "data ready" is not, while the hangup condition holds whenever
/// hangup is set, regardless of data.
pub proof fn lemma_close_iff_hup_without_data(f: EventFlags)
    ensures
        f.close() <==> (f.hup() && !f.has_data()),
        f.hup() <==> f.bits & EVENT_HUP != 0,
{
}

} // verus!
