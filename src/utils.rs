//! Small process-wide helpers: a set-once cell and the reading of a
//! liveness poll on a stream.

use vstd::prelude::*;

verus! {

/// A value set once during start-up and only read after that.
pub struct LateInit<T> {
    cell: Option<T>,
}

impl<T> LateInit<T> {
    /// The value, once set.
    pub closed spec fn value(&self) -> Option<T> {
        self.cell
    }

    pub fn new() -> (r: Self)
        ensures
            r.value() is None,
    {
        LateInit { cell: None }
    }

    /// Sets the value; a second set is a start-up bug and is ruled out.
    pub fn init(&mut self, value: T)
        requires
            old(self).value() is None,
        ensures
            final(self).value() == Some(value),
    {
        self.cell = Some(value);
    }

    pub fn initiated(&self) -> (r: bool)
        ensures
            r == self.value() is Some,
    {
        self.cell.is_some()
    }

    /// The value; reading before it was set is ruled out.
    pub fn get(&self) -> (r: &T)
        requires
            self.value() is Some,
        ensures
            *r == self.value()->0,
    {
        match &self.cell {
            Some(v) => v,
            None => vstd::pervasive::unreached(),
        }
    }
}

/// Linux's `POLLIN` event bit.
pub const POLLIN: i16 = 0x1;

/// What one non-blocking poll for input says of a stream's peer.
#[derive(Debug, Clone, Copy, PartialEq, Eq, Structural)]
pub enum PeerState {
    Open,
    Closed,
    Error,
}

pub open spec fn peer_state_spec(poll_result: i32, revents: i16) -> PeerState {
    if poll_result < 0 {
        PeerState::Error
    } else if revents & !POLLIN != 0 {
        PeerState::Closed
    } else {
        PeerState::Open
    }
}

/// Reads a poll for `POLLIN`: a failed poll is an error; any event besides
/// `POLLIN` (hang-up, error, invalid) means the peer is gone; pending input
/// or nothing at all means it is still there.
pub fn peer_state(poll_result: i32, revents: i16) -> (r: PeerState)
    ensures
        r == peer_state_spec(poll_result, revents),
{
    if poll_result < 0 {
        PeerState::Error
    } else if revents & !POLLIN != 0 {
        PeerState::Closed
    } else {
        PeerState::Open
    }
}

} // verus!
