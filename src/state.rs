use vstd::prelude::*;

verus! {

/// The lifecycle of a session as the connection reports it. Only the
/// connection moves between these; the pump and the handlers observe them.
#[derive(Clone, Copy, Debug, PartialEq, Eq, Structural)]
pub enum SessionState {
    Idle,
    Connecting,
    Connected,
    Closing,
    /// Terminal; carries the close code that ended the session.
    Closed(u64),
}

impl SessionState {
    pub open spec fn spec_is_closed(self) -> bool {
        self is Closed
    }

    pub open spec fn spec_is_connected(self) -> bool {
        self is Connected
    }

    pub fn is_closed(&self) -> (r: bool)
        ensures
            r == self.spec_is_closed(),
    {
        match self {
            SessionState::Closed(_) => true,
            _ => false,
        }
    }

    pub fn is_connected(&self) -> (r: bool)
        ensures
            r == self.spec_is_connected(),
    {
        match self {
            SessionState::Connected => true,
            _ => false,
        }
    }
}

} // verus!
