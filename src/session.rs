use vstd::prelude::*;
use crate::handler::{Mode, PostConnectHandler};
use crate::state::SessionState;

verus! {

/// How far the driving sequence of a session has come.
#[derive(Clone, Copy, Debug, PartialEq, Eq, Structural)]
pub enum SessionStage {
    /// The pump runs with the pre-connect handler.
    Handshake,
    /// The session is up: the one request stream is to be opened.
    Requesting,
    /// The pump runs with the post-connect handler.
    Exchanging,
    /// Nothing more happens in this session.
    Ended,
}

/// What follows the handshake run.
#[derive(Clone, Copy, Debug, PartialEq, Eq, Structural)]
pub enum HandshakeOutcome {
    /// Open the request stream and send the request on it.
    OpenRequest,
    /// The connection closed before it was up: the session ends in `state`.
    End { state: SessionState },
}

/// The driving sequence of one session: handshake, one request, one
/// exchange, and the final state. There is no retry and no reconnect.
pub struct Session {
    pub mode: Mode,
    pub stage: SessionStage,
}

/// The protocol label a raw-mode session negotiates.
pub open spec fn spec_raw_alpn() -> Seq<char> {
    seq!['h', 't', 't', 'p', '/', '0', '.', '9']
}

/// The request line a raw-mode session writes on its stream.
pub open spec fn spec_raw_request_line() -> Seq<char> {
    seq!['G', 'E', 'T', ' ', '/', '1', '0', '\r', '\n']
}

pub fn raw_alpn() -> (r: &'static str)
    ensures
        r@ == spec_raw_alpn(),
{
    let r = "http/0.9";
    proof {
        reveal_strlit("http/0.9");
        assert(r@ =~= spec_raw_alpn());
    }
    r
}

pub fn raw_request_line() -> (r: &'static str)
    ensures
        r@ == spec_raw_request_line(),
{
    let r = "GET /10\r\n";
    proof {
        reveal_strlit("GET /10\r\n");
        assert(r@ =~= spec_raw_request_line());
    }
    r
}

impl Session {
    /// A session in `mode`, about to run the pump with the pre-connect handler.
    pub fn new(mode: Mode) -> (r: Session)
        ensures
            r.mode == mode,
            r.stage is Handshake,
    {
        Session { mode, stage: SessionStage::Handshake }
    }

    /// The handshake run ended with the connection in `state`.
    pub fn handshake_ended(&mut self, state: SessionState) -> (r: HandshakeOutcome)
        requires
            old(self).stage is Handshake,
        ensures
            final(self).mode == old(self).mode,
            state.spec_is_closed() ==> r == (HandshakeOutcome::End { state })
                && final(self).stage is Ended,
            !state.spec_is_closed() ==> r is OpenRequest && final(self).stage is Requesting,
    {
        if state.is_closed() {
            self.stage = SessionStage::Ended;
            HandshakeOutcome::End { state }
        } else {
            self.stage = SessionStage::Requesting;
            HandshakeOutcome::OpenRequest
        }
    }

    /// The request went out on `stream_id`: the handler for the exchange,
    /// which waits on that stream alone.
    pub fn request_opened(&mut self, stream_id: u64) -> (h: PostConnectHandler)
        requires
            old(self).stage is Requesting,
        ensures
            final(self).mode == old(self).mode,
            final(self).stage is Exchanging,
            h.mode == old(self).mode,
            h.interest@ == set![stream_id],
    {
        self.stage = SessionStage::Exchanging;
        PostConnectHandler::new(self.mode, stream_id)
    }

    /// The exchange run ended with the connection in `state`, which is the
    /// session's result.
    pub fn exchange_ended(&mut self, state: SessionState) -> (r: SessionState)
        requires
            old(self).stage is Exchanging,
        ensures
            r == state,
            final(self).mode == old(self).mode,
            final(self).stage is Ended,
    {
        self.stage = SessionStage::Ended;
        state
    }
}

} // verus!
