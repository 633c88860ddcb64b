use vstd::prelude::*;
use std::collections::HashSet;
use crate::state::SessionState;

verus! {

broadcast use vstd::std_specs::hash::group_hash_axioms;

/// Application error code of the close issued once the response is complete.
pub const CLOSE_CODE: u64 = 0;

/// Size of the buffer one read of response data fills.
pub const READ_BUFFER_SIZE: usize = 4000;

/// The reason text of the close issued once the response is complete.
pub open spec fn spec_close_reason() -> Seq<char> {
    seq!['k', 't', 'h', 'x', 'b', 'y', 'e', '!']
}

pub fn close_reason() -> (r: &'static str)
    ensures
        r@ == spec_close_reason(),
{
    let r = "kthxbye!";
    proof {
        reveal_strlit("kthxbye!");
        assert(r@ =~= spec_close_reason());
    }
    r
}

/// The wire mode of a session, chosen once at startup.
#[derive(Clone, Copy, Debug, PartialEq, Eq, Structural)]
pub enum Mode {
    /// Structured requests and responses with headers.
    Framed,
    /// One request line written on a plain bidirectional stream.
    Raw,
}

/// An occurrence the connection reports to the handler.
#[derive(Clone, Copy, Debug, PartialEq, Eq, Structural)]
pub enum StreamEvent {
    /// The headers of a stream's response can be fetched.
    HeaderReady { stream_id: u64 },
    /// Data can be read from a stream.
    DataReadable { stream_id: u64 },
    /// A stream can take more data to send.
    SendStreamWritable { stream_id: u64 },
    /// Anything else.
    Other,
}

/// The streams the session waits on. It only grows.
pub struct InterestSet {
    streams: HashSet<u64>,
}

impl View for InterestSet {
    type V = Set<u64>;

    closed spec fn view(&self) -> Set<u64> {
        self.streams@
    }
}

impl InterestSet {
    pub fn new() -> (r: InterestSet)
        ensures
            r@ == Set::<u64>::empty(),
    {
        InterestSet { streams: HashSet::new() }
    }

    pub fn insert(&mut self, stream_id: u64)
        ensures
            final(self)@ == old(self)@.insert(stream_id),
    {
        self.streams.insert(stream_id);
    }

    pub fn contains(&self, stream_id: u64) -> (r: bool)
        ensures
            r == self@.contains(stream_id),
    {
        self.streams.contains(&stream_id)
    }
}

/// The handler before the session is up: it only watches the state.
pub struct PreConnectHandler {}

impl PreConnectHandler {
    /// Keep going until the connection first reports `Connected`.
    pub fn handle(&self, state: &SessionState) -> (keep_going: bool)
        ensures
            keep_going == !state.spec_is_connected(),
    {
        !state.is_connected()
    }
}

/// What to do about one event.
#[derive(Clone, Copy, Debug, PartialEq, Eq, Structural)]
pub enum EventAction {
    /// Fetch the stream's headers and print them.
    ReadHeaders { stream_id: u64 },
    /// Read the stream's data into a buffer of `READ_BUFFER_SIZE` bytes and
    /// print it, then report whether that read saw the end of the stream.
    ReadData { stream_id: u64 },
    /// The event names a stream the session does not wait on: warn and stop
    /// the phase, without closing anything.
    RejectStream { stream_id: u64 },
    /// Print that the stream can take more data, and go on.
    NoteWritable { stream_id: u64 },
    /// Print the event as unexpected, and go on.
    NoteUnexpected,
    /// Nothing to do.
    Skip,
}

/// The handler once the request is out: it acts on the events of the streams
/// it waits on.
pub struct PostConnectHandler {
    pub mode: Mode,
    pub interest: InterestSet,
}

/// The decision on `ev` for a session in `mode` waiting on `interest`.
pub open spec fn spec_event_action(mode: Mode, interest: Set<u64>, ev: StreamEvent) -> EventAction {
    match ev {
        StreamEvent::HeaderReady { stream_id } => match mode {
            Mode::Framed => if !interest.contains(stream_id) {
                EventAction::RejectStream { stream_id }
            } else {
                EventAction::ReadHeaders { stream_id }
            },
            Mode::Raw => EventAction::NoteUnexpected,
        },
        StreamEvent::DataReadable { stream_id } => if !interest.contains(stream_id) {
            EventAction::RejectStream { stream_id }
        } else {
            EventAction::ReadData { stream_id }
        },
        StreamEvent::SendStreamWritable { stream_id } => match mode {
            Mode::Framed => EventAction::Skip,
            Mode::Raw => EventAction::NoteWritable { stream_id },
        },
        StreamEvent::Other => match mode {
            Mode::Framed => EventAction::Skip,
            Mode::Raw => EventAction::NoteUnexpected,
        },
    }
}

impl PostConnectHandler {
    /// A handler for `mode` that waits on `stream_id` alone.
    pub fn new(mode: Mode, stream_id: u64) -> (r: PostConnectHandler)
        ensures
            r.mode == mode,
            r.interest@ == set![stream_id],
    {
        let mut interest = InterestSet::new();
        interest.insert(stream_id);
        proof {
            assert(interest@ =~= set![stream_id]);
        }
        PostConnectHandler { mode, interest }
    }

    /// The decision on one event.
    pub fn on_event(&self, ev: &StreamEvent) -> (r: EventAction)
        ensures
            r == spec_event_action(self.mode, self.interest@, *ev),
    {
        match *ev {
            StreamEvent::HeaderReady { stream_id } => match self.mode {
                Mode::Framed => if !self.interest.contains(stream_id) {
                    EventAction::RejectStream { stream_id }
                } else {
                    EventAction::ReadHeaders { stream_id }
                },
                Mode::Raw => EventAction::NoteUnexpected,
            },
            StreamEvent::DataReadable { stream_id } => {
                if !self.interest.contains(stream_id) {
                    EventAction::RejectStream { stream_id }
                } else {
                    EventAction::ReadData { stream_id }
                }
            },
            StreamEvent::SendStreamWritable { stream_id } => match self.mode {
                Mode::Framed => EventAction::Skip,
                Mode::Raw => EventAction::NoteWritable { stream_id },
            },
            StreamEvent::Other => match self.mode {
                Mode::Framed => EventAction::Skip,
                Mode::Raw => EventAction::NoteUnexpected,
            },
        }
    }
}

/// What the caller does next during one pass of the post-connect handler
/// over the events the connection reported.
#[derive(Clone, Copy, Debug, PartialEq, Eq, Structural)]
pub enum PassStep {
    /// Perform this action for the current event, then step again; after a
    /// `ReadData`, hand in whether the read reached the end of the stream.
    Act(EventAction),
    /// The event names a stream the session does not wait on: warn; the
    /// handler stops, and nothing is closed.
    Reject { stream_id: u64 },
    /// The response is complete: print the end marker for the stream, close
    /// the session with `code` and `close_reason()`; the handler stops.
    Finish { stream_id: u64, code: u64 },
    /// All events were handled: the handler keeps going.
    Done,
}

/// One pass of the post-connect handler over the events reported in one
/// iteration.
pub struct EventPass {
    pub events: Vec<StreamEvent>,
    /// The next event to look at.
    pub pos: usize,
    /// The stream read by the last step, whose outcome is still to come.
    pub reading: Option<u64>,
    /// The pass has ended; it takes no further step.
    pub over: bool,
}

impl EventPass {
    pub open spec fn wf(self) -> bool {
        self.pos <= self.events@.len()
    }

    /// A pass over `events`, from the first.
    pub fn new(events: Vec<StreamEvent>) -> (r: EventPass)
        ensures
            r.wf(),
            r.events == events,
            r.pos == 0,
            r.reading is None,
            !r.over,
    {
        EventPass { events, pos: 0, reading: None, over: false }
    }

    /// The next step of the pass for `handler`. `fin` tells whether the read
    /// the last step asked for reached the end of the stream; it is not looked
    /// at otherwise.
    pub fn step(&mut self, handler: &PostConnectHandler, fin: bool) -> (r: PassStep)
        requires
            old(self).wf(),
            !old(self).over,
        ensures
            final(self).wf(),
            final(self).events == old(self).events,
            // a read that reached the end finishes the pass with one close
            old(self).reading is Some && fin ==> r == (PassStep::Finish {
                stream_id: old(self).reading->0,
                code: CLOSE_CODE,
            }) && final(self).over,
            // otherwise the pass looks at the next event, if any
            !(old(self).reading is Some && fin) ==> final(self).reading is None || r is Act,
            !(old(self).reading is Some && fin) && old(self).pos == old(self).events@.len() ==> r
                is Done && final(self).over,
            !(old(self).reading is Some && fin) && old(self).pos < old(self).events@.len() ==> {
                let a = spec_event_action(
                    handler.mode,
                    handler.interest@,
                    old(self).events@[old(self).pos as int],
                );
                &&& final(self).pos == old(self).pos + 1
                &&& a is RejectStream ==> r == (PassStep::Reject {
                    stream_id: a->RejectStream_stream_id,
                }) && final(self).over
                &&& !(a is RejectStream) ==> r == PassStep::Act(a) && !final(self).over
                &&& a is ReadData ==> final(self).reading == Some(a->ReadData_stream_id)
                &&& !(a is ReadData) ==> final(self).reading is None
            },
    {
        if let Some(stream_id) = self.reading {
            self.reading = None;
            if fin {
                self.over = true;
                return PassStep::Finish { stream_id, code: CLOSE_CODE };
            }
        }
        if self.pos >= self.events.len() {
            self.over = true;
            return PassStep::Done;
        }
        let ev = self.events[self.pos];
        self.pos = self.pos + 1;
        match handler.on_event(&ev) {
            EventAction::RejectStream { stream_id } => {
                self.over = true;
                PassStep::Reject { stream_id }
            },
            EventAction::ReadData { stream_id } => {
                self.reading = Some(stream_id);
                PassStep::Act(EventAction::ReadData { stream_id })
            },
            a => PassStep::Act(a),
        }
    }
}

} // verus!
