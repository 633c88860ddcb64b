use vstd::prelude::*;
use crate::datagram::Datagram;
use crate::endpoint::Endpoint;
use crate::state::SessionState;

verus! {

/// Size of the buffer a single receive fills. A reception that fills it may
/// have been cut short, so it is dropped.
pub const RECV_BUFFER_SIZE: usize = 2048;

/// Where the pump stands within one iteration, named by what it waits for.
#[derive(Clone, Copy, Debug, PartialEq, Eq, Structural)]
pub enum PumpStage {
    /// Waiting for the connection to have taken the inbound batch.
    Input,
    /// Waiting for the handler's verdict.
    Handle,
    /// Waiting for the connection's outbound datagrams.
    Output { exiting: bool },
    /// Waiting for every outbound datagram to have been sent.
    Transmit { exiting: bool },
    /// Waiting for the one blocking receive.
    Receive,
    /// The run is over.
    Done,
}

/// What the caller observed after performing the last action.
#[derive(Clone, Debug)]
pub enum PumpEvent {
    /// The inbound batch was applied; the connection now reports `state`.
    InputApplied { state: SessionState },
    /// The handler ran and answered whether the session keeps going.
    HandlerReturned { keep_going: bool },
    /// The connection produced these datagram payloads to emit.
    OutputProduced { datagrams: Vec<Vec<u8>> },
    /// All of them were handed to the socket; the connection reports `state`.
    Transmitted { state: SessionState },
    /// The receive returned these bytes.
    Received { payload: Vec<u8> },
    /// The receive failed.
    ReceiveFailed,
}

/// What the caller has to do next.
#[derive(Clone, Debug)]
pub enum PumpAction {
    /// Feed `batch` to the connection with the current time. When
    /// `dropped_oversized` is set, a reception that filled the whole buffer
    /// was dropped and deserves a warning.
    ProcessInput { batch: Vec<Datagram>, dropped_oversized: bool },
    /// Run the handler of the current phase.
    RunHandler,
    /// Ask the connection for its outbound datagrams.
    ProcessOutput,
    /// Send each of these payloads, in order.
    Send { datagrams: Vec<Vec<u8>> },
    /// Block on one receive into a buffer of `RECV_BUFFER_SIZE` bytes.
    Receive,
    /// The run ended with the connection in `state`.
    Finish { state: SessionState },
    /// The receive failed: the run cannot go on.
    Abort,
}

/// The datagram pump between the socket and the connection, for one run of
/// a handler phase.
pub struct Pump {
    pub local: Endpoint,
    pub remote: Endpoint,
    pub stage: PumpStage,
}

impl PumpEvent {
    /// The stage in which this event can come.
    pub open spec fn spec_fits(self, stage: PumpStage) -> bool {
        match self {
            PumpEvent::InputApplied { .. } => stage is Input,
            PumpEvent::HandlerReturned { .. } => stage is Handle,
            PumpEvent::OutputProduced { .. } => stage is Output,
            PumpEvent::Transmitted { .. } => stage is Transmit,
            PumpEvent::Received { .. } => stage is Receive,
            PumpEvent::ReceiveFailed => stage is Receive,
        }
    }
}

/// A reception of `len` bytes fills the whole receive buffer.
pub open spec fn fills_buffer(len: nat) -> bool {
    len >= RECV_BUFFER_SIZE
}

impl Pump {
    pub open spec fn spec_accepts(self, ev: PumpEvent) -> bool {
        ev.spec_fits(self.stage)
    }

    /// One step of the pump: from `self`, the event `ev` leads to the pump
    /// `next` and the action `act`.
    pub open spec fn transition(self, ev: PumpEvent, next: Pump, act: PumpAction) -> bool {
        &&& next.local == self.local
        &&& next.remote == self.remote
        &&& match ev {
            PumpEvent::InputApplied { state } => if state.spec_is_closed() {
                next.stage is Done && act == (PumpAction::Finish { state })
            } else {
                next.stage is Handle && act is RunHandler
            },
            PumpEvent::HandlerReturned { keep_going } => {
                next.stage == (PumpStage::Output { exiting: !keep_going })
                    && act is ProcessOutput
            },
            PumpEvent::OutputProduced { datagrams } => {
                next.stage == (PumpStage::Transmit { exiting: self.stage->Output_exiting })
                    && act == (PumpAction::Send { datagrams })
            },
            PumpEvent::Transmitted { state } => if self.stage->Transmit_exiting {
                next.stage is Done && act == (PumpAction::Finish { state })
            } else {
                next.stage is Receive && act is Receive
            },
            PumpEvent::Received { payload } => {
                &&& next.stage is Input
                &&& act is ProcessInput
                &&& if fills_buffer(payload@.len()) {
                    act->ProcessInput_batch@ == Seq::<Datagram>::empty()
                        && act->ProcessInput_dropped_oversized
                } else if payload@.len() == 0 {
                    act->ProcessInput_batch@ == Seq::<Datagram>::empty()
                        && !act->ProcessInput_dropped_oversized
                } else {
                    act->ProcessInput_batch@ == seq![
                        Datagram { source: self.remote, destination: self.local, payload },
                    ] && !act->ProcessInput_dropped_oversized
                }
            },
            PumpEvent::ReceiveFailed => next.stage is Done && act is Abort,
        }
    }

    /// A pump for a run between `local` and `remote`, and its first action:
    /// feed the connection an empty batch.
    pub fn new(local: Endpoint, remote: Endpoint) -> (r: (Pump, PumpAction))
        ensures
            r.0.local == local,
            r.0.remote == remote,
            r.0.stage is Input,
            r.1 is ProcessInput,
            r.1->ProcessInput_batch@ == Seq::<Datagram>::empty(),
            !r.1->ProcessInput_dropped_oversized,
    {
        (
            Pump { local, remote, stage: PumpStage::Input },
            PumpAction::ProcessInput { batch: Vec::new(), dropped_oversized: false },
        )
    }

    /// Whether `ev` is what the pump waits for now.
    pub fn accepts(&self, ev: &PumpEvent) -> (r: bool)
        ensures
            r == self.spec_accepts(*ev),
    {
        match ev {
            PumpEvent::InputApplied { .. } => self.stage == PumpStage::Input,
            PumpEvent::HandlerReturned { .. } => self.stage == PumpStage::Handle,
            PumpEvent::OutputProduced { .. } => match self.stage {
                PumpStage::Output { .. } => true,
                _ => false,
            },
            PumpEvent::Transmitted { .. } => match self.stage {
                PumpStage::Transmit { .. } => true,
                _ => false,
            },
            PumpEvent::Received { .. } => self.stage == PumpStage::Receive,
            PumpEvent::ReceiveFailed => self.stage == PumpStage::Receive,
        }
    }

    /// Whether the run is over.
    pub fn is_done(&self) -> (r: bool)
        ensures
            r == (self.stage is Done),
    {
        self.stage == PumpStage::Done
    }

    /// Advance the pump by the event the caller observed.
    pub fn step(&mut self, ev: PumpEvent) -> (act: PumpAction)
        requires
            old(self).spec_accepts(ev),
        ensures
            old(self).transition(ev, *final(self), act),
    {
        match ev {
            PumpEvent::InputApplied { state } => {
                if state.is_closed() {
                    self.stage = PumpStage::Done;
                    PumpAction::Finish { state }
                } else {
                    self.stage = PumpStage::Handle;
                    PumpAction::RunHandler
                }
            },
            PumpEvent::HandlerReturned { keep_going } => {
                self.stage = PumpStage::Output { exiting: !keep_going };
                PumpAction::ProcessOutput
            },
            PumpEvent::OutputProduced { datagrams } => {
                let exiting = match self.stage {
                    PumpStage::Output { exiting } => exiting,
                    _ => false,
                };
                self.stage = PumpStage::Transmit { exiting };
                PumpAction::Send { datagrams }
            },
            PumpEvent::Transmitted { state } => {
                let exiting = match self.stage {
                    PumpStage::Transmit { exiting } => exiting,
                    _ => false,
                };
                if exiting {
                    self.stage = PumpStage::Done;
                    PumpAction::Finish { state }
                } else {
                    self.stage = PumpStage::Receive;
                    PumpAction::Receive
                }
            },
            PumpEvent::Received { payload } => {
                self.stage = PumpStage::Input;
                let len = payload.len();
                if len >= RECV_BUFFER_SIZE {
                    PumpAction::ProcessInput { batch: Vec::new(), dropped_oversized: true }
                } else if len == 0 {
                    PumpAction::ProcessInput { batch: Vec::new(), dropped_oversized: false }
                } else {
                    let d = Datagram { source: self.remote, destination: self.local, payload };
                    let mut batch: Vec<Datagram> = Vec::new();
                    batch.push(d);
                    proof {
                        assert(batch@ =~= seq![d]);
                    }
                    PumpAction::ProcessInput { batch, dropped_oversized: false }
                }
            },
            PumpEvent::ReceiveFailed => {
                self.stage = PumpStage::Done;
                PumpAction::Abort
            },
        }
    }
}

/// Once the connection reports itself closed after taking its input, the run
/// ends there with that state: the handler is not called, nothing is asked of
/// the connection or sent, and the pump accepts no further event.
pub proof fn lemma_closed_input_ends_run(p: Pump, state: SessionState, q: Pump, act: PumpAction)
    requires
        p.stage is Input,
        state.spec_is_closed(),
        p.transition(PumpEvent::InputApplied { state }, q, act),
    ensures
        act == (PumpAction::Finish { state }),
        q.stage is Done,
        forall|ev: PumpEvent| !q.spec_accepts(ev),
{
}

/// The datagrams the connection produced in an iteration are handed to the
/// socket whole and in order, and the pump then waits for their sending
/// before anything else: a receive is asked for only right after the
/// iteration's output was sent.
pub proof fn lemma_output_flushed_before_receive(
    p: Pump,
    ev: PumpEvent,
    q: Pump,
    act: PumpAction,
)
    requires
        p.spec_accepts(ev),
        p.transition(ev, q, act),
    ensures
        ev is OutputProduced ==> act == (PumpAction::Send { datagrams: ev->OutputProduced_datagrams })
            && q.stage is Transmit
            && forall|e: PumpEvent| q.spec_accepts(e) ==> e is Transmitted,
        act is Receive ==> ev is Transmitted && p.stage == (PumpStage::Transmit { exiting: false }),
{
}

} // verus!
