use neqo_client::endpoint::{Endpoint, IpAddress};
use neqo_client::pump::{Pump, PumpAction, PumpEvent, PumpStage, RECV_BUFFER_SIZE};
use neqo_client::state::SessionState;

fn local() -> Endpoint {
    Endpoint { ip: IpAddress::V4(0x7f00_0001), port: 40000 }
}

fn remote() -> Endpoint {
    Endpoint { ip: IpAddress::V4(0x7f00_0001), port: 443 }
}

fn pump_waiting_for_receive() -> Pump {
    let (mut p, _) = Pump::new(local(), remote());
    p.step(PumpEvent::InputApplied { state: SessionState::Connecting });
    p.step(PumpEvent::HandlerReturned { keep_going: true });
    p.step(PumpEvent::OutputProduced { datagrams: vec![] });
    p.step(PumpEvent::Transmitted { state: SessionState::Connecting });
    assert_eq!(p.stage, PumpStage::Receive);
    p
}

#[test]
fn first_action_feeds_an_empty_batch() {
    let (p, act) = Pump::new(local(), remote());
    assert_eq!(p.stage, PumpStage::Input);
    match act {
        PumpAction::ProcessInput { batch, dropped_oversized } => {
            assert!(batch.is_empty());
            assert!(!dropped_oversized);
        }
        other => panic!("unexpected first action {:?}", other),
    }
}

#[test]
fn closed_after_input_finishes_without_handler() {
    let (mut p, _) = Pump::new(local(), remote());
    let act = p.step(PumpEvent::InputApplied { state: SessionState::Closed(7) });
    assert!(matches!(act, PumpAction::Finish { state: SessionState::Closed(7) }));
    assert!(p.is_done());
    assert!(!p.accepts(&PumpEvent::HandlerReturned { keep_going: true }));
    assert!(!p.accepts(&PumpEvent::OutputProduced { datagrams: vec![] }));
    assert!(!p.accepts(&PumpEvent::Received { payload: vec![1] }));
}

#[test]
fn output_is_sent_whole_before_receive() {
    let (mut p, _) = Pump::new(local(), remote());
    assert!(matches!(
        p.step(PumpEvent::InputApplied { state: SessionState::Connecting }),
        PumpAction::RunHandler
    ));
    assert!(matches!(
        p.step(PumpEvent::HandlerReturned { keep_going: true }),
        PumpAction::ProcessOutput
    ));
    let out = vec![vec![1u8, 2, 3], vec![4u8], vec![5u8, 6]];
    match p.step(PumpEvent::OutputProduced { datagrams: out.clone() }) {
        PumpAction::Send { datagrams } => assert_eq!(datagrams, out),
        other => panic!("expected a send, got {:?}", other),
    }
    assert!(!p.accepts(&PumpEvent::Received { payload: vec![1] }));
    assert!(p.accepts(&PumpEvent::Transmitted { state: SessionState::Connecting }));
    assert!(matches!(
        p.step(PumpEvent::Transmitted { state: SessionState::Connecting }),
        PumpAction::Receive
    ));
}

#[test]
fn stop_still_flushes_then_finishes() {
    let (mut p, _) = Pump::new(local(), remote());
    p.step(PumpEvent::InputApplied { state: SessionState::Connected });
    p.step(PumpEvent::HandlerReturned { keep_going: false });
    match p.step(PumpEvent::OutputProduced { datagrams: vec![vec![9u8]] }) {
        PumpAction::Send { datagrams } => assert_eq!(datagrams, vec![vec![9u8]]),
        other => panic!("expected a send, got {:?}", other),
    }
    let act = p.step(PumpEvent::Transmitted { state: SessionState::Connected });
    assert!(matches!(act, PumpAction::Finish { state: SessionState::Connected }));
    assert!(p.is_done());
}

#[test]
fn full_buffer_reception_is_dropped_and_loop_goes_on() {
    let mut p = pump_waiting_for_receive();
    let act = p.step(PumpEvent::Received { payload: vec![0u8; RECV_BUFFER_SIZE] });
    match act {
        PumpAction::ProcessInput { batch, dropped_oversized } => {
            assert!(batch.is_empty());
            assert!(dropped_oversized);
        }
        other => panic!("expected input processing, got {:?}", other),
    }
    assert_eq!(p.stage, PumpStage::Input);
    assert!(!p.is_done());
    p.step(PumpEvent::InputApplied { state: SessionState::Connecting });
    p.step(PumpEvent::HandlerReturned { keep_going: true });
    p.step(PumpEvent::OutputProduced { datagrams: vec![] });
    assert!(matches!(
        p.step(PumpEvent::Transmitted { state: SessionState::Connecting }),
        PumpAction::Receive
    ));
}

#[test]
fn empty_reception_is_ignored() {
    let mut p = pump_waiting_for_receive();
    match p.step(PumpEvent::Received { payload: vec![] }) {
        PumpAction::ProcessInput { batch, dropped_oversized } => {
            assert!(batch.is_empty());
            assert!(!dropped_oversized);
        }
        other => panic!("expected input processing, got {:?}", other),
    }
}

#[test]
fn reception_becomes_one_datagram_from_remote_to_local() {
    let mut p = pump_waiting_for_receive();
    let payload = vec![7u8; RECV_BUFFER_SIZE - 1];
    match p.step(PumpEvent::Received { payload: payload.clone() }) {
        PumpAction::ProcessInput { batch, dropped_oversized } => {
            assert!(!dropped_oversized);
            assert_eq!(batch.len(), 1);
            assert_eq!(batch[0].source, remote());
            assert_eq!(batch[0].destination, local());
            assert_eq!(batch[0].payload, payload);
        }
        other => panic!("expected input processing, got {:?}", other),
    }
}

#[test]
fn receive_failure_aborts() {
    let mut p = pump_waiting_for_receive();
    assert!(matches!(p.step(PumpEvent::ReceiveFailed), PumpAction::Abort));
    assert!(p.is_done());
}
