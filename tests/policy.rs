use usbpd_sink::header::{
    ControlMessageType, DataMessageType, Header, PortDataRole, PortPowerRole,
    SpecificationRevision,
};
use usbpd_sink::policy_engine::{
    PeAction, PeEvent, PeState, PolicyEngine, TIMEOUT_PS_TRANSITION_MS,
    TIMEOUT_SENDER_RESPONSE_MS,
};
use usbpd_sink::protocol_engine::{Message, ProtocolEngine, RxAction, RxEvent, TxAction, TxEvent};
use usbpd_sink::request::Request;
use usbpd_sink::sink_capabilities::FixedSupply;

const SOURCE_5V_3A: u32 = (100 << 10) | 300;

fn source_frame(message_type: u8, id: u8, objs: &[u32]) -> Vec<u8> {
    let h = Header::new(
        message_type,
        PortDataRole::DownstreamFacingPort,
        SpecificationRevision::Revision2_0,
        PortPowerRole::Source,
        id,
        objs.len() as u8,
    );
    let mut f = h.to_le_bytes().to_vec();
    for o in objs {
        f.extend_from_slice(&o.to_le_bytes());
    }
    f
}

/// Hands a frame to the protocol engine and returns the GoodCRC id and the
/// delivered message, if any.
fn inbound(pe: &mut PolicyEngine, frame: Vec<u8>) -> (u8, Option<Message>) {
    let ack = match pe.protocol_engine.receive(RxEvent::Frame(frame), 7) {
        RxAction::SendGoodCrc(b) => Header::from_le_bytes(b),
        other => panic!("expected a GoodCRC, got {:?}", other),
    };
    assert_eq!(ack.message_type, 1);
    match pe.protocol_engine.receive(RxEvent::GoodCrcSent(Ok(())), 7) {
        RxAction::Deliver(m) => (ack.message_id, Some(m)),
        RxAction::Listen => (ack.message_id, None),
        other => panic!("unexpected {:?}", other),
    }
}

/// Sends a message through the protocol engine; the peer acknowledges it.
/// Returns the id that the frame carried.
fn outbound(pe: &mut PolicyEngine, msg: &Message) -> u8 {
    let id = match pe.protocol_engine.transmit(msg) {
        TxAction::Send(f) => Header::from_le_bytes([f[0], f[1]]).message_id,
        other => panic!("unexpected {:?}", other),
    };
    let _ = pe.protocol_engine.transmit_step(TxEvent::Sent(Ok(())));
    let reply = source_frame(1, id, &[]);
    assert!(matches!(
        pe.protocol_engine.transmit_step(TxEvent::Reply(Ok(reply))),
        TxAction::Done(true)
    ));
    id
}

fn expected_request(op: u16) -> u32 {
    Request {
        max_operating_current: op,
        operating_current: op,
        no_usb_suspend: false,
        usb_communications_capable: false,
        capability_mismatch: false,
        give_back_flag: false,
        object_position: 1,
    }
    .to_bits()
}

fn negotiate(pe: &mut PolicyEngine, caps_id: u8, accept_id: u8, ps_rdy_id: u8) {
    let (_, m) = inbound(pe, source_frame(1, caps_id, &[SOURCE_5V_3A]));
    let req = match pe.run(PeEvent::Received(m.unwrap())) {
        PeAction::Transmit(r) => r,
        other => panic!("unexpected {:?}", other),
    };
    outbound(pe, &req);
    assert!(matches!(pe.run(PeEvent::Transmitted(true)), PeAction::ReceiveWithin(30)));
    let (_, m) = inbound(pe, source_frame(3, accept_id, &[]));
    assert!(matches!(pe.run(PeEvent::Received(m.unwrap())), PeAction::ReceiveWithin(500)));
    let (_, m) = inbound(pe, source_frame(6, ps_rdy_id, &[]));
    assert!(matches!(pe.run(PeEvent::Received(m.unwrap())), PeAction::Receive));
}

#[test]
fn new_converts_current() {
    let pe = PolicyEngine::new(ProtocolEngine::new(), 100);
    assert_eq!(pe.operating_current, 10);
    assert!(!pe.ready);
    assert_eq!(pe.state, PeState::Idle);
    let pe = PolicyEngine::new(ProtocolEngine::new(), 3001);
    assert_eq!(pe.operating_current, 301);
}

#[test]
fn happy_path() {
    let mut pe = PolicyEngine::new(ProtocolEngine::new(), 100);
    let (ack, m) = inbound(&mut pe, source_frame(1, 0, &[SOURCE_5V_3A]));
    assert_eq!(ack, 0);
    let req = match pe.run(PeEvent::Received(m.unwrap())) {
        PeAction::Transmit(r) => r,
        other => panic!("unexpected {:?}", other),
    };
    match &req {
        Message::Data(DataMessageType::Request, objs) => {
            assert_eq!(objs, &vec![expected_request(10)]);
            let r = Request::from_bits(objs[0]);
            assert_eq!(r.object_position, 1);
            assert_eq!(r.operating_current, 10);
        }
        other => panic!("unexpected {:?}", other),
    }
    assert_eq!(outbound(&mut pe, &req), 0);
    assert_eq!(pe.protocol_engine.tx_message_id, 1);
    match pe.run(PeEvent::Transmitted(true)) {
        PeAction::ReceiveWithin(t) => assert_eq!(t, TIMEOUT_SENDER_RESPONSE_MS),
        other => panic!("unexpected {:?}", other),
    }
    let (ack, m) = inbound(&mut pe, source_frame(3, 1, &[]));
    assert_eq!(ack, 1);
    match pe.run(PeEvent::Received(m.unwrap())) {
        PeAction::ReceiveWithin(t) => assert_eq!(t, TIMEOUT_PS_TRANSITION_MS),
        other => panic!("unexpected {:?}", other),
    }
    let (ack, m) = inbound(&mut pe, source_frame(6, 2, &[]));
    assert_eq!(ack, 2);
    assert!(matches!(pe.run(PeEvent::Received(m.unwrap())), PeAction::Receive));
    assert!(pe.ready);
    assert_eq!(pe.state, PeState::Idle);
}

#[test]
fn duplicate_source_capabilities() {
    let mut pe = PolicyEngine::new(ProtocolEngine::new(), 100);
    let (ack1, m1) = inbound(&mut pe, source_frame(1, 0, &[SOURCE_5V_3A]));
    let (ack2, m2) = inbound(&mut pe, source_frame(1, 0, &[SOURCE_5V_3A]));
    assert_eq!((ack1, ack2), (0, 0));
    assert!(m2.is_none());
    assert!(matches!(pe.run(PeEvent::Received(m1.unwrap())), PeAction::Transmit(_)));
    assert_eq!(pe.state, PeState::Requesting);
}

#[test]
fn soft_reset_recovery() {
    let mut pe = PolicyEngine::new(ProtocolEngine::new(), 100);
    negotiate(&mut pe, 0, 1, 2);
    assert!(pe.ready);
    let (ack, m) = inbound(&mut pe, source_frame(0xD, 0, &[]));
    assert_eq!(ack, 0);
    assert_eq!(pe.protocol_engine.tx_message_id, 0);
    let accept = match pe.run(PeEvent::Received(m.unwrap())) {
        PeAction::Transmit(a) => a,
        other => panic!("unexpected {:?}", other),
    };
    assert!(matches!(accept, Message::Control(ControlMessageType::Accept)));
    assert!(!pe.ready);
    assert_eq!(outbound(&mut pe, &accept), 0);
    assert!(matches!(pe.run(PeEvent::Transmitted(true)), PeAction::Receive));
    assert_eq!(pe.state, PeState::Idle);
    negotiate(&mut pe, 1, 2, 3);
    assert!(pe.ready);
}

#[test]
fn ps_rdy_deadline_missed() {
    let mut pe = PolicyEngine::new(ProtocolEngine::new(), 100);
    let (_, m) = inbound(&mut pe, source_frame(1, 0, &[SOURCE_5V_3A]));
    let req = match pe.run(PeEvent::Received(m.unwrap())) {
        PeAction::Transmit(r) => r,
        other => panic!("unexpected {:?}", other),
    };
    outbound(&mut pe, &req);
    let _ = pe.run(PeEvent::Transmitted(true));
    let (_, m) = inbound(&mut pe, source_frame(3, 1, &[]));
    let _ = pe.run(PeEvent::Received(m.unwrap()));
    assert!(matches!(pe.run(PeEvent::TimedOut), PeAction::TransmitHardReset));
    assert!(!pe.ready);
    assert_eq!(pe.state, PeState::Stopped);
    assert!(matches!(pe.run(PeEvent::Transmitted(true)), PeAction::Exit));
}

#[test]
fn unsupported_message_rejected() {
    let mut pe = PolicyEngine::new(ProtocolEngine::new(), 100);
    let (_, m) = inbound(&mut pe, source_frame(9, 0, &[]));
    match pe.run(PeEvent::Received(m.unwrap())) {
        PeAction::Transmit(Message::Control(ControlMessageType::Reject)) => {}
        other => panic!("unexpected {:?}", other),
    }
    assert!(matches!(pe.run(PeEvent::Transmitted(true)), PeAction::Receive));
    assert_eq!(pe.state, PeState::Idle);
    assert!(!pe.ready);
}

#[test]
fn ping_and_vendor_defined_ignored() {
    let mut pe = PolicyEngine::new(ProtocolEngine::new(), 100);
    let ping = Message::Control(ControlMessageType::Ping);
    assert!(matches!(pe.run(PeEvent::Received(ping)), PeAction::Receive));
    let vdm = Message::Data(DataMessageType::VendorDefined, vec![0xFF00_8001]);
    assert!(matches!(pe.run(PeEvent::Received(vdm)), PeAction::Receive));
    assert_eq!(pe.state, PeState::Idle);
}

#[test]
fn sink_capabilities_sent_on_request() {
    let mut pe = PolicyEngine::new(ProtocolEngine::new(), 1500);
    let get = Message::Control(ControlMessageType::GetSinkCap);
    match pe.run(PeEvent::Received(get)) {
        PeAction::Transmit(Message::Data(DataMessageType::SinkCapabilities, objs)) => {
            assert_eq!(objs.len(), 1);
            let s = FixedSupply::from_bits(objs[0]);
            assert_eq!(s.voltage, 100);
            assert_eq!(s.operating_current, 150);
            assert_eq!(objs[0], (100 << 10) | 150);
        }
        other => panic!("unexpected {:?}", other),
    }
    assert_eq!(pe.state, PeState::Replying);
}

#[test]
fn reject_or_wait_ends_negotiation() {
    for code in [ControlMessageType::Reject, ControlMessageType::Wait] {
        let mut pe = PolicyEngine::new(ProtocolEngine::new(), 100);
        let caps = Message::Data(DataMessageType::SourceCapabilities, vec![SOURCE_5V_3A]);
        let _ = pe.run(PeEvent::Received(caps));
        let _ = pe.run(PeEvent::Transmitted(true));
        assert!(matches!(pe.run(PeEvent::Received(Message::Control(code))), PeAction::Receive));
        assert_eq!(pe.state, PeState::Idle);
        assert!(!pe.ready);
    }
}

#[test]
fn unexpected_response_starts_soft_reset() {
    let mut pe = PolicyEngine::new(ProtocolEngine::new(), 100);
    let caps = Message::Data(DataMessageType::SourceCapabilities, vec![SOURCE_5V_3A]);
    let _ = pe.run(PeEvent::Received(caps));
    let _ = pe.run(PeEvent::Transmitted(true));
    let ping = Message::Control(ControlMessageType::Ping);
    assert!(matches!(
        pe.run(PeEvent::Received(ping)),
        PeAction::Transmit(Message::Control(ControlMessageType::SoftReset))
    ));
    match pe.run(PeEvent::Transmitted(true)) {
        PeAction::ReceiveWithin(t) => assert_eq!(t, 30),
        other => panic!("unexpected {:?}", other),
    }
    let accept = Message::Control(ControlMessageType::Accept);
    assert!(matches!(pe.run(PeEvent::Received(accept)), PeAction::Receive));
    assert_eq!(pe.state, PeState::Idle);
}

#[test]
fn soft_reset_not_accepted_escalates() {
    let mut pe = PolicyEngine::new(ProtocolEngine::new(), 100);
    let get = Message::Control(ControlMessageType::GetSinkCap);
    let _ = pe.run(PeEvent::Received(get));
    assert!(matches!(
        pe.run(PeEvent::Transmitted(false)),
        PeAction::Transmit(Message::Control(ControlMessageType::SoftReset))
    ));
    let _ = pe.run(PeEvent::Transmitted(true));
    let reject = Message::Control(ControlMessageType::Reject);
    assert!(matches!(pe.run(PeEvent::Received(reject)), PeAction::TransmitHardReset));
    assert_eq!(pe.state, PeState::Stopped);
}

#[test]
fn soft_reset_unacknowledged_escalates() {
    let mut pe = PolicyEngine::new(ProtocolEngine::new(), 100);
    let dr = Message::Control(ControlMessageType::DrSwap);
    let _ = pe.run(PeEvent::Received(dr));
    let _ = pe.run(PeEvent::Transmitted(false));
    assert!(matches!(pe.run(PeEvent::Transmitted(false)), PeAction::TransmitHardReset));
}

#[test]
fn accept_deadline_missed() {
    let mut pe = PolicyEngine::new(ProtocolEngine::new(), 100);
    let caps = Message::Data(DataMessageType::SourceCapabilities, vec![SOURCE_5V_3A]);
    let _ = pe.run(PeEvent::Received(caps));
    let _ = pe.run(PeEvent::Transmitted(true));
    assert!(matches!(pe.run(PeEvent::TimedOut), PeAction::TransmitHardReset));
}

#[test]
fn hard_reset_ends_run() {
    let mut pe = PolicyEngine::new(ProtocolEngine::new(), 100);
    negotiate(&mut pe, 0, 1, 2);
    assert!(matches!(pe.run(PeEvent::HardReset), PeAction::Exit));
    assert_eq!(pe.state, PeState::Stopped);
    assert!(!pe.ready);
}
