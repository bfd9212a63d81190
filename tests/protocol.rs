use usbpd_sink::header::{
    ControlMessageType, DataMessageType, Header, PortDataRole, PortPowerRole,
    SpecificationRevision,
};
use usbpd_sink::protocol_engine::{
    decode_message, encode_frame, Message, ProtocolEngine, RxAction, RxError, RxEvent, TxAction,
    TxError, TxEvent, TIMEOUT_RECEIVE_MS,
};

fn source_frame(message_type: u8, id: u8, objs: &[u32]) -> Vec<u8> {
    let h = Header::new(
        message_type,
        PortDataRole::DownstreamFacingPort,
        SpecificationRevision::Revision2_0,
        PortPowerRole::Source,
        id,
        objs.len() as u8,
    );
    let mut f = h.to_le_bytes().to_vec();
    for o in objs {
        f.extend_from_slice(&o.to_le_bytes());
    }
    f
}

fn good_crc(id: u8) -> Vec<u8> {
    source_frame(1, id, &[])
}

/// Feeds one frame and a successful GoodCRC; returns the GoodCRC bytes and
/// what was delivered.
fn feed(prl: &mut ProtocolEngine, frame: Vec<u8>) -> ([u8; 2], Option<Message>) {
    let ack = match prl.receive(RxEvent::Frame(frame), 7) {
        RxAction::SendGoodCrc(b) => b,
        other => panic!("expected a GoodCRC, got {:?}", other),
    };
    match prl.receive(RxEvent::GoodCrcSent(Ok(())), 7) {
        RxAction::Deliver(m) => (ack, Some(m)),
        RxAction::Listen => (ack, None),
        other => panic!("unexpected {:?}", other),
    }
}

#[test]
fn receive_acknowledges_then_delivers() {
    let mut prl = ProtocolEngine::new();
    let frame = source_frame(1, 5, &[0x0001_912C]);
    let ack = match prl.receive(RxEvent::Frame(frame), 7) {
        RxAction::SendGoodCrc(b) => b,
        other => panic!("expected a GoodCRC, got {:?}", other),
    };
    let h = Header::from_le_bytes(ack);
    assert_eq!(h.message_type, 1);
    assert_eq!(h.message_id, 5);
    assert_eq!(h.number_of_data_objects, 0);
    assert_eq!(h.port_power_role, PortPowerRole::Sink);
    assert_eq!(h.port_data_role, PortDataRole::UpstreamFacingPort);
    assert_eq!(h.specification_revision, SpecificationRevision::Revision2_0);
    assert_eq!(prl.rx_message_id, None);
    match prl.receive(RxEvent::GoodCrcSent(Ok(())), 7) {
        RxAction::Deliver(Message::Data(DataMessageType::SourceCapabilities, objs)) => {
            assert_eq!(objs, vec![0x0001_912C]);
        }
        other => panic!("unexpected {:?}", other),
    }
    assert_eq!(prl.rx_message_id, Some(5));
}

#[test]
fn duplicate_frames_dropped() {
    let mut prl = ProtocolEngine::new();
    let (_, first) = feed(&mut prl, source_frame(1, 0, &[0x0001_912C]));
    assert!(first.is_some());
    for _ in 0..3 {
        let (ack, again) = feed(&mut prl, source_frame(1, 0, &[0x0001_912C]));
        assert_eq!(Header::from_le_bytes(ack).message_id, 0);
        assert!(again.is_none());
    }
    let (_, next) = feed(&mut prl, source_frame(3, 1, &[]));
    assert!(matches!(next, Some(Message::Control(ControlMessageType::Accept))));
}

#[test]
fn soft_reset_always_delivered_and_resets_ids() {
    let mut prl = ProtocolEngine::new();
    prl.tx_message_id = 4;
    let (_, m) = feed(&mut prl, source_frame(0xD, 0, &[]));
    assert!(matches!(m, Some(Message::Control(ControlMessageType::SoftReset))));
    assert_eq!(prl.tx_message_id, 0);
    assert_eq!(prl.rx_message_id, Some(0));
    // A second SoftReset with the same id is not a duplicate.
    let (_, m) = feed(&mut prl, source_frame(0xD, 0, &[]));
    assert!(matches!(m, Some(Message::Control(ControlMessageType::SoftReset))));
}

#[test]
fn short_and_mislength_frames_dropped() {
    let mut prl = ProtocolEngine::new();
    assert!(matches!(prl.receive(RxEvent::Frame(vec![0x41]), 7), RxAction::Listen));
    let mut f = source_frame(1, 0, &[1]);
    f.pop();
    assert!(matches!(prl.receive(RxEvent::Frame(f), 7), RxAction::Listen));
    assert!(matches!(prl.receive(RxEvent::GoodCrcSent(Ok(())), 7), RxAction::Listen));
}

#[test]
fn discarded_good_crc_abandons_frame() {
    let mut prl = ProtocolEngine::new();
    let f = source_frame(3, 2, &[]);
    assert!(matches!(prl.receive(RxEvent::Frame(f), 7), RxAction::SendGoodCrc(_)));
    let r = prl.receive(RxEvent::GoodCrcSent(Err(TxError::Discarded)), 7);
    assert!(matches!(r, RxAction::Listen));
    assert_eq!(prl.rx_message_id, None);
    // The retransmission is then accepted.
    let (_, m) = feed(&mut prl, source_frame(3, 2, &[]));
    assert!(matches!(m, Some(Message::Control(ControlMessageType::Accept))));
}

#[test]
fn rx_errors_restart_or_reset() {
    let mut prl = ProtocolEngine::new();
    prl.tx_message_id = 3;
    prl.rx_message_id = Some(6);
    assert!(matches!(prl.receive(RxEvent::Failed(RxError::Crc), 7), RxAction::Listen));
    assert!(matches!(prl.receive(RxEvent::Failed(RxError::Overrun), 7), RxAction::Listen));
    assert_eq!(prl.tx_message_id, 3);
    assert!(matches!(prl.receive(RxEvent::Failed(RxError::HardReset), 7), RxAction::HardReset));
    assert_eq!(prl.tx_message_id, 0);
    assert_eq!(prl.rx_message_id, None);
}

#[test]
fn hard_reset_while_sending_good_crc() {
    let mut prl = ProtocolEngine::new();
    prl.tx_message_id = 5;
    assert!(matches!(
        prl.receive(RxEvent::Frame(source_frame(3, 1, &[])), 7),
        RxAction::SendGoodCrc(_)
    ));
    let r = prl.receive(RxEvent::GoodCrcSent(Err(TxError::HardReset)), 7);
    assert!(matches!(r, RxAction::HardReset));
    assert_eq!(prl.tx_message_id, 0);
}

#[test]
fn data_objects_truncated_to_capacity() {
    let f = source_frame(1, 0, &[1, 2, 3]);
    match decode_message(&f, 2) {
        Message::Data(DataMessageType::SourceCapabilities, objs) => assert_eq!(objs, vec![1, 2]),
        other => panic!("unexpected {:?}", other),
    }
    match decode_message(&f, 0) {
        Message::Data(_, objs) => assert!(objs.is_empty()),
        other => panic!("unexpected {:?}", other),
    }
}

#[test]
fn encode_frame_little_endian() {
    let h = Header::new(
        2,
        PortDataRole::UpstreamFacingPort,
        SpecificationRevision::Revision2_0,
        PortPowerRole::Sink,
        0,
        1,
    );
    let f = encode_frame(h, &vec![0x1000_280A]);
    assert_eq!(f, vec![0x42, 0x10, 0x0A, 0x28, 0x00, 0x10]);
}

#[test]
fn transmit_acknowledged_first_try() {
    let mut prl = ProtocolEngine::new();
    let msg = Message::Data(DataMessageType::Request, vec![0x1000_280A]);
    match prl.transmit(&msg) {
        TxAction::Send(f) => assert_eq!(f, vec![0x42, 0x10, 0x0A, 0x28, 0x00, 0x10]),
        other => panic!("unexpected {:?}", other),
    }
    assert!(matches!(
        prl.transmit_step(TxEvent::Sent(Ok(()))),
        TxAction::AwaitGoodCrc(TIMEOUT_RECEIVE_MS)
    ));
    assert!(matches!(prl.transmit_step(TxEvent::Reply(Ok(good_crc(0)))), TxAction::Done(true)));
    assert_eq!(prl.tx_message_id, 1);
}

#[test]
fn transmit_good_crc_lost_twice() {
    let mut prl = ProtocolEngine::new();
    let msg = Message::Control(ControlMessageType::Reject);
    assert!(matches!(prl.transmit(&msg), TxAction::Send(_)));
    for _ in 0..2 {
        assert!(matches!(prl.transmit_step(TxEvent::Sent(Ok(()))), TxAction::AwaitGoodCrc(3)));
        assert!(matches!(prl.transmit_step(TxEvent::TimedOut), TxAction::Send(_)));
    }
    assert!(matches!(prl.transmit_step(TxEvent::Sent(Ok(()))), TxAction::AwaitGoodCrc(3)));
    assert!(matches!(prl.transmit_step(TxEvent::Reply(Ok(good_crc(0)))), TxAction::Done(true)));
    assert_eq!(prl.tx_message_id, 1);
}

#[test]
fn transmit_gives_up_after_three_retries() {
    let mut prl = ProtocolEngine::new();
    prl.tx_message_id = 7;
    assert!(matches!(
        prl.transmit(&Message::Control(ControlMessageType::Accept)),
        TxAction::Send(_)
    ));
    let bad = [
        TxEvent::Reply(Ok(good_crc(6))),
        TxEvent::Reply(Err(RxError::Crc)),
        TxEvent::Reply(Ok(source_frame(3, 7, &[]))),
    ];
    for ev in bad {
        assert!(matches!(prl.transmit_step(TxEvent::Sent(Ok(()))), TxAction::AwaitGoodCrc(3)));
        assert!(matches!(prl.transmit_step(ev), TxAction::Send(_)));
    }
    assert!(matches!(
        prl.transmit_step(TxEvent::Sent(Err(TxError::Discarded))),
        TxAction::Done(false)
    ));
    assert_eq!(prl.tx_message_id, 0);
}

#[test]
fn transmit_ids_wrap_mod_eight() {
    let mut prl = ProtocolEngine::new();
    for i in 0..10u8 {
        match prl.transmit(&Message::Control(ControlMessageType::Reject)) {
            TxAction::Send(f) => assert_eq!(Header::from_le_bytes([f[0], f[1]]).message_id, i % 8),
            other => panic!("unexpected {:?}", other),
        }
        let _ = prl.transmit_step(TxEvent::Sent(Ok(())));
        assert!(matches!(
            prl.transmit_step(TxEvent::Reply(Ok(good_crc(i % 8)))),
            TxAction::Done(true)
        ));
    }
    assert_eq!(prl.tx_message_id, 2);
}

#[test]
fn transmit_soft_reset_uses_id_zero() {
    let mut prl = ProtocolEngine::new();
    prl.tx_message_id = 5;
    prl.rx_message_id = Some(3);
    match prl.transmit(&Message::Control(ControlMessageType::SoftReset)) {
        TxAction::Send(f) => {
            let h = Header::from_le_bytes([f[0], f[1]]);
            assert_eq!(h.message_id, 0);
            assert_eq!(h.message_type, 0xD);
            assert_eq!(f.len(), 2);
        }
        other => panic!("unexpected {:?}", other),
    }
    assert_eq!(prl.rx_message_id, None);
}

#[test]
fn transmit_hard_reset_resets_ids() {
    let mut prl = ProtocolEngine::new();
    prl.tx_message_id = 4;
    prl.rx_message_id = Some(1);
    let _ = prl.transmit(&Message::Control(ControlMessageType::Reject));
    assert!(matches!(
        prl.transmit_step(TxEvent::Sent(Err(TxError::HardReset))),
        TxAction::HardReset
    ));
    assert_eq!(prl.tx_message_id, 0);
    assert_eq!(prl.rx_message_id, None);
    prl.tx_message_id = 4;
    let _ = prl.transmit(&Message::Control(ControlMessageType::Reject));
    let _ = prl.transmit_step(TxEvent::Sent(Ok(())));
    assert!(matches!(
        prl.transmit_step(TxEvent::Reply(Err(RxError::HardReset))),
        TxAction::HardReset
    ));
    assert_eq!(prl.tx_message_id, 0);
}
