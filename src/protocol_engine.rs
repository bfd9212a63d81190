use vstd::prelude::*;
use crate::header::{
    control_code, control_type_of, data_code, data_type_of, le16, ControlMessageType,
    DataMessageType, Header, PortDataRole, PortPowerRole, SpecificationRevision,
};

verus! {

/// Time to wait for a GoodCRC after a frame went out, in milliseconds.
pub const TIMEOUT_RECEIVE_MS: u64 = 3;

/// How often a frame is sent again after the first attempt.
pub const RETRY_COUNT: u8 = 3;

/// The most data objects that one message carries.
pub const MAX_DATA_OBJECTS: usize = 7;

/// A message as the policy engine sees it.
#[derive(Debug)]
pub enum Message {
    Control(ControlMessageType),
    Data(DataMessageType, Vec<u32>),
}

/// The mathematical value of a message.
pub enum MessageView {
    Control(ControlMessageType),
    Data(DataMessageType, Seq<u32>),
}

impl View for Message {
    type V = MessageView;

    open spec fn view(&self) -> MessageView {
        match self {
            Message::Control(t) => MessageView::Control(*t),
            Message::Data(t, objs) => MessageView::Data(*t, objs@),
        }
    }
}

/// The peer, or this side, signalled a hard reset.
#[derive(Debug, Clone, Copy, PartialEq, Eq, Structural)]
pub struct HardReset;

/// Why the PHY did not hand over a frame.
#[derive(Debug, Clone, Copy, PartialEq, Eq, Structural)]
pub enum RxError {
    Crc,
    Overrun,
    HardReset,
}

/// Why the PHY did not send a frame.
#[derive(Debug, Clone, Copy, PartialEq, Eq, Structural)]
pub enum TxError {
    Discarded,
    HardReset,
}

/// What the PHY reported to the receiving side of the engine.
#[derive(Debug)]
pub enum RxEvent {
    /// A frame arrived, CRC already checked and stripped.
    Frame(Vec<u8>),
    /// Reception failed.
    Failed(RxError),
    /// Outcome of sending the GoodCRC that the engine asked for.
    GoodCrcSent(Result<(), TxError>),
}

/// What the receiving side asks of the PHY, or hands to its caller.
#[derive(Debug)]
pub enum RxAction {
    /// Wait for the next frame.
    Listen,
    /// Send these two bytes (a GoodCRC), then report the outcome.
    SendGoodCrc([u8; 2]),
    /// A new message for the caller.
    Deliver(Message),
    /// A hard reset was seen; ids are reset.
    HardReset,
}

/// What the PHY reported to the transmitting side of the engine.
#[derive(Debug)]
pub enum TxEvent {
    /// Outcome of sending the frame.
    Sent(Result<(), TxError>),
    /// A frame (or a failure) received while waiting for the GoodCRC.
    Reply(Result<Vec<u8>, RxError>),
    /// Nothing arrived in time.
    TimedOut,
}

/// What the transmitting side asks of the PHY, or hands to its caller.
#[derive(Debug)]
pub enum TxAction {
    /// Send this frame, then report the outcome.
    Send(Vec<u8>),
    /// Wait at most this many milliseconds for a reply.
    AwaitGoodCrc(u64),
    /// The transmission is over: whether a matching GoodCRC came back.
    Done(bool),
    /// A hard reset was seen; ids are reset.
    HardReset,
}

/// The header at the start of a frame.
pub open spec fn frame_header(f: Seq<u8>) -> Header {
    Header::of_bits((f[0] + 256 * f[1]) as u16)
}

/// A frame is at least a header long, and exactly as long as its header says.
pub open spec fn frame_ok(f: Seq<u8>) -> bool {
    f.len() >= 2 && f.len() == 2 + 4 * frame_header(f).number_of_data_objects
}

/// The little-endian 32-bit word at byte offset `i`.
pub open spec fn le32_at(f: Seq<u8>, i: int) -> u32 {
    (f[i] + 0x100 * f[i + 1] + 0x1_0000 * f[i + 2] + 0x100_0000 * f[i + 3]) as u32
}

/// The four little-endian bytes of a word.
pub open spec fn le32(w: u32) -> Seq<u8> {
    seq![
        (w % 0x100) as u8,
        ((w / 0x100) % 0x100) as u8,
        ((w / 0x1_0000) % 0x100) as u8,
        (w / 0x100_0000) as u8,
    ]
}

/// The words of a sequence, each as four little-endian bytes, in order.
pub open spec fn words_le(ws: Seq<u32>) -> Seq<u8>
    decreases ws.len(),
{
    if ws.len() == 0 {
        seq![]
    } else {
        words_le(ws.drop_last()) + le32(ws.last())
    }
}

/// The first `k` data objects of a frame.
pub open spec fn objects_of(f: Seq<u8>, k: nat) -> Seq<u32> {
    Seq::new(k, |i: int| le32_at(f, 2 + 4 * i))
}

/// The smaller of two naturals.
pub open spec fn min_nat(a: nat, b: nat) -> nat {
    if a <= b {
        a
    } else {
        b
    }
}

/// The message that a well-formed frame holds, with at most `cap` data objects kept.
pub open spec fn message_of(f: Seq<u8>, cap: nat) -> MessageView {
    let h = frame_header(f);
    if h.number_of_data_objects == 0 {
        MessageView::Control(control_type_of(h.message_type))
    } else {
        MessageView::Data(
            data_type_of(h.message_type),
            objects_of(f, min_nat(h.number_of_data_objects as nat, cap)),
        )
    }
}

/// A header that announces a SoftReset.
pub open spec fn is_soft_reset(h: Header) -> bool {
    h.number_of_data_objects == 0 && h.message_type == 13
}

/// A frame that repeats the last accepted one; SoftReset is never a repeat.
pub open spec fn is_duplicate(rx: Option<u8>, h: Header) -> bool {
    !is_soft_reset(h) && rx == Some(h.message_id)
}

/// The last accepted inbound id once a frame with header `h` was acknowledged.
pub open spec fn rx_id_after(rx: Option<u8>, h: Header) -> Option<u8> {
    if is_duplicate(rx, h) {
        rx
    } else {
        Some(h.message_id)
    }
}

/// The last accepted inbound id after frames with these headers were
/// acknowledged one after another.
pub open spec fn rx_id_after_all(rx: Option<u8>, hs: Seq<Header>) -> Option<u8>
    decreases hs.len(),
{
    if hs.len() == 0 {
        rx
    } else {
        rx_id_after(rx_id_after_all(rx, hs.drop_last()), hs.last())
    }
}

/// The header of the GoodCRC that acknowledges a frame with header `h`.
pub open spec fn good_crc_header(template: Header, h: Header) -> Header {
    Header { message_type: 1, message_id: h.message_id, number_of_data_objects: 0, ..template }
}

/// Two bytes that hold a GoodCRC for message id `id`.
pub open spec fn is_good_crc_for(b: Seq<u8>, id: u8) -> bool {
    b.len() == 2 && frame_header(b).number_of_data_objects == 0 && frame_header(b).message_type
        == 1 && frame_header(b).message_id == id
}

/// The 4-bit type code of a message.
pub open spec fn message_code(m: MessageView) -> u8 {
    match m {
        MessageView::Control(t) => control_code(t),
        MessageView::Data(t, _) => data_code(t),
    }
}

/// The data objects of a message; none for a control message.
pub open spec fn message_objects(m: MessageView) -> Seq<u32> {
    match m {
        MessageView::Control(_) => seq![],
        MessageView::Data(_, objs) => objs,
    }
}

/// A control message of type `t`.
pub open spec fn is_control(m: MessageView, t: ControlMessageType) -> bool {
    m == MessageView::Control(t)
}

/// The header of an outbound message with id `id`.
pub open spec fn outbound_header(template: Header, m: MessageView, id: u8) -> Header {
    Header {
        message_type: message_code(m),
        message_id: id,
        number_of_data_objects: message_objects(m).len() as u8,
        ..template
    }
}

/// The bytes of a frame: header, then data objects, all little-endian.
pub open spec fn frame_bytes(h: Header, objs: Seq<u32>) -> Seq<u8> {
    le16(h.bits() as u16) + words_le(objs)
}

/// The template for outbound headers: upstream facing port, revision 2.0, sink.
pub open spec fn sink_template() -> Header {
    Header {
        message_type: 0,
        port_data_role: PortDataRole::UpstreamFacingPort,
        specification_revision: SpecificationRevision::Revision2_0,
        port_power_role: PortPowerRole::Sink,
        message_id: 0,
        number_of_data_objects: 0,
    }
}


/// How a transmission goes on after an event.
pub enum TxStepKind {
    /// The frame is out: wait for its GoodCRC.
    AwaitReply,
    /// A matching GoodCRC came back.
    Acked,
    /// A hard reset was seen.
    HardReset,
    /// This attempt failed: send again, or give up after the last retry.
    Retry,
}

/// Classifies an event of a transmission whose message id is `id`.
pub open spec fn tx_step_kind(ev: TxEvent, id: u8) -> TxStepKind {
    match ev {
        TxEvent::Sent(Ok(())) => TxStepKind::AwaitReply,
        TxEvent::Sent(Err(TxError::HardReset)) => TxStepKind::HardReset,
        TxEvent::Reply(Err(RxError::HardReset)) => TxStepKind::HardReset,
        TxEvent::Reply(Ok(b)) => if is_good_crc_for(b@, id) {
            TxStepKind::Acked
        } else {
            TxStepKind::Retry
        },
        _ => TxStepKind::Retry,
    }
}

/// Outbound id, retries spent and whether the transmission is over, after
/// one step of kind `k`.
pub open spec fn tx_after(id: u8, attempt: u8, k: TxStepKind) -> (u8, u8, bool) {
    match k {
        TxStepKind::AwaitReply => (id, attempt, false),
        TxStepKind::Acked => (next_id(id), attempt, true),
        TxStepKind::HardReset => (0, attempt, true),
        TxStepKind::Retry => if attempt < RETRY_COUNT {
            (id, (attempt + 1) as u8, false)
        } else {
            (next_id(id), attempt, true)
        },
    }
}

/// Outbound id, retries spent and whether the transmission is over, after
/// steps of these kinds; steps after the end change nothing.
pub open spec fn tx_run(id: u8, attempt: u8, ks: Seq<TxStepKind>) -> (u8, u8, bool)
    decreases ks.len(),
{
    if ks.len() == 0 {
        (id, attempt, false)
    } else {
        let (i, a, done) = tx_run(id, attempt, ks.drop_last());
        if done {
            (i, a, true)
        } else {
            tx_after(i, a, ks.last())
        }
    }
}

/// The next message id after `id`, modulo 8.
pub open spec fn next_id(id: u8) -> u8 {
    ((id + 1) % 8) as u8
}

fn read_header(f: &Vec<u8>) -> (h: Header)
    requires
        f@.len() >= 2,
    ensures
        h.wf(),
        h == frame_header(f@),
{
    Header::from_le_bytes([f[0], f[1]])
}

fn read_u32_le(f: &Vec<u8>, i: usize) -> (w: u32)
    requires
        i + 4 <= f@.len(),
    ensures
        w == le32_at(f@, i as int),
{
    let n = f.len();
    assert(i + 3 < n);
    let b0 = f[i] as u32;
    let b1 = f[i + 1] as u32;
    let b2 = f[i + 2] as u32;
    let b3 = f[i + 3] as u32;
    b0 + 0x100 * b1 + 0x1_0000 * b2 + 0x100_0000 * b3
}

fn push_u32_le(buf: &mut Vec<u8>, w: u32)
    ensures
        final(buf)@ == old(buf)@ + le32(w),
{
    buf.push((w % 0x100) as u8);
    buf.push(((w / 0x100) % 0x100) as u8);
    buf.push(((w / 0x1_0000) % 0x100) as u8);
    buf.push((w / 0x100_0000) as u8);
}

fn copy_bytes(v: &Vec<u8>) -> (r: Vec<u8>)
    ensures
        r@ == v@,
{
    let mut r: Vec<u8> = Vec::new();
    let mut i: usize = 0;
    while i < v.len()
        invariant
            i <= v@.len(),
            r@ == v@.subrange(0, i as int),
        decreases v@.len() - i,
    {
        r.push(v[i]);
        i = i + 1;
    }
    assert(r@ =~= v@);
    r
}

/// Decodes a well-formed frame, keeping at most `cap` data objects.
pub fn decode_message(f: &Vec<u8>, cap: usize) -> (m: Message)
    requires
        frame_ok(f@),
    ensures
        m@ == message_of(f@, cap as nat),
{
    let h = read_header(f);
    if h.number_of_data_objects == 0 {
        Message::Control(ControlMessageType::from_bits(h.message_type))
    } else {
        let n: usize = h.number_of_data_objects as usize;
        let k: usize = if n <= cap {
            n
        } else {
            cap
        };
        let mut objs: Vec<u32> = Vec::new();
        let mut i: usize = 0;
        while i < k
            invariant
                k <= n,
                n == frame_header(f@).number_of_data_objects,
                frame_ok(f@),
                i <= k,
                objs@ =~= objects_of(f@, i as nat),
            decreases k - i,
        {
            let w = read_u32_le(f, 2 + 4 * i);
            objs.push(w);
            i = i + 1;
        }
        Message::Data(DataMessageType::from_bits(h.message_type), objs)
    }
}

/// Lays out a frame: the header, then each data object, all little-endian.
pub fn encode_frame(h: Header, objs: &Vec<u32>) -> (f: Vec<u8>)
    requires
        h.wf(),
    ensures
        f@ == frame_bytes(h, objs@),
{
    let b = h.to_le_bytes();
    let mut f: Vec<u8> = Vec::new();
    f.push(b[0]);
    f.push(b[1]);
    let mut i: usize = 0;
    while i < objs.len()
        invariant
            i <= objs@.len(),
            f@ == le16(h.bits() as u16) + words_le(objs@.subrange(0, i as int)),
        decreases objs@.len() - i,
    {
        let ghost before = objs@.subrange(0, i as int);
        push_u32_le(&mut f, objs[i]);
        assert(objs@.subrange(0, i + 1).drop_last() =~= before);
        assert(f@ =~= le16(h.bits() as u16) + words_le(objs@.subrange(0, i + 1)));
        i = i + 1;
    }
    assert(objs@.subrange(0, objs@.len() as int) =~= objs@);
    f
}

/// Message-id bookkeeping and framing between the policy engine and the PHY.
///
/// The engine never touches the PHY itself: its step functions take what the
/// PHY reported and say what the PHY should do next.
pub struct ProtocolEngine {
    /// Id of the last accepted inbound message.
    pub rx_message_id: Option<u8>,
    /// Id of the next outbound message.
    pub tx_message_id: u8,
    /// Role and revision fields of every outbound header.
    pub header_template: Header,
    /// A received frame whose GoodCRC is on its way.
    pub rx_pending: Option<Vec<u8>>,
    /// The frame of the transmission under way.
    pub tx_frame: Vec<u8>,
    /// Retries spent on that frame.
    pub tx_attempt: u8,
}

impl ProtocolEngine {
    /// Ids fit three bits, the template fits the wire, a pending frame is
    /// well-formed, and no more retries were spent than allowed.
    pub open spec fn wf(&self) -> bool {
        &&& self.tx_message_id < 8
        &&& (self.rx_message_id matches Some(i) ==> i < 8)
        &&& self.header_template.wf()
        &&& (self.rx_pending matches Some(f) ==> frame_ok(f@))
        &&& self.tx_attempt <= RETRY_COUNT
    }

    /// An engine with no message seen or sent yet, for a sink at revision 2.0.
    pub fn new() -> (r: Self)
        ensures
            r.wf(),
            r.rx_message_id is None,
            r.tx_message_id == 0,
            r.header_template == sink_template(),
            r.rx_pending is None,
    {
        ProtocolEngine {
            rx_message_id: None,
            tx_message_id: 0,
            header_template: Header::new(
                0,
                PortDataRole::UpstreamFacingPort,
                SpecificationRevision::Revision2_0,
                PortPowerRole::Sink,
                0,
                0,
            ),
            rx_pending: None,
            tx_frame: Vec::new(),
            tx_attempt: 0,
        }
    }

    fn handle_hard_reset(&mut self)
        requires
            old(self).wf(),
        ensures
            final(self).wf(),
            final(self).rx_message_id is None,
            final(self).tx_message_id == 0,
            final(self).header_template == old(self).header_template,
            final(self).rx_pending is None,
            final(self).tx_frame == old(self).tx_frame,
            final(self).tx_attempt == old(self).tx_attempt,
    {
        self.rx_message_id = None;
        self.tx_message_id = 0;
        self.rx_pending = None;
    }

    /// One step of reception: takes what the PHY reported and says what to do next.
    ///
    /// A frame of the right length is acknowledged first; only once its GoodCRC
    /// went out is it checked against the last accepted id and delivered. A
    /// SoftReset resets both ids and is always delivered.
    pub fn receive(&mut self, ev: RxEvent, obj_capacity: usize) -> (r: RxAction)
        requires
            old(self).wf(),
        ensures
            final(self).wf(),
            final(self).header_template == old(self).header_template,
            final(self).tx_frame == old(self).tx_frame,
            final(self).tx_attempt == old(self).tx_attempt,
            match ev {
                RxEvent::Frame(f) => {
                    &&& final(self).rx_message_id == old(self).rx_message_id
                    &&& final(self).tx_message_id == old(self).tx_message_id
                    &&& if frame_ok(f@) {
                        &&& final(self).rx_pending == Some(f)
                        &&& r matches RxAction::SendGoodCrc(b) && b@ == le16(
                            good_crc_header(old(self).header_template, frame_header(f@)).bits() as u16,
                        )
                    } else {
                        &&& final(self).rx_pending is None
                        &&& r is Listen
                    }
                },
                RxEvent::Failed(e) => {
                    &&& final(self).rx_pending is None
                    &&& if e == RxError::HardReset {
                        &&& r is HardReset
                        &&& final(self).rx_message_id is None
                        &&& final(self).tx_message_id == 0
                    } else {
                        &&& r is Listen
                        &&& final(self).rx_message_id == old(self).rx_message_id
                        &&& final(self).tx_message_id == old(self).tx_message_id
                    }
                },
                RxEvent::GoodCrcSent(Ok(())) => {
                    &&& final(self).rx_pending is None
                    &&& match old(self).rx_pending {
                        None => {
                            &&& r is Listen
                            &&& final(self).rx_message_id == old(self).rx_message_id
                            &&& final(self).tx_message_id == old(self).tx_message_id
                        },
                        Some(f) => {
                            let h = frame_header(f@);
                            &&& final(self).rx_message_id == rx_id_after(
                                old(self).rx_message_id,
                                h,
                            )
                            &&& if is_duplicate(old(self).rx_message_id, h) {
                                &&& r is Listen
                                &&& final(self).rx_message_id == old(self).rx_message_id
                                &&& final(self).tx_message_id == old(self).tx_message_id
                            } else {
                                &&& r matches RxAction::Deliver(m) && m@ == message_of(
                                    f@,
                                    obj_capacity as nat,
                                )
                                &&& final(self).rx_message_id == Some(h.message_id)
                                &&& final(self).tx_message_id == if is_soft_reset(h) {
                                    0
                                } else {
                                    old(self).tx_message_id
                                }
                            }
                        },
                    }
                },
                RxEvent::GoodCrcSent(Err(e)) => {
                    &&& final(self).rx_pending is None
                    &&& if e == TxError::HardReset {
                        &&& r is HardReset
                        &&& final(self).rx_message_id is None
                        &&& final(self).tx_message_id == 0
                    } else {
                        &&& r is Listen
                        &&& final(self).rx_message_id == old(self).rx_message_id
                        &&& final(self).tx_message_id == old(self).tx_message_id
                    }
                },
            },
    {
        match ev {
            RxEvent::Frame(f) => {
                self.rx_pending = None;
                if f.len() < 2 {
                    return RxAction::Listen;
                }
                let h = read_header(&f);
                let expected: usize = 2 + 4 * h.number_of_data_objects as usize;
                if f.len() != expected {
                    return RxAction::Listen;
                }
                let reply = Header::new(
                    1,
                    self.header_template.port_data_role,
                    self.header_template.specification_revision,
                    self.header_template.port_power_role,
                    h.message_id,
                    0,
                );
                self.rx_pending = Some(f);
                RxAction::SendGoodCrc(reply.to_le_bytes())
            },
            RxEvent::Failed(e) => {
                self.rx_pending = None;
                match e {
                    RxError::HardReset => {
                        self.handle_hard_reset();
                        RxAction::HardReset
                    },
                    _ => RxAction::Listen,
                }
            },
            RxEvent::GoodCrcSent(Ok(())) => {
                let pending = self.rx_pending.take();
                match pending {
                    None => RxAction::Listen,
                    Some(f) => {
                        let h = read_header(&f);
                        let soft_reset = h.number_of_data_objects == 0 && h.message_type == 13;
                        if soft_reset {
                            self.rx_message_id = None;
                            self.tx_message_id = 0;
                        }
                        let duplicate = match self.rx_message_id {
                            Some(id) => id == h.message_id,
                            None => false,
                        };
                        if duplicate {
                            return RxAction::Listen;
                        }
                        self.rx_message_id = Some(h.message_id);
                        RxAction::Deliver(decode_message(&f, obj_capacity))
                    },
                }
            },
            RxEvent::GoodCrcSent(Err(e)) => {
                self.rx_pending = None;
                match e {
                    TxError::HardReset => {
                        self.handle_hard_reset();
                        RxAction::HardReset
                    },
                    TxError::Discarded => RxAction::Listen,
                }
            },
        }
    }

    /// Starts sending `msg` and hands back its frame.
    ///
    /// The frame carries the current outbound id; a SoftReset first clears the
    /// inbound id and sends with id 0.
    pub fn transmit(&mut self, msg: &Message) -> (r: TxAction)
        requires
            old(self).wf(),
            message_objects(msg@).len() <= MAX_DATA_OBJECTS,
        ensures
            final(self).wf(),
            final(self).header_template == old(self).header_template,
            final(self).rx_pending == old(self).rx_pending,
            final(self).tx_attempt == 0,
            if is_control(msg@, ControlMessageType::SoftReset) {
                &&& final(self).rx_message_id is None
                &&& final(self).tx_message_id == 0
            } else {
                &&& final(self).rx_message_id == old(self).rx_message_id
                &&& final(self).tx_message_id == old(self).tx_message_id
            },
            final(self).tx_frame@ == frame_bytes(
                outbound_header(old(self).header_template, msg@, final(self).tx_message_id),
                message_objects(msg@),
            ),
            r matches TxAction::Send(f) && f@ == final(self).tx_frame@,
    {
        let empty: Vec<u32> = Vec::new();
        let (code, objs) = match msg {
            Message::Control(t) => {
                if let ControlMessageType::SoftReset = t {
                    self.rx_message_id = None;
                    self.tx_message_id = 0;
                }
                (t.to_bits(), &empty)
            },
            Message::Data(t, objs) => (t.to_bits(), objs),
        };
        assert(objs@ == message_objects(msg@));
        let h = Header::new(
            code,
            self.header_template.port_data_role,
            self.header_template.specification_revision,
            self.header_template.port_power_role,
            self.tx_message_id,
            objs.len() as u8,
        );
        self.tx_frame = encode_frame(h, objs);
        self.tx_attempt = 0;
        TxAction::Send(copy_bytes(&self.tx_frame))
    }

    fn retry(&mut self) -> (r: TxAction)
        requires
            old(self).wf(),
        ensures
            final(self).wf(),
            final(self).header_template == old(self).header_template,
            final(self).rx_pending == old(self).rx_pending,
            final(self).tx_frame == old(self).tx_frame,
            final(self).rx_message_id == old(self).rx_message_id,
            if old(self).tx_attempt < RETRY_COUNT {
                &&& final(self).tx_attempt == old(self).tx_attempt + 1
                &&& final(self).tx_message_id == old(self).tx_message_id
                &&& r matches TxAction::Send(f) && f@ == old(self).tx_frame@
            } else {
                &&& final(self).tx_attempt == old(self).tx_attempt
                &&& final(self).tx_message_id == next_id(old(self).tx_message_id)
                &&& r == TxAction::Done(false)
            },
    {
        if self.tx_attempt < RETRY_COUNT {
            self.tx_attempt = self.tx_attempt + 1;
            TxAction::Send(copy_bytes(&self.tx_frame))
        } else {
            self.tx_message_id = (self.tx_message_id + 1) % 8;
            TxAction::Done(false)
        }
    }

    /// One step of a transmission started by `transmit`.
    ///
    /// After the frame went out, a GoodCRC is awaited for at most
    /// `TIMEOUT_RECEIVE_MS`. Each failed attempt is followed by another, up to
    /// `RETRY_COUNT` retries. When the transmission ends, with or without
    /// GoodCRC, the outbound id moves on by one, modulo 8.
    pub fn transmit_step(&mut self, ev: TxEvent) -> (r: TxAction)
        requires
            old(self).wf(),
        ensures
            final(self).wf(),
            final(self).header_template == old(self).header_template,
            final(self).tx_frame == old(self).tx_frame,
            (final(self).tx_message_id, final(self).tx_attempt, r is Done || r is HardReset)
                == tx_after(
                old(self).tx_message_id,
                old(self).tx_attempt,
                tx_step_kind(ev, old(self).tx_message_id),
            ),
            match tx_step_kind(ev, old(self).tx_message_id) {
                TxStepKind::AwaitReply => {
                    &&& final(self).rx_pending == old(self).rx_pending
                    &&& r == TxAction::AwaitGoodCrc(TIMEOUT_RECEIVE_MS)
                    &&& final(self).rx_message_id == old(self).rx_message_id
                    &&& final(self).tx_message_id == old(self).tx_message_id
                    &&& final(self).tx_attempt == old(self).tx_attempt
                },
                TxStepKind::Acked => {
                    &&& final(self).rx_pending == old(self).rx_pending
                    &&& r == TxAction::Done(true)
                    &&& final(self).rx_message_id == old(self).rx_message_id
                    &&& final(self).tx_message_id == next_id(old(self).tx_message_id)
                },
                TxStepKind::HardReset => {
                    &&& final(self).rx_pending is None
                    &&& r is HardReset
                    &&& final(self).rx_message_id is None
                    &&& final(self).tx_message_id == 0
                },
                TxStepKind::Retry => {
                    &&& final(self).rx_pending == old(self).rx_pending
                    &&& final(self).rx_message_id == old(self).rx_message_id
                    &&& if old(self).tx_attempt < RETRY_COUNT {
                        &&& final(self).tx_attempt == old(self).tx_attempt + 1
                        &&& final(self).tx_message_id == old(self).tx_message_id
                        &&& r matches TxAction::Send(f) && f@ == old(self).tx_frame@
                    } else {
                        &&& final(self).tx_message_id == next_id(old(self).tx_message_id)
                        &&& r == TxAction::Done(false)
                    }
                },
            },
    {
        match ev {
            TxEvent::Sent(Ok(())) => TxAction::AwaitGoodCrc(TIMEOUT_RECEIVE_MS),
            TxEvent::Sent(Err(TxError::Discarded)) => self.retry(),
            TxEvent::Sent(Err(TxError::HardReset)) => {
                self.handle_hard_reset();
                TxAction::HardReset
            },
            TxEvent::Reply(Ok(b)) => {
                if b.len() == 2 {
                    let h = read_header(&b);
                    if h.number_of_data_objects == 0 && h.message_type == 1 && h.message_id
                        == self.tx_message_id {
                        self.tx_message_id = (self.tx_message_id + 1) % 8;
                        return TxAction::Done(true);
                    }
                }
                self.retry()
            },
            TxEvent::Reply(Err(RxError::HardReset)) => {
                self.handle_hard_reset();
                TxAction::HardReset
            },
            TxEvent::Reply(Err(_)) => self.retry(),
            TxEvent::TimedOut => self.retry(),
        }
    }
}


/// Once a frame is accepted, every later frame with the same id that is not
/// a SoftReset is a duplicate: the engine acknowledges it and drops it.
pub proof fn lemma_repeats_dropped(rx: Option<u8>, first: Header, repeats: Seq<Header>)
    requires
        !is_duplicate(rx, first),
        forall|i: int|
            0 <= i < repeats.len() ==> (#[trigger] repeats[i]).message_id == first.message_id
                && !is_soft_reset(repeats[i]),
    ensures
        rx_id_after(rx, first) == Some(first.message_id),
        forall|i: int|
            0 <= i < repeats.len() ==> is_duplicate(
                rx_id_after_all(rx_id_after(rx, first), repeats.take(i)),
                #[trigger] repeats[i],
            ),
        rx_id_after_all(rx_id_after(rx, first), repeats) == Some(first.message_id),
    decreases repeats.len(),
{
    let start = rx_id_after(rx, first);
    if repeats.len() > 0 {
        let init = repeats.drop_last();
        lemma_repeats_dropped(rx, first, init);
        assert forall|i: int| 0 <= i < repeats.len() implies is_duplicate(
            rx_id_after_all(start, repeats.take(i)),
            #[trigger] repeats[i],
        ) by {
            if i < init.len() {
                assert(repeats.take(i) =~= init.take(i));
                assert(init[i] == repeats[i]);
            } else {
                assert(repeats.take(i) =~= init);
            }
        }
    }
}

/// The two bytes sent back for a received frame decode as a GoodCRC that
/// carries the frame's message id.
pub proof fn lemma_good_crc_reply(template: Header, f: Seq<u8>)
    requires
        template.wf(),
        frame_ok(f),
    ensures
        is_good_crc_for(
            le16(good_crc_header(template, frame_header(f)).bits() as u16),
            frame_header(f).message_id,
        ),
        frame_header(le16(good_crc_header(template, frame_header(f)).bits() as u16))
            == good_crc_header(template, frame_header(f)),
{
    let g = good_crc_header(template, frame_header(f));
    crate::header::lemma_header_round_trip(g);
    let b = le16(g.bits() as u16);
    assert(b[0] + 256 * b[1] == g.bits());
}


/// A transmission that sees no hard reset keeps its message id while it
/// runs, and when it ends, acknowledged or not, the next id is one more,
/// modulo 8.
pub proof fn lemma_transmission_advances_id(id: u8, attempt: u8, ks: Seq<TxStepKind>)
    requires
        id < 8,
        attempt <= RETRY_COUNT,
        forall|i: int| 0 <= i < ks.len() ==> !(#[trigger] ks[i] is HardReset),
    ensures
        ({
            let (i, a, done) = tx_run(id, attempt, ks);
            &&& a <= RETRY_COUNT
            &&& done ==> i == next_id(id)
            &&& !done ==> i == id
        }),
    decreases ks.len(),
{
    if ks.len() > 0 {
        let init = ks.drop_last();
        assert forall|i: int| 0 <= i < init.len() implies !(#[trigger] init[i] is HardReset) by {
            assert(init[i] == ks[i]);
        }
        lemma_transmission_advances_id(id, attempt, init);
        assert(!(ks[ks.len() - 1] is HardReset));
    }
}


proof fn lemma_le32_round_trip(w: u32)
    ensures
        le32(w).len() == 4,
        le32_at(le32(w), 0) == w,
{
    let b = le32(w);
    let x = w as int;
    assert(x % 0x100 + 0x100 * ((x / 0x100) % 0x100) + 0x1_0000 * ((x / 0x1_0000) % 0x100)
        + 0x100_0000 * (x / 0x100_0000) == x) by (nonlinear_arith)
        requires
            0 <= x < 0x1_0000_0000,
    ;
    assert(b[0] == x % 0x100 && b[1] == (x / 0x100) % 0x100 && b[2] == (x / 0x1_0000) % 0x100
        && b[3] == x / 0x100_0000);
}

proof fn lemma_words_le(ws: Seq<u32>)
    ensures
        words_le(ws).len() == 4 * ws.len(),
        forall|i: int| 0 <= i < ws.len() ==> le32_at(words_le(ws), 4 * i) == #[trigger] ws[i],
    decreases ws.len(),
{
    if ws.len() > 0 {
        let init = ws.drop_last();
        let p = words_le(init);
        let w = ws.last();
        lemma_words_le(init);
        lemma_le32_round_trip(w);
        let all = words_le(ws);
        assert(all == p + le32(w));
        assert forall|i: int| 0 <= i < ws.len() implies le32_at(all, 4 * i) == #[trigger] ws[i] by {
            if i < init.len() {
                assert(init[i] == ws[i]);
                assert(le32_at(p, 4 * i) == init[i]);
                assert(all[4 * i] == p[4 * i]);
                assert(all[4 * i + 1] == p[4 * i + 1]);
                assert(all[4 * i + 2] == p[4 * i + 2]);
                assert(all[4 * i + 3] == p[4 * i + 3]);
            } else {
                let b = le32(w);
                assert(all[4 * i] == b[0]);
                assert(all[4 * i + 1] == b[1]);
                assert(all[4 * i + 2] == b[2]);
                assert(all[4 * i + 3] == b[3]);
            }
        }
    }
}

/// The frame laid out for a message decodes back to that message, under the
/// header it was sent with: the receiving side reads what the transmitting
/// side wrote. A data message carries at least one object.
pub proof fn lemma_frame_round_trip(template: Header, m: MessageView, id: u8, cap: nat)
    requires
        template.wf(),
        id < 8,
        message_objects(m).len() <= MAX_DATA_OBJECTS,
        cap >= message_objects(m).len(),
        m is Data ==> message_objects(m).len() > 0,
    ensures
        frame_ok(frame_bytes(outbound_header(template, m, id), message_objects(m))),
        frame_header(frame_bytes(outbound_header(template, m, id), message_objects(m)))
            == outbound_header(template, m, id),
        message_of(frame_bytes(outbound_header(template, m, id), message_objects(m)), cap) == m,
{
    let h = outbound_header(template, m, id);
    let objs = message_objects(m);
    let f = frame_bytes(h, objs);
    crate::header::lemma_header_round_trip(h);
    lemma_words_le(objs);
    let hb = le16(h.bits() as u16);
    assert(f[0] == hb[0] && f[1] == hb[1]);
    assert(frame_header(f) == h);
    let got = objects_of(f, min_nat(h.number_of_data_objects as nat, cap));
    assert forall|i: int| 0 <= i < objs.len() implies #[trigger] got[i] == objs[i] by {
        let w = words_le(objs);
        assert(f[2 + 4 * i] == w[4 * i]);
        assert(f[2 + 4 * i + 1] == w[4 * i + 1]);
        assert(f[2 + 4 * i + 2] == w[4 * i + 2]);
        assert(f[2 + 4 * i + 3] == w[4 * i + 3]);
        assert(le32_at(w, 4 * i) == objs[i]);
    }
    match m {
        MessageView::Control(t) => {
            assert(control_type_of(control_code(t)) == t);
        },
        MessageView::Data(t, o) => {
            assert(data_type_of(data_code(t)) == t);
            assert(got =~= o);
        },
    }
}

} // verus!
