use vstd::prelude::*;
use crate::header::{ControlMessageType, DataMessageType};
use crate::protocol_engine::{Message, MessageView, ProtocolEngine};
use crate::request::{lemma_request_round_trip, Request};
use crate::sink_capabilities::{lemma_fixed_supply_round_trip, FixedSupply};

verus! {

/// Time to wait for a response to a Request or a SoftReset, in milliseconds.
pub const TIMEOUT_SENDER_RESPONSE_MS: u64 = 30;

/// Time to wait for PS_RDY after Accept, in milliseconds.
pub const TIMEOUT_PS_TRANSITION_MS: u64 = 500;

/// The largest current that a 10-bit field in 10 mA units holds.
pub const MAX_CURRENT_10MA: u16 = 1023;

/// 5 V in 50 mV units.
pub const VOLTAGE_5V_50MV: u16 = 100;

/// Where the sink policy stands between two events.
#[derive(Debug, Clone, Copy, PartialEq, Eq, Structural)]
pub enum PeState {
    /// Waiting for the next message.
    Idle,
    /// Sending a reply (Reject or SinkCapabilities).
    Replying,
    /// Sending Accept for the peer's SoftReset.
    AcceptingSoftReset,
    /// Sending a Request.
    Requesting,
    /// Waiting for Accept, Reject or Wait.
    AwaitingAccept,
    /// Waiting for PS_RDY.
    AwaitingPsRdy,
    /// Sending an own SoftReset.
    SoftResetting,
    /// Waiting for the Accept of an own SoftReset.
    AwaitingSoftResetAccept,
    /// A hard reset ended this run; the caller sets up a new protocol engine.
    Stopped,
}

/// What the protocol engine reported to the policy engine.
#[derive(Debug)]
pub enum PeEvent {
    /// A message was delivered.
    Received(Message),
    /// The requested transmission ended: whether a GoodCRC came back.
    Transmitted(bool),
    /// A timed receive ran out.
    TimedOut,
    /// A hard reset was seen.
    HardReset,
}

/// The mathematical value of an event.
pub enum PeEventView {
    Received(MessageView),
    Transmitted(bool),
    TimedOut,
    HardReset,
}

impl View for PeEvent {
    type V = PeEventView;

    open spec fn view(&self) -> PeEventView {
        match self {
            PeEvent::Received(m) => PeEventView::Received(m@),
            PeEvent::Transmitted(ok) => PeEventView::Transmitted(*ok),
            PeEvent::TimedOut => PeEventView::TimedOut,
            PeEvent::HardReset => PeEventView::HardReset,
        }
    }
}

/// What the policy engine asks of the protocol engine next.
#[derive(Debug)]
pub enum PeAction {
    /// Receive the next message, without deadline.
    Receive,
    /// Receive the next message within this many milliseconds.
    ReceiveWithin(u64),
    /// Transmit this message.
    Transmit(Message),
    /// Send a hard reset, then end the run.
    TransmitHardReset,
    /// End the run.
    Exit,
}

/// The mathematical value of an action.
pub enum PeActionView {
    Receive,
    ReceiveWithin(u64),
    Transmit(MessageView),
    TransmitHardReset,
    Exit,
}

impl View for PeAction {
    type V = PeActionView;

    open spec fn view(&self) -> PeActionView {
        match self {
            PeAction::Receive => PeActionView::Receive,
            PeAction::ReceiveWithin(t) => PeActionView::ReceiveWithin(*t),
            PeAction::Transmit(m) => PeActionView::Transmit(m@),
            PeAction::TransmitHardReset => PeActionView::TransmitHardReset,
            PeAction::Exit => PeActionView::Exit,
        }
    }
}

/// The operating current in 10 mA units for a current in mA: rounded up,
/// and at most what ten bits hold.
pub open spec fn op10_of(ma: u16) -> u16 {
    if (ma + 9) / 10 > MAX_CURRENT_10MA {
        MAX_CURRENT_10MA
    } else {
        ((ma + 9) / 10) as u16
    }
}

/// Converts a current in mA to the 10 mA units of the wire, rounding up and
/// saturating at the 10-bit maximum.
pub fn operating_current_from_ma(ma: u16) -> (r: u16)
    ensures
        r == op10_of(ma),
        r <= MAX_CURRENT_10MA,
{
    let up: u32 = (ma as u32 + 9) / 10;
    if up > MAX_CURRENT_10MA as u32 {
        MAX_CURRENT_10MA
    } else {
        up as u16
    }
}

/// The sink's single capability: fixed 5 V at the operating current, no flags.
pub open spec fn sink_supply(op: u16) -> FixedSupply {
    FixedSupply {
        operating_current: op,
        voltage: VOLTAGE_5V_50MV,
        dual_role_data: false,
        usb_communications_capable: false,
        unconstrained_power: false,
        higher_capability: false,
        dual_power_role: false,
    }
}

/// The request for the first source capability at the operating current.
pub open spec fn sink_request(op: u16) -> Request {
    Request {
        max_operating_current: op,
        operating_current: op,
        no_usb_suspend: false,
        usb_communications_capable: false,
        capability_mismatch: false,
        give_back_flag: false,
        object_position: 1,
    }
}

/// The SinkCapabilities message with the sink's one supply object.
pub open spec fn sink_capabilities_message(op: u16) -> MessageView {
    MessageView::Data(DataMessageType::SinkCapabilities, seq![sink_supply(op).bits() as u32])
}

/// The Request message for the first source capability.
pub open spec fn request_message(op: u16) -> MessageView {
    MessageView::Data(DataMessageType::Request, seq![sink_request(op).bits() as u32])
}

/// Send a hard reset and stop.
pub open spec fn hard_reset_step() -> (PeState, bool, PeActionView) {
    (PeState::Stopped, false, PeActionView::TransmitHardReset)
}

/// Start an own SoftReset.
pub open spec fn soft_reset_step() -> (PeState, bool, PeActionView) {
    (
        PeState::SoftResetting,
        false,
        PeActionView::Transmit(MessageView::Control(ControlMessageType::SoftReset)),
    )
}

/// Answer the peer's SoftReset with Accept.
pub open spec fn accept_soft_reset_step() -> (PeState, bool, PeActionView) {
    (
        PeState::AcceptingSoftReset,
        false,
        PeActionView::Transmit(MessageView::Control(ControlMessageType::Accept)),
    )
}

/// What the sink does with a message that arrives while it is idle.
pub open spec fn idle_step(ready: bool, op: u16, m: MessageView) -> (PeState, bool, PeActionView) {
    match m {
        MessageView::Control(ControlMessageType::SoftReset) => accept_soft_reset_step(),
        MessageView::Control(ControlMessageType::Ping) => (
            PeState::Idle,
            ready,
            PeActionView::Receive,
        ),
        MessageView::Control(ControlMessageType::GetSinkCap) => (
            PeState::Replying,
            ready,
            PeActionView::Transmit(sink_capabilities_message(op)),
        ),
        MessageView::Data(DataMessageType::SourceCapabilities, _) => (
            PeState::Requesting,
            ready,
            PeActionView::Transmit(request_message(op)),
        ),
        MessageView::Data(DataMessageType::VendorDefined, _) => (
            PeState::Idle,
            ready,
            PeActionView::Receive,
        ),
        _ => (
            PeState::Replying,
            ready,
            PeActionView::Transmit(MessageView::Control(ControlMessageType::Reject)),
        ),
    }
}

/// The sink policy: from a state, the ready flag and an event to the next
/// state, ready flag and action. An event that the state does not wait for
/// is a protocol fault and ends in a hard reset.
pub open spec fn pe_step(s: PeState, ready: bool, op: u16, ev: PeEventView) -> (
    PeState,
    bool,
    PeActionView,
) {
    match (s, ev) {
        (_, PeEventView::HardReset) => (PeState::Stopped, false, PeActionView::Exit),
        (PeState::Stopped, _) => (PeState::Stopped, false, PeActionView::Exit),
        (PeState::Idle, PeEventView::Received(m)) => idle_step(ready, op, m),
        (PeState::Replying, PeEventView::Transmitted(ok)) => if ok {
            (PeState::Idle, ready, PeActionView::Receive)
        } else {
            soft_reset_step()
        },
        (PeState::AcceptingSoftReset, PeEventView::Transmitted(ok)) => if ok {
            (PeState::Idle, false, PeActionView::Receive)
        } else {
            soft_reset_step()
        },
        (PeState::Requesting, PeEventView::Transmitted(ok)) => if ok {
            (
                PeState::AwaitingAccept,
                ready,
                PeActionView::ReceiveWithin(TIMEOUT_SENDER_RESPONSE_MS),
            )
        } else {
            soft_reset_step()
        },
        (PeState::AwaitingAccept, PeEventView::Received(m)) => match m {
            MessageView::Control(ControlMessageType::SoftReset) => accept_soft_reset_step(),
            MessageView::Control(ControlMessageType::Accept) => (
                PeState::AwaitingPsRdy,
                ready,
                PeActionView::ReceiveWithin(TIMEOUT_PS_TRANSITION_MS),
            ),
            MessageView::Control(ControlMessageType::Reject) => (
                PeState::Idle,
                ready,
                PeActionView::Receive,
            ),
            MessageView::Control(ControlMessageType::Wait) => (
                PeState::Idle,
                ready,
                PeActionView::Receive,
            ),
            _ => soft_reset_step(),
        },
        (PeState::AwaitingPsRdy, PeEventView::Received(m)) => match m {
            MessageView::Control(ControlMessageType::SoftReset) => accept_soft_reset_step(),
            MessageView::Control(ControlMessageType::PsRdy) => (
                PeState::Idle,
                true,
                PeActionView::Receive,
            ),
            _ => soft_reset_step(),
        },
        (PeState::SoftResetting, PeEventView::Transmitted(ok)) => if ok {
            (
                PeState::AwaitingSoftResetAccept,
                false,
                PeActionView::ReceiveWithin(TIMEOUT_SENDER_RESPONSE_MS),
            )
        } else {
            hard_reset_step()
        },
        (PeState::AwaitingSoftResetAccept, PeEventView::Received(m)) => if m
            == MessageView::Control(ControlMessageType::Accept) {
            (PeState::Idle, false, PeActionView::Receive)
        } else {
            hard_reset_step()
        },
        _ => hard_reset_step(),
    }
}


/// The sink side of the policy engine, holding the protocol engine that it drives.
pub struct PolicyEngine {
    pub protocol_engine: ProtocolEngine,
    /// Operating current in 10 mA units.
    pub operating_current: u16,
    /// Whether a power contract is in place.
    pub ready: bool,
    pub state: PeState,
}

impl PolicyEngine {
    /// The protocol engine is well-formed and the current fits ten bits.
    pub open spec fn wf(&self) -> bool {
        &&& self.protocol_engine.wf()
        &&& self.operating_current <= MAX_CURRENT_10MA
    }

    /// A policy engine for a sink that draws `operating_current_ma` mA at 5 V.
    pub fn new(protocol_engine: ProtocolEngine, operating_current_ma: u16) -> (r: Self)
        requires
            protocol_engine.wf(),
        ensures
            r.wf(),
            r.protocol_engine == protocol_engine,
            r.operating_current == op10_of(operating_current_ma),
            !r.ready,
            r.state == PeState::Idle,
    {
        PolicyEngine {
            protocol_engine,
            operating_current: operating_current_from_ma(operating_current_ma),
            ready: false,
            state: PeState::Idle,
        }
    }

    /// The SinkCapabilities message: one fixed 5 V supply at the operating current.
    pub fn sink_capabilities(&self) -> (m: Message)
        requires
            self.wf(),
        ensures
            m@ == sink_capabilities_message(self.operating_current),
    {
        let obj = FixedSupply {
            operating_current: self.operating_current,
            voltage: VOLTAGE_5V_50MV,
            dual_role_data: false,
            usb_communications_capable: false,
            unconstrained_power: false,
            higher_capability: false,
            dual_power_role: false,
        };
        let mut objs: Vec<u32> = Vec::new();
        objs.push(obj.to_bits());
        assert(objs@ =~= seq![sink_supply(self.operating_current).bits() as u32]);
        Message::Data(DataMessageType::SinkCapabilities, objs)
    }

    /// The Request for the first source capability at the operating current.
    pub fn request(&self) -> (m: Message)
        requires
            self.wf(),
        ensures
            m@ == request_message(self.operating_current),
    {
        let obj = Request {
            max_operating_current: self.operating_current,
            operating_current: self.operating_current,
            no_usb_suspend: false,
            usb_communications_capable: false,
            capability_mismatch: false,
            give_back_flag: false,
            object_position: 1,
        };
        let mut objs: Vec<u32> = Vec::new();
        objs.push(obj.to_bits());
        assert(objs@ =~= seq![sink_request(self.operating_current).bits() as u32]);
        Message::Data(DataMessageType::Request, objs)
    }

    fn hard_reset(&mut self) -> (r: PeAction)
        ensures
            final(self).protocol_engine == old(self).protocol_engine,
            final(self).operating_current == old(self).operating_current,
            (final(self).state, final(self).ready, r@) == hard_reset_step(),
    {
        self.state = PeState::Stopped;
        self.ready = false;
        PeAction::TransmitHardReset
    }

    fn soft_reset(&mut self) -> (r: PeAction)
        ensures
            final(self).protocol_engine == old(self).protocol_engine,
            final(self).operating_current == old(self).operating_current,
            (final(self).state, final(self).ready, r@) == soft_reset_step(),
    {
        self.state = PeState::SoftResetting;
        self.ready = false;
        PeAction::Transmit(Message::Control(ControlMessageType::SoftReset))
    }

    fn accept_soft_reset(&mut self) -> (r: PeAction)
        ensures
            final(self).protocol_engine == old(self).protocol_engine,
            final(self).operating_current == old(self).operating_current,
            (final(self).state, final(self).ready, r@) == accept_soft_reset_step(),
    {
        self.state = PeState::AcceptingSoftReset;
        self.ready = false;
        PeAction::Transmit(Message::Control(ControlMessageType::Accept))
    }

    fn handle_message(&mut self, msg: Message) -> (r: PeAction)
        requires
            old(self).wf(),
        ensures
            final(self).protocol_engine == old(self).protocol_engine,
            final(self).operating_current == old(self).operating_current,
            (final(self).state, final(self).ready, r@) == idle_step(
                old(self).ready,
                old(self).operating_current,
                msg@,
            ),
    {
        match msg {
            Message::Control(ControlMessageType::SoftReset) => self.accept_soft_reset(),
            Message::Control(ControlMessageType::Ping) => {
                self.state = PeState::Idle;
                PeAction::Receive
            },
            Message::Control(ControlMessageType::GetSinkCap) => {
                self.state = PeState::Replying;
                PeAction::Transmit(self.sink_capabilities())
            },
            Message::Data(DataMessageType::SourceCapabilities, _) => {
                self.state = PeState::Requesting;
                PeAction::Transmit(self.request())
            },
            Message::Data(DataMessageType::VendorDefined, _) => {
                self.state = PeState::Idle;
                PeAction::Receive
            },
            _ => {
                self.state = PeState::Replying;
                PeAction::Transmit(Message::Control(ControlMessageType::Reject))
            },
        }
    }

    /// Runs the sink policy for one event: takes what the protocol engine reported
    /// and says what it should do next.
    pub fn run(&mut self, ev: PeEvent) -> (r: PeAction)
        requires
            old(self).wf(),
        ensures
            final(self).wf(),
            final(self).protocol_engine == old(self).protocol_engine,
            final(self).operating_current == old(self).operating_current,
            (final(self).state, final(self).ready, r@) == pe_step(
                old(self).state,
                old(self).ready,
                old(self).operating_current,
                ev@,
            ),
    {
        if let PeEvent::HardReset = ev {
            self.state = PeState::Stopped;
            self.ready = false;
            return PeAction::Exit;
        }
        match self.state {
            PeState::Stopped => {
                self.ready = false;
                PeAction::Exit
            },
            PeState::Idle => match ev {
                PeEvent::Received(m) => self.handle_message(m),
                _ => self.hard_reset(),
            },
            PeState::Replying => match ev {
                PeEvent::Transmitted(true) => {
                    self.state = PeState::Idle;
                    PeAction::Receive
                },
                PeEvent::Transmitted(false) => self.soft_reset(),
                _ => self.hard_reset(),
            },
            PeState::AcceptingSoftReset => match ev {
                PeEvent::Transmitted(true) => {
                    self.state = PeState::Idle;
                    self.ready = false;
                    PeAction::Receive
                },
                PeEvent::Transmitted(false) => self.soft_reset(),
                _ => self.hard_reset(),
            },
            PeState::Requesting => match ev {
                PeEvent::Transmitted(true) => {
                    self.state = PeState::AwaitingAccept;
                    PeAction::ReceiveWithin(TIMEOUT_SENDER_RESPONSE_MS)
                },
                PeEvent::Transmitted(false) => self.soft_reset(),
                _ => self.hard_reset(),
            },
            PeState::AwaitingAccept => match ev {
                PeEvent::Received(Message::Control(ControlMessageType::SoftReset)) => {
                    self.accept_soft_reset()
                },
                PeEvent::Received(Message::Control(ControlMessageType::Accept)) => {
                    self.state = PeState::AwaitingPsRdy;
                    PeAction::ReceiveWithin(TIMEOUT_PS_TRANSITION_MS)
                },
                PeEvent::Received(Message::Control(ControlMessageType::Reject))
                | PeEvent::Received(Message::Control(ControlMessageType::Wait)) => {
                    self.state = PeState::Idle;
                    PeAction::Receive
                },
                PeEvent::Received(_) => self.soft_reset(),
                _ => self.hard_reset(),
            },
            PeState::AwaitingPsRdy => match ev {
                PeEvent::Received(Message::Control(ControlMessageType::SoftReset)) => {
                    self.accept_soft_reset()
                },
                PeEvent::Received(Message::Control(ControlMessageType::PsRdy)) => {
                    self.state = PeState::Idle;
                    self.ready = true;
                    PeAction::Receive
                },
                PeEvent::Received(_) => self.soft_reset(),
                _ => self.hard_reset(),
            },
            PeState::SoftResetting => match ev {
                PeEvent::Transmitted(true) => {
                    self.state = PeState::AwaitingSoftResetAccept;
                    self.ready = false;
                    PeAction::ReceiveWithin(TIMEOUT_SENDER_RESPONSE_MS)
                },
                PeEvent::Transmitted(false) => self.hard_reset(),
                _ => self.hard_reset(),
            },
            PeState::AwaitingSoftResetAccept => match ev {
                PeEvent::Received(Message::Control(ControlMessageType::Accept)) => {
                    self.state = PeState::Idle;
                    self.ready = false;
                    PeAction::Receive
                },
                _ => self.hard_reset(),
            },
        }
    }
}


/// The operating current is the configured current rounded up to 10 mA
/// steps up to 10230 mA, and 1023 above; either way it survives encoding in
/// the Request and in the sink's fixed-supply object.
pub proof fn lemma_operating_current(ma: u16)
    ensures
        op10_of(ma) <= MAX_CURRENT_10MA,
        ma <= 10230 ==> ma <= 10 * op10_of(ma) < ma + 10,
        ma > 10230 ==> op10_of(ma) == MAX_CURRENT_10MA,
        Request::of_bits(sink_request(op10_of(ma)).bits() as u32) == sink_request(op10_of(ma)),
        FixedSupply::of_bits(sink_supply(op10_of(ma)).bits() as u32) == sink_supply(op10_of(ma)),
{
    lemma_request_round_trip(sink_request(op10_of(ma)));
    lemma_fixed_supply_round_trip(sink_supply(op10_of(ma)));
}

/// Every timed receive that the policy asks for carries its deadline:
/// the sender-response time while Accept is awaited (after a Request or an
/// own SoftReset), the power-supply transition time while PS_RDY is awaited.
/// Those waits are always timed, and running out of time ends in a hard reset.
pub proof fn lemma_deadlines(s: PeState, ready: bool, op: u16, ev: PeEventView)
    ensures
        ({
            let (s2, _, a) = pe_step(s, ready, op, ev);
            &&& (a matches PeActionView::ReceiveWithin(t) ==> (t == TIMEOUT_SENDER_RESPONSE_MS && (
            s2 == PeState::AwaitingAccept || s2 == PeState::AwaitingSoftResetAccept)) || (t
                == TIMEOUT_PS_TRANSITION_MS && s2 == PeState::AwaitingPsRdy))
            &&& (s2 == PeState::AwaitingAccept || s2 == PeState::AwaitingSoftResetAccept)
                ==> a == PeActionView::ReceiveWithin(TIMEOUT_SENDER_RESPONSE_MS)
            &&& s2 == PeState::AwaitingPsRdy ==> a == PeActionView::ReceiveWithin(
                TIMEOUT_PS_TRANSITION_MS,
            )
        }),
        (s == PeState::AwaitingAccept || s == PeState::AwaitingPsRdy || s
            == PeState::AwaitingSoftResetAccept) ==> pe_step(s, ready, op, PeEventView::TimedOut)
            == hard_reset_step(),
{
}

} // verus!
