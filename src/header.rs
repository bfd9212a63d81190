use vstd::prelude::*;

verus! {

/// Control message types (4-bit field of the header).
#[derive(Debug, Clone, Copy, PartialEq, Eq, Structural)]
pub enum ControlMessageType {
    GoodCRC,
    GotoMin,
    Accept,
    Reject,
    Ping,
    PsRdy,
    GetSourceCap,
    GetSinkCap,
    DrSwap,
    PrSwap,
    VconnSwap,
    Wait,
    SoftReset,
    Reserved,
}

pub open spec fn control_type_of(v: u8) -> ControlMessageType {
    let t = v % 16;
    if t == 1 {
        ControlMessageType::GoodCRC
    } else if t == 2 {
        ControlMessageType::GotoMin
    } else if t == 3 {
        ControlMessageType::Accept
    } else if t == 4 {
        ControlMessageType::Reject
    } else if t == 5 {
        ControlMessageType::Ping
    } else if t == 6 {
        ControlMessageType::PsRdy
    } else if t == 7 {
        ControlMessageType::GetSourceCap
    } else if t == 8 {
        ControlMessageType::GetSinkCap
    } else if t == 9 {
        ControlMessageType::DrSwap
    } else if t == 10 {
        ControlMessageType::PrSwap
    } else if t == 11 {
        ControlMessageType::VconnSwap
    } else if t == 12 {
        ControlMessageType::Wait
    } else if t == 13 {
        ControlMessageType::SoftReset
    } else {
        ControlMessageType::Reserved
    }
}

pub open spec fn control_code(t: ControlMessageType) -> u8 {
    match t {
        ControlMessageType::GoodCRC => 1,
        ControlMessageType::GotoMin => 2,
        ControlMessageType::Accept => 3,
        ControlMessageType::Reject => 4,
        ControlMessageType::Ping => 5,
        ControlMessageType::PsRdy => 6,
        ControlMessageType::GetSourceCap => 7,
        ControlMessageType::GetSinkCap => 8,
        ControlMessageType::DrSwap => 9,
        ControlMessageType::PrSwap => 10,
        ControlMessageType::VconnSwap => 11,
        ControlMessageType::Wait => 12,
        ControlMessageType::SoftReset => 13,
        ControlMessageType::Reserved => 0,
    }
}

impl ControlMessageType {
    /// Decodes the low four bits of `v`; values without a meaning give `Reserved`.
    pub fn from_bits(v: u8) -> (r: Self)
        ensures
            r == control_type_of(v),
    {
        let t: u8 = v % 16;
        match t {
            1 => ControlMessageType::GoodCRC,
            2 => ControlMessageType::GotoMin,
            3 => ControlMessageType::Accept,
            4 => ControlMessageType::Reject,
            5 => ControlMessageType::Ping,
            6 => ControlMessageType::PsRdy,
            7 => ControlMessageType::GetSourceCap,
            8 => ControlMessageType::GetSinkCap,
            9 => ControlMessageType::DrSwap,
            10 => ControlMessageType::PrSwap,
            11 => ControlMessageType::VconnSwap,
            12 => ControlMessageType::Wait,
            13 => ControlMessageType::SoftReset,
            _ => ControlMessageType::Reserved,
        }
    }

    /// The 4-bit wire code; `Reserved` is sent as 0.
    pub fn to_bits(self) -> (r: u8)
        ensures
            r == control_code(self),
            r < 16,
    {
        match self {
            ControlMessageType::GoodCRC => 1,
            ControlMessageType::GotoMin => 2,
            ControlMessageType::Accept => 3,
            ControlMessageType::Reject => 4,
            ControlMessageType::Ping => 5,
            ControlMessageType::PsRdy => 6,
            ControlMessageType::GetSourceCap => 7,
            ControlMessageType::GetSinkCap => 8,
            ControlMessageType::DrSwap => 9,
            ControlMessageType::PrSwap => 10,
            ControlMessageType::VconnSwap => 11,
            ControlMessageType::Wait => 12,
            ControlMessageType::SoftReset => 13,
            ControlMessageType::Reserved => 0,
        }
    }
}


/// Data message types (4-bit field of the header).
#[derive(Debug, Clone, Copy, PartialEq, Eq, Structural)]
pub enum DataMessageType {
    SourceCapabilities,
    Request,
    Bist,
    SinkCapabilities,
    VendorDefined,
    Reserved,
}

pub open spec fn data_type_of(v: u8) -> DataMessageType {
    let t = v % 16;
    if t == 1 {
        DataMessageType::SourceCapabilities
    } else if t == 2 {
        DataMessageType::Request
    } else if t == 3 {
        DataMessageType::Bist
    } else if t == 4 {
        DataMessageType::SinkCapabilities
    } else if t == 15 {
        DataMessageType::VendorDefined
    } else {
        DataMessageType::Reserved
    }
}

pub open spec fn data_code(t: DataMessageType) -> u8 {
    match t {
        DataMessageType::SourceCapabilities => 1,
        DataMessageType::Request => 2,
        DataMessageType::Bist => 3,
        DataMessageType::SinkCapabilities => 4,
        DataMessageType::VendorDefined => 15,
        DataMessageType::Reserved => 0,
    }
}

impl DataMessageType {
    /// Decodes the low four bits of `v`; values without a meaning give `Reserved`.
    pub fn from_bits(v: u8) -> (r: Self)
        ensures
            r == data_type_of(v),
    {
        let t: u8 = v % 16;
        match t {
            1 => DataMessageType::SourceCapabilities,
            2 => DataMessageType::Request,
            3 => DataMessageType::Bist,
            4 => DataMessageType::SinkCapabilities,
            15 => DataMessageType::VendorDefined,
            _ => DataMessageType::Reserved,
        }
    }

    /// The 4-bit wire code; `Reserved` is sent as 0.
    pub fn to_bits(self) -> (r: u8)
        ensures
            r == data_code(self),
            r < 16,
    {
        match self {
            DataMessageType::SourceCapabilities => 1,
            DataMessageType::Request => 2,
            DataMessageType::Bist => 3,
            DataMessageType::SinkCapabilities => 4,
            DataMessageType::VendorDefined => 15,
            DataMessageType::Reserved => 0,
        }
    }
}

/// Data role of the port (1 bit).
#[derive(Debug, Clone, Copy, PartialEq, Eq, Structural)]
pub enum PortDataRole {
    UpstreamFacingPort,
    DownstreamFacingPort,
}

/// Revision of the specification that the sender follows (2 bits).
#[derive(Debug, Clone, Copy, PartialEq, Eq, Structural)]
pub enum SpecificationRevision {
    Revision1_0,
    Revision2_0,
    Reserved,
}

/// Power role of the port (1 bit).
#[derive(Debug, Clone, Copy, PartialEq, Eq, Structural)]
pub enum PortPowerRole {
    Sink,
    Source,
}

pub open spec fn data_role_code(r: PortDataRole) -> u16 {
    match r {
        PortDataRole::UpstreamFacingPort => 0,
        PortDataRole::DownstreamFacingPort => 1,
    }
}

pub open spec fn revision_code(r: SpecificationRevision) -> u16 {
    match r {
        SpecificationRevision::Revision1_0 => 0,
        SpecificationRevision::Revision2_0 => 1,
        SpecificationRevision::Reserved => 2,
    }
}

pub open spec fn power_role_code(r: PortPowerRole) -> u16 {
    match r {
        PortPowerRole::Sink => 0,
        PortPowerRole::Source => 1,
    }
}

pub open spec fn data_role_of(b: u16) -> PortDataRole {
    if b % 2 == 0 {
        PortDataRole::UpstreamFacingPort
    } else {
        PortDataRole::DownstreamFacingPort
    }
}

pub open spec fn revision_of(b: u16) -> SpecificationRevision {
    if b % 4 == 0 {
        SpecificationRevision::Revision1_0
    } else if b % 4 == 1 {
        SpecificationRevision::Revision2_0
    } else {
        SpecificationRevision::Reserved
    }
}

pub open spec fn power_role_of(b: u16) -> PortPowerRole {
    if b % 2 == 0 {
        PortPowerRole::Sink
    } else {
        PortPowerRole::Source
    }
}

/// The 16-bit message header. `message_type` is kept as its raw 4-bit code,
/// since its meaning depends on whether data objects follow.
#[derive(Debug, Clone, Copy, PartialEq, Eq, Structural)]
pub struct Header {
    pub message_type: u8,
    pub port_data_role: PortDataRole,
    pub specification_revision: SpecificationRevision,
    pub port_power_role: PortPowerRole,
    pub message_id: u8,
    pub number_of_data_objects: u8,
}

impl Header {
    /// Every field fits its width on the wire.
    pub open spec fn wf(&self) -> bool {
        &&& self.message_type < 16
        &&& self.message_id < 8
        &&& self.number_of_data_objects < 8
    }

    /// The header's 16-bit value; both reserved bits are zero.
    pub open spec fn bits(&self) -> int {
        self.message_type + 32 * data_role_code(self.port_data_role) + 64 * revision_code(
            self.specification_revision,
        ) + 256 * power_role_code(self.port_power_role) + 512 * self.message_id + 4096
            * self.number_of_data_objects
    }

    /// The header that a 16-bit value holds; reserved bits are ignored.
    pub open spec fn of_bits(v: u16) -> Header {
        Header {
            message_type: (v % 16) as u8,
            port_data_role: data_role_of(v / 32),
            specification_revision: revision_of(v / 64),
            port_power_role: power_role_of(v / 256),
            message_id: ((v / 512) % 8) as u8,
            number_of_data_objects: ((v / 4096) % 8) as u8,
        }
    }

    pub fn new(
        message_type: u8,
        port_data_role: PortDataRole,
        specification_revision: SpecificationRevision,
        port_power_role: PortPowerRole,
        message_id: u8,
        number_of_data_objects: u8,
    ) -> (r: Header)
        requires
            message_type < 16,
            message_id < 8,
            number_of_data_objects < 8,
        ensures
            r.wf(),
            r == (Header {
                message_type,
                port_data_role,
                specification_revision,
                port_power_role,
                message_id,
                number_of_data_objects,
            }),
    {
        Header {
            message_type,
            port_data_role,
            specification_revision,
            port_power_role,
            message_id,
            number_of_data_objects,
        }
    }

    /// Packs the fields into the header's 16-bit value.
    pub fn to_bits(&self) -> (r: u16)
        requires
            self.wf(),
        ensures
            r as int == self.bits(),
    {
        let role: u16 = match self.port_data_role {
            PortDataRole::UpstreamFacingPort => 0,
            PortDataRole::DownstreamFacingPort => 1,
        };
        let rev: u16 = match self.specification_revision {
            SpecificationRevision::Revision1_0 => 0,
            SpecificationRevision::Revision2_0 => 1,
            SpecificationRevision::Reserved => 2,
        };
        let power: u16 = match self.port_power_role {
            PortPowerRole::Sink => 0,
            PortPowerRole::Source => 1,
        };
        self.message_type as u16 + 32 * role + 64 * rev + 256 * power + 512
            * self.message_id as u16 + 4096 * self.number_of_data_objects as u16
    }

    /// Unpacks a 16-bit header value.
    pub fn from_bits(v: u16) -> (r: Header)
        ensures
            r.wf(),
            r == Header::of_bits(v),
    {
        let role = if (v / 32) % 2 == 0 {
            PortDataRole::UpstreamFacingPort
        } else {
            PortDataRole::DownstreamFacingPort
        };
        let rev = if (v / 64) % 4 == 0 {
            SpecificationRevision::Revision1_0
        } else if (v / 64) % 4 == 1 {
            SpecificationRevision::Revision2_0
        } else {
            SpecificationRevision::Reserved
        };
        let power = if (v / 256) % 2 == 0 {
            PortPowerRole::Sink
        } else {
            PortPowerRole::Source
        };
        Header {
            message_type: (v % 16) as u8,
            port_data_role: role,
            specification_revision: rev,
            port_power_role: power,
            message_id: ((v / 512) % 8) as u8,
            number_of_data_objects: ((v / 4096) % 8) as u8,
        }
    }

    /// The two bytes of the header on the wire, least significant first.
    pub fn to_le_bytes(&self) -> (r: [u8; 2])
        requires
            self.wf(),
        ensures
            r@ == le16(self.bits() as u16),
    {
        let v = self.to_bits();
        [(v % 256) as u8, (v / 256) as u8]
    }

    /// Reads a header from its two wire bytes, least significant first.
    pub fn from_le_bytes(b: [u8; 2]) -> (r: Header)
        ensures
            r.wf(),
            r == Header::of_bits((b[0] as u16 + 256 * b[1] as u16) as u16),
    {
        Header::from_bits(b[0] as u16 + 256 * b[1] as u16)
    }
}

/// The two little-endian bytes of a 16-bit value.
pub open spec fn le16(v: u16) -> Seq<u8> {
    seq![(v % 256) as u8, (v / 256) as u8]
}


/// A well-formed header packs into exactly two little-endian bytes, and
/// decoding those bytes gives the same header back.
pub proof fn lemma_header_round_trip(h: Header)
    requires
        h.wf(),
    ensures
        0 <= h.bits() < 0x10000,
        le16(h.bits() as u16).len() == 2,
        le16(h.bits() as u16)[0] + 256 * le16(h.bits() as u16)[1] == h.bits(),
        Header::of_bits(h.bits() as u16) == h,
{
    let t = h.message_type as int;
    let d = data_role_code(h.port_data_role) as int;
    let rv = revision_code(h.specification_revision) as int;
    let p = power_role_code(h.port_power_role) as int;
    let i = h.message_id as int;
    let n = h.number_of_data_objects as int;
    let v = h.bits();
    assert(v == t + 32 * d + 64 * rv + 256 * p + 512 * i + 4096 * n);
    assert(v % 16 == t && (v / 32) % 2 == d && (v / 64) % 4 == rv && (v / 256) % 2 == p && (v
        / 512) % 8 == i && (v / 4096) % 8 == n && v < 0x10000 && v % 256 + 256 * (v / 256) == v)
        by (nonlinear_arith)
        requires
            v == t + 32 * d + 64 * rv + 256 * p + 512 * i + 4096 * n,
            0 <= t < 16,
            0 <= d < 2,
            0 <= rv < 3,
            0 <= p < 2,
            0 <= i < 8,
            0 <= n < 8,
    ;
}

} // verus!
