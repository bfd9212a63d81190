use vstd::prelude::*;

verus! {

/// 0 or 1 for a one-bit flag.
pub open spec fn flag(b: bool) -> int {
    if b {
        1
    } else {
        0
    }
}

pub(crate) fn flag_bit(b: bool) -> (r: u32)
    ensures
        r as int == flag(b),
{
    if b {
        1
    } else {
        0
    }
}

/// Request data object: selects one of the source's capabilities by its
/// 1-based position, with currents in 10 mA units.
#[derive(Debug, Clone, Copy, PartialEq, Eq, Structural)]
pub struct Request {
    pub max_operating_current: u16,
    pub operating_current: u16,
    pub no_usb_suspend: bool,
    pub usb_communications_capable: bool,
    pub capability_mismatch: bool,
    pub give_back_flag: bool,
    pub object_position: u8,
}

impl Request {
    /// Every field fits its width on the wire.
    pub open spec fn wf(&self) -> bool {
        &&& self.max_operating_current < 1024
        &&& self.operating_current < 1024
        &&& self.object_position < 8
    }

    /// The object's 32-bit value; reserved bits are zero.
    pub open spec fn bits(&self) -> int {
        self.max_operating_current + 0x400 * self.operating_current + 0x100_0000 * flag(
            self.no_usb_suspend,
        ) + 0x200_0000 * flag(self.usb_communications_capable) + 0x400_0000 * flag(
            self.capability_mismatch,
        ) + 0x800_0000 * flag(self.give_back_flag) + 0x1000_0000 * self.object_position
    }

    /// The object that a 32-bit value holds; reserved bits are ignored.
    pub open spec fn of_bits(v: u32) -> Request {
        Request {
            max_operating_current: (v % 0x400) as u16,
            operating_current: ((v / 0x400) % 0x400) as u16,
            no_usb_suspend: (v / 0x100_0000) % 2 == 1,
            usb_communications_capable: (v / 0x200_0000) % 2 == 1,
            capability_mismatch: (v / 0x400_0000) % 2 == 1,
            give_back_flag: (v / 0x800_0000) % 2 == 1,
            object_position: ((v / 0x1000_0000) % 8) as u8,
        }
    }

    /// Packs the fields into the object's 32-bit value.
    pub fn to_bits(&self) -> (r: u32)
        requires
            self.wf(),
        ensures
            r as int == self.bits(),
    {
        self.max_operating_current as u32 + 0x400 * self.operating_current as u32 + 0x100_0000
            * flag_bit(self.no_usb_suspend) + 0x200_0000 * flag_bit(
            self.usb_communications_capable,
        ) + 0x400_0000 * flag_bit(self.capability_mismatch) + 0x800_0000 * flag_bit(
            self.give_back_flag,
        ) + 0x1000_0000 * self.object_position as u32
    }

    /// Unpacks a 32-bit request object.
    pub fn from_bits(v: u32) -> (r: Request)
        ensures
            r.wf(),
            r == Request::of_bits(v),
    {
        Request {
            max_operating_current: (v % 0x400) as u16,
            operating_current: ((v / 0x400) % 0x400) as u16,
            no_usb_suspend: (v / 0x100_0000) % 2 == 1,
            usb_communications_capable: (v / 0x200_0000) % 2 == 1,
            capability_mismatch: (v / 0x400_0000) % 2 == 1,
            give_back_flag: (v / 0x800_0000) % 2 == 1,
            object_position: ((v / 0x1000_0000) % 8) as u8,
        }
    }
}

/// A well-formed request packs into 32 bits, and unpacking gives it back.
pub proof fn lemma_request_round_trip(r: Request)
    requires
        r.wf(),
    ensures
        0 <= r.bits() < 0x1_0000_0000,
        Request::of_bits(r.bits() as u32) == r,
{
    let a = r.max_operating_current as int;
    let b = r.operating_current as int;
    let f0 = flag(r.no_usb_suspend);
    let f1 = flag(r.usb_communications_capable);
    let f2 = flag(r.capability_mismatch);
    let f3 = flag(r.give_back_flag);
    let p = r.object_position as int;
    let v = r.bits();
    assert(v % 0x400 == a && (v / 0x400) % 0x400 == b && (v / 0x100_0000) % 2 == f0 && (v
        / 0x200_0000) % 2 == f1 && (v / 0x400_0000) % 2 == f2 && (v / 0x800_0000) % 2 == f3 && (v
        / 0x1000_0000) % 8 == p && 0 <= v < 0x1_0000_0000) by (nonlinear_arith)
        requires
            v == a + 0x400 * b + 0x100_0000 * f0 + 0x200_0000 * f1 + 0x400_0000 * f2 + 0x800_0000
                * f3 + 0x1000_0000 * p,
            0 <= a < 1024,
            0 <= b < 1024,
            0 <= f0 < 2,
            0 <= f1 < 2,
            0 <= f2 < 2,
            0 <= f3 < 2,
            0 <= p < 8,
    ;
}

} // verus!
