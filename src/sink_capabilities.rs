use vstd::prelude::*;
use crate::request::{flag, flag_bit};

verus! {

/// Sink fixed-supply power data object: operating current in 10 mA units,
/// voltage in 50 mV units. The two-bit supply tag is zero on the wire.
#[derive(Debug, Clone, Copy, PartialEq, Eq, Structural)]
pub struct FixedSupply {
    pub operating_current: u16,
    pub voltage: u16,
    pub dual_role_data: bool,
    pub usb_communications_capable: bool,
    pub unconstrained_power: bool,
    pub higher_capability: bool,
    pub dual_power_role: bool,
}

impl FixedSupply {
    /// Every field fits its width on the wire.
    pub open spec fn wf(&self) -> bool {
        &&& self.operating_current < 1024
        &&& self.voltage < 1024
    }

    /// The object's 32-bit value; reserved bits and the supply tag are zero.
    pub open spec fn bits(&self) -> int {
        self.operating_current + 0x400 * self.voltage + 0x200_0000 * flag(self.dual_role_data)
            + 0x400_0000 * flag(self.usb_communications_capable) + 0x800_0000 * flag(
            self.unconstrained_power,
        ) + 0x1000_0000 * flag(self.higher_capability) + 0x2000_0000 * flag(
            self.dual_power_role,
        )
    }

    /// The object that a 32-bit value holds; reserved bits and the tag are ignored.
    pub open spec fn of_bits(v: u32) -> FixedSupply {
        FixedSupply {
            operating_current: (v % 0x400) as u16,
            voltage: ((v / 0x400) % 0x400) as u16,
            dual_role_data: (v / 0x200_0000) % 2 == 1,
            usb_communications_capable: (v / 0x400_0000) % 2 == 1,
            unconstrained_power: (v / 0x800_0000) % 2 == 1,
            higher_capability: (v / 0x1000_0000) % 2 == 1,
            dual_power_role: (v / 0x2000_0000) % 2 == 1,
        }
    }

    /// Packs the fields into the object's 32-bit value.
    pub fn to_bits(&self) -> (r: u32)
        requires
            self.wf(),
        ensures
            r as int == self.bits(),
    {
        self.operating_current as u32 + 0x400 * self.voltage as u32 + 0x200_0000 * flag_bit(
            self.dual_role_data,
        ) + 0x400_0000 * flag_bit(self.usb_communications_capable) + 0x800_0000 * flag_bit(
            self.unconstrained_power,
        ) + 0x1000_0000 * flag_bit(self.higher_capability) + 0x2000_0000 * flag_bit(
            self.dual_power_role,
        )
    }

    /// Unpacks a 32-bit fixed-supply object.
    pub fn from_bits(v: u32) -> (r: FixedSupply)
        ensures
            r.wf(),
            r == FixedSupply::of_bits(v),
    {
        FixedSupply {
            operating_current: (v % 0x400) as u16,
            voltage: ((v / 0x400) % 0x400) as u16,
            dual_role_data: (v / 0x200_0000) % 2 == 1,
            usb_communications_capable: (v / 0x400_0000) % 2 == 1,
            unconstrained_power: (v / 0x800_0000) % 2 == 1,
            higher_capability: (v / 0x1000_0000) % 2 == 1,
            dual_power_role: (v / 0x2000_0000) % 2 == 1,
        }
    }
}

/// A well-formed fixed-supply object packs into 32 bits with a zero supply
/// tag, and unpacking gives it back.
pub proof fn lemma_fixed_supply_round_trip(s: FixedSupply)
    requires
        s.wf(),
    ensures
        0 <= s.bits() < 0x4000_0000,
        FixedSupply::of_bits(s.bits() as u32) == s,
{
    let a = s.operating_current as int;
    let b = s.voltage as int;
    let f0 = flag(s.dual_role_data);
    let f1 = flag(s.usb_communications_capable);
    let f2 = flag(s.unconstrained_power);
    let f3 = flag(s.higher_capability);
    let f4 = flag(s.dual_power_role);
    let v = s.bits();
    assert(v % 0x400 == a && (v / 0x400) % 0x400 == b && (v / 0x200_0000) % 2 == f0 && (v
        / 0x400_0000) % 2 == f1 && (v / 0x800_0000) % 2 == f2 && (v / 0x1000_0000) % 2 == f3 && (v
        / 0x2000_0000) % 2 == f4 && 0 <= v < 0x4000_0000) by (nonlinear_arith)
        requires
            v == a + 0x400 * b + 0x200_0000 * f0 + 0x400_0000 * f1 + 0x800_0000 * f2 + 0x1000_0000
                * f3 + 0x2000_0000 * f4,
            0 <= a < 1024,
            0 <= b < 1024,
            0 <= f0 < 2,
            0 <= f1 < 2,
            0 <= f2 < 2,
            0 <= f3 < 2,
            0 <= f4 < 2,
    ;
}

} // verus!
