use vstd::prelude::*;

verus! {

/// How long both CC lines must hold still before an attach counts, in milliseconds.
pub const CC_DEBOUNCE_MS: u64 = 100;

/// Which CC line of an attached cable carries PD communication.
#[derive(Debug, Clone, Copy, PartialEq, Eq, Structural)]
pub enum CableOrientation {
    /// CC1 is connected.
    Normal,
    /// CC2 is connected.
    Flipped,
    /// Both lines are connected: a debug accessory, which gets no PD.
    DebugAccessoryMode,
}

/// The orientation of a cable from whether each CC line sits at its lowest
/// voltage; `None` when both do, which means nothing is attached.
pub fn cable_orientation(cc1_lowest: bool, cc2_lowest: bool) -> (r: Option<CableOrientation>)
    ensures
        r is None <==> cc1_lowest && cc2_lowest,
        r == Some(CableOrientation::Normal) <==> !cc1_lowest && cc2_lowest,
        r == Some(CableOrientation::Flipped) <==> cc1_lowest && !cc2_lowest,
        r == Some(CableOrientation::DebugAccessoryMode) <==> !cc1_lowest && !cc2_lowest,
{
    if cc1_lowest && cc2_lowest {
        None
    } else if cc2_lowest {
        Some(CableOrientation::Normal)
    } else if cc1_lowest {
        Some(CableOrientation::Flipped)
    } else {
        Some(CableOrientation::DebugAccessoryMode)
    }
}

} // verus!
