//! Grand piano lid positions.
use vstd::prelude::*;

verus! {

#[derive(Debug, Clone, Copy, PartialEq, Eq, Structural)]
pub enum LidPosition {
    Closed,
    HalfStick,
    FullStick,
    Removed,
}

impl LidPosition {
    pub open spec fn spec_from_index(idx: usize) -> LidPosition {
        if idx == 0 {
            LidPosition::Closed
        } else if idx == 1 {
            LidPosition::HalfStick
        } else if idx == 3 {
            LidPosition::Removed
        } else {
            LidPosition::FullStick
        }
    }

    /// Lid position of a selector index: 0 closed, 1 half stick, 3 removed,
    /// anything else full stick.
    pub fn from_index(idx: usize) -> (r: Self)
        ensures
            r == Self::spec_from_index(idx),
    {
        match idx {
            0 => LidPosition::Closed,
            1 => LidPosition::HalfStick,
            3 => LidPosition::Removed,
            _ => LidPosition::FullStick,
        }
    }
}

/// The lid selector: 0 closed, 1 on the half stick, 2 on the full stick,
/// 3 removed; any other index falls back to the full stick.
pub proof fn lemma_lid_selector(idx: usize)
    ensures
        LidPosition::spec_from_index(0) == LidPosition::Closed,
        LidPosition::spec_from_index(1) == LidPosition::HalfStick,
        LidPosition::spec_from_index(2) == LidPosition::FullStick,
        LidPosition::spec_from_index(3) == LidPosition::Removed,
        idx > 3 ==> LidPosition::spec_from_index(idx) == LidPosition::FullStick,
{
}

} // verus!
