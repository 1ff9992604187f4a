//! Electric guitar magnetic pickup selection.
use vstd::prelude::*;

verus! {

#[derive(Debug, Clone, Copy, PartialEq, Eq, Structural)]
pub enum PickupType {
    /// Single-coil pickup (bright, crisp, wide bandwidth)
    SingleCoil,
    /// Dual-coil Humbucker (fat, warm, cancel hum, comb-filtered)
    Humbucker,
}

#[derive(Debug, Clone, Copy, PartialEq, Eq, Structural)]
pub enum PickupPosition {
    /// Near bridge (~0.08 L): biting, tight bass, rich in high harmonics
    Bridge,
    /// Middle position (~0.16 L): balanced scooped mids
    Middle,
    /// Near neck (~0.24 L): warm, singing sustain, full fundamental
    Neck,
}

impl PickupType {
    /// Pickup type of the plugin's type selector: 1 = Humbucker, anything
    /// else = Single-coil.
    pub fn from_index(idx: i32) -> (r: Self)
        ensures
            r == (if idx == 1 { PickupType::Humbucker } else { PickupType::SingleCoil }),
    {
        if idx == 1 {
            PickupType::Humbucker
        } else {
            PickupType::SingleCoil
        }
    }
}

impl PickupPosition {
    /// Pickup position of the plugin's position selector: 1 = Middle,
    /// 2 = Neck, anything else = Bridge.
    pub fn from_index(idx: i32) -> (r: Self)
        ensures
            r == (if idx == 1 {
                PickupPosition::Middle
            } else if idx == 2 {
                PickupPosition::Neck
            } else {
                PickupPosition::Bridge
            }),
    {
        match idx {
            1 => PickupPosition::Middle,
            2 => PickupPosition::Neck,
            _ => PickupPosition::Bridge,
        }
    }
}

} // verus!
