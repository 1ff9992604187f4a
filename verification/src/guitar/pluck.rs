//! Plectrum and finger pluck styles.
use vstd::prelude::*;

verus! {

#[derive(Debug, Clone, Copy, PartialEq, Eq, Structural)]
pub enum PluckStyle {
    /// Soft finger flesh contact (warm, round tone, longer release time)
    FingerFlesh,
    /// Hard celluloid / tortex plectrum or fingernail (bright, snappy attack)
    Plectrum,
}

impl PluckStyle {
    /// Pluck style of the plugin's style selector: 1 = Finger, anything else =
    /// Plectrum.
    pub fn from_index(idx: i32) -> (r: Self)
        ensures
            r == (if idx == 1 { PluckStyle::FingerFlesh } else { PluckStyle::Plectrum }),
    {
        if idx == 1 {
            PluckStyle::FingerFlesh
        } else {
            PluckStyle::Plectrum
        }
    }
}

} // verus!
