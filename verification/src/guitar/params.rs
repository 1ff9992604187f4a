//! String set selection for 6-string acoustic and electric guitars.
use vstd::prelude::*;

verus! {

#[derive(Debug, Clone, Copy, PartialEq, Eq, Structural)]
pub enum GuitarStringSetType {
    /// Nickel-plated steel .010-.046 set (Electric Guitar)
    Electric010,
    /// Phosphor Bronze .012-.053 set (Acoustic Folk Guitar)
    Acoustic012,
    /// Standard Tension Clear Nylon (Classical Guitar)
    ClassicalNylon,
}

} // verus!
