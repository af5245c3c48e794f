//! Why a weight-and-balance check failed.

use vstd::prelude::*;

verus! {

/// The constraint that a loading violates.
#[derive(Clone, Copy, PartialEq, Eq, Structural, Debug)]
pub enum FailReason {
    Bagage,
    BagageFront,
    BagageBack,
    BagageWings,
    MaxTakeOffWeight,
    MaxWingLoad,
    Fuel,
    ZeroFuel,
    LandingFuel,
    TorqueOutOfBounds,
}

} // verus!
