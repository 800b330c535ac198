//! The coarse model classification derived from a decoded clump.

use vstd::prelude::*;

verus! {

/// What kind of model a clump is. This is a heuristic over already-decoded
/// data, not a wire field: skinned if any geometry carries a skin, vehicle
/// if any auxiliary node name mentions a wheel or chassis, else generic.
#[derive(Clone, Copy, Debug, PartialEq, Eq, Structural)]
pub enum DffModelType {
    Generic,
    Skin,
    Vehicle,
}

} // verus!
