//! The difference between two testbed states.

use vstd::prelude::*;

verus! {

/// The difference between two testbed states, so that a deployment does not drift from its
/// description.
#[derive(Debug, Clone)]
pub struct StateDelta {}

} // verus!
