//! Marker types naming the host's skeletal animations. The decision core
//! only writes intents for downstream animation consumption; computing a
//! pose is floating-point work and stays with the host.

use vstd::prelude::*;

verus! {

/// Names the self-buffing character animation that the host plays while
/// an agent applies a buff to itself; the skeleton update it performs is
/// no concern of the decision core.
pub struct SelfBuffAnimation;

} // verus!
