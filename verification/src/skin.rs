//! Whether a model can be animated at all: every primitive must carry both
//! joint and weight attributes, and there must be at least one primitive.

use vstd::prelude::*;

verus! {

/// A model drives bone animation only when it has primitives and every one
/// of them carries joints and weights.
pub open spec fn all_skinned(flags: Seq<(bool, bool)>) -> bool {
    flags.len() > 0 && forall|i: int| 0 <= i < flags.len() ==> flags[i].0 && flags[i].1
}

/// Decides whether the model is skinned from each primitive's
/// (has joints, has weights) pair.
#[verifier::loop_isolation(false)]
pub fn is_model_skinned(flags: &Vec<(bool, bool)>) -> (r: bool)
    ensures
        r == all_skinned(flags@),
{
    if flags.len() == 0 {
        return false;
    }
    let mut i: usize = 0;
    while i < flags.len()
        invariant
            i <= flags@.len(),
            forall|k: int| 0 <= k < i ==> flags@[k].0 && flags@[k].1,
        decreases flags@.len() - i,
    {
        let (joints, weights) = flags[i];
        if !(joints && weights) {
            return false;
        }
        i = i + 1;
    }
    true
}

} // verus!
