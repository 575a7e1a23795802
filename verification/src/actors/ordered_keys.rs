//! Integer keys are totally ordered, so ordered maps keyed by them behave
//! as their specifications say.

use vstd::prelude::*;

verus! {

/// `u64` keys obey the ordering laws ordered maps rely on.
pub proof fn lemma_integer_keys_ordered()
    ensures
        vstd::laws_cmp::obeys_cmp::<u64>(),
{
    broadcast use vstd::laws_cmp::group_laws_cmp;

}

} // verus!
