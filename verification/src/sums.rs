//! Sums of amount sequences, shared by the counter lemmas of both
//! subsystems.

use vstd::prelude::*;

verus! {

/// Mathematical sum of a sequence of amounts.
pub open spec fn sum_amounts(amounts: Seq<u64>) -> int
    decreases amounts.len(),
{
    if amounts.len() == 0 {
        0
    } else {
        sum_amounts(amounts.drop_last()) + amounts.last()
    }
}

} // verus!
