//! Boolean logic helpers used by the derived properties.

use vstd::prelude::*;

verus! {

/// Logical implication: `x` implies `y`.
pub fn implies(x: bool, y: bool) -> (r: bool)
    ensures
        r == (x ==> y),
{
    (!x) || y
}

} // verus!
