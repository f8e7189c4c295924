//! Division as the rest of the crate needs it.

use vstd::prelude::*;

verus! {

/// The quotient of a division rounds down: it is the largest whole number
/// whose multiple by the divisor does not exceed the dividend.
pub proof fn lemma_floor_quotient(dividend: int, divisor: int)
    requires
        dividend >= 0,
        divisor > 0,
    ensures
        0 <= dividend / divisor,
        (dividend / divisor) * divisor <= dividend < (dividend / divisor + 1) * divisor,
{
    vstd::arithmetic::div_mod::lemma_fundamental_div_mod(dividend, divisor);
    vstd::arithmetic::div_mod::lemma_mod_bound(dividend, divisor);
    vstd::arithmetic::div_mod::lemma_div_pos_is_pos(dividend, divisor);
    assert((dividend / divisor + 1) * divisor == (dividend / divisor) * divisor + divisor) by (nonlinear_arith);
    assert(divisor * (dividend / divisor) == (dividend / divisor) * divisor) by (nonlinear_arith);
}

} // verus!
