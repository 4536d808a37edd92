//! Small arithmetic facts shared by the filter modules.

use vstd::prelude::*;

verus! {

/// A product stays below a bound exactly when the first factor stays below
/// the quotient: the overflow guard used when a parsed value is scaled to
/// bytes or to seconds.
pub proof fn lemma_mul_fits(v: nat, m: nat, bound: nat)
    requires
        m >= 1,
    ensures
        v * m <= bound <==> v <= bound / m,
{
    vstd::arithmetic::div_mod::lemma_fundamental_div_mod(bound as int, m as int);
    vstd::arithmetic::div_mod::lemma_mod_division_less_than_divisor(bound as int, m as int);
    vstd::arithmetic::div_mod::lemma_mod_bound(bound as int, m as int);
    if v <= bound / m {
        vstd::arithmetic::mul::lemma_mul_inequality(v as int, (bound / m) as int, m as int);
        vstd::arithmetic::mul::lemma_mul_is_commutative((bound / m) as int, m as int);
    }
    if v * m <= bound {
        if v > bound / m {
            vstd::arithmetic::mul::lemma_mul_inequality((bound / m + 1) as int, v as int, m as int);
            vstd::arithmetic::mul::lemma_mul_is_commutative((bound / m) as int, m as int);
            vstd::arithmetic::mul::lemma_mul_is_distributive_add_other_way(
                m as int,
                (bound / m) as int,
                1,
            );
            assert(false);
        }
    }
}

} // verus!
