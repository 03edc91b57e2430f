//! The laws the monetary operations obey, stated over the same spec
//! functions that the executable contracts use and proved once for all
//! amounts and currency codes.

use vstd::prelude::*;
use vstd::arithmetic::div_mod::{
    lemma_mod_add_multiples_vanish, lemma_mod_multiples_vanish, lemma_mul_mod_noop_left,
    lemma_small_mod,
};
use vstd::arithmetic::mul::{lemma_mul_is_associative, lemma_mul_is_distributive_sub_other_way};

use crate::{i32_modulus, money_equals, spec_multiply, wrap_to_i32};

verus! {

/// Wrapping leaves any amount that already fits in `i32`'s range unchanged.
pub proof fn lemma_wrap_to_i32_in_range(x: int)
    requires
        i32::MIN <= x <= i32::MAX,
    ensures
        wrap_to_i32(x) == x,
{
    let n = i32_modulus();
    if x >= 0 {
        lemma_small_mod(x as nat, n as nat);
    } else {
        lemma_mod_add_multiples_vanish(x, n);
        lemma_small_mod((x + n) as nat, n as nat);
    }
}

/// Multiplication whose mathematical product stays within `i32`'s range
/// yields exactly that product.
pub proof fn lemma_multiply_exact(amount: int, multiplier: int)
    requires
        i32::MIN <= amount * multiplier <= i32::MAX,
    ensures
        spec_multiply(amount, multiplier) == amount * multiplier,
{
    lemma_wrap_to_i32_in_range(amount * multiplier);
}

/// Multiplication identity: every monetary value equals itself multiplied
/// by one.
pub proof fn lemma_multiply_identity(amount: int, currency: Seq<char>)
    requires
        i32::MIN <= amount <= i32::MAX,
    ensures
        money_equals(amount, currency, spec_multiply(amount, 1), currency),
{
    lemma_wrap_to_i32_in_range(amount);
}

/// Multiplication by zero collapses to the currency-agnostic zero: the
/// result equals a zero amount in any currency whatsoever.
pub proof fn lemma_multiply_zero(amount: int, currency: Seq<char>, zero_currency: Seq<char>)
    ensures
        money_equals(spec_multiply(amount, 0), currency, 0, zero_currency),
{
    lemma_small_mod(0, i32_modulus() as nat);
}

/// Repeated multiplication composes: multiplying by `a` and then by `b`
/// yields the same amount as multiplying once by `a * b`, for every pair of
/// scalars. (Both routes keep the currency unchanged by `multiply`'s own
/// contract.)
pub proof fn lemma_multiply_compose(amount: int, a: int, b: int)
    ensures
        spec_multiply(spec_multiply(amount, a), b) == spec_multiply(amount, a * b),
{
    let n = i32_modulus();
    let p = amount * a;
    let w = wrap_to_i32(p);
    lemma_mul_is_associative(amount, a, b);
    lemma_mul_mod_noop_left(p, b, n);
    if p % n > i32::MAX as int {
        lemma_mul_is_distributive_sub_other_way(b, p % n, n);
        lemma_mod_multiples_vanish(-b, (p % n) * b, n);
    }
}

/// Cross-currency inequality: two values with the same nonzero amount but
/// different currency codes are never equal.
pub proof fn lemma_cross_currency_unequal(
    amount: int,
    a_currency: Seq<char>,
    b_currency: Seq<char>,
)
    requires
        amount != 0,
        a_currency != b_currency,
    ensures
        !money_equals(amount, a_currency, amount, b_currency),
{
}

/// Zero absorption is symmetric and transitive: three zero amounts in three
/// currencies, all pairwise distinct or not, are all pairwise equal.
pub proof fn lemma_zero_equality_agnostic(
    a_currency: Seq<char>,
    b_currency: Seq<char>,
    c_currency: Seq<char>,
)
    ensures
        money_equals(0, a_currency, 0, b_currency),
        money_equals(0, b_currency, 0, c_currency),
        money_equals(0, a_currency, 0, c_currency),
{
}

/// Currency-aware equality is reflexive.
pub proof fn lemma_money_equals_reflexive(amount: int, currency: Seq<char>)
    ensures
        money_equals(amount, currency, amount, currency),
{
}

/// Currency-aware equality is symmetric.
pub proof fn lemma_money_equals_symmetric(
    a_amount: int,
    a_currency: Seq<char>,
    b_amount: int,
    b_currency: Seq<char>,
)
    ensures
        money_equals(a_amount, a_currency, b_amount, b_currency) == money_equals(
            b_amount,
            b_currency,
            a_amount,
            a_currency,
        ),
{
}

/// Currency-aware equality is transitive, the zero special case included:
/// a zero amount equates values across currencies, and a chain through such
/// a value still ends in equal amounts, both being zero.
pub proof fn lemma_money_equals_transitive(
    a_amount: int,
    a_currency: Seq<char>,
    b_amount: int,
    b_currency: Seq<char>,
    c_amount: int,
    c_currency: Seq<char>,
)
    requires
        money_equals(a_amount, a_currency, b_amount, b_currency),
        money_equals(b_amount, b_currency, c_amount, c_currency),
    ensures
        money_equals(a_amount, a_currency, c_amount, c_currency),
{
}

} // verus!
