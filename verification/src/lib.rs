//! An immutable monetary value: a signed whole-unit amount tagged with a
//! textual currency code, together with scalar multiplication and a
//! currency-aware equality.
//!
//! Values are never mutated: every operation that "changes" a value returns a
//! brand-new one. Multiplication wraps on overflow, like the host's wrapping
//! integer arithmetic. Equality treats a zero amount as currency-agnostic:
//! zero in any currency equals zero in any other.

use vstd::prelude::*;

pub mod laws;

verus! {

/// The modulus of 32-bit integer arithmetic.
pub open spec fn i32_modulus() -> int {
    0x1_0000_0000
}

/// Maps an unbounded integer onto the value a 32-bit signed integer would
/// hold after wrapping: the representative of `x`'s residue class modulo
/// 2^32 that lies within `i32`'s range.
pub open spec fn wrap_to_i32(x: int) -> int {
    if x % i32_modulus() > i32::MAX as int {
        x % i32_modulus() - i32_modulus()
    } else {
        x % i32_modulus()
    }
}

/// The amount produced by multiplying a monetary amount by a scalar:
/// the mathematical product, wrapped into `i32`'s range.
pub open spec fn spec_multiply(amount: int, multiplier: int) -> int {
    wrap_to_i32(amount * multiplier)
}

/// Currency-aware equality of two monetary values, each given as its
/// amount and its currency code.
///
/// Two values with amount zero are equal regardless of currency (a zero
/// amount is currency-agnostic); otherwise equality requires both the
/// amounts and the currency codes to match exactly.
pub open spec fn money_equals(
    a_amount: int,
    a_currency: Seq<char>,
    b_amount: int,
    b_currency: Seq<char>,
) -> bool {
    (a_amount == 0 && b_amount == 0) || (a_amount == b_amount && a_currency == b_currency)
}

/// The capability every monetary value supports, independent of which
/// currency it represents: reading the amount and the currency code,
/// reconstructing the same variant from a new amount, and — as shared
/// default behaviour — scalar multiplication.
pub trait MoneyLike: Sized {
    /// The signed quantity this value holds, as a mathematical integer.
    spec fn amount_spec(&self) -> int;

    /// The currency code this value carries.
    spec fn currency_spec(&self) -> Seq<char>;

    /// Returns the current signed quantity.
    fn amount(&self) -> (r: i32)
        ensures
            r as int == self.amount_spec(),
    ;

    /// Returns the currency code as a read-only view.
    fn currency(&self) -> (r: &str)
        ensures
            r@ == self.currency_spec(),
    ;

    /// Reconstructs this value's own variant around a new amount, keeping
    /// the currency unchanged.
    fn with_amount(&self, amount: i32) -> (r: Self)
        ensures
            r.amount_spec() == amount as int,
            r.currency_spec() == self.currency_spec(),
    ;

    /// Returns a new value of the same variant whose amount is the receiver's
    /// amount times `multiplier` (wrapping on overflow) and whose currency is
    /// unchanged. The receiver itself is never mutated.
    fn multiply(&self, multiplier: i32) -> (r: Self)
        ensures
            r.amount_spec() == spec_multiply(self.amount_spec(), multiplier as int),
            r.currency_spec() == self.currency_spec(),
    {
        self.with_amount(self.amount().wrapping_mul(multiplier))
    }
}

/// A monetary value with an explicitly supplied currency code.
pub struct Money {
    /// The signed whole-unit quantity.
    pub amount: i32,
    /// The currency code; any text is accepted.
    pub currency: String,
}

impl Money {
    /// Constructs a value holding `amount` in `currency`. Always succeeds:
    /// negative and zero amounts and arbitrary currency text are all legal.
    pub fn new(amount: i32, currency: String) -> (r: Money)
        ensures
            r.amount == amount,
            r.currency@ == currency@,
    {
        Money { amount, currency }
    }

    /// Compares two monetary values, possibly of different variants, under
    /// the currency-aware equality rule: equal whenever both amounts are
    /// zero, and otherwise exactly when both the amounts and the currency
    /// codes match.
    pub fn eq(a: &impl MoneyLike, b: &impl MoneyLike) -> (r: bool)
        ensures
            r == money_equals(a.amount_spec(), a.currency_spec(), b.amount_spec(), b.currency_spec()),
    {
        if a.amount() == 0 && b.amount() == 0 {
            return true;
        }
        a.amount() == b.amount() && a.currency().to_owned() == b.currency().to_owned()
    }
}

impl MoneyLike for Money {
    open spec fn amount_spec(&self) -> int {
        self.amount as int
    }

    open spec fn currency_spec(&self) -> Seq<char> {
        self.currency@
    }

    fn amount(&self) -> i32 {
        self.amount
    }

    fn currency(&self) -> &str {
        self.currency.as_str()
    }

    fn with_amount(&self, amount: i32) -> Money {
        Money { amount, currency: self.currency.clone() }
    }
}

/// A monetary value whose currency is fixed to "USD" at construction.
pub struct Dollar {
    /// The signed whole-unit quantity.
    pub amount: i32,
    /// The currency code, fixed to "USD" by the constructor.
    pub currency: String,
}

impl Dollar {
    /// Constructs a dollar value holding `amount`; the currency code is
    /// fixed to "USD". Always succeeds: negative and zero amounts are legal.
    pub fn new(amount: i32) -> (r: Dollar)
        ensures
            r.amount == amount,
            r.currency@ == "USD"@,
    {
        Dollar { amount, currency: "USD".to_owned() }
    }
}

impl MoneyLike for Dollar {
    open spec fn amount_spec(&self) -> int {
        self.amount as int
    }

    open spec fn currency_spec(&self) -> Seq<char> {
        self.currency@
    }

    fn amount(&self) -> i32 {
        self.amount
    }

    fn currency(&self) -> &str {
        self.currency.as_str()
    }

    fn with_amount(&self, amount: i32) -> Dollar {
        Dollar { amount, currency: self.currency.clone() }
    }
}

} // verus!
