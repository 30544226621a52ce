//! Prices and amounts, and the rule that turns what the venue quotes into
//! what the caller means and back.

use vstd::prelude::*;
use crate::ratio::{representable, within_epsilon, Ratio};
use crate::trading_pair::{is_reversed, reversed, Side, Target};

verus! {

/// The price in the caller's direction that the raw price `raw_price` of the
/// venue's book stands for, and the other way round: the reciprocal where the
/// book is the reversed pair's, the price itself where it is not.
pub open spec fn normalize_price(side: Side, target: Target, raw_price: real) -> real {
    if is_reversed(target, side) {
        1real / raw_price
    } else {
        raw_price
    }
}

/// The amount that goes with `normalize_price`. Where the book is the
/// reversed pair's, the amount is counted in the other asset: the raw amount
/// times the raw price. Where it is not, the amount is unchanged.
pub open spec fn normalize_amount(
    side: Side,
    target: Target,
    raw_price: real,
    raw_amount: real,
) -> real {
    if is_reversed(target, side) {
        raw_amount * raw_price
    } else {
        raw_amount
    }
}

/// A price: a fraction above zero.
#[derive(Clone, Copy, Debug, PartialEq, Eq)]
pub struct Price {
    value: Ratio,
}

impl View for Price {
    type V = real;

    closed spec fn view(&self) -> real {
        self.value@
    }
}

impl Price {
    /// What holds of every price: it is above zero.
    #[verifier::type_invariant]
    pub closed spec fn wf(self) -> bool {
        self.value.wf() && self.value@ > 0real
    }

    /// The fraction that the price holds.
    pub closed spec fn spec_value(self) -> Ratio {
        self.value
    }

    /// A price is above zero, and is the value of its fraction.
    pub proof fn lemma_positive(self)
        requires
            self.wf(),
        ensures
            self@ > 0real,
            self.spec_value().wf(),
            self.spec_value()@ == self@,
    {
    }

    /// Two prices of the same value are equal.
    pub proof fn lemma_same_value_same_price(self, other: Price)
        requires
            self.wf(),
            other.wf(),
            self@ == other@,
        ensures
            self == other,
    {
        self.value.lemma_same_value_same_ratio(other.value);
    }

    /// The price of value `value`, unless `value` is zero.
    pub fn new(value: Ratio) -> (r: Option<Price>)
        ensures
            r is Some <==> value@ > 0real,
            r matches Some(p) ==> p@ == value@ && p.spec_value() == value,
    {
        proof {
            use_type_invariant(&value);
        }
        if value.is_positive() {
            Some(Price { value })
        } else {
            None
        }
    }

    /// The fraction that the price holds.
    pub fn value(&self) -> (r: Ratio)
        ensures
            r == self.spec_value(),
            r@ == self@,
    {
        self.value
    }

    /// The price as it is.
    pub fn direct(&self) -> (r: Price)
        ensures
            r == *self,
    {
        *self
    }

    /// One over the price.
    pub fn reversed(&self) -> (r: Price)
        ensures
            r@ == 1real / self@,
    {
        proof {
            use_type_invariant(self);
        }
        let value = self.value.inverse();
        proof {
            use_type_invariant(&value);
            let v = self.value@;
            assert(1real / v > 0real) by (nonlinear_arith)
                requires
                    v > 0real,
            ;
        }
        Price { value }
    }
}

/// An amount of an asset: a fraction above zero.
#[derive(Clone, Copy, Debug, PartialEq, Eq)]
pub struct Amount {
    value: Ratio,
}

impl View for Amount {
    type V = real;

    closed spec fn view(&self) -> real {
        self.value@
    }
}

impl Amount {
    /// What holds of every amount: it is above zero.
    #[verifier::type_invariant]
    pub closed spec fn wf(self) -> bool {
        self.value.wf() && self.value@ > 0real
    }

    /// The fraction that the amount holds.
    pub closed spec fn spec_value(self) -> Ratio {
        self.value
    }

    /// An amount is above zero, and is the value of its fraction.
    pub proof fn lemma_positive(self)
        requires
            self.wf(),
        ensures
            self@ > 0real,
            self.spec_value().wf(),
            self.spec_value()@ == self@,
    {
    }

    /// Two amounts of the same value are equal.
    pub proof fn lemma_same_value_same_amount(self, other: Amount)
        requires
            self.wf(),
            other.wf(),
            self@ == other@,
        ensures
            self == other,
    {
        self.value.lemma_same_value_same_ratio(other.value);
    }

    /// The amount of value `value`, unless `value` is zero.
    pub fn new(value: Ratio) -> (r: Option<Amount>)
        ensures
            r is Some <==> value@ > 0real,
            r matches Some(a) ==> a@ == value@ && a.spec_value() == value,
    {
        proof {
            use_type_invariant(&value);
        }
        if value.is_positive() {
            Some(Amount { value })
        } else {
            None
        }
    }

    /// The fraction that the amount holds.
    pub fn value(&self) -> (r: Ratio)
        ensures
            r == self.spec_value(),
            r@ == self@,
    {
        self.value
    }
}

/// Converts a price between the venue's book and the caller's direction.
pub fn convert_price(target: Target, side: Side, price: &Price) -> (r: Price)
    ensures
        r@ == normalize_price(side, target, price@),
{
    if reversed(target, side) {
        price.reversed()
    } else {
        price.direct()
    }
}

/// Converts an amount between the venue's book and the caller's direction.
/// `price` is the price before its own conversion. `None` where the
/// converted amount cannot be written as a fraction of two 64-bit numbers.
pub fn convert_amount(target: Target, side: Side, price: &Price, amount: &Amount) -> (r: Option<
    Amount,
>)
    ensures
        r is Some <==> representable(normalize_amount(side, target, price@, amount@)),
        r matches Some(a) ==> a@ == normalize_amount(side, target, price@, amount@),
{
    proof {
        use_type_invariant(price);
        use_type_invariant(amount);
        amount.value.lemma_value();
    }
    if reversed(target, side) {
        match amount.value.checked_mul(&price.value) {
            Some(value) => {
                proof {
                    use_type_invariant(&value);
                    let a = amount.value@;
                    let p = price.value@;
                    assert(a * p > 0real) by (nonlinear_arith)
                        requires
                            a > 0real,
                            p > 0real,
                    ;
                }
                Some(Amount { value })
            },
            None => None,
        }
    } else {
        Some(*amount)
    }
}

/// One over one over a price is the price itself.
pub proof fn lemma_reversed_twice(price: Price, once: Price, twice: Price)
    requires
        price.wf(),
        once.wf(),
        twice.wf(),
        once@ == 1real / price@,
        twice@ == 1real / once@,
    ensures
        twice == price,
{
    let p = price@;
    assert(1real / (1real / p) == p) by (nonlinear_arith)
        requires
            p > 0real,
    ;
    twice.lemma_same_value_same_price(price);
}

/// Converting a price twice gives the price back.
pub proof fn lemma_normalize_price_twice(side: Side, target: Target, price: real)
    requires
        price > 0real,
    ensures
        normalize_price(side, target, normalize_price(side, target, price)) == price,
{
    assert(1real / (1real / price) == price) by (nonlinear_arith)
        requires
            price > 0real,
    ;
}

/// Converting an amount twice, each time with the price of that step, gives
/// the amount back.
pub proof fn lemma_normalize_amount_twice(side: Side, target: Target, price: real, amount: real)
    requires
        price > 0real,
    ensures
        normalize_amount(
            side,
            target,
            normalize_price(side, target, price),
            normalize_amount(side, target, price, amount),
        ) == amount,
{
    assert((amount * price) * (1real / price) == amount) by (nonlinear_arith)
        requires
            price > 0real,
    ;
}

/// A converted price is above zero, and so is a converted amount.
pub proof fn lemma_normalized_positive(side: Side, target: Target, price: real, amount: real)
    requires
        price > 0real,
        amount > 0real,
    ensures
        normalize_price(side, target, price) > 0real,
        normalize_amount(side, target, price, amount) > 0real,
{
    assert(1real / price > 0real && amount * price > 0real) by (nonlinear_arith)
        requires
            price > 0real,
            amount > 0real,
    ;
}

/// A price matches a price that is half the tolerance away, on either side,
/// and does not match one that is twice the tolerance away.
pub proof fn lemma_epsilon_matching(price: real, epsilon: real)
    requires
        epsilon > 0real,
    ensures
        within_epsilon(price, price + epsilon / 2real, epsilon),
        within_epsilon(price, price - epsilon / 2real, epsilon),
        !within_epsilon(price, price + 2real * epsilon, epsilon),
        !within_epsilon(price, price - 2real * epsilon, epsilon),
{
}

} // verus!
