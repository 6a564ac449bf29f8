//! Monetary amounts: signed decimal numbers.

use vstd::prelude::*;

verus! {

/// The largest mantissa of an amount, in absolute value: 96 bits.
pub const MAX_MANTISSA: i128 = 0xFFFF_FFFF_FFFF_FFFF_FFFF_FFFF;

/// The largest scale of an amount.
pub const MAX_SCALE: u32 = 28;

/// A signed decimal number: `mantissa` divided by ten to the power `scale`.
///
/// Equality is that of the notation: two amounts are equal when mantissa
/// and scale are, so `1.0` and `1.00` are the same number and yet not equal
/// amounts. Sums keep the notation that the decimal arithmetic gives them,
/// and a balance shows the decimals it was credited with.
#[derive(Clone, Copy, Debug, PartialEq, Eq, Hash, Structural)]
pub struct MonetaryAmount {
    mantissa: i128,
    scale: u32,
}

/// The mathematical content of a [`MonetaryAmount`]: the number
/// `mantissa / 10^scale`, in that notation.
pub struct AmountView {
    pub mantissa: int,
    pub scale: nat,
}

impl AmountView {
    /// The amounts that can be represented.
    pub open spec fn representable(self) -> bool {
        -MAX_MANTISSA <= self.mantissa <= MAX_MANTISSA && self.scale <= MAX_SCALE
    }

    /// Zero, written without decimals.
    pub open spec fn zero() -> AmountView {
        AmountView { mantissa: 0, scale: 0 }
    }

    /// The sum of two amounts as the decimal arithmetic gives it, `None`
    /// where it has no representation. Adding zero changes nothing: the
    /// other amount comes back in its own notation.
    pub open spec fn plus(self, other: AmountView) -> Option<AmountView> {
        if self.mantissa == 0 {
            Some(other)
        } else if other.mantissa == 0 {
            Some(self)
        } else {
            match decimal_sum(
                self.mantissa as i128,
                self.scale as u32,
                other.mantissa as i128,
                other.scale as u32,
            ) {
                Some(sum) => {
                    let amount = AmountView { mantissa: sum.0 as int, scale: sum.1 as nat };
                    if amount.representable() {
                        Some(amount)
                    } else {
                        None
                    }
                },
                None => None,
            }
        }
    }
}

/// A name for the sum of two decimals, each given by mantissa and scale;
/// `None` where the sum overflows.
pub uninterp spec fn decimal_sum(
    left_mantissa: i128,
    left_scale: u32,
    right_mantissa: i128,
    right_scale: u32,
) -> Option<(i128, u32)>;

/// A name for the text of a decimal given by mantissa and scale.
pub uninterp spec fn decimal_notation(mantissa: i128, scale: u32) -> Seq<char>;

/// Trusted: `rust_decimal::Decimal::checked_add` on two decimals built
/// with `from_i128_with_scale`, the sum taken apart with `mantissa` and
/// `scale`. The sum depends on the operands alone, and `None` is an
/// overflow. The bounds keep the constructor from panicking.
#[verifier::external_body]
fn decimal_checked_add(
    left_mantissa: i128,
    left_scale: u32,
    right_mantissa: i128,
    right_scale: u32,
) -> (r: Option<(i128, u32)>)
    requires
        -MAX_MANTISSA <= left_mantissa <= MAX_MANTISSA,
        left_scale <= MAX_SCALE,
        -MAX_MANTISSA <= right_mantissa <= MAX_MANTISSA,
        right_scale <= MAX_SCALE,
    ensures
        r == decimal_sum(left_mantissa, left_scale, right_mantissa, right_scale),
{
    let left = rust_decimal::Decimal::from_i128_with_scale(left_mantissa, left_scale);
    let right = rust_decimal::Decimal::from_i128_with_scale(right_mantissa, right_scale);
    match left.checked_add(right) {
        Some(sum) => Some((sum.mantissa(), sum.scale())),
        None => None,
    }
}

/// Trusted: the `Display` of `rust_decimal::Decimal`, on a decimal built
/// with `from_i128_with_scale`. The text depends on the decimal alone. The
/// bounds keep the constructor from panicking.
#[verifier::external_body]
fn decimal_to_string(mantissa: i128, scale: u32) -> (r: String)
    requires
        -MAX_MANTISSA <= mantissa <= MAX_MANTISSA,
        scale <= MAX_SCALE,
    ensures
        r@ == decimal_notation(mantissa, scale),
{
    rust_decimal::Decimal::from_i128_with_scale(mantissa, scale).to_string()
}

impl View for MonetaryAmount {
    type V = AmountView;

    closed spec fn view(&self) -> AmountView {
        AmountView { mantissa: self.mantissa as int, scale: self.scale as nat }
    }
}

impl MonetaryAmount {
    #[verifier::type_invariant]
    closed spec fn well_formed(self) -> bool {
        -MAX_MANTISSA <= self.mantissa <= MAX_MANTISSA && self.scale <= MAX_SCALE
    }

    /// The amount `mantissa / 10^scale`, if it can be represented.
    pub fn new(mantissa: i128, scale: u32) -> (r: Option<Self>)
        ensures
            match r {
                Some(amount) => amount@ == (AmountView {
                    mantissa: mantissa as int,
                    scale: scale as nat,
                }) && amount@.representable(),
                None => !(AmountView { mantissa: mantissa as int, scale: scale as nat })
                    .representable(),
            },
    {
        if mantissa < -MAX_MANTISSA || mantissa > MAX_MANTISSA || scale > MAX_SCALE {
            None
        } else {
            Some(MonetaryAmount { mantissa, scale })
        }
    }

    /// A whole amount.
    pub fn from_integer(units: i64) -> (r: Self)
        ensures
            r@ == (AmountView { mantissa: units as int, scale: 0 }),
    {
        MonetaryAmount { mantissa: units as i128, scale: 0 }
    }

    /// Zero, written without decimals.
    pub fn zero() -> (r: Self)
        ensures
            r@ == AmountView::zero(),
    {
        MonetaryAmount { mantissa: 0, scale: 0 }
    }

    /// The mantissa of the amount.
    pub fn mantissa(&self) -> (r: i128)
        ensures
            r == self@.mantissa,
            self@.representable(),
    {
        proof {
            use_type_invariant(self);
        }
        self.mantissa
    }

    /// The number of decimals of the amount.
    pub fn scale(&self) -> (r: u32)
        ensures
            r == self@.scale,
            self@.representable(),
    {
        proof {
            use_type_invariant(self);
        }
        self.scale
    }

    /// Whether the amount is zero.
    pub fn is_zero(&self) -> (r: bool)
        ensures
            r == (self@.mantissa == 0),
    {
        self.mantissa == 0
    }

    /// Whether the amount is below zero.
    pub fn is_negative(&self) -> (r: bool)
        ensures
            r == (self@.mantissa < 0),
    {
        self.mantissa < 0
    }

    /// Whether the amount is above zero.
    pub fn is_positive(&self) -> (r: bool)
        ensures
            r == (self@.mantissa > 0),
    {
        self.mantissa > 0
    }

    /// The sum of two amounts, `None` where it cannot be represented. A
    /// zero takes no arithmetic: the other amount is the sum.
    pub fn checked_add(&self, other: &MonetaryAmount) -> (r: Option<MonetaryAmount>)
        ensures
            match r {
                Some(sum) => self@.plus(other@) == Some(sum@),
                None => self@.plus(other@) is None,
            },
    {
        proof {
            use_type_invariant(self);
            use_type_invariant(other);
        }
        if self.mantissa == 0 {
            Some(*other)
        } else if other.mantissa == 0 {
            Some(*self)
        } else {
            let sum = decimal_checked_add(self.mantissa, self.scale, other.mantissa, other.scale);
            MonetaryAmount::from_sum(sum)
        }
    }

    /// The amount that a sum of the decimal arithmetic stands for: `None`
    /// for an overflow and for a sum outside the representable amounts.
    pub fn from_sum(sum: Option<(i128, u32)>) -> (r: Option<MonetaryAmount>)
        ensures
            match r {
                Some(amount) => sum matches Some(s) && amount@ == (AmountView {
                    mantissa: s.0 as int,
                    scale: s.1 as nat,
                }) && amount@.representable(),
                None => !(sum matches Some(s) && (AmountView {
                    mantissa: s.0 as int,
                    scale: s.1 as nat,
                }).representable()),
            },
    {
        match sum {
            Some((mantissa, scale)) => MonetaryAmount::new(mantissa, scale),
            None => None,
        }
    }

    /// The amount in decimal notation.
    pub fn to_string(&self) -> (r: String)
        ensures
            r@ == decimal_notation(self@.mantissa as i128, self@.scale as u32),
    {
        proof {
            use_type_invariant(self);
        }
        decimal_to_string(self.mantissa, self.scale)
    }
}

} // verus!
