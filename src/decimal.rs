//! Fixed-point decimal numbers, held exactly as a mantissa and a scale.

use vstd::prelude::*;

verus! {

/// The largest number of digits after the decimal point.
pub const MAX_SCALE: u32 = 28;

/// The largest magnitude of a mantissa: 96 bits.
pub const MAX_MANTISSA: i128 = 0xFFFF_FFFF_FFFF_FFFF_FFFF_FFFF;

pub open spec fn pow10(n: nat) -> nat
    decreases n,
{
    if n == 0 {
        1
    } else {
        10 * pow10((n - 1) as nat)
    }
}

/// The character of a digit below 16; decimal digits are `0` to `9`.
pub open spec fn digit_char(d: nat) -> char {
    "0123456789abcdef"@[d as int]
}

/// `n` in decimal, without leading zeros; zero is `0`.
pub open spec fn whole_digits(n: nat) -> Seq<char>
    decreases n,
{
    if n < 10 {
        seq![digit_char(n)]
    } else {
        whole_digits(n / 10) + seq![digit_char(n % 10)]
    }
}

/// The last `width` decimal digits of `n`, leading zeros kept.
pub open spec fn fraction_digits(n: nat, width: nat) -> Seq<char>
    decreases width,
{
    if width == 0 {
        Seq::empty()
    } else {
        fraction_digits(n / 10, (width - 1) as nat) + seq![digit_char(n % 10)]
    }
}

/// The decimal text of `mantissa * 10^-scale`: a minus sign when negative,
/// the whole part, then a point and exactly `scale` fraction digits when
/// `scale` is positive (`-0.1278`, `51.50740`, `7`).
pub open spec fn decimal_text(mantissa: int, scale: nat) -> Seq<char> {
    let a: nat = if mantissa < 0 {
        (-mantissa) as nat
    } else {
        mantissa as nat
    };
    let sign = if mantissa < 0 {
        "-"@
    } else {
        Seq::<char>::empty()
    };
    let fraction = if scale == 0 {
        Seq::<char>::empty()
    } else {
        "."@ + fraction_digits(a % pow10(scale), scale)
    };
    sign + whole_digits(a / pow10(scale)) + fraction
}

/// A decimal number `mantissa * 10^-scale`.
///
/// Two values are equal only when both mantissa and scale agree, so a value
/// read back is digit for digit the one that was stored.
#[derive(Clone, Copy, Debug, PartialEq, Eq, Structural)]
pub struct Decimal {
    mantissa: i128,
    scale: u32,
}

/// Whether a mantissa and a scale make a decimal number.
pub open spec fn in_range(mantissa: int, scale: int) -> bool {
    &&& 0 <= scale <= MAX_SCALE
    &&& -MAX_MANTISSA <= mantissa <= MAX_MANTISSA
}

impl View for Decimal {
    type V = (int, nat);

    closed spec fn view(&self) -> (int, nat) {
        (self.mantissa as int, self.scale as nat)
    }
}

/// Relies on rust_decimal's `Decimal::from_i128_with_scale`, which panics out
/// of range, and its `Display`: writes the number in decimal notation.
#[verifier::external_body]
fn render_decimal(mantissa: i128, scale: u32) -> (r: String)
    requires
        in_range(mantissa as int, scale as int),
    ensures
        r@ == decimal_text(mantissa as int, scale as nat),
{
    rust_decimal::Decimal::from_i128_with_scale(mantissa, scale).to_string()
}

impl Decimal {
    #[verifier::type_invariant]
    closed spec fn inv(&self) -> bool {
        in_range(self.mantissa as int, self.scale as int)
    }

    /// The number `mantissa * 10^-scale`, or `None` where rust_decimal
    /// cannot hold it.
    pub fn new(mantissa: i128, scale: u32) -> (r: Option<Decimal>)
        ensures
            r is Some <==> in_range(mantissa as int, scale as int),
            r matches Some(d) ==> d@ == (mantissa as int, scale as nat),
    {
        if scale <= MAX_SCALE && -MAX_MANTISSA <= mantissa && mantissa <= MAX_MANTISSA {
            Some(Decimal { mantissa, scale })
        } else {
            None
        }
    }

    pub fn mantissa(&self) -> (r: i128)
        ensures
            r as int == self@.0,
    {
        self.mantissa
    }

    pub fn scale(&self) -> (r: u32)
        ensures
            r as nat == self@.1,
    {
        self.scale
    }

    /// The number in decimal notation.
    pub fn to_text(&self) -> (r: String)
        ensures
            r@ == decimal_text(self@.0, self@.1),
    {
        proof {
            use_type_invariant(self);
        }
        render_decimal(self.mantissa, self.scale)
    }
}

} // verus!
