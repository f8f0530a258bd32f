use vstd::arithmetic::div_mod::lemma_fundamental_div_mod;
use vstd::prelude::*;

verus! {

/// Largest mantissa a decimal may hold: `2^96 - 1`.
pub const MAX_MANTISSA: u128 = 79228162514264337593543950335;

/// Largest number of fractional digits a decimal may hold.
pub const MAX_SCALE: u32 = 28;

/// `10^n`.
pub open spec fn pow10(n: nat) -> nat
    decreases n,
{
    if n == 0 {
        1
    } else {
        10 * pow10((n - 1) as nat)
    }
}

/// A non-negative base-10 fixed-point number: `mantissa / 10^scale`.
///
/// The scale is part of the representation: `0.5` and `0.50` are different
/// values of this type with the same numeric value.
#[derive(Clone, Copy, Debug, PartialEq, Eq, Structural)]
pub struct Decimal {
    pub mantissa: u128,
    pub scale: u32,
}

/// How digits beyond the requested precision are dropped.
#[derive(Clone, Copy, Debug, PartialEq, Eq, Structural)]
pub enum RoundingStrategy {
    /// Drop the excess digits.
    ToZero,
    /// Drop the excess digits and add one unit if any of them was non-zero.
    AwayFromZero,
    /// Round to the nearest unit; an exact half goes toward zero.
    MidpointTowardZero,
}

impl Decimal {
    /// The range of values the decimal arithmetic works with.
    pub open spec fn wf(self) -> bool {
        self.mantissa <= MAX_MANTISSA && self.scale <= MAX_SCALE
    }

    /// `self <= other` as numbers.
    pub open spec fn spec_le(self, other: Decimal) -> bool {
        self.mantissa * pow10(other.scale as nat) <= other.mantissa * pow10(self.scale as nat)
    }

    /// `mantissa / 10^scale`.
    pub fn new(mantissa: u64, scale: u32) -> (r: Decimal)
        requires
            scale <= MAX_SCALE,
        ensures
            r.mantissa == mantissa,
            r.scale == scale,
            r.wf(),
    {
        Decimal { mantissa: mantissa as u128, scale }
    }

    /// `mantissa / 10^scale`, or `None` outside the supported range.
    pub fn from_parts(mantissa: u128, scale: u32) -> (r: Option<Decimal>)
        ensures
            r == (if mantissa <= MAX_MANTISSA && scale <= MAX_SCALE {
                Some(Decimal { mantissa, scale })
            } else {
                None
            }),
    {
        if mantissa <= MAX_MANTISSA && scale <= MAX_SCALE {
            Some(Decimal { mantissa, scale })
        } else {
            None
        }
    }

    /// Whether the value is within the supported range.
    pub fn is_valid(&self) -> (r: bool)
        ensures
            r == self.wf(),
    {
        self.mantissa <= MAX_MANTISSA && self.scale <= MAX_SCALE
    }

    /// Zero, written without fractional digits.
    pub fn zero() -> (r: Decimal)
        ensures
            r.mantissa == 0,
            r.scale == 0,
    {
        Decimal { mantissa: 0, scale: 0 }
    }

    /// Compares two decimals by numeric value.
    pub fn le(&self, other: &Decimal) -> (r: bool)
        requires
            self.wf(),
            other.wf(),
        ensures
            r == self.spec_le(*other),
    {
        let sa = self.scale;
        let sb = other.scale;
        if sa <= sb {
            let k = pow10_u128(sb - sa);
            proof {
                lemma_pow10_positive(sa as nat);
                lemma_pow10_positive((sb - sa) as nat);
                lemma_pow10_add(sa as nat, (sb - sa) as nat);
                assert(sa as nat + (sb - sa) as nat == sb as nat);
                lemma_cross_scale_le(
                    self.mantissa as int,
                    other.mantissa as int,
                    pow10(sa as nat) as int,
                    k as int,
                );
            }
            match self.mantissa.checked_mul(k) {
                Some(a) => a <= other.mantissa,
                None => false,
            }
        } else {
            let k = pow10_u128(sa - sb);
            proof {
                lemma_pow10_positive(sb as nat);
                lemma_pow10_positive((sa - sb) as nat);
                lemma_pow10_add(sb as nat, (sa - sb) as nat);
                assert(sb as nat + (sa - sb) as nat == sa as nat);
                lemma_cross_scale_le(
                    other.mantissa as int,
                    self.mantissa as int,
                    pow10(sb as nat) as int,
                    k as int,
                );
            }
            match other.mantissa.checked_mul(k) {
                Some(b) => self.mantissa <= b,
                None => true,
            }
        }
    }

    /// Rounds to `dp` fractional digits; a value with no more digits than that
    /// is returned unchanged.
    pub fn round_dp_with_strategy(&self, dp: u32, strategy: RoundingStrategy) -> (r: Decimal)
        requires
            self.wf(),
        ensures
            r == round_dp(*self, dp as nat, strategy),
            r.wf(),
    {
        if self.scale <= dp {
            return *self;
        }
        let k = pow10_u128(self.scale - dp);
        proof {
            lemma_pow10_positive((self.scale - dp) as nat);
        }
        let q = self.mantissa / k;
        let rem = self.mantissa % k;
        let up = match strategy {
            RoundingStrategy::ToZero => false,
            RoundingStrategy::AwayFromZero => rem > 0,
            RoundingStrategy::MidpointTowardZero => rem > k - rem,
        };
        proof {
            lemma_fundamental_div_mod(self.mantissa as int, k as int);
            lemma_quotient_bump(self.mantissa as int, k as int, q as int, rem as int);
        }
        let m = if up {
            q + 1
        } else {
            q
        };
        Decimal { mantissa: m, scale: dp }
    }
}

/// Whether the digits dropped when rounding at `k = 10^d` raise the kept part.
pub open spec fn rounds_up(rem: int, k: int, strategy: RoundingStrategy) -> bool {
    match strategy {
        RoundingStrategy::ToZero => false,
        RoundingStrategy::AwayFromZero => rem > 0,
        RoundingStrategy::MidpointTowardZero => 2 * rem > k,
    }
}

/// `d` rounded to `dp` fractional digits: unchanged when it has no more than
/// `dp` of them, otherwise with exactly `dp`.
pub open spec fn round_dp(d: Decimal, dp: nat, strategy: RoundingStrategy) -> Decimal {
    if d.scale <= dp {
        d
    } else {
        let k = pow10((d.scale - dp) as nat) as int;
        let q = d.mantissa as int / k;
        let up = rounds_up(d.mantissa as int % k, k, strategy);
        Decimal { mantissa: (if up { q + 1 } else { q }) as u128, scale: dp as u32 }
    }
}

/// `a * b` written with the scales added; zero is written without
/// fractional digits.
pub open spec fn exact_product(a: Decimal, b: Decimal) -> Decimal {
    if a.mantissa == 0 || b.mantissa == 0 {
        Decimal { mantissa: 0, scale: 0 }
    } else {
        Decimal { mantissa: (a.mantissa * b.mantissa) as u128, scale: (a.scale + b.scale) as u32 }
    }
}

/// What `rust_decimal` computes for `a * b`; `None` when the result overflows.
pub uninterp spec fn product_of(a: Decimal, b: Decimal) -> Option<Decimal>;

/// What `rust_decimal` computes for `a + b`; `None` when the result overflows.
pub uninterp spec fn sum_of(a: Decimal, b: Decimal) -> Option<Decimal>;

/// What `rust_decimal` computes for `a / b`; `None` on overflow or a zero divisor.
pub uninterp spec fn quotient_of(a: Decimal, b: Decimal) -> Option<Decimal>;

/// Relies on `rust_decimal::Decimal::checked_mul`: the product, `None` on
/// overflow. Results stay within rust_decimal's range (96-bit mantissa, scale
/// at most 28), and the product of two non-negative numbers is non-negative.
/// A zero factor gives zero without fractional digits; otherwise a product
/// whose mantissa fits 96 bits and whose scales add to at most 28 is exact.
#[verifier::external_body]
pub(crate) fn checked_mul(a: &Decimal, b: &Decimal) -> (r: Option<Decimal>)
    requires
        a.wf(),
        b.wf(),
    ensures
        r == product_of(*a, *b),
        r matches Some(d) ==> d.wf(),
        a.mantissa * b.mantissa <= MAX_MANTISSA && a.scale + b.scale <= MAX_SCALE ==> r == Some(
            exact_product(*a, *b),
        ),
{
    let x = rust_decimal::Decimal::from_i128_with_scale(a.mantissa as i128, a.scale);
    let y = rust_decimal::Decimal::from_i128_with_scale(b.mantissa as i128, b.scale);
    match x.checked_mul(y) {
        Some(p) => Some(Decimal { mantissa: p.mantissa() as u128, scale: p.scale() }),
        None => None,
    }
}

/// Relies on `rust_decimal::Decimal::checked_add`: the sum, `None` on
/// overflow. Results stay within rust_decimal's range, and the sum of two
/// non-negative numbers is non-negative.
#[verifier::external_body]
pub(crate) fn checked_add(a: &Decimal, b: &Decimal) -> (r: Option<Decimal>)
    requires
        a.wf(),
        b.wf(),
    ensures
        r == sum_of(*a, *b),
        r matches Some(d) ==> d.wf(),
{
    let x = rust_decimal::Decimal::from_i128_with_scale(a.mantissa as i128, a.scale);
    let y = rust_decimal::Decimal::from_i128_with_scale(b.mantissa as i128, b.scale);
    match x.checked_add(y) {
        Some(p) => Some(Decimal { mantissa: p.mantissa() as u128, scale: p.scale() }),
        None => None,
    }
}

/// Relies on `rust_decimal::Decimal::checked_div`: the quotient, `None` on
/// overflow or division by zero. Results stay within rust_decimal's range, and
/// the quotient of two non-negative numbers is non-negative.
#[verifier::external_body]
pub(crate) fn checked_div(a: &Decimal, b: &Decimal) -> (r: Option<Decimal>)
    requires
        a.wf(),
        b.wf(),
    ensures
        r == quotient_of(*a, *b),
        r matches Some(d) ==> d.wf(),
{
    let x = rust_decimal::Decimal::from_i128_with_scale(a.mantissa as i128, a.scale);
    let y = rust_decimal::Decimal::from_i128_with_scale(b.mantissa as i128, b.scale);
    match x.checked_div(y) {
        Some(p) => Some(Decimal { mantissa: p.mantissa() as u128, scale: p.scale() }),
        None => None,
    }
}

/// `10^n` for the exponents a decimal's scale can take.
pub fn pow10_u128(n: u32) -> (r: u128)
    requires
        n <= MAX_SCALE,
    ensures
        r == pow10(n as nat),
{
    let mut r: u128 = 1;
    let mut i: u32 = 0;
    while i < n
        invariant
            i <= n <= MAX_SCALE,
            r == pow10(i as nat),
        decreases n - i,
    {
        proof {
            lemma_pow10_monotone(i as nat, 27);
            lemma_pow10_27();
        }
        r = r * 10;
        i = i + 1;
    }
    r
}

pub proof fn lemma_pow10_27()
    ensures
        pow10(27) == 1000000000000000000000000000,
{
    reveal_with_fuel(pow10, 28);
}

pub proof fn lemma_pow10_positive(n: nat)
    ensures
        pow10(n) >= 1,
    decreases n,
{
    if n > 0 {
        lemma_pow10_positive((n - 1) as nat);
    }
}

pub proof fn lemma_pow10_monotone(a: nat, b: nat)
    requires
        a <= b,
    ensures
        pow10(a) <= pow10(b),
    decreases b,
{
    if a < b {
        lemma_pow10_monotone(a, (b - 1) as nat);
    }
}

pub proof fn lemma_pow10_add(a: nat, b: nat)
    ensures
        pow10(a + b) == pow10(a) * pow10(b),
    decreases b,
{
    if b == 0 {
        assert(a + b == a);
        assert(pow10(b) == 1);
    } else {
        let b1 = (b - 1) as nat;
        lemma_pow10_add(a, b1);
        let x = pow10(a) as int;
        let y = pow10(b1) as int;
        let z = pow10(a + b1) as int;
        assert(a + b == (a + b1) + 1);
        assert(pow10(a + b) == 10 * z);
        assert(pow10(b) == 10 * y);
        assert(10 * z == x * (10 * y)) by (nonlinear_arith)
            requires
                z == x * y,
        ;
    }
}

/// Comparing across scales: with `pb = pa * k`, `ma * pb <= mb * pa` iff
/// `ma * k <= mb`, and `mb * pa <= ma * pb` iff `mb <= ma * k`.
proof fn lemma_cross_scale_le(ma: int, mb: int, pa: int, k: int)
    requires
        pa >= 1,
        k >= 1,
        ma >= 0,
        mb >= 0,
    ensures
        (ma * (pa * k) <= mb * pa) == (ma * k <= mb),
        (mb * pa <= ma * (pa * k)) == (mb <= ma * k),
{
    assert(ma * (pa * k) == pa * (ma * k)) by (nonlinear_arith);
    assert(mb * pa == pa * mb) by (nonlinear_arith);
    assert((pa * (ma * k) <= pa * mb) == (ma * k <= mb)) by (nonlinear_arith)
        requires
            pa >= 1,
    ;
    assert((pa * mb <= pa * (ma * k)) == (mb <= ma * k)) by (nonlinear_arith)
        requires
            pa >= 1,
    ;
}

/// Raising a quotient by one unit never passes the dividend, given a non-zero remainder.
proof fn lemma_quotient_bump(m: int, k: int, q: int, rem: int)
    requires
        k >= 1,
        q >= 0,
        m == k * q + rem,
        0 <= rem < k,
    ensures
        q <= m,
        rem > 0 ==> q + 1 <= m,
{
    assert(k * q >= q) by (nonlinear_arith)
        requires
            k >= 1,
            q >= 0,
    ;
}

} // verus!
