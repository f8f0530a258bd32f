use vstd::arithmetic::div_mod::lemma_mod_multiples_basic;
use vstd::prelude::*;

use crate::data::{OrderSummary, Side};
use crate::decimal::{
    checked_div, checked_mul, lemma_pow10_27, lemma_pow10_add, lemma_pow10_monotone, lemma_pow10_positive, pow10, pow10_u128,
    exact_product, product_of, quotient_of, round_dp, sum_of, Decimal, RoundingStrategy,
    MAX_MANTISSA,
};
use crate::error::ClobError;

verus! {

/// Decimal places legal for the price, the size and the notional amount at
/// one tick size.
#[derive(Clone, Copy, Debug, PartialEq, Eq, Structural)]
pub struct RoundConfig {
    pub price: u32,
    pub size: u32,
    pub amount: u32,
}

impl RoundConfig {
    /// Precisions small enough for every rounding step, the widened repair
    /// step included.
    pub open spec fn wf(self) -> bool {
        self.price <= 28 && self.size <= 28 && self.amount <= 24
    }
}

/// The tick size is `10^-k`.
pub open spec fn is_tick(tick: Decimal, k: nat) -> bool {
    tick.mantissa * pow10(k) == pow10(tick.scale as nat)
}

/// The precision table: tick sizes `0.1`, `0.01`, `0.001` and `0.0001`, by
/// numeric value.
pub open spec fn round_config_spec(tick: Decimal) -> Option<RoundConfig> {
    if is_tick(tick, 1) {
        Some(RoundConfig { price: 1, size: 2, amount: 3 })
    } else if is_tick(tick, 2) {
        Some(RoundConfig { price: 2, size: 2, amount: 4 })
    } else if is_tick(tick, 3) {
        Some(RoundConfig { price: 3, size: 2, amount: 5 })
    } else if is_tick(tick, 4) {
        Some(RoundConfig { price: 4, size: 2, amount: 6 })
    } else {
        None
    }
}

/// Looks up the precisions of a tick size; `None` for an unsupported one.
pub fn round_config_for(tick: &Decimal) -> (r: Option<RoundConfig>)
    requires
        tick.wf(),
    ensures
        r == round_config_spec(*tick),
        r matches Some(c) ==> c.wf(),
{
    let one = pow10_u128(tick.scale);
    proof {
        reveal_with_fuel(pow10, 5);
    }
    let m = tick.mantissa;
    if m * 10 == one {
        Some(RoundConfig { price: 1, size: 2, amount: 3 })
    } else if m * 100 == one {
        Some(RoundConfig { price: 2, size: 2, amount: 4 })
    } else if m * 1000 == one {
        Some(RoundConfig { price: 3, size: 2, amount: 5 })
    } else if m * 10000 == one {
        Some(RoundConfig { price: 4, size: 2, amount: 6 })
    } else {
        None
    }
}

/// The amount-precision repair: round away from zero at `amount_dp + 4`
/// places, then truncate to `amount_dp` places. A value with no more than
/// `amount_dp` places passes through unchanged.
pub open spec fn fix_amount(amt: Decimal, amount_dp: nat) -> Decimal {
    round_dp(
        round_dp(amt, amount_dp + 4, RoundingStrategy::AwayFromZero),
        amount_dp,
        RoundingStrategy::ToZero,
    )
}

/// Repairs the digits a multiplication or division left beyond the notional
/// precision of `round_config`.
pub fn fix_amount_rounding(amt: Decimal, round_config: &RoundConfig) -> (r: Decimal)
    requires
        amt.wf(),
        round_config.wf(),
    ensures
        r == fix_amount(amt, round_config.amount as nat),
        r.wf(),
{
    let mut amt = amt;
    if amt.scale > round_config.amount {
        amt = amt.round_dp_with_strategy(round_config.amount + 4, RoundingStrategy::AwayFromZero);
        if amt.scale > round_config.amount {
            amt = amt.round_dp_with_strategy(round_config.amount, RoundingStrategy::ToZero);
        }
    }
    amt
}

/// The wire precisions: the quote-currency leg at 2 places and the token leg
/// at 4, both rounded half toward zero. For a buy the maker gives the quote
/// leg; for a sell the maker gives the token leg.
pub open spec fn clamp_spec(side: Side, maker: Decimal, taker: Decimal) -> (Decimal, Decimal) {
    match side {
        Side::BUY => (
            round_dp(maker, 2, RoundingStrategy::MidpointTowardZero),
            round_dp(taker, 4, RoundingStrategy::MidpointTowardZero),
        ),
        Side::SELL => (
            round_dp(maker, 4, RoundingStrategy::MidpointTowardZero),
            round_dp(taker, 2, RoundingStrategy::MidpointTowardZero),
        ),
    }
}

/// Clamps both legs of an order to their wire precision.
pub fn clamp_amount_precision(side: Side, maker: Decimal, taker: Decimal) -> (r: (
    Decimal,
    Decimal,
))
    requires
        maker.wf(),
        taker.wf(),
    ensures
        r == clamp_spec(side, maker, taker),
        r.0.wf(),
        r.1.wf(),
{
    match side {
        Side::BUY => (
            maker.round_dp_with_strategy(2, RoundingStrategy::MidpointTowardZero),
            taker.round_dp_with_strategy(4, RoundingStrategy::MidpointTowardZero),
        ),
        Side::SELL => (
            maker.round_dp_with_strategy(4, RoundingStrategy::MidpointTowardZero),
            taker.round_dp_with_strategy(2, RoundingStrategy::MidpointTowardZero),
        ),
    }
}

/// `amt * 10^6`, rounded half toward zero to an integer.
pub open spec fn token_units(amt: Decimal) -> int {
    let r = round_dp(amt, 6, RoundingStrategy::MidpointTowardZero);
    r.mantissa * pow10((6 - r.scale) as nat)
}

/// Converts an amount to integer token units (`10^6` per whole unit);
/// `None` when the result does not fit in 32 bits.
pub fn decimal_to_token_u32(amt: Decimal) -> (r: Option<u32>)
    requires
        amt.wf(),
    ensures
        r == (if token_units(amt) <= u32::MAX {
            Some(token_units(amt) as u32)
        } else {
            None
        }),
{
    let amt = amt.round_dp_with_strategy(6, RoundingStrategy::MidpointTowardZero);
    let k = pow10_u128(6 - amt.scale);
    match amt.mantissa.checked_mul(k) {
        Some(units) => {
            if units <= u32::MAX as u128 {
                Some(units as u32)
            } else {
                None
            }
        },
        None => None,
    }
}

/// Both legs in token units, as `(maker, taker)`: the token leg clamped to 4
/// places and the quote leg to 2, each then scaled by `10^6`.
pub open spec fn legs_to_units(side: Side, token_leg: Decimal, quote_leg: Decimal) -> Result<
    (u32, u32),
    ClobError,
> {
    let t = token_units(round_dp(token_leg, 4, RoundingStrategy::MidpointTowardZero));
    let q = token_units(round_dp(quote_leg, 2, RoundingStrategy::MidpointTowardZero));
    if t <= u32::MAX && q <= u32::MAX {
        match side {
            Side::BUY => Ok((q as u32, t as u32)),
            Side::SELL => Ok((t as u32, q as u32)),
        }
    } else {
        Err(ClobError::AmountOutOfRange)
    }
}

/// Clamps an order's token and quote legs to wire precision and converts
/// them to token units, as `(maker, taker)` for `side`.
pub fn amounts_from_legs(side: Side, token_leg: Decimal, quote_leg: Decimal) -> (r: Result<
    (u32, u32),
    ClobError,
>)
    requires
        token_leg.wf(),
        quote_leg.wf(),
    ensures
        r == legs_to_units(side, token_leg, quote_leg),
{
    let (maker, taker) = match side {
        Side::BUY => clamp_amount_precision(side, quote_leg, token_leg),
        Side::SELL => clamp_amount_precision(side, token_leg, quote_leg),
    };
    let maker_units = decimal_to_token_u32(maker);
    let taker_units = decimal_to_token_u32(taker);
    match (maker_units, taker_units) {
        (Some(m), Some(t)) => Ok((m, t)),
        _ => Err(ClobError::AmountOutOfRange),
    }
}

/// The limit-order pipeline: the price rounded half toward zero to
/// `price_dp`, the size truncated to `size_dp`, the notional `size * price`
/// repaired to `amount_dp`, both legs clamped and scaled to token units.
pub open spec fn order_amounts(side: Side, size: Decimal, price: Decimal, cfg: RoundConfig) -> Result<
    (u32, u32),
    ClobError,
> {
    let p = round_dp(price, cfg.price as nat, RoundingStrategy::MidpointTowardZero);
    let s = round_dp(size, cfg.size as nat, RoundingStrategy::ToZero);
    match product_of(s, p) {
        Some(n) => legs_to_units(side, s, fix_amount(n, cfg.amount as nat)),
        None => Err(ClobError::AmountOutOfRange),
    }
}

/// The rounded size and price of a limit order, whose product rust_decimal
/// computes exactly.
pub open spec fn order_product_fits(size: Decimal, price: Decimal, cfg: RoundConfig) -> bool {
    let p = round_dp(price, cfg.price as nat, RoundingStrategy::MidpointTowardZero);
    let s = round_dp(size, cfg.size as nat, RoundingStrategy::ToZero);
    s.mantissa * p.mantissa <= MAX_MANTISSA && s.scale + p.scale <= 28
}

/// The limit-order pipeline with the notional computed exactly.
pub open spec fn exact_order_amounts(side: Side, size: Decimal, price: Decimal, cfg: RoundConfig) -> Result<
    (u32, u32),
    ClobError,
> {
    let p = round_dp(price, cfg.price as nat, RoundingStrategy::MidpointTowardZero);
    let s = round_dp(size, cfg.size as nat, RoundingStrategy::ToZero);
    legs_to_units(side, s, fix_amount(exact_product(s, p), cfg.amount as nat))
}

/// The market-order pipeline: the notional truncated to `size_dp` is the
/// maker leg, the taker leg is `notional / price` repaired to `amount_dp`,
/// and both are clamped as for a buy.
pub open spec fn market_order_amounts(amount: Decimal, price: Decimal, cfg: RoundConfig) -> Result<
    (u32, u32),
    ClobError,
> {
    let m = round_dp(amount, cfg.size as nat, RoundingStrategy::ToZero);
    let p = round_dp(price, cfg.price as nat, RoundingStrategy::MidpointTowardZero);
    match quotient_of(m, p) {
        Some(t) => legs_to_units(Side::BUY, fix_amount(t, cfg.amount as nat), m),
        None => Err(ClobError::AmountOutOfRange),
    }
}

/// The quote leg is a whole number of `10^-2` units and the token leg a
/// whole number of `10^-4` units, in token units.
pub open spec fn wire_precision(side: Side, amounts: (u32, u32)) -> bool {
    match side {
        Side::BUY => amounts.0 % 10000 == 0 && amounts.1 % 100 == 0,
        Side::SELL => amounts.0 % 100 == 0 && amounts.1 % 10000 == 0,
    }
}

/// Maker and taker token units for a limit order.
pub fn get_order_amounts(side: Side, size: Decimal, price: Decimal, round_config: &RoundConfig) -> (r:
    Result<(u32, u32), ClobError>)
    requires
        size.wf(),
        price.wf(),
        round_config.wf(),
    ensures
        r == order_amounts(side, size, price, *round_config),
        r matches Ok(a) ==> wire_precision(side, a),
        order_product_fits(size, price, *round_config) ==> r == exact_order_amounts(
            side,
            size,
            price,
            *round_config,
        ),
{
    let raw_price = price.round_dp_with_strategy(
        round_config.price,
        RoundingStrategy::MidpointTowardZero,
    );
    let raw_size = size.round_dp_with_strategy(round_config.size, RoundingStrategy::ToZero);
    let r = match checked_mul(&raw_size, &raw_price) {
        Some(notional) => {
            let notional = fix_amount_rounding(notional, round_config);
            amounts_from_legs(side, raw_size, notional)
        },
        None => Err(ClobError::AmountOutOfRange),
    };
    proof {
        if let Some(n) = product_of(raw_size, raw_price) {
            lemma_legs_wire_precision(side, raw_size, fix_amount(n, round_config.amount as nat));
        }
    }
    r
}

/// Maker and taker token units for a market buy of `amount` at `price`.
pub fn get_market_order_amounts(amount: Decimal, price: Decimal, round_config: &RoundConfig) -> (r:
    Result<(u32, u32), ClobError>)
    requires
        amount.wf(),
        price.wf(),
        round_config.wf(),
    ensures
        r == market_order_amounts(amount, price, *round_config),
        r matches Ok(a) ==> wire_precision(Side::BUY, a),
{
    let raw_maker = amount.round_dp_with_strategy(round_config.size, RoundingStrategy::ToZero);
    let raw_price = price.round_dp_with_strategy(
        round_config.price,
        RoundingStrategy::MidpointTowardZero,
    );
    let r = match checked_div(&raw_maker, &raw_price) {
        Some(taker) => {
            let taker = fix_amount_rounding(taker, round_config);
            amounts_from_legs(Side::BUY, taker, raw_maker)
        },
        None => Err(ClobError::AmountOutOfRange),
    };
    proof {
        if let Some(t) = quotient_of(raw_maker, raw_price) {
            lemma_legs_wire_precision(Side::BUY, fix_amount(t, round_config.amount as nat), raw_maker);
        }
    }
    r
}

/// The legal price interval `[tick, 1 - tick]`, by numeric value.
pub open spec fn price_in_range(price: Decimal, tick: Decimal) -> bool {
    let pp = pow10(price.scale as nat) as int;
    let pt = pow10(tick.scale as nat) as int;
    &&& tick.spec_le(price)
    &&& price.mantissa * pt + tick.mantissa * pp <= pt * pp
}

/// Whether `price` lies in `[tick_size, 1 - tick_size]`, bounds included.
pub fn is_price_in_range(price: Decimal, tick_size: Decimal) -> (r: bool)
    requires
        price.wf(),
        tick_size.wf(),
    ensures
        r == price_in_range(price, tick_size),
{
    let one = pow10_u128(tick_size.scale);
    let ghost pp = pow10(price.scale as nat) as int;
    let ghost pt = one as int;
    proof {
        lemma_pow10_positive(price.scale as nat);
    }
    if tick_size.mantissa > one {
        proof {
            assert(tick_size.mantissa * pp >= (pt + 1) * pp) by (nonlinear_arith)
                requires
                    tick_size.mantissa >= pt + 1,
                    pp >= 1,
            ;
            assert((pt + 1) * pp == pt * pp + pp) by (nonlinear_arith);
            assert(price.mantissa * pt >= 0) by (nonlinear_arith)
                requires
                    pt >= 0,
            ;
        }
        return false;
    }
    let max_price = Decimal { mantissa: one - tick_size.mantissa, scale: tick_size.scale };
    proof {
        lemma_pow10_27();
        if tick_size.scale <= 27 {
            lemma_pow10_monotone(tick_size.scale as nat, 27);
        } else {
            assert(pow10(28) == 10 * pow10(27));
        }
        assert((pt - tick_size.mantissa) * pp == pt * pp - tick_size.mantissa * pp)
            by (nonlinear_arith);
    }
    let lower = tick_size.le(&price);
    let upper = price.le(&max_price);
    lower && upper
}

/// Settles the tick size for an order on `token_id`: the market's minimum
/// when none is requested, the requested one when it is not finer than the
/// minimum, and otherwise an error naming both and the token.
pub fn resolve_tick_size(token_id: &str, requested: Option<Decimal>, min_tick_size: Decimal) -> (r:
    Result<Decimal, ClobError>)
    requires
        min_tick_size.wf(),
        requested matches Some(t) ==> t.wf(),
    ensures
        match requested {
            None => r == Ok::<Decimal, ClobError>(min_tick_size),
            Some(t) => if min_tick_size.spec_le(t) {
                r == Ok::<Decimal, ClobError>(t)
            } else {
                r matches Err(ClobError::TickSizeTooSmall { tick_size, min_tick_size: m, token_id: tok })
                    && tick_size == t && m == min_tick_size && tok@ == token_id@
            },
        },
{
    match requested {
        None => Ok(min_tick_size),
        Some(t) => if min_tick_size.le(&t) {
            Ok(t)
        } else {
            Err(ClobError::TickSizeTooSmall { tick_size: t, min_tick_size, token_id: token_id.to_owned() })
        },
    }
}

/// Rejects a price outside `[tick_size, 1 - tick_size]`, naming both.
pub fn check_price_in_range(price: Decimal, tick_size: Decimal) -> (r: Result<(), ClobError>)
    requires
        price.wf(),
        tick_size.wf(),
    ensures
        r is Ok <==> price_in_range(price, tick_size),
        r is Err ==> r == Err::<(), ClobError>(ClobError::PriceOutOfRange { price, tick_size }),
{
    if is_price_in_range(price, tick_size) {
        Ok(())
    } else {
        Err(ClobError::PriceOutOfRange { price, tick_size })
    }
}

/// The scan of a book side from level `i` on, with `acc` the notional of the
/// levels before it: the price of the first level at which the running sum
/// of `size * price` reaches `amount`.
pub open spec fn market_price_from(
    levels: Seq<OrderSummary>,
    amount: Decimal,
    i: nat,
    acc: Decimal,
) -> Result<Decimal, ClobError>
    decreases levels.len() - i,
{
    if i >= levels.len() {
        Err(ClobError::InsufficientLiquidity { amount })
    } else {
        match product_of(levels[i as int].size, levels[i as int].price) {
            None => Err(ClobError::AmountOutOfRange),
            Some(n) => match sum_of(acc, n) {
                None => Err(ClobError::AmountOutOfRange),
                Some(s) => if amount.spec_le(s) {
                    Ok(levels[i as int].price)
                } else {
                    market_price_from(levels, amount, i + 1, s)
                },
            },
        }
    }
}

/// The clearing price of a book side for a target notional.
pub open spec fn market_price(levels: Seq<OrderSummary>, amount: Decimal) -> Result<
    Decimal,
    ClobError,
> {
    market_price_from(levels, amount, 0, Decimal { mantissa: 0, scale: 0 })
}

/// Every level of the book side is in the decimal range.
pub open spec fn levels_wf(levels: Seq<OrderSummary>) -> bool {
    forall|i: int| 0 <= i < levels.len() ==> #[trigger] levels[i].price.wf() && levels[i].size.wf()
}

/// Token units of a decimal written with at most `dp <= 6` places.
proof fn lemma_units_multiple(d: Decimal, dp: nat)
    requires
        d.scale <= dp <= 6,
    ensures
        token_units(d) % (pow10((6 - dp) as nat) as int) == 0,
        token_units(d) == d.mantissa * pow10((6 - d.scale) as nat),
{
    let a = (6 - dp) as nat;
    let b = (dp - d.scale) as nat;
    assert((6 - d.scale) as nat == a + b);
    lemma_pow10_add(a, b);
    lemma_pow10_positive(a);
    lemma_pow10_positive(b);
    let pa = pow10(a) as int;
    let pb = pow10(b) as int;
    assert(d.mantissa * (pa * pb) == (d.mantissa * pb) * pa) by (nonlinear_arith);
    assert(d.mantissa * pb >= 0) by (nonlinear_arith)
        requires
            pb >= 1,
    ;
    lemma_mod_multiples_basic(d.mantissa * pb, pa);
}

/// What `legs_to_units` returns is a whole number of cents on the quote leg
/// and of `10^-4` on the token leg.
proof fn lemma_legs_wire_precision(side: Side, token_leg: Decimal, quote_leg: Decimal)
    requires
        token_leg.wf(),
        quote_leg.wf(),
    ensures
        legs_to_units(side, token_leg, quote_leg) matches Ok(a) ==> wire_precision(side, a),
{
    let t = round_dp(token_leg, 4, RoundingStrategy::MidpointTowardZero);
    let q = round_dp(quote_leg, 2, RoundingStrategy::MidpointTowardZero);
    lemma_units_multiple(t, 4);
    lemma_units_multiple(q, 2);
    reveal_with_fuel(pow10, 5);
}

/// Rounding half toward zero at `dp` places moves the value by at most half
/// a unit of the last kept place.
pub proof fn lemma_round_half_error(d: Decimal, dp: nat)
    requires
        dp < d.scale,
        d.wf(),
    ensures
        ({
            let k = pow10((d.scale - dp) as nat) as int;
            let r = round_dp(d, dp, RoundingStrategy::MidpointTowardZero);
            &&& r.scale == dp
            &&& -k <= 2 * (r.mantissa * k - d.mantissa) <= k
        }),
{
    let k = pow10((d.scale - dp) as nat) as int;
    lemma_pow10_positive((d.scale - dp) as nat);
    let m = d.mantissa as int;
    let q = m / k;
    let rem = m % k;
    vstd::arithmetic::div_mod::lemma_fundamental_div_mod(m, k);
    assert(0 <= rem < k) by {
        vstd::arithmetic::div_mod::lemma_mod_bound(m, k);
    }
    assert(q >= 0) by {
        vstd::arithmetic::div_mod::lemma_div_pos_is_pos(m, k);
    }
    assert(q <= m) by {
        vstd::arithmetic::div_mod::lemma_div_is_ordered_by_denominator(m, 1, k);
    }
    let r = round_dp(d, dp, RoundingStrategy::MidpointTowardZero);
    if 2 * rem > k {
        assert(r.mantissa == q + 1);
        assert((q + 1) * k - m == k - rem) by (nonlinear_arith)
            requires
                m == k * q + rem,
        ;
    } else {
        assert(r.mantissa == q);
        assert(q * k - m == -rem) by (nonlinear_arith)
            requires
                m == k * q + rem,
        ;
    }
}

/// A buy's token leg is the truncated size itself, and its quote leg, read
/// back against the rounded price, is within half a cent of the notional:
/// `|maker * 10^ps - taker * pm| <= 10^(ps+4) / 2` for the rounded price
/// `pm / 10^ps`, in token units.
pub proof fn lemma_buy_notional_round_trip(size: Decimal, price: Decimal, tick: Decimal)
    requires
        round_config_spec(tick) is Some,
        order_product_fits(size, price, round_config_spec(tick)->Some_0),
        exact_order_amounts(Side::BUY, size, price, round_config_spec(tick)->Some_0) is Ok,
    ensures
        ({
            let cfg = round_config_spec(tick)->Some_0;
            let p = round_dp(price, cfg.price as nat, RoundingStrategy::MidpointTowardZero);
            let s = round_dp(size, cfg.size as nat, RoundingStrategy::ToZero);
            let (maker, taker) = exact_order_amounts(Side::BUY, size, price, cfg)->Ok_0;
            &&& taker == s.mantissa * pow10((6 - s.scale) as nat)
            &&& -pow10(p.scale as nat + 4) <= 2 * (maker * pow10(p.scale as nat) - taker * p.mantissa)
                <= pow10(p.scale as nat + 4)
        }),
{
    let cfg = round_config_spec(tick)->Some_0;
    let p = round_dp(price, cfg.price as nat, RoundingStrategy::MidpointTowardZero);
    let s = round_dp(size, cfg.size as nat, RoundingStrategy::ToZero);
    let n = exact_product(s, p);
    assert(s.scale <= 2 && p.scale <= cfg.price && cfg.amount == cfg.price + 2 && cfg.price <= 4);
    // The notional needs no repair: it has at most `price_dp + 2` places.
    assert(n.scale <= cfg.amount);
    assert(fix_amount(n, cfg.amount as nat) == n);
    let t4 = round_dp(s, 4, RoundingStrategy::MidpointTowardZero);
    assert(t4 == s);
    assert(round_dp(s, 6, RoundingStrategy::MidpointTowardZero) == s);
    let q2 = round_dp(n, 2, RoundingStrategy::MidpointTowardZero);
    let taker = s.mantissa * pow10((6 - s.scale) as nat);
    let ps = p.scale as nat;
    let pm = p.mantissa as int;
    let sm = s.mantissa as int;
    let ss = s.scale as nat;
    lemma_pow10_positive(ps);
    lemma_pow10_positive((6 - ss) as nat);
    lemma_pow10_positive((6 - q2.scale) as nat);
    assert(token_units(s) == taker);
    assert(taker >= 0) by (nonlinear_arith)
        requires
            taker == sm * pow10((6 - ss) as nat),
            sm >= 0,
    ;
    assert(token_units(q2) >= 0) by (nonlinear_arith)
        requires
            token_units(q2) == q2.mantissa * pow10((6 - q2.scale) as nat),
    ;
    let (mk, tk) = exact_order_amounts(Side::BUY, size, price, cfg)->Ok_0;
    assert(tk == taker);
    assert(mk == token_units(q2));
    if s.mantissa == 0 || p.mantissa == 0 {
        assert(n == Decimal { mantissa: 0, scale: 0 });
        assert(q2 == n);
        assert(round_dp(q2, 6, RoundingStrategy::MidpointTowardZero) == q2);
        assert(token_units(q2) == 0) by (nonlinear_arith)
            requires
                token_units(q2) == 0 * pow10(6),
        ;
        assert(taker * pm == 0) by (nonlinear_arith)
            requires
                sm == 0 || pm == 0,
                taker == sm * pow10((6 - ss) as nat),
        ;
        lemma_pow10_positive(ps + 4);
        assert(mk * pow10(ps) - tk * pm == 0) by (nonlinear_arith)
            requires
                mk == 0,
                tk * pm == 0,
        ;
    } else {
        let nm = sm * pm;
        let ns = ss + ps;
        assert(n.mantissa == nm && n.scale == ns);
        // taker * pm == nm * 10^(6 - ss)
        assert(taker * pm == nm * pow10((6 - ss) as nat)) by (nonlinear_arith)
            requires
                taker == sm * pow10((6 - ss) as nat),
                nm == sm * pm,
        ;
        if ns <= 2 {
            assert(q2 == n);
            assert(round_dp(q2, 6, RoundingStrategy::MidpointTowardZero) == q2);
            // maker == nm * 10^(6 - ns); maker * 10^ps == nm * 10^(6 - ss)
            lemma_pow10_add((6 - ns) as nat, ps);
            assert((6 - ns) as nat + ps == (6 - ss) as nat);
            let maker = nm * pow10((6 - ns) as nat);
            assert(maker * pow10(ps) == nm * pow10((6 - ss) as nat)) by (nonlinear_arith)
                requires
                    maker == nm * pow10((6 - ns) as nat),
                    pow10((6 - ss) as nat) == pow10((6 - ns) as nat) * pow10(ps),
            ;
            lemma_pow10_positive(ps + 4);
            assert(mk == maker);
            assert(mk * pow10(ps) - tk * pm == 0);
        } else {
            lemma_round_half_error(n, 2);
            let k = pow10((ns - 2) as nat) as int;
            let qm = q2.mantissa as int;
            assert(round_dp(q2, 6, RoundingStrategy::MidpointTowardZero) == q2);
            let maker = qm * pow10(4);
            // k * 10^(6 - ss) == 10^(ps + 4)
            lemma_pow10_add((ns - 2) as nat, (6 - ss) as nat);
            assert((ns - 2) as nat + (6 - ss) as nat == ps + 4);
            lemma_pow10_add(4, ps);
            assert(4 + ps == ps + 4);
            let w = pow10((6 - ss) as nat) as int;
            let e = qm * k - nm;
            assert(maker * pow10(ps) - taker * pm == e * w) by (nonlinear_arith)
                requires
                    maker == qm * pow10(4),
                    taker * pm == nm * w,
                    k * w == pow10(ps + 4),
                    pow10(4) * pow10(ps) == pow10(ps + 4),
                    e == qm * k - nm,
            ;
            assert(-(k * w) <= 2 * (e * w) <= k * w) by (nonlinear_arith)
                requires
                    -k <= 2 * e <= k,
                    w >= 1,
            ;
            assert(q2.scale == 2);
            assert(mk == maker);
            assert(-pow10(ps + 4) <= 2 * (mk * pow10(ps) - tk * pm) <= pow10(ps + 4));
        }
    }
}

/// Rounding is idempotent: a rounded value rounds to itself.
pub proof fn lemma_round_dp_idempotent(d: Decimal, dp: nat, strategy: RoundingStrategy)
    requires
        dp <= u32::MAX,
    ensures
        round_dp(round_dp(d, dp, strategy), dp, strategy) == round_dp(d, dp, strategy),
{
}

/// Re-rounding a limit order whose price and size were already rounded at
/// the same tick size gives the same token units.
pub proof fn lemma_order_amounts_idempotent(
    side: Side,
    size: Decimal,
    price: Decimal,
    cfg: RoundConfig,
)
    requires
        cfg.wf(),
    ensures
        order_amounts(
            side,
            round_dp(size, cfg.size as nat, RoundingStrategy::ToZero),
            round_dp(price, cfg.price as nat, RoundingStrategy::MidpointTowardZero),
            cfg,
        ) == order_amounts(side, size, price, cfg),
{
    lemma_round_dp_idempotent(size, cfg.size as nat, RoundingStrategy::ToZero);
    lemma_round_dp_idempotent(price, cfg.price as nat, RoundingStrategy::MidpointTowardZero);
}

/// Re-rounding a market order whose notional and price were already rounded
/// at the same tick size gives the same token units.
pub proof fn lemma_market_order_amounts_idempotent(
    amount: Decimal,
    price: Decimal,
    cfg: RoundConfig,
)
    requires
        cfg.wf(),
    ensures
        market_order_amounts(
            round_dp(amount, cfg.size as nat, RoundingStrategy::ToZero),
            round_dp(price, cfg.price as nat, RoundingStrategy::MidpointTowardZero),
            cfg,
        ) == market_order_amounts(amount, price, cfg),
{
    lemma_round_dp_idempotent(amount, cfg.size as nat, RoundingStrategy::ToZero);
    lemma_round_dp_idempotent(price, cfg.price as nat, RoundingStrategy::MidpointTowardZero);
}

/// Token units read back as a decimal with six places convert to the same
/// token units.
pub proof fn lemma_token_units_round_trip(units: u32)
    ensures
        token_units(Decimal { mantissa: units as u128, scale: 6 }) == units,
{
    let d = Decimal { mantissa: units as u128, scale: 6 };
    assert(round_dp(d, 6, RoundingStrategy::MidpointTowardZero) == d);
    assert((6 - d.scale) as nat == 0);
    assert(pow10(0) == 1);
    assert(d.mantissa * 1 == units);
}

/// A buy and a sell with the same size, price and tick size assign the
/// precisions the other way round: the buy's maker units are the sell's taker
/// units and the other way round.
pub proof fn lemma_side_symmetry(size: Decimal, price: Decimal, cfg: RoundConfig)
    ensures
        order_amounts(Side::SELL, size, price, cfg) == (match order_amounts(
            Side::BUY,
            size,
            price,
            cfg,
        ) {
            Ok((maker, taker)) => Ok((taker, maker)),
            Err(e) => Err(e),
        }),
{
}

} // verus!
