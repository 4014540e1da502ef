//! The algebraic laws of the exchange, stated and proved once and for all
//! inputs.

use vstd::prelude::*;
use vstd::arithmetic::div_mod::{
    lemma_div_is_ordered, lemma_div_multiples_vanish, lemma_div_pos_is_pos,
    lemma_fundamental_div_mod, lemma_mod_division_less_than_divisor,
};
use vstd::math::min;
use crate::amm::{buy_price, buy_price_ok, AMM};
use crate::errors::CurveLaunchpadError;
use crate::instructions::{spec_buy, spec_sell};
use crate::state::{BondingCurve, Global, Identity};
use crate::util::spec_fee;

verus! {

/// The fee is monotonic non-decreasing in both the amount and the rate.
pub proof fn lemma_fee_monotonic(amount1: int, amount2: int, rate1: int, rate2: int)
    requires
        0 <= amount1 <= amount2,
        0 <= rate1 <= rate2,
    ensures
        spec_fee(amount1, rate1) <= spec_fee(amount2, rate2),
{
    assert(amount1 * rate1 <= amount2 * rate2) by (nonlinear_arith)
        requires
            0 <= amount1 <= amount2,
            0 <= rate1 <= rate2;
    lemma_div_is_ordered(amount1 * rate1, amount2 * rate2, 10_000);
}

/// A zero rate charges nothing.
pub proof fn lemma_fee_zero_rate(amount: int)
    requires
        0 <= amount,
    ensures
        spec_fee(amount, 0) == 0,
{
}

/// A rate of one whole (10000 basis points) charges the full amount.
pub proof fn lemma_fee_full_rate(amount: int)
    requires
        0 <= amount,
    ensures
        spec_fee(amount, 10_000) == amount,
{
    lemma_div_multiples_vanish(amount, 10_000);
}

/// At any rate within one whole, the fee never exceeds the traded amount.
pub proof fn lemma_fee_within_amount(amount: int, rate: int)
    requires
        0 <= amount,
        0 <= rate <= 10_000,
    ensures
        0 <= spec_fee(amount, rate) <= amount,
{
    assert(0 <= amount * rate <= amount * 10_000) by (nonlinear_arith)
        requires
            0 <= amount,
            0 <= rate <= 10_000;
    lemma_div_pos_is_pos(amount * rate, 10_000);
    lemma_div_is_ordered(amount * rate, amount * 10_000, 10_000);
    lemma_fee_full_rate(amount);
}

/// The buy price is always at least one currency unit: the rounded-up new
/// virtual currency reserve strictly exceeds the old one.
pub proof fn lemma_buy_price_at_least_one(vsol: int, vtok: int, tokens: int)
    requires
        0 <= vsol,
        buy_price_ok(vsol, vtok, tokens),
    ensures
        1 <= buy_price(vsol, vtok, tokens),
{
    crate::amm::lemma_buy_quotient_lower_bound(vsol, vtok, vtok - tokens);
}

/// A buy never over-delivers: the fill never exceeds the real token
/// reserve, and a request beyond that reserve fills exactly the reserve,
/// with the very same outcome as a request for the whole reserve.
pub proof fn lemma_buy_clamps_to_real_reserves(amm: AMM, requested: int)
    ensures
        amm.filled_buy_amount(requested) <= amm.real_token_reserves,
        requested >= amm.real_token_reserves ==> {
            &&& amm.filled_buy_amount(requested) == amm.real_token_reserves
            &&& amm.buy_ok(requested) == amm.buy_ok(amm.real_token_reserves as int)
            &&& amm.after_buy(requested) == amm.after_buy(amm.real_token_reserves as int)
        },
{
}

/// A successful buy keeps each real reserve within its virtual reserve.
pub proof fn lemma_buy_preserves_reserve_invariant(amm: AMM, requested: int)
    requires
        amm.real_token_reserves <= amm.virtual_token_reserves,
        amm.real_sol_reserves <= amm.virtual_sol_reserves,
        amm.buy_ok(requested),
    ensures
        amm.after_buy(requested).real_token_reserves
            <= amm.after_buy(requested).virtual_token_reserves,
        amm.after_buy(requested).real_sol_reserves
            <= amm.after_buy(requested).virtual_sol_reserves,
{
    lemma_buy_price_at_least_one(
        amm.virtual_sol_reserves as int,
        amm.virtual_token_reserves as int,
        amm.filled_buy_amount(requested),
    );
}

/// A successful sell keeps each real reserve within its virtual reserve.
pub proof fn lemma_sell_preserves_reserve_invariant(amm: AMM, amount: int)
    requires
        amm.real_token_reserves <= amm.virtual_token_reserves,
        amm.real_sol_reserves <= amm.virtual_sol_reserves,
        amm.sell_ok(amount),
    ensures
        amm.after_sell(amount).real_token_reserves
            <= amm.after_sell(amount).virtual_token_reserves,
        amm.after_sell(amount).real_sol_reserves
            <= amm.after_sell(amount).virtual_sol_reserves,
{
    crate::amm::lemma_sell_price_le_vsol(
        amm.virtual_sol_reserves as int,
        amm.virtual_token_reserves + amount,
        amm.initial_virtual_token_reserves as int,
        amount,
    );
}

/// Graduation is terminal for trading: on an initialized protocol, a
/// complete curve rejects every buy and every sell, whatever the caller,
/// the identities, the amounts, the bounds and the balances.
pub proof fn lemma_graduation_is_terminal(
    global: Global,
    curve: BondingCurve,
    mint: Identity,
    bonding_curve_id: Identity,
    user: Identity,
    fee_recipient: Identity,
    token_amount: u64,
    sol_bound: u64,
    user_balance: u64,
    curve_token_balance: u64,
    timestamp: i64,
)
    requires
        global.initialized,
        curve.complete,
    ensures
        spec_buy(
            global,
            curve,
            mint,
            bonding_curve_id,
            user,
            fee_recipient,
            token_amount,
            sol_bound,
            user_balance,
            curve_token_balance,
            timestamp,
        ) == Err::<crate::instructions::TradeOutcome, CurveLaunchpadError>(
            CurveLaunchpadError::CurveComplete,
        ),
        spec_sell(
            global,
            curve,
            mint,
            user,
            fee_recipient,
            token_amount,
            sol_bound,
            user_balance,
            curve_token_balance,
            timestamp,
        ) == Err::<crate::instructions::TradeOutcome, CurveLaunchpadError>(
            CurveLaunchpadError::CurveComplete,
        ),
{
}

/// The asymmetry of the two formulas: a buy of `x` followed by a sell of
/// the same `x` restores both token reserves exactly, but strictly inflates
/// both currency reserves — the round trip never restores the original
/// state, and the curve keeps the difference.
pub proof fn lemma_buy_sell_round_trip_inflates_sol(amm: AMM, x: int)
    requires
        0 < x <= amm.real_token_reserves,
        amm.buy_ok(x),
        amm.after_buy(x).sell_ok(x),
    ensures
        ({
            let round = amm.after_buy(x).after_sell(x);
            &&& round.virtual_token_reserves == amm.virtual_token_reserves
            &&& round.real_token_reserves == amm.real_token_reserves
            &&& round.virtual_sol_reserves > amm.virtual_sol_reserves
            &&& round.real_sol_reserves > amm.real_sol_reserves
            &&& round.initial_virtual_token_reserves == amm.initial_virtual_token_reserves
        }),
{
    let vsol = amm.virtual_sol_reserves as int;
    let vtok = amm.virtual_token_reserves as int;
    let rsol = amm.real_sol_reserves as int;
    let rtok = amm.real_token_reserves as int;
    let init = amm.initial_virtual_token_reserves as int;

    assert(amm.filled_buy_amount(x) == x);
    let d = vtok - x;
    let q = vsol * vtok / d;
    let bp = amm.buy_sol_amount(x);
    assert(bp == q + 1 - vsol);
    lemma_buy_price_at_least_one(vsol, vtok, x);
    let vsol1 = vsol + bp;
    let rsol1 = rsol + bp;
    let a1 = amm.after_buy(x);
    assert(a1.virtual_sol_reserves == vsol1);
    assert(a1.virtual_token_reserves == d);
    assert(a1.real_sol_reserves == rsol1);
    assert(a1.real_token_reserves == rtok - x);

    // The rounded-up reserve strictly beats the exact quotient:
    // vsol1 * d > vsol * vtok.
    lemma_fundamental_div_mod(vsol * vtok, d);
    lemma_mod_division_less_than_divisor(vsol * vtok, d);
    assert(vsol1 * d == d * q + d) by (nonlinear_arith)
        requires
            vsol1 == q + 1;
    assert(vsol1 * d > vsol * vtok);

    // Hence the price paid exceeds the proportional share of the new
    // reserve: bp * vtok > vsol1 * x.
    assert(bp * vtok > vsol1 * x) by (nonlinear_arith)
        requires
            vsol1 * d > vsol * vtok,
            d == vtok - x,
            bp == vsol1 - vsol;

    // The sell of x prices against the restored virtual token reserve.
    let prop = x * init / vtok;
    let calc = vsol1 * prop / init;
    assert(a1.sell_sol_amount(x) == min(calc, rsol1));

    // Floor-division bounds for the two quotients of the sell formula.
    lemma_fundamental_div_mod(x * init, vtok);
    lemma_mod_division_less_than_divisor(x * init, vtok);
    assert(prop * vtok <= x * init) by (nonlinear_arith)
        requires
            x * init == vtok * prop + (x * init) % vtok,
            0 <= (x * init) % vtok;
    lemma_fundamental_div_mod(vsol1 * prop, init);
    lemma_mod_division_less_than_divisor(vsol1 * prop, init);
    assert(calc * init <= vsol1 * prop) by (nonlinear_arith)
        requires
            vsol1 * prop == init * calc + (vsol1 * prop) % init,
            0 <= (vsol1 * prop) % init;

    // Chain the inequalities: the payout computed by the sell formula is
    // strictly below the price the buy collected.
    assert(vsol1 * prop * vtok <= vsol1 * (x * init)) by (nonlinear_arith)
        requires
            prop * vtok <= x * init,
            0 <= vsol1;
    assert(vsol1 * (x * init) < bp * vtok * init) by (nonlinear_arith)
        requires
            vsol1 * x < bp * vtok,
            0 < init;
    assert(vsol1 * prop < bp * init) by (nonlinear_arith)
        requires
            vsol1 * prop * vtok < bp * vtok * init,
            0 < vtok;
    assert(calc * init < bp * init);
    assert(calc < bp) by (nonlinear_arith)
        requires
            calc * init < bp * init,
            0 < init;

    let sol_out = a1.sell_sol_amount(x);
    assert(sol_out <= calc);
    assert(sol_out < bp);
    crate::amm::lemma_sell_price_le_vsol(vsol1, d + x, init, x);
    assert(0 <= sol_out);

    let round = a1.after_sell(x);
    assert(round.virtual_token_reserves == d + x == vtok);
    assert(round.real_token_reserves == rtok);
    assert(round.virtual_sol_reserves == vsol1 - sol_out);
    assert(round.real_sol_reserves == rsol1 - sol_out);
}

} // verus!
