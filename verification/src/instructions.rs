//! The operations of the exchange.
//!
//! Every operation is a pure decision: it takes the configuration, the
//! curve record and the balances it needs, validates the preconditions in
//! the documented order, drives the pricing engine, and returns the staged
//! state together with the settlement legs and notifications. The caller
//! performs the legs and commits the returned state only if every leg
//! succeeded, so a failed settlement leaves no trace; a returned error
//! never changes anything.

use vstd::prelude::*;
use vstd::math::min;
use crate::amm::AMM;
use crate::errors::CurveLaunchpadError;
use crate::events::{CompleteEvent, CreateEvent, SetParamsEvent, TradeEvent};
use crate::laws::{lemma_buy_price_at_least_one, lemma_fee_within_amount};
use crate::state::{BondingCurve, Global, Identity, LastWithdraw};
use crate::util::{calculate_fee, spec_fee};
use crate::DEFAULT_TOKEN_SUPPLY;

verus! {

/// Default virtual currency reserve a freshly initialized protocol seeds
/// new curves with.
pub const DEFAULT_INITIAL_VIRTUAL_SOL_RESERVES: u64 = 30_000_000_000;

/// Default virtual token reserve a freshly initialized protocol seeds new
/// curves with.
pub const DEFAULT_INITIAL_VIRTUAL_TOKEN_RESERVES: u64 = 1_073_000_000_000_000;

/// Default fee rate in basis points.
pub const DEFAULT_FEE_BASIS_POINTS: u64 = 50;

/// The pricing engine built from a curve's reserves and the scaling
/// constant recorded in the configuration.
pub open spec fn curve_engine(curve: BondingCurve, global: Global) -> AMM {
    AMM {
        virtual_sol_reserves: curve.virtual_sol_reserves as u128,
        virtual_token_reserves: curve.virtual_token_reserves as u128,
        real_sol_reserves: curve.real_sol_reserves as u128,
        real_token_reserves: curve.real_token_reserves as u128,
        initial_virtual_token_reserves: global.initial_virtual_token_reserves as u128,
    }
}

/// What a validated trade settles to: the curve record to commit, the
/// three legs, and the notifications to publish after the commit.
///
/// For a buy, `sol_amount` moves from the buyer to the treasury and `fee`
/// from the buyer to the fee recipient; for a sell, `sol_amount` (already
/// net of the fee) moves from the treasury to the seller and `fee` from the
/// treasury to the fee recipient. `token_amount` always moves between the
/// treasury and the trader.
#[derive(Clone, Copy, Debug, PartialEq, Eq, Structural)]
pub struct TradeOutcome {
    pub curve: BondingCurve,
    pub token_amount: u64,
    pub sol_amount: u64,
    pub fee: u64,
    pub trade_event: TradeEvent,
    pub complete_event: Option<CompleteEvent>,
}

/// What a withdrawal settles to: the whole treasury token balance and all
/// currency above the reserved minimum.
#[derive(Clone, Copy, Debug, PartialEq, Eq, Structural)]
pub struct WithdrawOutcome {
    pub token_amount: u64,
    pub sol_amount: u64,
}

/// The exact result of [`buy`], as a function of its inputs.
pub open spec fn spec_buy(
    global: Global,
    curve: BondingCurve,
    mint: Identity,
    bonding_curve_id: Identity,
    user: Identity,
    fee_recipient: Identity,
    token_amount: u64,
    max_sol_cost: u64,
    user_lamports: u64,
    curve_token_balance: u64,
    timestamp: i64,
) -> Result<TradeOutcome, CurveLaunchpadError> {
    if !global.initialized {
        Err(CurveLaunchpadError::ProtocolNotInitialized)
    } else if curve.complete {
        Err(CurveLaunchpadError::CurveComplete)
    } else if fee_recipient != global.fee_recipient {
        Err(CurveLaunchpadError::Unauthorized)
    } else if curve.real_token_reserves < token_amount {
        Err(CurveLaunchpadError::InsufficientBalance)
    } else if token_amount == 0 {
        Err(CurveLaunchpadError::BelowMinimumTradeSize)
    } else {
        let target = min(token_amount as int, curve_token_balance as int);
        let engine = curve_engine(curve, global);
        if !engine.buy_ok(target) {
            Err(CurveLaunchpadError::ArithmeticFault)
        } else {
            let post = engine.after_buy(target);
            if post.virtual_sol_reserves > u64::MAX || post.real_sol_reserves > u64::MAX {
                Err(CurveLaunchpadError::ArithmeticFault)
            } else {
                let filled = engine.filled_buy_amount(target);
                let sol = engine.buy_sol_amount(target);
                let fee = spec_fee(sol, global.fee_basis_points as int);
                if sol + fee > u64::MAX {
                    Err(CurveLaunchpadError::ArithmeticFault)
                } else if sol + fee > max_sol_cost {
                    Err(CurveLaunchpadError::SlippageExceeded)
                } else if user_lamports < sol + fee {
                    Err(CurveLaunchpadError::InsufficientBalance)
                } else {
                    let new_curve = BondingCurve {
                        virtual_sol_reserves: post.virtual_sol_reserves as u64,
                        virtual_token_reserves: post.virtual_token_reserves as u64,
                        real_sol_reserves: post.real_sol_reserves as u64,
                        real_token_reserves: post.real_token_reserves as u64,
                        token_total_supply: curve.token_total_supply,
                        complete: post.real_token_reserves == 0,
                    };
                    Ok(TradeOutcome {
                        curve: new_curve,
                        token_amount: filled as u64,
                        sol_amount: sol as u64,
                        fee: fee as u64,
                        trade_event: TradeEvent {
                            mint,
                            sol_amount: sol as u64,
                            token_amount: filled as u64,
                            is_buy: true,
                            user,
                            timestamp,
                            virtual_sol_reserves: new_curve.virtual_sol_reserves,
                            virtual_token_reserves: new_curve.virtual_token_reserves,
                            real_sol_reserves: new_curve.real_sol_reserves,
                            real_token_reserves: new_curve.real_token_reserves,
                        },
                        complete_event: if new_curve.complete {
                            Some(CompleteEvent { user, mint, bonding_curve: bonding_curve_id, timestamp })
                        } else {
                            None
                        },
                    })
                }
            }
        }
    }
}

/// Buy `token_amount` tokens from the curve for at most `max_sol_cost`
/// currency units, fee included.
///
/// The request is clamped to the treasury's token balance and then to the
/// real token reserve; the clamped fill is priced by the engine, the fee is
/// added on top, and the trade settles only if the total respects the
/// caller's bound and balance. When the trade empties the real token
/// reserve the returned curve is complete and a completion event is
/// attached. An engine failure (an empty fill or an overflow) is reported
/// as an arithmetic fault rather than wrapping.
pub fn buy(
    global: &Global,
    curve: &BondingCurve,
    mint: Identity,
    bonding_curve_id: Identity,
    user: Identity,
    fee_recipient: Identity,
    token_amount: u64,
    max_sol_cost: u64,
    user_lamports: u64,
    curve_token_balance: u64,
    timestamp: i64,
) -> (r: Result<TradeOutcome, CurveLaunchpadError>)
    requires
        global.well_formed(),
    ensures
        r == spec_buy(
            *global,
            *curve,
            mint,
            bonding_curve_id,
            user,
            fee_recipient,
            token_amount,
            max_sol_cost,
            user_lamports,
            curve_token_balance,
            timestamp,
        ),
        global.initialized && curve.complete ==> r == Err::<TradeOutcome, CurveLaunchpadError>(
            CurveLaunchpadError::CurveComplete,
        ),
        r matches Ok(o) ==> {
            &&& global.initialized
            &&& !curve.complete
            &&& (o.curve.complete <==> o.curve.real_token_reserves == 0)
            &&& o.curve.real_token_reserves < curve.real_token_reserves
            &&& o.curve.virtual_token_reserves < curve.virtual_token_reserves
            &&& o.curve.real_sol_reserves > curve.real_sol_reserves
            &&& o.curve.virtual_sol_reserves > curve.virtual_sol_reserves
            &&& o.curve.real_token_reserves == curve.real_token_reserves - o.token_amount
            &&& o.curve.virtual_token_reserves == curve.virtual_token_reserves - o.token_amount
            &&& o.curve.real_sol_reserves == curve.real_sol_reserves + o.sol_amount
            &&& o.curve.virtual_sol_reserves == curve.virtual_sol_reserves + o.sol_amount
            &&& o.curve.token_total_supply == curve.token_total_supply
            &&& 1 <= o.token_amount <= curve.real_token_reserves
            &&& o.token_amount <= token_amount
            &&& o.fee == spec_fee(o.sol_amount as int, global.fee_basis_points as int)
            &&& o.fee <= o.sol_amount
            &&& o.sol_amount + o.fee <= max_sol_cost
            &&& o.sol_amount + o.fee <= user_lamports
            &&& (curve.well_formed() ==> o.curve.well_formed())
            &&& (o.complete_event is Some <==> o.curve.complete)
        },
{
    if !global.initialized {
        return Err(CurveLaunchpadError::ProtocolNotInitialized);
    }
    if curve.complete {
        return Err(CurveLaunchpadError::CurveComplete);
    }
    if fee_recipient != global.fee_recipient {
        return Err(CurveLaunchpadError::Unauthorized);
    }
    if curve.real_token_reserves < token_amount {
        return Err(CurveLaunchpadError::InsufficientBalance);
    }
    if token_amount == 0 {
        return Err(CurveLaunchpadError::BelowMinimumTradeSize);
    }

    let target_token_amount = if curve_token_balance < token_amount {
        curve_token_balance
    } else {
        token_amount
    };

    let mut engine = AMM::new(
        curve.virtual_sol_reserves as u128,
        curve.virtual_token_reserves as u128,
        curve.real_sol_reserves as u128,
        curve.real_token_reserves as u128,
        global.initial_virtual_token_reserves as u128,
    );
    let ghost engine0 = engine;

    let buy_result = match engine.apply_buy(target_token_amount as u128) {
        Some(b) => b,
        None => {
            return Err(CurveLaunchpadError::ArithmeticFault);
        },
    };
    if engine.virtual_sol_reserves > u64::MAX as u128 || engine.real_sol_reserves > u64::MAX
        as u128 {
        return Err(CurveLaunchpadError::ArithmeticFault);
    }

    proof {
        lemma_buy_price_at_least_one(
            engine0.virtual_sol_reserves as int,
            engine0.virtual_token_reserves as int,
            engine0.filled_buy_amount(target_token_amount as int),
        );
        lemma_fee_within_amount(
            buy_result.sol_amount as int,
            global.fee_basis_points as int,
        );
    }

    let fee = calculate_fee(buy_result.sol_amount, global.fee_basis_points);
    let buy_amount_with_fee = match buy_result.sol_amount.checked_add(fee) {
        Some(t) => t,
        None => {
            return Err(CurveLaunchpadError::ArithmeticFault);
        },
    };

    if buy_amount_with_fee > max_sol_cost {
        return Err(CurveLaunchpadError::SlippageExceeded);
    }
    if user_lamports < buy_amount_with_fee {
        return Err(CurveLaunchpadError::InsufficientBalance);
    }

    let new_curve = BondingCurve {
        virtual_sol_reserves: engine.virtual_sol_reserves as u64,
        virtual_token_reserves: engine.virtual_token_reserves as u64,
        real_sol_reserves: engine.real_sol_reserves as u64,
        real_token_reserves: engine.real_token_reserves as u64,
        token_total_supply: curve.token_total_supply,
        complete: engine.real_token_reserves == 0,
    };

    let trade_event = TradeEvent {
        mint,
        sol_amount: buy_result.sol_amount,
        token_amount: buy_result.token_amount,
        is_buy: true,
        user,
        timestamp,
        virtual_sol_reserves: new_curve.virtual_sol_reserves,
        virtual_token_reserves: new_curve.virtual_token_reserves,
        real_sol_reserves: new_curve.real_sol_reserves,
        real_token_reserves: new_curve.real_token_reserves,
    };
    let complete_event = if new_curve.complete {
        Some(CompleteEvent { user, mint, bonding_curve: bonding_curve_id, timestamp })
    } else {
        None
    };

    Ok(TradeOutcome {
        curve: new_curve,
        token_amount: buy_result.token_amount,
        sol_amount: buy_result.sol_amount,
        fee,
        trade_event,
        complete_event,
    })
}

/// The exact result of [`sell`], as a function of its inputs.
pub open spec fn spec_sell(
    global: Global,
    curve: BondingCurve,
    mint: Identity,
    user: Identity,
    fee_recipient: Identity,
    token_amount: u64,
    min_sol_output: u64,
    user_token_balance: u64,
    curve_token_balance: u64,
    timestamp: i64,
) -> Result<TradeOutcome, CurveLaunchpadError> {
    if !global.initialized {
        Err(CurveLaunchpadError::ProtocolNotInitialized)
    } else if curve.complete {
        Err(CurveLaunchpadError::CurveComplete)
    } else if user_token_balance < token_amount {
        Err(CurveLaunchpadError::InsufficientBalance)
    } else if fee_recipient != global.fee_recipient {
        Err(CurveLaunchpadError::Unauthorized)
    } else if curve_token_balance < token_amount {
        Err(CurveLaunchpadError::InsufficientBalance)
    } else if token_amount == 0 {
        Err(CurveLaunchpadError::BelowMinimumTradeSize)
    } else {
        let engine = curve_engine(curve, global);
        if !engine.sell_ok(token_amount as int) {
            Err(CurveLaunchpadError::ArithmeticFault)
        } else {
            let post = engine.after_sell(token_amount as int);
            if post.virtual_token_reserves > u64::MAX || post.real_token_reserves > u64::MAX {
                Err(CurveLaunchpadError::ArithmeticFault)
            } else {
                let sol = engine.sell_sol_amount(token_amount as int);
                let fee = spec_fee(sol, global.fee_basis_points as int);
                let payout = sol - fee;
                if payout < min_sol_output {
                    Err(CurveLaunchpadError::SlippageExceeded)
                } else {
                    let new_curve = BondingCurve {
                        virtual_sol_reserves: post.virtual_sol_reserves as u64,
                        virtual_token_reserves: post.virtual_token_reserves as u64,
                        real_sol_reserves: post.real_sol_reserves as u64,
                        real_token_reserves: post.real_token_reserves as u64,
                        token_total_supply: curve.token_total_supply,
                        complete: false,
                    };
                    Ok(TradeOutcome {
                        curve: new_curve,
                        token_amount,
                        sol_amount: payout as u64,
                        fee: fee as u64,
                        trade_event: TradeEvent {
                            mint,
                            sol_amount: sol as u64,
                            token_amount,
                            is_buy: false,
                            user,
                            timestamp,
                            virtual_sol_reserves: new_curve.virtual_sol_reserves,
                            virtual_token_reserves: new_curve.virtual_token_reserves,
                            real_sol_reserves: new_curve.real_sol_reserves,
                            real_token_reserves: new_curve.real_token_reserves,
                        },
                        complete_event: None,
                    })
                }
            }
        }
    }
}

/// Sell `token_amount` tokens back to the curve for at least
/// `min_sol_output` currency units, net of the fee.
///
/// The token reserves are inflated by the sold amount before pricing, the
/// fee is subtracted from the quote, and the trade settles only if the net
/// payout respects the caller's bound. A sell never graduates a curve, and
/// a graduated curve rejects every sell.
pub fn sell(
    global: &Global,
    curve: &BondingCurve,
    mint: Identity,
    user: Identity,
    fee_recipient: Identity,
    token_amount: u64,
    min_sol_output: u64,
    user_token_balance: u64,
    curve_token_balance: u64,
    timestamp: i64,
) -> (r: Result<TradeOutcome, CurveLaunchpadError>)
    requires
        global.well_formed(),
    ensures
        r == spec_sell(
            *global,
            *curve,
            mint,
            user,
            fee_recipient,
            token_amount,
            min_sol_output,
            user_token_balance,
            curve_token_balance,
            timestamp,
        ),
        global.initialized && curve.complete ==> r == Err::<TradeOutcome, CurveLaunchpadError>(
            CurveLaunchpadError::CurveComplete,
        ),
        r matches Ok(o) ==> {
            &&& global.initialized
            &&& !curve.complete
            &&& !o.curve.complete
            &&& o.curve.real_token_reserves == curve.real_token_reserves + o.token_amount
            &&& o.curve.virtual_token_reserves == curve.virtual_token_reserves + o.token_amount
            &&& o.curve.real_sol_reserves == curve.real_sol_reserves - (o.sol_amount + o.fee)
            &&& o.curve.virtual_sol_reserves == curve.virtual_sol_reserves - (o.sol_amount
                + o.fee)
            &&& o.curve.token_total_supply == curve.token_total_supply
            &&& o.token_amount == token_amount
            &&& 1 <= o.token_amount <= user_token_balance
            &&& o.sol_amount + o.fee <= curve.real_sol_reserves
            &&& o.sol_amount >= min_sol_output
            &&& (curve.well_formed() ==> o.curve.well_formed())
            &&& o.complete_event is None
        },
{
    if !global.initialized {
        return Err(CurveLaunchpadError::ProtocolNotInitialized);
    }
    if curve.complete {
        return Err(CurveLaunchpadError::CurveComplete);
    }
    if user_token_balance < token_amount {
        return Err(CurveLaunchpadError::InsufficientBalance);
    }
    if fee_recipient != global.fee_recipient {
        return Err(CurveLaunchpadError::Unauthorized);
    }
    if curve_token_balance < token_amount {
        return Err(CurveLaunchpadError::InsufficientBalance);
    }
    if token_amount == 0 {
        return Err(CurveLaunchpadError::BelowMinimumTradeSize);
    }

    let mut engine = AMM::new(
        curve.virtual_sol_reserves as u128,
        curve.virtual_token_reserves as u128,
        curve.real_sol_reserves as u128,
        curve.real_token_reserves as u128,
        global.initial_virtual_token_reserves as u128,
    );
    let ghost engine0 = engine;

    let sell_result = match engine.apply_sell(token_amount as u128) {
        Some(s) => s,
        None => {
            return Err(CurveLaunchpadError::ArithmeticFault);
        },
    };
    if engine.virtual_token_reserves > u64::MAX as u128 || engine.real_token_reserves > u64::MAX
        as u128 {
        return Err(CurveLaunchpadError::ArithmeticFault);
    }

    proof {
        let amt = token_amount as int;
        let sol = engine0.sell_sol_amount(amt);
        assert(engine == engine0.after_sell(amt));
        assert(engine.virtual_sol_reserves == engine0.virtual_sol_reserves - sol);
        assert(engine.real_sol_reserves == engine0.real_sol_reserves - sol);
        assert(engine.virtual_token_reserves == engine0.virtual_token_reserves + amt);
        assert(engine.real_token_reserves == engine0.real_token_reserves + amt);
        lemma_fee_within_amount(
            sell_result.sol_amount as int,
            global.fee_basis_points as int,
        );
    }

    let fee = calculate_fee(sell_result.sol_amount, global.fee_basis_points);
    let sell_amount_minus_fee = sell_result.sol_amount - fee;

    if sell_amount_minus_fee < min_sol_output {
        return Err(CurveLaunchpadError::SlippageExceeded);
    }

    let new_curve = BondingCurve {
        virtual_sol_reserves: engine.virtual_sol_reserves as u64,
        virtual_token_reserves: engine.virtual_token_reserves as u64,
        real_sol_reserves: engine.real_sol_reserves as u64,
        real_token_reserves: engine.real_token_reserves as u64,
        token_total_supply: curve.token_total_supply,
        complete: false,
    };

    let trade_event = TradeEvent {
        mint,
        sol_amount: sell_result.sol_amount,
        token_amount: sell_result.token_amount,
        is_buy: false,
        user,
        timestamp,
        virtual_sol_reserves: new_curve.virtual_sol_reserves,
        virtual_token_reserves: new_curve.virtual_token_reserves,
        real_sol_reserves: new_curve.real_sol_reserves,
        real_token_reserves: new_curve.real_token_reserves,
    };

    Ok(TradeOutcome {
        curve: new_curve,
        token_amount: sell_result.token_amount,
        sol_amount: sell_amount_minus_fee,
        fee,
        trade_event,
        complete_event: None,
    })
}


/// Create the protocol-wide configuration with its defaults. Fails if it
/// already exists; nothing else ever flips `initialized`.
pub fn initialize(global: &mut Global, authority: Identity) -> (r: Result<
    (),
    CurveLaunchpadError,
>)
    ensures
        old(global).initialized ==> {
            &&& r == Err::<(), CurveLaunchpadError>(CurveLaunchpadError::AlreadyInitialized)
            &&& *final(global) == *old(global)
        },
        !old(global).initialized ==> {
            &&& r is Ok
            &&& *final(global) == (Global {
                authority,
                initialized: true,
                fee_recipient: old(global).fee_recipient,
                initial_virtual_token_reserves: DEFAULT_INITIAL_VIRTUAL_TOKEN_RESERVES,
                initial_virtual_sol_reserves: DEFAULT_INITIAL_VIRTUAL_SOL_RESERVES,
                initial_real_token_reserves: DEFAULT_TOKEN_SUPPLY,
                initial_real_sol_reserves: 0,
                initial_token_supply: DEFAULT_TOKEN_SUPPLY,
                fee_basis_points: DEFAULT_FEE_BASIS_POINTS,
                withdraw_authority: old(global).withdraw_authority,
            })
            &&& final(global).well_formed()
        },
{
    if global.initialized {
        return Err(CurveLaunchpadError::AlreadyInitialized);
    }

    global.authority = authority;
    global.initialized = true;
    global.initial_token_supply = DEFAULT_TOKEN_SUPPLY;
    global.initial_real_sol_reserves = 0;
    global.initial_real_token_reserves = DEFAULT_TOKEN_SUPPLY;
    global.initial_virtual_sol_reserves = DEFAULT_INITIAL_VIRTUAL_SOL_RESERVES;
    global.initial_virtual_token_reserves = DEFAULT_INITIAL_VIRTUAL_TOKEN_RESERVES;
    global.fee_basis_points = DEFAULT_FEE_BASIS_POINTS;

    Ok(())
}

/// Overwrite the configuration. Only the recorded authority may do so; any
/// other caller fails with `Unauthorized` and the configuration stays
/// untouched, field for field.
pub fn set_params(
    global: &mut Global,
    caller: Identity,
    fee_recipient: Identity,
    withdraw_authority: Identity,
    initial_virtual_token_reserves: u64,
    initial_virtual_sol_reserves: u64,
    initial_real_token_reserves: u64,
    initial_token_supply: u64,
    fee_basis_points: u64,
) -> (r: Result<SetParamsEvent, CurveLaunchpadError>)
    requires
        fee_basis_points <= 10_000,
        initial_real_token_reserves <= initial_virtual_token_reserves,
    ensures
        !old(global).initialized ==> {
            &&& r == Err::<SetParamsEvent, CurveLaunchpadError>(
                CurveLaunchpadError::ProtocolNotInitialized,
            )
            &&& *final(global) == *old(global)
        },
        old(global).initialized && caller != old(global).authority ==> {
            &&& r == Err::<SetParamsEvent, CurveLaunchpadError>(CurveLaunchpadError::Unauthorized)
            &&& *final(global) == *old(global)
        },
        old(global).initialized && caller == old(global).authority ==> {
            &&& *final(global) == (Global {
                authority: old(global).authority,
                initialized: true,
                fee_recipient,
                initial_virtual_token_reserves,
                initial_virtual_sol_reserves,
                initial_real_token_reserves,
                initial_real_sol_reserves: old(global).initial_real_sol_reserves,
                initial_token_supply,
                fee_basis_points,
                withdraw_authority,
            })
            &&& final(global).well_formed()
            &&& r == Ok::<SetParamsEvent, CurveLaunchpadError>(SetParamsEvent {
                fee_recipient,
                withdraw_authority,
                initial_virtual_token_reserves,
                initial_virtual_sol_reserves,
                initial_real_token_reserves,
                initial_token_supply,
                fee_basis_points,
            })
        },
{
    if !global.initialized {
        return Err(CurveLaunchpadError::ProtocolNotInitialized);
    }
    if caller != global.authority {
        return Err(CurveLaunchpadError::Unauthorized);
    }

    global.fee_recipient = fee_recipient;
    global.withdraw_authority = withdraw_authority;
    global.initial_virtual_token_reserves = initial_virtual_token_reserves;
    global.initial_virtual_sol_reserves = initial_virtual_sol_reserves;
    global.initial_real_token_reserves = initial_real_token_reserves;
    global.initial_token_supply = initial_token_supply;
    global.fee_basis_points = fee_basis_points;

    Ok(SetParamsEvent {
        fee_recipient,
        withdraw_authority,
        initial_virtual_token_reserves,
        initial_virtual_sol_reserves,
        initial_real_token_reserves,
        initial_token_supply,
        fee_basis_points,
    })
}

/// Seed a new curve for a freshly minted token from the configuration. The
/// caller mints `global.initial_token_supply` tokens into the treasury,
/// registers the metadata and revokes further minting; the engine only
/// decides and describes the new record.
pub fn create(
    global: &Global,
    mint: Identity,
    bonding_curve_id: Identity,
    creator: Identity,
    name: String,
    symbol: String,
    uri: String,
) -> (r: Result<(BondingCurve, CreateEvent), CurveLaunchpadError>)
    ensures
        !global.initialized ==> {
            &&& r is Err
            &&& r->Err_0 == CurveLaunchpadError::ProtocolNotInitialized
        },
        global.initialized ==> {
            &&& r is Ok
            &&& r->Ok_0.0 == (BondingCurve {
                virtual_sol_reserves: global.initial_virtual_sol_reserves,
                virtual_token_reserves: global.initial_virtual_token_reserves,
                real_sol_reserves: 0,
                real_token_reserves: global.initial_real_token_reserves,
                token_total_supply: global.initial_token_supply,
                complete: false,
            })
            &&& (global.well_formed() ==> r->Ok_0.0.well_formed())
            &&& r->Ok_0.1.name == name
            &&& r->Ok_0.1.symbol == symbol
            &&& r->Ok_0.1.uri == uri
            &&& r->Ok_0.1.mint == mint
            &&& r->Ok_0.1.bonding_curve == bonding_curve_id
            &&& r->Ok_0.1.creator == creator
        },
{
    if !global.initialized {
        return Err(CurveLaunchpadError::ProtocolNotInitialized);
    }

    let curve = BondingCurve {
        virtual_sol_reserves: global.initial_virtual_sol_reserves,
        virtual_token_reserves: global.initial_virtual_token_reserves,
        real_sol_reserves: 0,
        real_token_reserves: global.initial_real_token_reserves,
        token_total_supply: global.initial_token_supply,
        complete: false,
    };

    let event = CreateEvent { name, symbol, uri, mint, bonding_curve: bonding_curve_id, creator };

    Ok((curve, event))
}

/// Drain the treasury of a graduated curve: the whole token balance and
/// every currency unit above the reserved minimum, gated to the configured
/// withdraw authority. Before graduation it always fails with
/// `CurveNotComplete`, whoever calls. A successful withdrawal records the
/// checkpoint timestamp.
pub fn withdraw(
    global: &Global,
    curve: &BondingCurve,
    last_withdraw: &mut LastWithdraw,
    user: Identity,
    curve_token_balance: u64,
    curve_lamports: u64,
    min_lamports: u64,
    timestamp: i64,
) -> (r: Result<WithdrawOutcome, CurveLaunchpadError>)
    ensures
        !global.initialized ==> {
            &&& r == Err::<WithdrawOutcome, CurveLaunchpadError>(
                CurveLaunchpadError::ProtocolNotInitialized,
            )
            &&& *final(last_withdraw) == *old(last_withdraw)
        },
        global.initialized && !curve.complete ==> {
            &&& r == Err::<WithdrawOutcome, CurveLaunchpadError>(
                CurveLaunchpadError::CurveNotComplete,
            )
            &&& *final(last_withdraw) == *old(last_withdraw)
        },
        global.initialized && curve.complete && user != global.withdraw_authority ==> {
            &&& r == Err::<WithdrawOutcome, CurveLaunchpadError>(CurveLaunchpadError::Unauthorized)
            &&& *final(last_withdraw) == *old(last_withdraw)
        },
        global.initialized && curve.complete && user == global.withdraw_authority
            && curve_lamports < min_lamports ==> {
            &&& r == Err::<WithdrawOutcome, CurveLaunchpadError>(
                CurveLaunchpadError::ArithmeticFault,
            )
            &&& *final(last_withdraw) == *old(last_withdraw)
        },
        global.initialized && curve.complete && user == global.withdraw_authority
            && curve_lamports >= min_lamports ==> {
            &&& r == Ok::<WithdrawOutcome, CurveLaunchpadError>(WithdrawOutcome {
                token_amount: curve_token_balance,
                sol_amount: (curve_lamports - min_lamports) as u64,
            })
            &&& *final(last_withdraw) == (LastWithdraw { last_withdraw_timestamp: timestamp })
        },
{
    if !global.initialized {
        return Err(CurveLaunchpadError::ProtocolNotInitialized);
    }
    if !curve.complete {
        return Err(CurveLaunchpadError::CurveNotComplete);
    }
    if user != global.withdraw_authority {
        return Err(CurveLaunchpadError::Unauthorized);
    }
    if curve_lamports < min_lamports {
        return Err(CurveLaunchpadError::ArithmeticFault);
    }

    last_withdraw.last_withdraw_timestamp = timestamp;

    Ok(WithdrawOutcome {
        token_amount: curve_token_balance,
        sol_amount: curve_lamports - min_lamports,
    })
}

} // verus!
