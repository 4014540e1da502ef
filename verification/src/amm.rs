//! The pricing engine: pure computation over four reserve quantities.
//!
//! Buying solves the constant-product invariant for the currency input
//! required to remove tokens from the virtual reserve, rounding in the
//! protocol's favour. Selling deliberately is not the algebraic inverse: it
//! scales proportionally against a scaling constant frozen at pair
//! creation, so a buy followed by a sell of the same amount never restores
//! the original reserves (see [`crate::laws`]).
//!
//! Every step uses checked arithmetic; a failing step aborts the whole call
//! with zero mutation, so an engine value is fit to commit exactly when the
//! call returned a result.

use vstd::prelude::*;
use vstd::arithmetic::div_mod::{lemma_div_is_ordered, lemma_div_multiples_vanish, lemma_div_pos_is_pos};
use vstd::arithmetic::mul::lemma_mul_is_commutative;
use vstd::math::min;

verus! {

/// Whether the buy formula yields a price: the request must leave the
/// virtual token reserve positive, and neither the reserve product nor the
/// rounded-up new virtual currency reserve may overflow.
pub open spec fn buy_price_ok(vsol: int, vtok: int, tokens: int) -> bool {
    &&& 0 < tokens < vtok
    &&& vsol * vtok <= u128::MAX
    &&& vsol * vtok / (vtok - tokens) + 1 <= u128::MAX
}

/// The currency input required to remove `tokens` from the virtual token
/// reserve under the constant-product rule, with the new virtual currency
/// reserve rounded up by one before the old one is subtracted.
pub open spec fn buy_price(vsol: int, vtok: int, tokens: int) -> int {
    vsol * vtok / (vtok - tokens) + 1 - vsol
}

/// Whether the sell formula yields a price: the amount must be positive and
/// within the virtual token reserve, the scaling constant positive, and the
/// two products must fit.
pub open spec fn sell_price_ok(vsol: int, vtok: int, init: int, tokens: int) -> bool {
    &&& 0 < tokens <= vtok
    &&& tokens * init <= u128::MAX
    &&& 0 < init
    &&& vsol * (tokens * init / vtok) <= u128::MAX
}

/// The currency paid out for `tokens`: the virtual currency reserve scaled
/// by the sold proportion of the virtual token reserve, relative to the
/// frozen scaling constant `init`, clamped to the real currency reserve.
pub open spec fn sell_price(vsol: int, vtok: int, rsol: int, init: int, tokens: int) -> int {
    min(vsol * (tokens * init / vtok) / init, rsol)
}

/// What a buy settled to: the filled token amount and its price.
#[derive(Clone, Copy, Debug, PartialEq, Eq, Structural)]
pub struct BuyResult {
    pub token_amount: u64,
    pub sol_amount: u64,
}

/// What a sell settled to: the sold token amount and its payout.
#[derive(Clone, Copy, Debug, PartialEq, Eq, Structural)]
pub struct SellResult {
    pub token_amount: u64,
    pub sol_amount: u64,
}

/// The pricing engine: the four reserves of one curve plus the scaling
/// constant frozen at pair creation (used only by the sell formula).
#[derive(Clone, Copy, Debug, PartialEq, Eq, Structural)]
pub struct AMM {
    pub virtual_sol_reserves: u128,
    pub virtual_token_reserves: u128,
    pub real_sol_reserves: u128,
    pub real_token_reserves: u128,
    pub initial_virtual_token_reserves: u128,
}

impl AMM {
    /// How much of a buy request actually fills: the request, clamped to
    /// the real token reserve.
    pub open spec fn filled_buy_amount(self, requested: int) -> int {
        min(requested, self.real_token_reserves as int)
    }

    /// The currency a buy of `requested` costs (priced on the clamped
    /// fill).
    pub open spec fn buy_sol_amount(self, requested: int) -> int {
        buy_price(
            self.virtual_sol_reserves as int,
            self.virtual_token_reserves as int,
            self.filled_buy_amount(requested),
        )
    }

    /// Whether a buy of `requested` goes through: the clamped fill must be
    /// priceable and the grown currency reserves must fit.
    pub open spec fn buy_ok(self, requested: int) -> bool {
        &&& buy_price_ok(
            self.virtual_sol_reserves as int,
            self.virtual_token_reserves as int,
            self.filled_buy_amount(requested),
        )
        &&& self.virtual_sol_reserves + self.buy_sol_amount(requested) <= u128::MAX
        &&& self.real_sol_reserves + self.buy_sol_amount(requested) <= u128::MAX
    }

    /// The reserves after a successful buy of `requested`: both token
    /// reserves shrink by the fill, both currency reserves grow by the
    /// price.
    pub open spec fn after_buy(self, requested: int) -> AMM {
        let filled = self.filled_buy_amount(requested);
        let sol = self.buy_sol_amount(requested);
        AMM {
            virtual_sol_reserves: (self.virtual_sol_reserves + sol) as u128,
            virtual_token_reserves: (self.virtual_token_reserves - filled) as u128,
            real_sol_reserves: (self.real_sol_reserves + sol) as u128,
            real_token_reserves: (self.real_token_reserves - filled) as u128,
            initial_virtual_token_reserves: self.initial_virtual_token_reserves,
        }
    }

    /// The currency a sell of `amount` pays out. The token reserves are
    /// inflated by the sold amount first and the price is taken against the
    /// post-increase virtual reserve, which dilutes the quote pro-rata.
    pub open spec fn sell_sol_amount(self, amount: int) -> int {
        sell_price(
            self.virtual_sol_reserves as int,
            self.virtual_token_reserves + amount,
            self.real_sol_reserves as int,
            self.initial_virtual_token_reserves as int,
            amount,
        )
    }

    /// Whether a sell of `amount` goes through: the grown token reserves
    /// must fit and the inflated state must be priceable.
    pub open spec fn sell_ok(self, amount: int) -> bool {
        &&& self.virtual_token_reserves + amount <= u128::MAX
        &&& self.real_token_reserves + amount <= u128::MAX
        &&& sell_price_ok(
            self.virtual_sol_reserves as int,
            self.virtual_token_reserves + amount,
            self.initial_virtual_token_reserves as int,
            amount,
        )
    }

    /// The reserves after a successful sell of `amount`: both token
    /// reserves grow by the amount, both currency reserves shrink by the
    /// payout.
    pub open spec fn after_sell(self, amount: int) -> AMM {
        let sol = self.sell_sol_amount(amount);
        AMM {
            virtual_sol_reserves: (self.virtual_sol_reserves - sol) as u128,
            virtual_token_reserves: (self.virtual_token_reserves + amount) as u128,
            real_sol_reserves: (self.real_sol_reserves - sol) as u128,
            real_token_reserves: (self.real_token_reserves + amount) as u128,
            initial_virtual_token_reserves: self.initial_virtual_token_reserves,
        }
    }

    pub fn new(
        virtual_sol_reserves: u128,
        virtual_token_reserves: u128,
        real_sol_reserves: u128,
        real_token_reserves: u128,
        initial_virtual_token_reserves: u128,
    ) -> (amm: AMM)
        ensures
            amm == (AMM {
                virtual_sol_reserves,
                virtual_token_reserves,
                real_sol_reserves,
                real_token_reserves,
                initial_virtual_token_reserves,
            }),
    {
        AMM {
            virtual_sol_reserves,
            virtual_token_reserves,
            real_sol_reserves,
            real_token_reserves,
            initial_virtual_token_reserves,
        }
    }

    /// Quote a buy: the currency input required to remove `tokens` from
    /// the virtual token reserve. The price is always at least one unit
    /// because the new virtual currency reserve is rounded up.
    pub fn get_buy_price(&self, tokens: u128) -> (r: Option<u128>)
        ensures
            r is Some <==> buy_price_ok(
                self.virtual_sol_reserves as int,
                self.virtual_token_reserves as int,
                tokens as int,
            ),
            r matches Some(amount) ==> {
                &&& amount == buy_price(
                    self.virtual_sol_reserves as int,
                    self.virtual_token_reserves as int,
                    tokens as int,
                )
                &&& amount >= 1
            },
    {
        if tokens == 0 || tokens > self.virtual_token_reserves {
            return None;
        }

        let product_of_reserves = match self.virtual_sol_reserves.checked_mul(
            self.virtual_token_reserves,
        ) {
            Some(p) => p,
            None => {
                return None;
            },
        };
        let new_virtual_token_reserves = self.virtual_token_reserves - tokens;
        if new_virtual_token_reserves == 0 {
            return None;
        }
        let quotient = product_of_reserves / new_virtual_token_reserves;
        let new_virtual_sol_reserves = match quotient.checked_add(1) {
            Some(v) => v,
            None => {
                return None;
            },
        };
        proof {
            lemma_buy_quotient_lower_bound(
                self.virtual_sol_reserves as int,
                self.virtual_token_reserves as int,
                new_virtual_token_reserves as int,
            );
        }
        Some(new_virtual_sol_reserves - self.virtual_sol_reserves)
    }

    /// Apply a buy: clamp the request to the real token reserve, quote the
    /// clamped fill, then shrink both token reserves by the fill and grow
    /// both currency reserves by the price. A failing step leaves the
    /// engine untouched.
    pub fn apply_buy(&mut self, token_amount: u128) -> (r: Option<BuyResult>)
        ensures
            r is Some <==> old(self).buy_ok(token_amount as int),
            r is Some ==> *final(self) == old(self).after_buy(token_amount as int),
            r is None ==> *final(self) == *old(self),
            r matches Some(br) ==> ({
                let filled = old(self).filled_buy_amount(token_amount as int);
                let sol = old(self).buy_sol_amount(token_amount as int);
                &&& br.token_amount == filled as u64
                &&& br.sol_amount == sol as u64
                &&& 1 <= filled <= old(self).real_token_reserves
                &&& 1 <= sol
                &&& final(self).virtual_token_reserves < old(self).virtual_token_reserves
                &&& final(self).real_token_reserves < old(self).real_token_reserves
                &&& final(self).virtual_sol_reserves > old(self).virtual_sol_reserves
                &&& final(self).real_sol_reserves > old(self).real_sol_reserves
            }),
    {
        let final_token_amount = if token_amount > self.real_token_reserves {
            self.real_token_reserves
        } else {
            token_amount
        };

        let sol_amount = match self.get_buy_price(final_token_amount) {
            Some(s) => s,
            None => {
                return None;
            },
        };

        let new_virtual_sol_reserves = match self.virtual_sol_reserves.checked_add(sol_amount) {
            Some(v) => v,
            None => {
                return None;
            },
        };
        let new_real_sol_reserves = match self.real_sol_reserves.checked_add(sol_amount) {
            Some(v) => v,
            None => {
                return None;
            },
        };

        self.virtual_token_reserves = self.virtual_token_reserves - final_token_amount;
        self.real_token_reserves = self.real_token_reserves - final_token_amount;
        self.virtual_sol_reserves = new_virtual_sol_reserves;
        self.real_sol_reserves = new_real_sol_reserves;

        Some(BuyResult {
            token_amount: #[verifier::truncate] (final_token_amount as u64),
            sol_amount: #[verifier::truncate] (sol_amount as u64),
        })
    }

    /// Apply a sell: grow both token reserves by the sold amount first,
    /// quote against the post-increase virtual reserve, then shrink both
    /// currency reserves by the payout. A failing step leaves the engine
    /// untouched.
    pub fn apply_sell(&mut self, token_amount: u128) -> (r: Option<SellResult>)
        ensures
            r is Some <==> old(self).sell_ok(token_amount as int),
            r is Some ==> *final(self) == old(self).after_sell(token_amount as int),
            r is None ==> *final(self) == *old(self),
            r matches Some(sr) ==> ({
                let sol = old(self).sell_sol_amount(token_amount as int);
                &&& sr.token_amount == token_amount as u64
                &&& sr.sol_amount == sol as u64
                &&& 0 <= sol <= old(self).real_sol_reserves
                &&& sol <= old(self).virtual_sol_reserves
                &&& final(self).virtual_token_reserves > old(self).virtual_token_reserves
                &&& final(self).real_token_reserves > old(self).real_token_reserves
            }),
    {
        let new_virtual_token_reserves = match self.virtual_token_reserves.checked_add(
            token_amount,
        ) {
            Some(v) => v,
            None => {
                return None;
            },
        };
        let new_real_token_reserves = match self.real_token_reserves.checked_add(token_amount) {
            Some(v) => v,
            None => {
                return None;
            },
        };

        let staged = AMM {
            virtual_sol_reserves: self.virtual_sol_reserves,
            virtual_token_reserves: new_virtual_token_reserves,
            real_sol_reserves: self.real_sol_reserves,
            real_token_reserves: new_real_token_reserves,
            initial_virtual_token_reserves: self.initial_virtual_token_reserves,
        };
        let sol_amount = match staged.get_sell_price(token_amount) {
            Some(s) => s,
            None => {
                return None;
            },
        };

        self.virtual_token_reserves = new_virtual_token_reserves;
        self.real_token_reserves = new_real_token_reserves;
        self.virtual_sol_reserves = self.virtual_sol_reserves - sol_amount;
        self.real_sol_reserves = self.real_sol_reserves - sol_amount;

        Some(SellResult {
            token_amount: #[verifier::truncate] (token_amount as u64),
            sol_amount: #[verifier::truncate] (sol_amount as u64),
        })
    }

    /// Quote a sell: the currency paid out for removing `tokens`, scaled
    /// against the frozen constant and clamped to the real currency
    /// reserve, which the payout therefore never exceeds.
    pub fn get_sell_price(&self, tokens: u128) -> (r: Option<u128>)
        ensures
            r is Some <==> sell_price_ok(
                self.virtual_sol_reserves as int,
                self.virtual_token_reserves as int,
                self.initial_virtual_token_reserves as int,
                tokens as int,
            ),
            r matches Some(s) ==> {
                &&& s == sell_price(
                    self.virtual_sol_reserves as int,
                    self.virtual_token_reserves as int,
                    self.real_sol_reserves as int,
                    self.initial_virtual_token_reserves as int,
                    tokens as int,
                )
                &&& s <= self.real_sol_reserves
                &&& s <= self.virtual_sol_reserves
            },
    {
        if tokens == 0 || tokens > self.virtual_token_reserves {
            return None;
        }

        let scaling_factor = self.initial_virtual_token_reserves;

        let scaled_tokens = match tokens.checked_mul(scaling_factor) {
            Some(s) => s,
            None => {
                return None;
            },
        };
        let token_sell_proportion = scaled_tokens / self.virtual_token_reserves;
        let gross = match self.virtual_sol_reserves.checked_mul(token_sell_proportion) {
            Some(g) => g,
            None => {
                return None;
            },
        };
        if scaling_factor == 0 {
            return None;
        }
        let sol_received = gross / scaling_factor;

        proof {
            lemma_sell_price_le_vsol(
                self.virtual_sol_reserves as int,
                self.virtual_token_reserves as int,
                self.initial_virtual_token_reserves as int,
                tokens as int,
            );
        }

        if sol_received < self.real_sol_reserves {
            Some(sol_received)
        } else {
            Some(self.real_sol_reserves)
        }
    }
}

/// Removing tokens shrinks the divisor of the constant product, so the new
/// virtual currency reserve never falls below the old one: the buy price is
/// always positive.
pub(crate) proof fn lemma_buy_quotient_lower_bound(vsol: int, vtok: int, d: int)
    requires
        0 <= vsol,
        0 < d <= vtok,
    ensures
        vsol <= vsol * vtok / d,
{
    assert(vsol * d <= vsol * vtok) by (nonlinear_arith)
        requires
            0 <= vsol,
            d <= vtok;
    lemma_mul_is_commutative(vsol, d);
    lemma_div_multiples_vanish(vsol, d);
    lemma_div_is_ordered(vsol * d, vsol * vtok, d);
}

/// The sold proportion never exceeds the scaling constant, so the sell
/// payout never exceeds the virtual currency reserve.
pub(crate) proof fn lemma_sell_price_le_vsol(vsol: int, vtok: int, init: int, tokens: int)
    requires
        0 <= vsol,
        0 < init,
        0 < tokens <= vtok,
    ensures
        0 <= vsol * (tokens * init / vtok) / init <= vsol,
{
    let prop = tokens * init / vtok;
    assert(tokens * init <= vtok * init) by (nonlinear_arith)
        requires
            0 < init,
            tokens <= vtok;
    lemma_mul_is_commutative(vtok, init);
    lemma_div_multiples_vanish(init, vtok);
    lemma_div_is_ordered(tokens * init, vtok * init, vtok);
    assert(tokens * init >= 0) by (nonlinear_arith)
        requires
            0 < init,
            0 < tokens;
    lemma_div_pos_is_pos(tokens * init, vtok);
    assert(vsol * prop <= vsol * init) by (nonlinear_arith)
        requires
            0 <= vsol,
            prop <= init;
    assert(vsol * prop >= 0) by (nonlinear_arith)
        requires
            0 <= vsol,
            0 <= prop;
    lemma_mul_is_commutative(vsol, init);
    lemma_div_multiples_vanish(vsol, init);
    lemma_div_is_ordered(vsol * prop, vsol * init, init);
    lemma_div_pos_is_pos(vsol * prop, init);
}

} // verus!
