//! The notifications an operation emits after a successful commit.
//!
//! An operation returns its events together with the staged state; the
//! caller publishes them only once every settlement leg has succeeded, so a
//! rolled-back operation emits nothing.

use vstd::prelude::*;
use crate::state::Identity;

verus! {

/// A new pair was created.
#[derive(Debug)]
pub struct CreateEvent {
    pub name: String,
    pub symbol: String,
    pub uri: String,
    pub mint: Identity,
    pub bonding_curve: Identity,
    pub creator: Identity,
}

/// A trade settled, with the four post-trade reserve fields.
#[derive(Clone, Copy, Debug, PartialEq, Eq, Structural)]
pub struct TradeEvent {
    pub mint: Identity,
    pub sol_amount: u64,
    pub token_amount: u64,
    pub is_buy: bool,
    pub user: Identity,
    pub timestamp: i64,
    pub virtual_sol_reserves: u64,
    pub virtual_token_reserves: u64,
    pub real_sol_reserves: u64,
    pub real_token_reserves: u64,
}

/// A buy drove the real token reserves to zero: the curve graduated.
/// Emitted exactly once per curve.
#[derive(Clone, Copy, Debug, PartialEq, Eq, Structural)]
pub struct CompleteEvent {
    pub user: Identity,
    pub mint: Identity,
    pub bonding_curve: Identity,
    pub timestamp: i64,
}

/// The configuration was overwritten by its authority.
#[derive(Clone, Copy, Debug, PartialEq, Eq, Structural)]
pub struct SetParamsEvent {
    pub fee_recipient: Identity,
    pub withdraw_authority: Identity,
    pub initial_virtual_token_reserves: u64,
    pub initial_virtual_sol_reserves: u64,
    pub initial_real_token_reserves: u64,
    pub initial_token_supply: u64,
    pub fee_basis_points: u64,
}

} // verus!
