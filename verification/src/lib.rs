//! A bonding-curve exchange engine for a token-launch platform.
//!
//! A newly issued token trades continuously against a reserve of base
//! currency at an algorithmically computed price. Once the initial
//! allocation is fully sold the curve graduates: trading stops and a
//! privileged party may withdraw the residual treasury.
//!
//! The crate is organised leaf to root:
//! - [`amm`] is the pricing engine: pure computation over four reserve
//!   quantities with overflow-checked, protocol-favouring arithmetic;
//! - [`state`] holds the persistent records (global configuration, per-token
//!   curve state, withdrawal checkpoint);
//! - [`util`] computes the protocol fee;
//! - [`instructions`] are the operations (initialize, create, buy, sell,
//!   withdraw, set_params) that validate preconditions, drive the pricing
//!   engine and stage the settlement legs;
//! - [`rate_limiter`] is the per-actor sliding-window transfer quota;
//! - [`laws`] states and proves the algebraic properties of the engine.
//!
//! Settlement itself (moving balances between accounts) and identity
//! derivation are the hosting ledger's business: the operations here take
//! the balances they need as arguments and return the legs to perform, so
//! that a caller commits the returned state only after every leg succeeded.

use vstd::prelude::*;

pub mod amm;
pub mod errors;
pub mod events;
pub mod instructions;
pub mod laws;
pub mod rate_limiter;
pub mod state;
pub mod util;

verus! {

/// Token supply minted for a new pair, and the real token reserve a fresh
/// curve starts with.
pub const DEFAULT_TOKEN_SUPPLY: u64 = 1_000_000_000_000_000;

/// Decimal precision of every token minted by the platform.
pub const DEFAULT_DECIMALS: u8 = 6;

} // verus!
