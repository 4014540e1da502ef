//! The persistent records of the exchange.

use vstd::prelude::*;

verus! {

/// An account identity on the hosting ledger. The engine only ever compares
/// identities; deriving them from seeds is the ledger's business, so a
/// caller maps each ledger address to a distinct handle.
#[derive(Clone, Copy, Debug, PartialEq, Eq, Structural)]
pub struct Identity {
    pub id: u64,
}

/// The protocol-wide configuration singleton. Created once by `initialize`,
/// overwritten only by `set_params` under an authority check, read-only
/// everywhere else.
#[derive(Clone, Copy, Debug, PartialEq, Eq, Structural)]
pub struct Global {
    pub authority: Identity,
    pub initialized: bool,
    pub fee_recipient: Identity,
    pub initial_virtual_token_reserves: u64,
    pub initial_virtual_sol_reserves: u64,
    pub initial_real_token_reserves: u64,
    pub initial_real_sol_reserves: u64,
    pub initial_token_supply: u64,
    pub fee_basis_points: u64,
    pub withdraw_authority: Identity,
}

impl Global {
    /// The domain constraints of the configuration: the fee rate never
    /// exceeds one whole, and the real token reserve a new curve is seeded
    /// with never exceeds its virtual one (the seeded real currency reserve
    /// is always zero).
    pub open spec fn well_formed(self) -> bool {
        &&& self.fee_basis_points <= 10_000
        &&& self.initial_real_token_reserves <= self.initial_virtual_token_reserves
    }
}

impl Default for Global {
    /// A blank configuration: every identity is the zero handle and the
    /// record is not initialized yet.
    fn default() -> (g: Global)
        ensures
            g == (Global {
                authority: Identity { id: 0 },
                initialized: false,
                fee_recipient: Identity { id: 0 },
                initial_virtual_token_reserves: 0,
                initial_virtual_sol_reserves: 0,
                initial_real_token_reserves: 0,
                initial_real_sol_reserves: 0,
                initial_token_supply: 0,
                fee_basis_points: 0,
                withdraw_authority: Identity { id: 0 },
            }),
            g.well_formed(),
    {
        Global {
            authority: Identity { id: 0 },
            initialized: false,
            fee_recipient: Identity { id: 0 },
            initial_virtual_token_reserves: 0,
            initial_virtual_sol_reserves: 0,
            initial_real_token_reserves: 0,
            initial_real_sol_reserves: 0,
            initial_token_supply: 0,
            fee_basis_points: 0,
            withdraw_authority: Identity { id: 0 },
        }
    }
}

/// The per-token-pair record of reserves and the completion flag. Created
/// at pair creation, seeded from [`Global`], mutated by buy and sell; the
/// flag flips to `true` exactly once, when a buy drives the real token
/// reserves to zero, and never reverts.
#[derive(Clone, Copy, Debug, PartialEq, Eq, Structural)]
pub struct BondingCurve {
    pub virtual_sol_reserves: u64,
    pub virtual_token_reserves: u64,
    pub real_sol_reserves: u64,
    pub real_token_reserves: u64,
    pub token_total_supply: u64,
    pub complete: bool,
}

impl BondingCurve {
    /// The reserve invariant: the real holdings never exceed the virtual
    /// (pricing-only) quantities.
    pub open spec fn well_formed(self) -> bool {
        &&& self.real_token_reserves <= self.virtual_token_reserves
        &&& self.real_sol_reserves <= self.virtual_sol_reserves
    }
}

/// The timestamp of the last treasury withdrawal; created lazily on the
/// first one.
#[derive(Clone, Copy, Debug, PartialEq, Eq, Structural)]
pub struct LastWithdraw {
    pub last_withdraw_timestamp: i64,
}

} // verus!
