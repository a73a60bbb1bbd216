use crate::address::Address;
use crate::error::AlreadyInitialized;
use vstd::prelude::*;

verus! {

/// The accounts that the economy governs, and its running totals.
#[derive(Clone, Copy, Debug, PartialEq, Eq)]
pub struct EconomyState {
    pub authority: Address,
    pub neptu_mint: Address,
    pub treasury: Address,
    pub ecosystem_pool: Address,
    pub total_sol_collected: u64,
    pub total_neptu_burned: u64,
    pub total_neptu_rewarded: u64,
}

impl EconomyState {
    /// The state that initialisation creates: the accounts bound, and every
    /// total at nothing.
    pub open spec fn initial(
        authority: Address,
        neptu_mint: Address,
        treasury: Address,
        ecosystem_pool: Address,
    ) -> EconomyState {
        EconomyState {
            authority,
            neptu_mint,
            treasury,
            ecosystem_pool,
            total_sol_collected: 0,
            total_neptu_burned: 0,
            total_neptu_rewarded: 0,
        }
    }
}

/// What creating the economy's state works on.
#[derive(Clone, Copy, Debug, PartialEq, Eq)]
pub struct InitializeEconomy {
    /// Who asks, and is recorded as the economy's administrator.
    pub authority: Address,
    /// The place of the state: `None` until it is created.
    pub economy_state: Option<EconomyState>,
    /// The token.
    pub neptu_mint: Address,
    /// The wallet that collects SOL.
    pub treasury: Address,
    /// The balance that recycled tokens return to.
    pub ecosystem_pool: Address,
}

/// Creates the economy's state: it binds the administrator, the token, the
/// treasury and the ecosystem pool, and starts every total at nothing. A state
/// that exists is left as it is.
pub fn initialize_economy(ctx: &mut InitializeEconomy) -> (r: Result<(), AlreadyInitialized>)
    ensures
        old(ctx).economy_state is None ==> r is Ok && *final(ctx) == (InitializeEconomy {
            economy_state: Some(
                EconomyState::initial(
                    old(ctx).authority,
                    old(ctx).neptu_mint,
                    old(ctx).treasury,
                    old(ctx).ecosystem_pool,
                ),
            ),
            ..*old(ctx)
        }),
        old(ctx).economy_state is Some ==> r is Err && *final(ctx) == *old(ctx),
{
    if ctx.economy_state.is_some() {
        return Err(AlreadyInitialized);
    }
    ctx.economy_state = Some(
        EconomyState {
            authority: ctx.authority,
            neptu_mint: ctx.neptu_mint,
            treasury: ctx.treasury,
            ecosystem_pool: ctx.ecosystem_pool,
            total_sol_collected: 0,
            total_neptu_burned: 0,
            total_neptu_rewarded: 0,
        },
    );
    Ok(())
}

} // verus!
