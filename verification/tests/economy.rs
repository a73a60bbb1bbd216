use neptu::address::Address;
use neptu::economy::{initialize_economy, EconomyState, InitializeEconomy};
use neptu::error::AlreadyInitialized;

fn key(n: u8) -> Address {
    Address::new([n; 32])
}

#[test]
fn the_economy_starts_with_its_accounts_bound_and_totals_at_zero() {
    let mut ctx = InitializeEconomy {
        authority: key(1),
        economy_state: None,
        neptu_mint: key(2),
        treasury: key(3),
        ecosystem_pool: key(4),
    };
    assert_eq!(initialize_economy(&mut ctx), Ok(()));
    assert_eq!(
        ctx.economy_state,
        Some(EconomyState {
            authority: key(1),
            neptu_mint: key(2),
            treasury: key(3),
            ecosystem_pool: key(4),
            total_sol_collected: 0,
            total_neptu_burned: 0,
            total_neptu_rewarded: 0,
        })
    );
    assert_eq!((ctx.authority, ctx.neptu_mint, ctx.treasury, ctx.ecosystem_pool), (
        key(1),
        key(2),
        key(3),
        key(4)
    ));
}

#[test]
fn an_economy_that_exists_is_not_created_again() {
    let state = EconomyState {
        authority: key(1),
        neptu_mint: key(2),
        treasury: key(3),
        ecosystem_pool: key(4),
        total_sol_collected: 5,
        total_neptu_burned: 6,
        total_neptu_rewarded: 7,
    };
    let mut ctx = InitializeEconomy {
        authority: key(9),
        economy_state: Some(state),
        neptu_mint: key(8),
        treasury: key(7),
        ecosystem_pool: key(6),
    };
    let before = ctx;
    assert_eq!(initialize_economy(&mut ctx), Err(AlreadyInitialized));
    assert_eq!(ctx, before);
}
