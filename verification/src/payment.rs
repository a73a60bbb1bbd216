use crate::address::Address;
use crate::authority::{Domain, ProgramAuthority};
use crate::bps::{bps_share, lemma_share_bounds, share};
use crate::error::NeptuError;
use crate::instruction::{authorize, authorizes, plan_view, Instruction, Signer};
use crate::pricing::{PricingConfig, ReadingType};
use vstd::prelude::*;

verus! {

/// The part of a payment in tokens that is destroyed, in basis points: half.
pub const BURN_RATE_BPS: u64 = 5000;

/// What a payment in SOL works on.
#[derive(Clone, Copy, Debug, PartialEq, Eq)]
pub struct PayWithSol {
    /// The economy program.
    pub program_id: Address,
    /// Who pays, and receives the reward.
    pub user: Address,
    /// The price table.
    pub pricing_config: PricingConfig,
    /// The wallet that collects the SOL.
    pub treasury: Address,
    /// The token.
    pub neptu_mint: Address,
    /// The user's token balance, created where it is missing.
    pub user_neptu_account: Address,
    /// The balance that rewards are paid from.
    pub rewards_pool: Address,
    /// The account presented as the owner of the rewards pool.
    pub economy_authority: Address,
}

/// What a payment in tokens works on.
#[derive(Clone, Copy, Debug, PartialEq, Eq)]
pub struct PayWithNeptu {
    /// Who pays.
    pub user: Address,
    /// The price table.
    pub pricing_config: PricingConfig,
    /// The token.
    pub neptu_mint: Address,
    /// The user's token balance.
    pub user_neptu_account: Address,
    /// The balance that the recycled part returns to.
    pub ecosystem_pool: Address,
}

/// A payment in tokens, parted into what is destroyed and what returns to the
/// ecosystem pool.
#[derive(Clone, Copy, Debug, PartialEq, Eq, Structural)]
pub struct BurnSplit {
    pub burn_amount: u64,
    pub recycle_amount: u64,
}

/// The parts of a payment of `total` token units: the burn rate's share,
/// rounded down, is destroyed, and all the rest is recycled.
pub open spec fn split_of(total: u64) -> BurnSplit {
    BurnSplit {
        burn_amount: share(total, BURN_RATE_BPS) as u64,
        recycle_amount: (total - share(total, BURN_RATE_BPS)) as u64,
    }
}

/// Whatever the total, its two parts add up to it, and the part destroyed is
/// the burn rate's share of it, rounded down: half.
pub proof fn lemma_split_conserves(total: u64)
    ensures
        split_of(total).burn_amount + split_of(total).recycle_amount == total,
        split_of(total).burn_amount == (total as int * 5000) / 10_000,
        split_of(total).burn_amount == total / 2,
        split_of(total).burn_amount <= split_of(total).recycle_amount <= split_of(
            total,
        ).burn_amount + 1,
{
    lemma_share_bounds(total, BURN_RATE_BPS);
}

/// Parts a payment of `total` token units. Nothing is lost to rounding: the
/// two parts add up to the total.
pub fn burn_split(total: u64) -> (r: BurnSplit)
    ensures
        r == split_of(total),
        r.burn_amount == (total as int * 5000) / 10_000,
        r.burn_amount + r.recycle_amount == total,
{
    let burn_amount = bps_share(total, BURN_RATE_BPS);
    BurnSplit { burn_amount, recycle_amount: total - burn_amount }
}

/// The requests of a payment in SOL, once `authority` is known to own the
/// rewards pool: the price in SOL goes to the treasury, then the reward, which
/// is the price in tokens, goes from the rewards pool to the user. Each
/// request stands alone: the SOL stays paid where the reward fails.
pub open spec fn sol_payment(
    ctx: PayWithSol,
    reading_type: ReadingType,
    authority: ProgramAuthority,
) -> Seq<Instruction> {
    seq![
        Instruction::TransferSol {
            from: ctx.user,
            to: ctx.treasury,
            lamports: ctx.pricing_config.sol_price(reading_type),
        },
        Instruction::CreateTokenAccount {
            payer: ctx.user,
            account: ctx.user_neptu_account,
            owner: ctx.user,
            mint: ctx.neptu_mint,
        },
        Instruction::TransferTokens {
            from: ctx.rewards_pool,
            to: ctx.user_neptu_account,
            authority: Signer::Program(authority),
            amount: ctx.pricing_config.neptu_price(reading_type),
        },
    ]
}

/// What [`pay_with_sol`] answers when the derivation of the economy's identity
/// gave `authority`.
pub open spec fn pay_with_sol_outcome(
    ctx: PayWithSol,
    reading_type: ReadingType,
    authority: Option<ProgramAuthority>,
) -> Result<Seq<Instruction>, NeptuError> {
    if authorizes(authority, Domain::Economy, ctx.program_id, ctx.economy_authority) {
        Ok(sol_payment(ctx, reading_type, authority.unwrap()))
    } else {
        Err(NeptuError::Unauthorized)
    }
}

/// Plans a payment in SOL under the identity that the derivation gave.
pub fn pay_with_sol_signed_by(
    ctx: &PayWithSol,
    reading_type: ReadingType,
    authority: Option<ProgramAuthority>,
) -> (r: Result<Vec<Instruction>, NeptuError>)
    ensures
        plan_view(r) == pay_with_sol_outcome(*ctx, reading_type, authority),
        r is Ok ==> authority == ProgramAuthority::derived(Domain::Economy, ctx.program_id),
{
    let signer = match authorize(
        authority,
        Domain::Economy,
        &ctx.program_id,
        &ctx.economy_authority,
    ) {
        Ok(a) => a,
        Err(e) => {
            return Err(e);
        },
    };
    let sol_price = ctx.pricing_config.get_sol_price(&reading_type);
    let neptu_reward = ctx.pricing_config.get_neptu_price(&reading_type);
    let mut plan: Vec<Instruction> = Vec::new();
    plan.push(Instruction::TransferSol { from: ctx.user, to: ctx.treasury, lamports: sol_price });
    plan.push(
        Instruction::CreateTokenAccount {
            payer: ctx.user,
            account: ctx.user_neptu_account,
            owner: ctx.user,
            mint: ctx.neptu_mint,
        },
    );
    plan.push(
        Instruction::TransferTokens {
            from: ctx.rewards_pool,
            to: ctx.user_neptu_account,
            authority: Signer::Program(signer),
            amount: neptu_reward,
        },
    );
    assert(plan@ =~= sol_payment(*ctx, reading_type, signer));
    Ok(plan)
}

/// Plans the payment of a reading in SOL: the user pays the price in SOL to
/// the treasury and is rewarded with the price in tokens from the rewards
/// pool, under the economy's own identity. The payment is refused as
/// unauthorised where the account presented as that identity is not it.
pub fn pay_with_sol(ctx: &PayWithSol, reading_type: ReadingType) -> (r: Result<
    Vec<Instruction>,
    NeptuError,
>)
    ensures
        plan_view(r) == pay_with_sol_outcome(
            *ctx,
            reading_type,
            ProgramAuthority::derived(Domain::Economy, ctx.program_id),
        ),
{
    let authority = ProgramAuthority::derive(Domain::Economy, &ctx.program_id);
    pay_with_sol_signed_by(ctx, reading_type, authority)
}

/// The requests of a payment in tokens: the burn rate's share of the price is
/// destroyed, then the rest goes to the ecosystem pool. The user signs both.
/// Each request stands alone: the burn stays done where the transfer fails.
pub open spec fn neptu_payment(ctx: PayWithNeptu, reading_type: ReadingType) -> Seq<Instruction> {
    let parts = split_of(ctx.pricing_config.neptu_price(reading_type));
    seq![
        Instruction::Burn {
            mint: ctx.neptu_mint,
            from: ctx.user_neptu_account,
            authority: Signer::Wallet(ctx.user),
            amount: parts.burn_amount,
        },
        Instruction::TransferTokens {
            from: ctx.user_neptu_account,
            to: ctx.ecosystem_pool,
            authority: Signer::Wallet(ctx.user),
            amount: parts.recycle_amount,
        },
    ]
}

/// A payment in tokens takes the price from the user and no more: what is
/// burned and what is recycled add up to the price of the reading.
pub proof fn lemma_neptu_payment_takes_the_price(ctx: PayWithNeptu, reading_type: ReadingType)
    ensures
        neptu_payment(ctx, reading_type).len() == 2,
        neptu_payment(ctx, reading_type)[0] matches Instruction::Burn { amount: burned, .. }
            && neptu_payment(ctx, reading_type)[1] matches Instruction::TransferTokens {
            amount: recycled,
            ..
        } && burned + recycled == ctx.pricing_config.neptu_price(reading_type) && burned
            == ctx.pricing_config.neptu_price(reading_type) / 2,
{
    lemma_split_conserves(ctx.pricing_config.neptu_price(reading_type));
}

/// Plans the payment of a reading in tokens: half of the price is burned and
/// the other half recycled to the ecosystem pool.
pub fn pay_with_neptu(ctx: &PayWithNeptu, reading_type: ReadingType) -> (plan: Vec<Instruction>)
    ensures
        plan@ == neptu_payment(*ctx, reading_type),
{
    let neptu_price = ctx.pricing_config.get_neptu_price(&reading_type);
    let parts = burn_split(neptu_price);
    let mut plan: Vec<Instruction> = Vec::new();
    plan.push(
        Instruction::Burn {
            mint: ctx.neptu_mint,
            from: ctx.user_neptu_account,
            authority: Signer::Wallet(ctx.user),
            amount: parts.burn_amount,
        },
    );
    plan.push(
        Instruction::TransferTokens {
            from: ctx.user_neptu_account,
            to: ctx.ecosystem_pool,
            authority: Signer::Wallet(ctx.user),
            amount: parts.recycle_amount,
        },
    );
    assert(plan@ =~= neptu_payment(*ctx, reading_type));
    plan
}

} // verus!
