use crate::address::Address;
use crate::authority::{Domain, ProgramAuthority};
use crate::bps::{bps_share, share};
use crate::error::NeptuError;
use crate::instruction::{
    authorize, authorizes, plan_view, Instruction, Signer, TokenMetadata,
};
use vstd::prelude::*;

verus! {

/// The token's name.
pub const TOKEN_NAME: &'static str = "Neptu";

/// The token's symbol.
pub const TOKEN_SYMBOL: &'static str = "NEPTU";

/// Where the token's description is published.
pub const TOKEN_URI: &'static str = "https://neptu.io/token-metadata.json";

/// The number of decimal places of one token.
pub const TOKEN_DECIMALS: u8 = 6;

/// The whole supply, in token units: one billion tokens.
pub const TOTAL_SUPPLY: u64 = 1_000_000_000_000_000;

/// The ecosystem pool's part of the supply, in basis points.
pub const ECOSYSTEM_BPS: u64 = 5500;

/// The treasury's part of the supply, in basis points.
pub const TREASURY_BPS: u64 = 2500;

/// The team's part of the supply, in basis points.
pub const TEAM_BPS: u64 = 1500;

/// The reserve's part of the supply, in basis points.
pub const RESERVE_BPS: u64 = 500;

/// A supply parted among the four pools.
#[derive(Clone, Copy, Debug, PartialEq, Eq, Structural)]
pub struct Allocation {
    pub ecosystem: u64,
    pub treasury: u64,
    pub team: u64,
    pub reserve: u64,
}

impl Allocation {
    /// What the four parts come to together.
    pub open spec fn sum(self) -> int {
        self.ecosystem + self.treasury + self.team + self.reserve
    }
}

/// The parts of a supply of `total`: each pool gets its share, rounded down.
/// What rounding leaves over belongs to no pool and is not issued.
pub open spec fn allocation_of(total: u64) -> Allocation {
    Allocation {
        ecosystem: share(total, ECOSYSTEM_BPS) as u64,
        treasury: share(total, TREASURY_BPS) as u64,
        team: share(total, TEAM_BPS) as u64,
        reserve: share(total, RESERVE_BPS) as u64,
    }
}

/// The four parts never exceed the supply, and rounding leaves over less than
/// one unit for each pool: at most three units in all.
pub proof fn lemma_allocation_remainder(total: u64)
    ensures
        0 <= total - allocation_of(total).sum() <= 3,
{
}

/// A supply that is a multiple of twenty units is parted without remainder.
pub proof fn lemma_allocation_exact(total: u64)
    requires
        total % 20 == 0,
    ensures
        allocation_of(total).sum() == total,
{
}

/// The whole supply of the token is parted without remainder: 55, 25, 15 and
/// 5 parts in a hundred.
pub proof fn lemma_total_supply_is_issued_whole()
    ensures
        allocation_of(TOTAL_SUPPLY) == (Allocation {
            ecosystem: 550_000_000_000_000,
            treasury: 250_000_000_000_000,
            team: 150_000_000_000_000,
            reserve: 50_000_000_000_000,
        }),
        allocation_of(TOTAL_SUPPLY).sum() == TOTAL_SUPPLY,
{
}

/// Parts a supply of `total` among the four pools.
pub fn allocate(total: u64) -> (r: Allocation)
    ensures
        r == allocation_of(total),
        0 <= total - r.sum() <= 3,
        total % 20 == 0 ==> r.sum() == total,
{
    proof {
        lemma_allocation_remainder(total);
        if total % 20 == 0 {
            lemma_allocation_exact(total);
        }
    }
    Allocation {
        ecosystem: bps_share(total, ECOSYSTEM_BPS),
        treasury: bps_share(total, TREASURY_BPS),
        team: bps_share(total, TEAM_BPS),
        reserve: bps_share(total, RESERVE_BPS),
    }
}

/// What creating the token works on.
#[derive(Clone, Copy, Debug, PartialEq, Eq)]
pub struct Initialize {
    /// The token program.
    pub program_id: Address,
    /// Who pays for the new accounts.
    pub payer: Address,
    /// The account presented as the token, which is its own authority.
    pub mint: Address,
    /// The account that takes the token's description.
    pub metadata: Address,
}

/// What issuing the initial supply works on. Each pool is the token balance of
/// the authority named after it, and is created where it is missing.
#[derive(Clone, Copy, Debug, PartialEq, Eq)]
pub struct MintInitialSupply {
    /// The token program.
    pub program_id: Address,
    /// Who pays for the new accounts.
    pub payer: Address,
    /// The account presented as the token, which is its own authority.
    pub mint: Address,
    pub ecosystem_pool: Address,
    pub ecosystem_authority: Address,
    pub treasury: Address,
    pub treasury_authority: Address,
    pub team: Address,
    pub team_authority: Address,
    pub reserve: Address,
    pub reserve_authority: Address,
}

/// What handing over the right to issue tokens works on.
#[derive(Clone, Copy, Debug, PartialEq, Eq)]
pub struct TransferMintAuthority {
    /// The token program.
    pub program_id: Address,
    /// Who pays the fee.
    pub payer: Address,
    /// The account presented as the token, which is its own authority.
    pub mint: Address,
    /// Who is to issue tokens from now on.
    pub new_authority: Address,
}

/// How the token is shown: its name, symbol and link, no resale fee, and open
/// to later change.
pub open spec fn neptu_metadata() -> TokenMetadata {
    TokenMetadata {
        name: TOKEN_NAME,
        symbol: TOKEN_SYMBOL,
        uri: TOKEN_URI,
        seller_fee_basis_points: 0,
        is_mutable: true,
    }
}

/// The requests that create the token: the mint, under its own authority, and
/// then its description.
pub open spec fn token_creation(ctx: Initialize, authority: ProgramAuthority) -> Seq<Instruction> {
    seq![
        Instruction::CreateMint {
            payer: ctx.payer,
            mint: ctx.mint,
            decimals: TOKEN_DECIMALS,
            mint_authority: ctx.mint,
        },
        Instruction::CreateMetadata {
            metadata: ctx.metadata,
            mint: ctx.mint,
            payer: ctx.payer,
            authority: Signer::Program(authority),
            data: neptu_metadata(),
        },
    ]
}

/// What [`initialize`] answers when the derivation of the mint's identity gave
/// `authority`.
pub open spec fn initialize_outcome(ctx: Initialize, authority: Option<ProgramAuthority>) -> Result<
    Seq<Instruction>,
    NeptuError,
> {
    if authorizes(authority, Domain::Mint, ctx.program_id, ctx.mint) {
        Ok(token_creation(ctx, authority.unwrap()))
    } else {
        Err(NeptuError::Unauthorized)
    }
}

/// Plans the creation of the token under the identity that the derivation
/// gave.
pub fn initialize_signed_by(ctx: &Initialize, authority: Option<ProgramAuthority>) -> (r: Result<
    Vec<Instruction>,
    NeptuError,
>)
    ensures
        plan_view(r) == initialize_outcome(*ctx, authority),
        r is Ok ==> authority == ProgramAuthority::derived(Domain::Mint, ctx.program_id),
{
    let signer = match authorize(authority, Domain::Mint, &ctx.program_id, &ctx.mint) {
        Ok(a) => a,
        Err(e) => {
            return Err(e);
        },
    };
    let mut plan: Vec<Instruction> = Vec::new();
    plan.push(
        Instruction::CreateMint {
            payer: ctx.payer,
            mint: ctx.mint,
            decimals: TOKEN_DECIMALS,
            mint_authority: ctx.mint,
        },
    );
    plan.push(
        Instruction::CreateMetadata {
            metadata: ctx.metadata,
            mint: ctx.mint,
            payer: ctx.payer,
            authority: Signer::Program(signer),
            data: TokenMetadata {
                name: TOKEN_NAME,
                symbol: TOKEN_SYMBOL,
                uri: TOKEN_URI,
                seller_fee_basis_points: 0,
                is_mutable: true,
            },
        },
    );
    assert(plan@ =~= token_creation(*ctx, signer));
    Ok(plan)
}

/// Plans the creation of the token and of its description. The token is its
/// own authority, so the request is refused as unauthorised where the account
/// presented as the token is not the program's identity for it.
pub fn initialize(ctx: &Initialize) -> (r: Result<Vec<Instruction>, NeptuError>)
    ensures
        plan_view(r) == initialize_outcome(
            *ctx,
            ProgramAuthority::derived(Domain::Mint, ctx.program_id),
        ),
{
    let authority = ProgramAuthority::derive(Domain::Mint, &ctx.program_id);
    initialize_signed_by(ctx, authority)
}

/// The two requests that serve one pool: its balance, owned by `owner`, is
/// made sure of, and `amount` is issued to it.
pub open spec fn pool_issue(
    ctx: MintInitialSupply,
    pool: Address,
    owner: Address,
    amount: u64,
    authority: ProgramAuthority,
) -> Seq<Instruction> {
    seq![
        Instruction::CreateTokenAccount { payer: ctx.payer, account: pool, owner, mint: ctx.mint },
        Instruction::MintTo {
            mint: ctx.mint,
            to: pool,
            authority: Signer::Program(authority),
            amount,
        },
    ]
}

/// The requests that issue a supply of `total`: the ecosystem pool, the
/// treasury, the team and the reserve are served in this order, each with its
/// part. One that fails ends the operation, and what was issued before it
/// stays issued.
pub open spec fn supply_issue(
    ctx: MintInitialSupply,
    total: u64,
    authority: ProgramAuthority,
) -> Seq<Instruction> {
    let parts = allocation_of(total);
    pool_issue(ctx, ctx.ecosystem_pool, ctx.ecosystem_authority, parts.ecosystem, authority)
        + pool_issue(ctx, ctx.treasury, ctx.treasury_authority, parts.treasury, authority)
        + pool_issue(ctx, ctx.team, ctx.team_authority, parts.team, authority)
        + pool_issue(ctx, ctx.reserve, ctx.reserve_authority, parts.reserve, authority)
}

/// What [`mint_initial_supply`] answers when the derivation of the mint's
/// identity gave `authority`.
pub open spec fn mint_initial_supply_outcome(
    ctx: MintInitialSupply,
    authority: Option<ProgramAuthority>,
) -> Result<Seq<Instruction>, NeptuError> {
    if authorizes(authority, Domain::Mint, ctx.program_id, ctx.mint) {
        Ok(supply_issue(ctx, TOTAL_SUPPLY, authority.unwrap()))
    } else {
        Err(NeptuError::Unauthorized)
    }
}

/// Appends the two requests that serve one pool.
fn push_pool_issue(
    plan: &mut Vec<Instruction>,
    ctx: &MintInitialSupply,
    pool: Address,
    owner: Address,
    amount: u64,
    authority: ProgramAuthority,
)
    ensures
        final(plan)@ == old(plan)@ + pool_issue(*ctx, pool, owner, amount, authority),
{
    plan.push(
        Instruction::CreateTokenAccount { payer: ctx.payer, account: pool, owner, mint: ctx.mint },
    );
    plan.push(
        Instruction::MintTo {
            mint: ctx.mint,
            to: pool,
            authority: Signer::Program(authority),
            amount,
        },
    );
    assert(plan@ =~= old(plan)@ + pool_issue(*ctx, pool, owner, amount, authority));
}

/// Plans the issue of the initial supply under the identity that the
/// derivation gave.
pub fn mint_initial_supply_signed_by(
    ctx: &MintInitialSupply,
    authority: Option<ProgramAuthority>,
) -> (r: Result<Vec<Instruction>, NeptuError>)
    ensures
        plan_view(r) == mint_initial_supply_outcome(*ctx, authority),
        r is Ok ==> authority == ProgramAuthority::derived(Domain::Mint, ctx.program_id),
{
    let signer = match authorize(authority, Domain::Mint, &ctx.program_id, &ctx.mint) {
        Ok(a) => a,
        Err(e) => {
            return Err(e);
        },
    };
    let parts = allocate(TOTAL_SUPPLY);
    let mut plan: Vec<Instruction> = Vec::new();
    push_pool_issue(
        &mut plan,
        ctx,
        ctx.ecosystem_pool,
        ctx.ecosystem_authority,
        parts.ecosystem,
        signer,
    );
    push_pool_issue(&mut plan, ctx, ctx.treasury, ctx.treasury_authority, parts.treasury, signer);
    push_pool_issue(&mut plan, ctx, ctx.team, ctx.team_authority, parts.team, signer);
    push_pool_issue(&mut plan, ctx, ctx.reserve, ctx.reserve_authority, parts.reserve, signer);
    assert(plan@ =~= supply_issue(*ctx, TOTAL_SUPPLY, signer));
    Ok(plan)
}

/// Plans the issue of the whole supply to the four pools, by their fixed
/// parts, under the token's own authority.
pub fn mint_initial_supply(ctx: &MintInitialSupply) -> (r: Result<Vec<Instruction>, NeptuError>)
    ensures
        plan_view(r) == mint_initial_supply_outcome(
            *ctx,
            ProgramAuthority::derived(Domain::Mint, ctx.program_id),
        ),
{
    let authority = ProgramAuthority::derive(Domain::Mint, &ctx.program_id);
    mint_initial_supply_signed_by(ctx, authority)
}

/// What [`transfer_mint_authority`] answers when the derivation of the mint's
/// identity gave `authority`: the one request that hands the right to issue
/// tokens over.
pub open spec fn transfer_mint_authority_outcome(
    ctx: TransferMintAuthority,
    authority: Option<ProgramAuthority>,
) -> Result<Seq<Instruction>, NeptuError> {
    if authorizes(authority, Domain::Mint, ctx.program_id, ctx.mint) {
        Ok(
            seq![
                Instruction::SetMintAuthority {
                    mint: ctx.mint,
                    current_authority: Signer::Program(authority.unwrap()),
                    new_authority: ctx.new_authority,
                },
            ],
        )
    } else {
        Err(NeptuError::Unauthorized)
    }
}

/// Plans the handover of the right to issue tokens under the identity that
/// the derivation gave.
pub fn transfer_mint_authority_signed_by(
    ctx: &TransferMintAuthority,
    authority: Option<ProgramAuthority>,
) -> (r: Result<Vec<Instruction>, NeptuError>)
    ensures
        plan_view(r) == transfer_mint_authority_outcome(*ctx, authority),
        r is Ok ==> authority == ProgramAuthority::derived(Domain::Mint, ctx.program_id),
{
    let signer = match authorize(authority, Domain::Mint, &ctx.program_id, &ctx.mint) {
        Ok(a) => a,
        Err(e) => {
            return Err(e);
        },
    };
    let mut plan: Vec<Instruction> = Vec::new();
    plan.push(
        Instruction::SetMintAuthority {
            mint: ctx.mint,
            current_authority: Signer::Program(signer),
            new_authority: ctx.new_authority,
        },
    );
    assert(plan@ =~= transfer_mint_authority_outcome(*ctx, authority).unwrap());
    Ok(plan)
}

/// Plans the handover of the right to issue tokens from the token's own
/// authority to `new_authority`. Only the new authority can hand it back.
pub fn transfer_mint_authority(ctx: &TransferMintAuthority) -> (r: Result<
    Vec<Instruction>,
    NeptuError,
>)
    ensures
        plan_view(r) == transfer_mint_authority_outcome(
            *ctx,
            ProgramAuthority::derived(Domain::Mint, ctx.program_id),
        ),
{
    let authority = ProgramAuthority::derive(Domain::Mint, &ctx.program_id);
    transfer_mint_authority_signed_by(ctx, authority)
}

} // verus!
