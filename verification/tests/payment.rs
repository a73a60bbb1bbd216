use neptu::address::Address;
use neptu::authority::{Domain, ProgramAuthority};
use neptu::bps::{bps_share, BPS_DENOMINATOR};
use neptu::error::NeptuError;
use neptu::execution::Execution;
use neptu::instruction::{Instruction, Signer};
use neptu::payment::{
    burn_split, pay_with_neptu, pay_with_sol, pay_with_sol_signed_by, BurnSplit, PayWithNeptu,
    PayWithSol, BURN_RATE_BPS,
};
use neptu::pricing::{initialize_pricing, InitializePricing, PricingConfig, ReadingType};
use std::collections::HashMap;

fn key(n: u8) -> Address {
    Address::new([n; 32])
}

fn program() -> Address {
    key(100)
}

fn economy() -> ProgramAuthority {
    ProgramAuthority::derive(Domain::Economy, &program()).unwrap()
}

fn default_table() -> PricingConfig {
    let mut ctx = InitializePricing { authority: key(1), pricing_config: None };
    initialize_pricing(&mut ctx).unwrap();
    ctx.pricing_config.unwrap()
}

fn sol_context() -> PayWithSol {
    PayWithSol {
        program_id: program(),
        user: key(2),
        pricing_config: default_table(),
        treasury: key(3),
        neptu_mint: key(4),
        user_neptu_account: key(5),
        rewards_pool: key(6),
        economy_authority: economy().get_address(),
    }
}

fn neptu_context() -> PayWithNeptu {
    PayWithNeptu {
        user: key(2),
        pricing_config: default_table(),
        neptu_mint: key(4),
        user_neptu_account: key(5),
        ecosystem_pool: key(7),
    }
}

/// A ledger in memory: SOL by wallet, token units by balance account, and who
/// owns each balance account.
struct Ledger {
    sol: HashMap<Address, u64>,
    tokens: HashMap<Address, u64>,
    owners: HashMap<Address, Address>,
    supply: u64,
}

fn signer_address(signer: &Signer) -> Address {
    match signer {
        Signer::Wallet(a) => *a,
        Signer::Program(p) => p.get_address(),
    }
}

impl Ledger {
    fn new() -> Ledger {
        Ledger { sol: HashMap::new(), tokens: HashMap::new(), owners: HashMap::new(), supply: 0 }
    }

    fn open(&mut self, account: Address, owner: Address, amount: u64) {
        self.tokens.insert(account, amount);
        self.owners.insert(account, owner);
        self.supply += amount;
    }

    fn debit(&mut self, from: Address, authority: &Signer, amount: u64) -> Result<(), NeptuError> {
        if self.owners.get(&from) != Some(&signer_address(authority)) {
            return Err(NeptuError::Unauthorized);
        }
        let balance = self.tokens.get_mut(&from).unwrap();
        if *balance < amount {
            return Err(NeptuError::InsufficientBalance);
        }
        *balance -= amount;
        Ok(())
    }

    fn perform(&mut self, instruction: &Instruction) -> Result<(), NeptuError> {
        match instruction {
            Instruction::TransferSol { from, to, lamports } => {
                let balance = self.sol.entry(*from).or_insert(0);
                if *balance < *lamports {
                    return Err(NeptuError::InsufficientBalance);
                }
                *balance -= *lamports;
                *self.sol.entry(*to).or_insert(0) += *lamports;
                Ok(())
            }
            Instruction::CreateTokenAccount { account, owner, .. } => {
                self.tokens.entry(*account).or_insert(0);
                self.owners.entry(*account).or_insert(*owner);
                Ok(())
            }
            Instruction::TransferTokens { from, to, authority, amount } => {
                self.debit(*from, authority, *amount)?;
                *self.tokens.get_mut(to).unwrap() += *amount;
                Ok(())
            }
            Instruction::Burn { from, authority, amount, .. } => {
                self.debit(*from, authority, *amount)?;
                self.supply -= *amount;
                Ok(())
            }
            _ => Err(NeptuError::Unauthorized),
        }
    }

    fn run(&mut self, plan: Vec<Instruction>) -> (Result<(), NeptuError>, usize) {
        let mut execution = Execution::new(plan);
        while let Some(instruction) = execution.pending() {
            let report = self.perform(&instruction);
            execution.record(report);
        }
        (execution.outcome().unwrap(), execution.count_completed())
    }
}

#[test]
fn burn_split_halves_and_loses_nothing() {
    assert_eq!(burn_split(0), BurnSplit { burn_amount: 0, recycle_amount: 0 });
    assert_eq!(burn_split(1), BurnSplit { burn_amount: 0, recycle_amount: 1 });
    assert_eq!(burn_split(2), BurnSplit { burn_amount: 1, recycle_amount: 1 });
    assert_eq!(burn_split(3), BurnSplit { burn_amount: 1, recycle_amount: 2 });
    assert_eq!(
        burn_split(2_000_000),
        BurnSplit { burn_amount: 1_000_000, recycle_amount: 1_000_000 }
    );
    assert_eq!(
        burn_split(u64::MAX),
        BurnSplit { burn_amount: u64::MAX / 2, recycle_amount: u64::MAX / 2 + 1 }
    );
}

#[test]
fn burn_split_conserves_the_total() {
    for total in [0u64, 1, 2, 3, 9_999, 10_000, 10_001, 123_456_789, u64::MAX - 1, u64::MAX] {
        let parts = burn_split(total);
        assert_eq!(parts.burn_amount as u128 + parts.recycle_amount as u128, total as u128);
        assert_eq!(parts.burn_amount as u128, total as u128 * 5000 / 10_000);
    }
}

#[test]
fn share_rounds_down() {
    assert_eq!(BURN_RATE_BPS, 5000);
    assert_eq!(BPS_DENOMINATOR, 10_000);
    assert_eq!(bps_share(10, 5500), 5);
    assert_eq!(bps_share(10, 500), 0);
    assert_eq!(bps_share(19, 500), 0);
    assert_eq!(bps_share(20, 500), 1);
    assert_eq!(bps_share(u64::MAX, 10_000), u64::MAX);
    assert_eq!(bps_share(u64::MAX, 0), 0);
    assert_eq!(bps_share(u64::MAX, 1), 1_844_674_407_370_955);
}

#[test]
fn pay_with_sol_plans_the_price_and_then_the_reward() {
    let ctx = sol_context();
    let plan = pay_with_sol(&ctx, ReadingType::Compatibility).unwrap();
    assert_eq!(
        plan,
        vec![
            Instruction::TransferSol { from: key(2), to: key(3), lamports: 5_000_000 },
            Instruction::CreateTokenAccount {
                payer: key(2),
                account: key(5),
                owner: key(2),
                mint: key(4),
            },
            Instruction::TransferTokens {
                from: key(6),
                to: key(5),
                authority: Signer::Program(economy()),
                amount: 5_000_000,
            },
        ]
    );
}

#[test]
fn pay_with_sol_takes_both_amounts_from_the_table() {
    let mut ctx = sol_context();
    ctx.pricing_config.ai_chat_sol_price = 17;
    ctx.pricing_config.ai_chat_neptu_price = 23;
    let plan = pay_with_sol(&ctx, ReadingType::AiChat).unwrap();
    assert_eq!(plan[0], Instruction::TransferSol { from: key(2), to: key(3), lamports: 17 });
    assert_eq!(
        plan[2],
        Instruction::TransferTokens {
            from: key(6),
            to: key(5),
            authority: Signer::Program(economy()),
            amount: 23,
        }
    );
}

#[test]
fn pay_with_sol_refuses_a_false_authority() {
    let mut ctx = sol_context();
    ctx.economy_authority = key(2);
    assert_eq!(pay_with_sol(&ctx, ReadingType::Potensi), Err(NeptuError::Unauthorized));
    let ctx = sol_context();
    let mint = ProgramAuthority::derive(Domain::Mint, &program());
    assert_eq!(
        pay_with_sol_signed_by(&ctx, ReadingType::Potensi, mint),
        Err(NeptuError::Unauthorized)
    );
    assert_eq!(
        pay_with_sol_signed_by(&ctx, ReadingType::Potensi, None),
        Err(NeptuError::Unauthorized)
    );
    let elsewhere = ProgramAuthority::derive(Domain::Economy, &key(101));
    assert_eq!(
        pay_with_sol_signed_by(&ctx, ReadingType::Potensi, elsewhere),
        Err(NeptuError::Unauthorized)
    );
    assert_eq!(
        pay_with_sol_signed_by(&ctx, ReadingType::Potensi, Some(economy())),
        pay_with_sol(&ctx, ReadingType::Potensi)
    );
}

#[test]
fn paying_in_sol_credits_treasury_and_rewards_the_user() {
    let ctx = sol_context();
    let mut ledger = Ledger::new();
    ledger.sol.insert(ctx.user, 25_000_000);
    ledger.open(ctx.rewards_pool, economy().get_address(), 40_000_000);

    let plan = pay_with_sol(&ctx, ReadingType::Potensi).unwrap();
    let (result, completed) = ledger.run(plan);

    assert_eq!(result, Ok(()));
    assert_eq!(completed, 3);
    assert_eq!(ledger.sol[&ctx.treasury], 10_000_000);
    assert_eq!(ledger.sol[&ctx.user], 15_000_000);
    assert_eq!(ledger.tokens[&ctx.user_neptu_account], 10_000_000);
    assert_eq!(ledger.tokens[&ctx.rewards_pool], 30_000_000);
    assert_eq!(ledger.supply, 40_000_000);
}

#[test]
fn paying_in_sol_without_the_sol_moves_nothing() {
    let ctx = sol_context();
    let mut ledger = Ledger::new();
    ledger.sol.insert(ctx.user, 9_999_999);
    ledger.open(ctx.rewards_pool, economy().get_address(), 40_000_000);

    let plan = pay_with_sol(&ctx, ReadingType::Potensi).unwrap();
    let (result, completed) = ledger.run(plan);

    assert_eq!(result, Err(NeptuError::InsufficientBalance));
    assert_eq!(completed, 0);
    assert_eq!(ledger.sol[&ctx.user], 9_999_999);
    assert_eq!(ledger.tokens[&ctx.rewards_pool], 40_000_000);
    assert!(!ledger.tokens.contains_key(&ctx.user_neptu_account));
}

#[test]
fn an_empty_rewards_pool_stops_the_reward_but_not_the_sale() {
    let ctx = sol_context();
    let mut ledger = Ledger::new();
    ledger.sol.insert(ctx.user, 10_000_000);
    ledger.open(ctx.rewards_pool, economy().get_address(), 9_999_999);

    let plan = pay_with_sol(&ctx, ReadingType::Potensi).unwrap();
    let (result, completed) = ledger.run(plan);

    assert_eq!(result, Err(NeptuError::InsufficientBalance));
    assert_eq!(completed, 2);
    assert_eq!(ledger.sol[&ctx.treasury], 10_000_000);
    assert_eq!(ledger.sol[&ctx.user], 0);
    assert_eq!(ledger.tokens[&ctx.user_neptu_account], 0);
    assert_eq!(ledger.tokens[&ctx.rewards_pool], 9_999_999);
    assert_eq!(ledger.supply, 9_999_999);
}

#[test]
fn pay_with_neptu_plans_the_burn_and_then_the_recycling() {
    let ctx = neptu_context();
    let plan = pay_with_neptu(&ctx, ReadingType::Potensi);
    assert_eq!(
        plan,
        vec![
            Instruction::Burn {
                mint: key(4),
                from: key(5),
                authority: Signer::Wallet(key(2)),
                amount: 5_000_000,
            },
            Instruction::TransferTokens {
                from: key(5),
                to: key(7),
                authority: Signer::Wallet(key(2)),
                amount: 5_000_000,
            },
        ]
    );
}

#[test]
fn pay_with_neptu_recycles_the_odd_unit() {
    let mut ctx = neptu_context();
    ctx.pricing_config.peluang_neptu_price = 7;
    let plan = pay_with_neptu(&ctx, ReadingType::Peluang);
    assert_eq!(
        plan[0],
        Instruction::Burn {
            mint: key(4),
            from: key(5),
            authority: Signer::Wallet(key(2)),
            amount: 3,
        }
    );
    assert_eq!(
        plan[1],
        Instruction::TransferTokens {
            from: key(5),
            to: key(7),
            authority: Signer::Wallet(key(2)),
            amount: 4,
        }
    );
}

#[test]
fn pay_with_neptu_serves_the_highest_price() {
    let mut ctx = neptu_context();
    ctx.pricing_config.compatibility_neptu_price = u64::MAX;
    let plan = pay_with_neptu(&ctx, ReadingType::Compatibility);
    assert_eq!(
        plan[0],
        Instruction::Burn {
            mint: key(4),
            from: key(5),
            authority: Signer::Wallet(key(2)),
            amount: u64::MAX / 2,
        }
    );
    assert_eq!(
        plan[1],
        Instruction::TransferTokens {
            from: key(5),
            to: key(7),
            authority: Signer::Wallet(key(2)),
            amount: u64::MAX / 2 + 1,
        }
    );
}

#[test]
fn paying_in_tokens_with_the_exact_price_empties_the_balance() {
    let ctx = neptu_context();
    let mut ledger = Ledger::new();
    ledger.open(ctx.user_neptu_account, ctx.user, 2_000_000);
    ledger.open(ctx.ecosystem_pool, key(8), 0);

    let plan = pay_with_neptu(&ctx, ReadingType::AiChat);
    let (result, completed) = ledger.run(plan);

    assert_eq!(result, Ok(()));
    assert_eq!(completed, 2);
    assert_eq!(ledger.tokens[&ctx.user_neptu_account], 0);
    assert_eq!(ledger.tokens[&ctx.ecosystem_pool], 1_000_000);
    assert_eq!(ledger.supply, 1_000_000);
}

#[test]
fn paying_in_tokens_one_unit_short_burns_and_then_fails() {
    let ctx = neptu_context();
    let mut ledger = Ledger::new();
    ledger.open(ctx.user_neptu_account, ctx.user, 1_999_999);
    ledger.open(ctx.ecosystem_pool, key(8), 0);

    let plan = pay_with_neptu(&ctx, ReadingType::AiChat);
    let (result, completed) = ledger.run(plan);

    assert_eq!(result, Err(NeptuError::InsufficientBalance));
    assert_eq!(completed, 1);
    assert_eq!(ledger.tokens[&ctx.user_neptu_account], 999_999);
    assert_eq!(ledger.tokens[&ctx.ecosystem_pool], 0);
    assert_eq!(ledger.supply, 999_999);
}

#[test]
fn paying_in_tokens_with_too_little_to_burn_moves_nothing() {
    let ctx = neptu_context();
    let mut ledger = Ledger::new();
    ledger.open(ctx.user_neptu_account, ctx.user, 999_999);
    ledger.open(ctx.ecosystem_pool, key(8), 0);

    let plan = pay_with_neptu(&ctx, ReadingType::AiChat);
    let (result, completed) = ledger.run(plan);

    assert_eq!(result, Err(NeptuError::InsufficientBalance));
    assert_eq!(completed, 0);
    assert_eq!(ledger.tokens[&ctx.user_neptu_account], 999_999);
    assert_eq!(ledger.supply, 999_999);
}
