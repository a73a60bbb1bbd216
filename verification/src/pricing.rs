use crate::address::Address;
use crate::defaults;
use crate::error::{AlreadyInitialized, NeptuError};
use vstd::prelude::*;

verus! {

/// Lamports in one SOL.
pub const LAMPORTS_PER_SOL: u64 = 1_000_000_000;

/// Token units in one NEPTU (six decimals).
pub const NEPTU_DECIMALS: u64 = 1_000_000;

/// The services that are priced.
#[derive(Clone, Copy, Debug, PartialEq, Eq, Structural)]
pub enum ReadingType {
    /// Personality potential reading.
    Potensi,
    /// Daily opportunity reading.
    Peluang,
    /// AI chat consultation.
    AiChat,
    /// Compatibility reading.
    Compatibility,
}

/// The price of every service in both currencies, and who may change them.
#[derive(Clone, Copy, Debug, PartialEq, Eq)]
pub struct PricingConfig {
    pub authority: Address,
    pub potensi_sol_price: u64,
    pub peluang_sol_price: u64,
    pub ai_chat_sol_price: u64,
    pub compatibility_sol_price: u64,
    pub potensi_neptu_price: u64,
    pub peluang_neptu_price: u64,
    pub ai_chat_neptu_price: u64,
    pub compatibility_neptu_price: u64,
}

/// A price after an update: the new value where one is given, else the
/// current one.
pub open spec fn replaced(current: u64, update: Option<u64>) -> u64 {
    match update {
        Some(v) => v,
        None => current,
    }
}

impl PricingConfig {
    /// The table that initialisation creates for `authority`.
    pub open spec fn initial(authority: Address) -> PricingConfig {
        PricingConfig {
            authority,
            potensi_sol_price: defaults::POTENSI_SOL,
            peluang_sol_price: defaults::PELUANG_SOL,
            ai_chat_sol_price: defaults::AI_CHAT_SOL,
            compatibility_sol_price: defaults::COMPATIBILITY_SOL,
            potensi_neptu_price: defaults::POTENSI_NEPTU,
            peluang_neptu_price: defaults::PELUANG_NEPTU,
            ai_chat_neptu_price: defaults::AI_CHAT_NEPTU,
            compatibility_neptu_price: defaults::COMPATIBILITY_NEPTU,
        }
    }

    /// The price of a service in lamports.
    pub open spec fn sol_price(self, reading_type: ReadingType) -> u64 {
        match reading_type {
            ReadingType::Potensi => self.potensi_sol_price,
            ReadingType::Peluang => self.peluang_sol_price,
            ReadingType::AiChat => self.ai_chat_sol_price,
            ReadingType::Compatibility => self.compatibility_sol_price,
        }
    }

    /// The price of a service in token units. The same amount is the reward
    /// for paying that service in SOL.
    pub open spec fn neptu_price(self, reading_type: ReadingType) -> u64 {
        match reading_type {
            ReadingType::Potensi => self.potensi_neptu_price,
            ReadingType::Peluang => self.peluang_neptu_price,
            ReadingType::AiChat => self.ai_chat_neptu_price,
            ReadingType::Compatibility => self.compatibility_neptu_price,
        }
    }

    /// This table with the given prices put in place of the current ones. The
    /// administrator stays.
    pub open spec fn updated(
        self,
        potensi_sol: Option<u64>,
        peluang_sol: Option<u64>,
        ai_chat_sol: Option<u64>,
        compatibility_sol: Option<u64>,
        potensi_neptu: Option<u64>,
        peluang_neptu: Option<u64>,
        ai_chat_neptu: Option<u64>,
        compatibility_neptu: Option<u64>,
    ) -> PricingConfig {
        PricingConfig {
            authority: self.authority,
            potensi_sol_price: replaced(self.potensi_sol_price, potensi_sol),
            peluang_sol_price: replaced(self.peluang_sol_price, peluang_sol),
            ai_chat_sol_price: replaced(self.ai_chat_sol_price, ai_chat_sol),
            compatibility_sol_price: replaced(self.compatibility_sol_price, compatibility_sol),
            potensi_neptu_price: replaced(self.potensi_neptu_price, potensi_neptu),
            peluang_neptu_price: replaced(self.peluang_neptu_price, peluang_neptu),
            ai_chat_neptu_price: replaced(self.ai_chat_neptu_price, ai_chat_neptu),
            compatibility_neptu_price: replaced(
                self.compatibility_neptu_price,
                compatibility_neptu,
            ),
        }
    }

    /// Looks up the price of a service in lamports.
    pub fn get_sol_price(&self, reading_type: &ReadingType) -> (price: u64)
        ensures
            price == self.sol_price(*reading_type),
    {
        match reading_type {
            ReadingType::Potensi => self.potensi_sol_price,
            ReadingType::Peluang => self.peluang_sol_price,
            ReadingType::AiChat => self.ai_chat_sol_price,
            ReadingType::Compatibility => self.compatibility_sol_price,
        }
    }

    /// Looks up the price of a service in token units.
    pub fn get_neptu_price(&self, reading_type: &ReadingType) -> (price: u64)
        ensures
            price == self.neptu_price(*reading_type),
    {
        match reading_type {
            ReadingType::Potensi => self.potensi_neptu_price,
            ReadingType::Peluang => self.peluang_neptu_price,
            ReadingType::AiChat => self.ai_chat_neptu_price,
            ReadingType::Compatibility => self.compatibility_neptu_price,
        }
    }
}

/// What creating the price table works on.
#[derive(Clone, Copy, Debug, PartialEq, Eq)]
pub struct InitializePricing {
    /// Who asks, and becomes the administrator.
    pub authority: Address,
    /// The place of the table: `None` until it is created.
    pub pricing_config: Option<PricingConfig>,
}

/// What a price update works on.
#[derive(Clone, Copy, Debug, PartialEq, Eq)]
pub struct UpdatePricing {
    /// Who asks.
    pub authority: Address,
    /// The table to amend.
    pub pricing_config: PricingConfig,
}

/// Creates the price table with the default prices and the caller as its
/// administrator. A table that exists is left as it is.
pub fn initialize_pricing(ctx: &mut InitializePricing) -> (r: Result<(), AlreadyInitialized>)
    ensures
        final(ctx).authority == old(ctx).authority,
        old(ctx).pricing_config is None ==> r is Ok && final(ctx).pricing_config == Some(
            PricingConfig::initial(old(ctx).authority),
        ),
        old(ctx).pricing_config is Some ==> r is Err && *final(ctx) == *old(ctx),
{
    if ctx.pricing_config.is_some() {
        return Err(AlreadyInitialized);
    }
    ctx.pricing_config = Some(
        PricingConfig {
            authority: ctx.authority,
            potensi_sol_price: defaults::POTENSI_SOL,
            peluang_sol_price: defaults::PELUANG_SOL,
            ai_chat_sol_price: defaults::AI_CHAT_SOL,
            compatibility_sol_price: defaults::COMPATIBILITY_SOL,
            potensi_neptu_price: defaults::POTENSI_NEPTU,
            peluang_neptu_price: defaults::PELUANG_NEPTU,
            ai_chat_neptu_price: defaults::AI_CHAT_NEPTU,
            compatibility_neptu_price: defaults::COMPATIBILITY_NEPTU,
        },
    );
    Ok(())
}

/// Replaces the prices that are given and keeps the others. Only the
/// administrator of the table may do so: for anyone else the table stays as it
/// is.
pub fn update_pricing(
    ctx: &mut UpdatePricing,
    potensi_sol: Option<u64>,
    peluang_sol: Option<u64>,
    ai_chat_sol: Option<u64>,
    compatibility_sol: Option<u64>,
    potensi_neptu: Option<u64>,
    peluang_neptu: Option<u64>,
    ai_chat_neptu: Option<u64>,
    compatibility_neptu: Option<u64>,
) -> (r: Result<(), NeptuError>)
    ensures
        final(ctx).authority == old(ctx).authority,
        old(ctx).authority == old(ctx).pricing_config.authority ==> r is Ok
            && final(ctx).pricing_config == old(ctx).pricing_config.updated(
            potensi_sol,
            peluang_sol,
            ai_chat_sol,
            compatibility_sol,
            potensi_neptu,
            peluang_neptu,
            ai_chat_neptu,
            compatibility_neptu,
        ),
        old(ctx).authority != old(ctx).pricing_config.authority ==> r == Err::<(), NeptuError>(
            NeptuError::Unauthorized,
        ) && *final(ctx) == *old(ctx),
{
    if ctx.authority != ctx.pricing_config.authority {
        return Err(NeptuError::Unauthorized);
    }
    if let Some(v) = potensi_sol {
        ctx.pricing_config.potensi_sol_price = v;
    }
    if let Some(v) = peluang_sol {
        ctx.pricing_config.peluang_sol_price = v;
    }
    if let Some(v) = ai_chat_sol {
        ctx.pricing_config.ai_chat_sol_price = v;
    }
    if let Some(v) = compatibility_sol {
        ctx.pricing_config.compatibility_sol_price = v;
    }
    if let Some(v) = potensi_neptu {
        ctx.pricing_config.potensi_neptu_price = v;
    }
    if let Some(v) = peluang_neptu {
        ctx.pricing_config.peluang_neptu_price = v;
    }
    if let Some(v) = ai_chat_neptu {
        ctx.pricing_config.ai_chat_neptu_price = v;
    }
    if let Some(v) = compatibility_neptu {
        ctx.pricing_config.compatibility_neptu_price = v;
    }
    Ok(())
}

} // verus!
