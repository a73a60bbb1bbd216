use crate::address::Address;
use crate::authority::{Domain, ProgramAuthority};
use crate::error::NeptuError;
use vstd::prelude::*;

verus! {

/// Who authorises a movement of value.
#[derive(Clone, Copy, Debug, PartialEq, Eq)]
pub enum Signer {
    /// A wallet, which signs with its own key.
    Wallet(Address),
    /// An identity of the program, for which the program itself signs.
    Program(ProgramAuthority),
}

/// How a token is shown to its holders.
#[derive(Clone, Copy, Debug, PartialEq, Eq)]
pub struct TokenMetadata {
    pub name: &'static str,
    pub symbol: &'static str,
    pub uri: &'static str,
    /// The fee owed to the creators on a resale, in basis points.
    pub seller_fee_basis_points: u16,
    /// Whether the description may be changed later.
    pub is_mutable: bool,
}

/// One request to the ledger. The library decides which requests an operation
/// makes and in what order; carrying them out is the caller's part.
#[derive(Clone, Copy, Debug, PartialEq, Eq)]
pub enum Instruction {
    /// Move `lamports` of SOL from the wallet `from`, which signs, to `to`.
    TransferSol { from: Address, to: Address, lamports: u64 },
    /// Make sure that `account`, the token balance of `owner` for `mint`,
    /// exists, at the expense of `payer`. Nothing happens where it exists.
    CreateTokenAccount { payer: Address, account: Address, owner: Address, mint: Address },
    /// Move `amount` token units from the balance `from` to the balance `to`.
    TransferTokens { from: Address, to: Address, authority: Signer, amount: u64 },
    /// Destroy `amount` token units of the balance `from`.
    Burn { mint: Address, from: Address, authority: Signer, amount: u64 },
    /// Issue `amount` new token units to the balance `to`.
    MintTo { mint: Address, to: Address, authority: Signer, amount: u64 },
    /// Hand the right to issue tokens of `mint` over to `new_authority`.
    SetMintAuthority { mint: Address, current_authority: Signer, new_authority: Address },
    /// Create the token `mint` with `decimals` decimal places, at the expense
    /// of `payer`; `mint_authority` may issue its units and freeze balances.
    CreateMint { payer: Address, mint: Address, decimals: u8, mint_authority: Address },
    /// Register how the token is shown, in the account `metadata`.
    CreateMetadata {
        metadata: Address,
        mint: Address,
        payer: Address,
        authority: Signer,
        data: TokenMetadata,
    },
}

/// Whether `authority` is the identity of `program_id` for `domain`, and is
/// the account `claimed` that the caller presented as such.
pub open spec fn authorizes(
    authority: Option<ProgramAuthority>,
    domain: Domain,
    program_id: Address,
    claimed: Address,
) -> bool {
    match authority {
        Some(a) => a.domain() == domain && a.program_id() == program_id && a.address() == claimed,
        None => false,
    }
}

/// Decides [`authorizes`], and hands the identity on where it holds.
pub fn authorize(
    authority: Option<ProgramAuthority>,
    domain: Domain,
    program_id: &Address,
    claimed: &Address,
) -> (r: Result<ProgramAuthority, NeptuError>)
    ensures
        authorizes(authority, domain, *program_id, *claimed) ==> r == Ok::<
            ProgramAuthority,
            NeptuError,
        >(authority.unwrap()),
        !authorizes(authority, domain, *program_id, *claimed) ==> r == Err::<
            ProgramAuthority,
            NeptuError,
        >(NeptuError::Unauthorized),
        r is Ok ==> authority == ProgramAuthority::derived(domain, *program_id),
{
    match authority {
        Some(a) => {
            if a.get_domain() == domain && a.get_program_id() == *program_id && a.get_address()
                == *claimed {
                Ok(a)
            } else {
                Err(NeptuError::Unauthorized)
            }
        },
        None => Err(NeptuError::Unauthorized),
    }
}

/// A plan as a sequence, or the reason why there is none.
pub open spec fn plan_view(r: Result<Vec<Instruction>, NeptuError>) -> Result<
    Seq<Instruction>,
    NeptuError,
> {
    match r {
        Ok(plan) => Ok(plan@),
        Err(e) => Err(e),
    }
}

} // verus!
