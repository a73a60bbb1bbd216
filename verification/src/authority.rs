use crate::address::Address;
use anchor_lang::prelude::Pubkey;
use vstd::prelude::*;

verus! {

/// The purpose for which the program derives a signing identity. Each purpose
/// has a fixed label, so that identities derived for different purposes never
/// coincide by construction of their inputs.
#[derive(Clone, Copy, Debug, PartialEq, Eq, Structural)]
pub enum Domain {
    /// Owner of the rewards pool.
    Economy,
    /// The token mint, which is its own minting authority.
    Mint,
}

impl Domain {
    /// The label of this purpose: the ASCII bytes of `economy` or of `mint`.
    pub open spec fn label(self) -> Seq<u8> {
        match self {
            Domain::Economy => seq![101u8, 99u8, 111u8, 110u8, 111u8, 109u8, 121u8],
            Domain::Mint => seq![109u8, 105u8, 110u8, 116u8],
        }
    }

    /// The label as bytes, to be used as the first signer seed.
    pub fn seed(&self) -> (r: Vec<u8>)
        ensures
            r@ == self.label(),
    {
        let r = match self {
            Domain::Economy => vec![101u8, 99u8, 111u8, 110u8, 111u8, 109u8, 121u8],
            Domain::Mint => vec![109u8, 105u8, 110u8, 116u8],
        };
        assert(r@ =~= self.label());
        r
    }
}

/// The address and bump seed that the program-address derivation yields for
/// one seed and a program, or `None` where it yields none: it finds no bump
/// seed, or the seed is longer than it accepts.
pub uninterp spec fn program_address(seed: Seq<u8>, program_id: Seq<u8>) -> Option<(Seq<u8>, u8)>;

/// What a derivation returned, by the bytes of the address.
pub open spec fn address_and_bump(found: Option<(Address, u8)>) -> Option<(Seq<u8>, u8)> {
    match found {
        Some((address, bump)) => Some((address@, bump)),
        None => None,
    }
}

/// Calls `Pubkey::try_find_program_address` of `anchor_lang` with the one
/// seed given. The contract claims only that the outcome is a function of the
/// seed's bytes and the program's bytes, the same on every call; it says
/// nothing of which address comes out, nor that one does.
#[verifier::external_body]
fn find_program_address(seed: &Vec<u8>, program_id: &Address) -> (r: Option<(Address, u8)>)
    ensures
        address_and_bump(r) == program_address(seed@, program_id@),
{
    let program = Pubkey::new_from_array(program_id.bytes);
    match Pubkey::try_find_program_address(&[seed.as_slice()], &program) {
        Some((key, bump)) => Some((Address { bytes: key.to_bytes() }, bump)),
        None => None,
    }
}

/// A signing identity without a private key, which only the program can act
/// as. A value of this type is evidence that the derivation produced it: there
/// is no other way to make one.
#[derive(Clone, Copy, Debug, PartialEq, Eq)]
pub struct ProgramAuthority {
    program_id: Address,
    domain: Domain,
    address: Address,
    bump: u8,
}

impl ProgramAuthority {
    #[verifier::type_invariant]
    spec fn genuine(self) -> bool {
        program_address(self.domain.label(), self.program_id@) == Some((self.address@, self.bump))
    }

    /// The program on whose behalf this identity signs.
    pub closed spec fn program_id(self) -> Address {
        self.program_id
    }

    /// The purpose this identity was derived for.
    pub closed spec fn domain(self) -> Domain {
        self.domain
    }

    /// The address of this identity.
    pub closed spec fn address(self) -> Address {
        self.address
    }

    /// The bump seed that completes the signer seeds.
    pub closed spec fn bump(self) -> u8 {
        self.bump
    }

    /// The identity that derivation gives `program_id` for `domain`, if it
    /// gives one.
    pub closed spec fn derived(domain: Domain, program_id: Address) -> Option<ProgramAuthority> {
        match program_address(domain.label(), program_id@) {
            Some((bytes, bump)) => if bytes.len() == 32 {
                Some(
                    ProgramAuthority {
                        program_id,
                        domain,
                        address: Address::from_view(bytes),
                        bump,
                    },
                )
            } else {
                None
            },
            None => None,
        }
    }

    /// Derives the identity of `program_id` for `domain`.
    pub fn derive(domain: Domain, program_id: &Address) -> (r: Option<ProgramAuthority>)
        ensures
            r == ProgramAuthority::derived(domain, *program_id),
            r matches Some(a) ==> a.domain() == domain && a.program_id() == *program_id,
    {
        let seed = domain.seed();
        match find_program_address(&seed, program_id) {
            Some((address, bump)) => {
                proof {
                    assert(address@.len() == 32);
                    address.lemma_from_view();
                }
                Some(ProgramAuthority { program_id: *program_id, domain, address, bump })
            },
            None => None,
        }
    }

    /// The program on whose behalf this identity signs.
    pub fn get_program_id(&self) -> (r: Address)
        ensures
            r == self.program_id(),
    {
        self.program_id
    }

    /// The purpose this identity was derived for.
    pub fn get_domain(&self) -> (r: Domain)
        ensures
            r == self.domain(),
    {
        self.domain
    }

    /// The address of this identity. It is the one that derivation gives: no
    /// identity exists that was not derived.
    pub fn get_address(&self) -> (r: Address)
        ensures
            r == self.address(),
            ProgramAuthority::derived(self.domain(), self.program_id()) == Some(*self),
    {
        proof {
            use_type_invariant(self);
            self.address.lemma_from_view();
        }
        self.address
    }

    /// The bump seed that completes the signer seeds: the label of the
    /// purpose, then this one byte.
    pub fn get_bump(&self) -> (r: u8)
        ensures
            r == self.bump(),
            ProgramAuthority::derived(self.domain(), self.program_id()) == Some(*self),
    {
        proof {
            use_type_invariant(self);
            self.address.lemma_from_view();
        }
        self.bump
    }
}

} // verus!
