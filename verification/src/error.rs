use vstd::prelude::*;

verus! {

/// Why an operation of the economy was rejected.
#[derive(Clone, Copy, Debug, PartialEq, Eq, Structural)]
pub enum NeptuError {
    /// A claim asked for no tokens at all.
    InvalidAmount,
    /// A claim came with a nonce at or below the one last accepted.
    NonceAlreadyUsed,
    /// A running total would not fit in sixty-four bits.
    Overflow,
    /// The ledger found the paying balance too small.
    InsufficientBalance,
    /// The caller is not the administrator, the account presented as the
    /// program's signing identity is not it, or a claim record is kept for
    /// someone else.
    Unauthorized,
}

impl NeptuError {
    /// The message shown to a user for this rejection.
    pub fn message(&self) -> (r: &'static str)
        ensures
            r@ == self.message_text(),
    {
        match self {
            NeptuError::InvalidAmount => "Invalid amount",
            NeptuError::NonceAlreadyUsed => "Nonce already used",
            NeptuError::Overflow => "Arithmetic overflow",
            NeptuError::InsufficientBalance => "Insufficient balance",
            NeptuError::Unauthorized => "Unauthorized",
        }
    }

    /// The text of [`NeptuError::message`].
    pub open spec fn message_text(&self) -> Seq<char> {
        match self {
            NeptuError::InvalidAmount => "Invalid amount"@,
            NeptuError::NonceAlreadyUsed => "Nonce already used"@,
            NeptuError::Overflow => "Arithmetic overflow"@,
            NeptuError::InsufficientBalance => "Insufficient balance"@,
            NeptuError::Unauthorized => "Unauthorized"@,
        }
    }
}

/// The record that an initialisation was asked to create exists already.
#[derive(Clone, Copy, Debug, PartialEq, Eq, Structural)]
pub struct AlreadyInitialized;

} // verus!
