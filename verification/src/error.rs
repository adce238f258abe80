//! The ways in which an operation on the pool can fail.

use vstd::prelude::*;

verus! {

/// Why an operation was rejected. Every failure is final for the call that
/// returns it: the state handed in is left as it was.
#[derive(Clone, Copy, Debug, PartialEq, Eq, Structural)]
pub enum LidoError {
    /// The required signer is missing or is not the pool's manager.
    Unauthorized,
    /// The entry at the given position does not have the expected identity,
    /// or the position is past the end of the registry.
    StaleIndex,
    /// The registry already holds as many entries as it was created for.
    RegistryFull,
    /// The validator is still active, still has stake accounts, or still
    /// holds a balance.
    ValidatorNotRemovable,
    /// The vote account is not owned by the vote program, its data holds no
    /// commission, or its commission exceeds the limit.
    InvalidVoteAccount,
    /// The account holds less than the rent-exempt minimum.
    NotRentExempt,
    /// The validator has fewer than two stake accounts, or a supplied stake
    /// account is not the one derived for its seed.
    InvalidStakeAccount,
    /// A fee recipient is not a token account of the pool's mint.
    InvalidFeeRecipient,
    /// The commission limit is above 100 percent.
    ValidationCommissionOutOfBounds,
    /// The account named is not one the operation can work on: no entry has
    /// its identity where one is looked for, or an entry has it already
    /// where one is to be added.
    InvalidAccountInfo,
}

} // verus!
