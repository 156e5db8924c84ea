//! Why an instruction is refused.
use vstd::prelude::*;

verus! {

/// The marketplace's own refusals.
#[derive(Clone, Copy, Debug, PartialEq, Eq, Structural)]
pub enum MarketplaceError {
    /// A listing's price is zero.
    InvalidPrice,
    /// The seller holds none of the token to be listed.
    NoToken,
}

impl MarketplaceError {
    /// The message that comes with the error.
    pub fn message(&self) -> (r: &'static str)
        ensures
            *self == MarketplaceError::InvalidPrice ==> r@ == "The price must be greater than 0"@,
            *self == MarketplaceError::NoToken ==> r@ == "You must have at least one token."@,
    {
        match self {
            MarketplaceError::InvalidPrice => "The price must be greater than 0",
            MarketplaceError::NoToken => "You must have at least one token.",
        }
    }
}

/// A violated requirement on the accounts that an instruction is given.
#[derive(Clone, Copy, Debug, PartialEq, Eq, Structural)]
pub enum AccountsError {
    /// An account that must sign did not.
    AccountNotSigner,
    /// A token account or mint that must exist holds no data yet.
    AccountNotInitialized,
    /// A token account or mint is owned by neither token program.
    AccountOwnedByWrongProgram,
    /// A program account is not the program that it must be.
    InvalidProgramId,
    /// An account's address is not the one derived from its seeds.
    ConstraintSeeds,
    /// A listing names another seller or mint than the one given.
    ConstraintHasOne,
    /// A stated condition on an account does not hold.
    ConstraintRaw,
    /// An account that is closed would send its lamports to itself.
    ConstraintClose,
    /// An existing token account holds another mint.
    ConstraintTokenMint,
    /// A token account belongs to another wallet.
    ConstraintTokenOwner,
    /// A token account is not the associated token account of its wallet.
    ConstraintAssociated,
    /// A mint is owned by another program than the token program given.
    ConstraintMintTokenProgram,
    /// A token account is owned by another program than the token program given.
    ConstraintAssociatedTokenTokenProgram,
    /// An existing account that is to be used as an associated token account
    /// is not at the associated token address.
    AccountNotAssociatedTokenAccount,
    /// The associated token program refuses to create an account at an
    /// address other than the associated token address.
    InvalidSeeds,
    /// The system program refuses to create an account that already exists.
    AccountAlreadyInUse,
    /// No bump seed in `1..=255` derives an address from the seeds. The
    /// canonical-address search (`Pubkey::find_program_address`) panics on
    /// such seeds; the checks report it instead, and the program panics on it.
    NoViableBump,
}

/// Why an instruction is refused: its accounts, or the marketplace's rules.
#[derive(Clone, Copy, Debug, PartialEq, Eq, Structural)]
pub enum InstructionError {
    Accounts(AccountsError),
    Marketplace(MarketplaceError),
}

} // verus!
