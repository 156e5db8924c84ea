//! Setting up the marketplace.
use vstd::prelude::*;

use crate::constraints::{check_pda_found, check_signer, guard, pda_found, signer};
use crate::error::{AccountsError, MarketplaceError};
use crate::pubkey::Pubkey;
use crate::state::{build_marketplace_seeds, marketplace_seeds, Account, MarketplaceAccount};

verus! {

/// The accounts of the instruction that sets up the marketplace.
#[derive(Clone, Copy, Debug)]
pub struct Initialize {
    /// This program's id.
    pub program_id: Pubkey,
    /// The account that sets up the marketplace and pays for it.
    pub authority: Pubkey,
    /// Whether the authority signed the instruction.
    pub authority_signed: bool,
    /// The marketplace account, which the instruction creates.
    pub marketplace_account: Account<MarketplaceAccount>,
}

/// The bump seeds found while checking `Initialize`.
#[derive(Clone, Copy, Debug, PartialEq, Eq, Structural)]
pub struct InitializeBumps {
    pub marketplace_account: u8,
}

impl Initialize {
    /// What checking the accounts gives: the authority must sign, and the
    /// marketplace account must stand at the canonical address of the seed
    /// `"marketplace"`.
    pub open spec fn accounts_check(&self) -> Result<InitializeBumps, AccountsError> {
        guard(
            signer(self.authority_signed),
            match pda_found(self.marketplace_account.key@, marketplace_seeds(), self.program_id@) {
                Err(e) => Err(e),
                Ok(b) => Ok(InitializeBumps { marketplace_account: b }),
            },
        )
    }

    /// Checks the accounts.
    pub fn try_accounts(&self) -> (r: Result<InitializeBumps, AccountsError>)
        ensures
            r == self.accounts_check(),
    {
        check_signer(self.authority_signed)?;
        let seeds = build_marketplace_seeds(None);
        let b = check_pda_found(&self.marketplace_account.key, &seeds, &self.program_id)?;
        Ok(InitializeBumps { marketplace_account: b })
    }

    /// The marketplace that `initialize_marketplace` records.
    pub open spec fn new_marketplace(&self, fee_basis_points: u16, treasury: Pubkey, bumps: InitializeBumps) -> MarketplaceAccount {
        MarketplaceAccount {
            authority: self.authority,
            fee_basis_points,
            marketplace_bump: bumps.marketplace_account,
            treasury,
        }
    }

    /// Records the marketplace: its authority, its fee, its bump and its
    /// treasury.
    pub fn initialize_marketplace(&mut self, fee_basis_points: u16, treasury: Pubkey, bumps: &InitializeBumps) -> (r: Result<(), MarketplaceError>)
        ensures
            r is Ok,
            *final(self) == (Initialize {
                marketplace_account: Account {
                    key: old(self).marketplace_account.key,
                    data: old(self).new_marketplace(fee_basis_points, treasury, *bumps),
                },
                ..*old(self)
            }),
    {
        self.marketplace_account.data = MarketplaceAccount {
            authority: self.authority,
            fee_basis_points: fee_basis_points,
            marketplace_bump: bumps.marketplace_account,
            treasury: treasury,
        };
        Ok(())
    }
}

} // verus!
