//! Withdrawing an NFT from sale.
use vstd::prelude::*;

use crate::action::{Action, ListingSigner};
use crate::constraints::{
    associated_token_program, ata_existing, ata_if_needed, check_associated_token_program, check_ata_existing,
    check_ata_if_needed, check_close_to, check_has_one, check_mint_loaded, check_mint_of_program, check_pda_at,
    check_pda_found, check_signer, check_token_account_loaded, check_token_interface, close_to, guard, has_one,
    mint_loaded, mint_of_program, pda_found, pda_with_bump, signer, token_account_loaded, token_interface,
};
use crate::error::AccountsError;
use crate::pubkey::Pubkey;
use crate::state::{
    build_listing_seeds, build_marketplace_seeds, listing_seeds, marketplace_seeds, Account, ListingAccount,
    MarketplaceAccount, Mint, TokenAccount,
};

verus! {

/// The accounts of the instruction that withdraws an NFT from sale.
#[derive(Clone, Copy, Debug)]
pub struct Delist {
    /// This program's id.
    pub program_id: Pubkey,
    /// The seller, who must sign.
    pub seller: Pubkey,
    /// Whether the seller signed the instruction.
    pub seller_signed: bool,
    /// The seller's token account for the NFT, created where it is missing.
    pub seller_ata: TokenAccount,
    pub mint: Mint,
    /// The listing, closed at the end of the instruction.
    pub listing: Account<ListingAccount>,
    /// The listing's token account, which holds the NFT.
    pub listing_ata: TokenAccount,
    pub marketplace_account: Account<MarketplaceAccount>,
    pub token_program: Pubkey,
    pub associated_token_program: Pubkey,
}

/// The bump seeds found while checking `Delist`.
#[derive(Clone, Copy, Debug, PartialEq, Eq, Structural)]
pub struct DelistBumps {
    pub listing: u8,
}

impl Delist {
    /// What loading the accounts gives, account by account in order: the
    /// seller signed; the mint and the listing's token account exist under a
    /// token program; the token program is one of the two; the associated
    /// token program is that program.
    pub open spec fn loading(&self) -> Result<(), AccountsError> {
        guard(
            signer(self.seller_signed),
            guard(
                mint_loaded(self.mint),
                guard(
                    token_account_loaded(self.listing_ata),
                    guard(token_interface(self.token_program@), associated_token_program(self.associated_token_program@)),
                ),
            ),
        )
    }

    /// What checking the accounts gives: loading them, then check by check in
    /// order: the seller's token account, associated (created where
    /// missing); the mint, of the token program; the listing, at the canonical
    /// address of `["listing", marketplace, seller, mint]`, recording that
    /// mint and that seller, and not the seller itself; the listing's token
    /// account, the listing's associated one; the marketplace account, at the
    /// address of `"marketplace"` and its recorded bump.
    pub open spec fn accounts_check(&self) -> Result<DelistBumps, AccountsError> {
        guard(
            self.loading(),
            guard(
                ata_if_needed(self.seller_ata, self.seller@, self.mint.key@, self.token_program@),
                guard(
                    mint_of_program(self.mint, self.token_program@),
                    match self.listing_check() {
                        Err(e) => Err(e),
                        Ok(listing_bump) => guard(
                            ata_existing(self.listing_ata, self.listing.key@, self.mint.key@, self.token_program@),
                            guard(self.marketplace_check(), Ok(DelistBumps { listing: listing_bump })),
                        ),
                    },
                ),
            ),
        )
    }

    /// The checks of the listing, in order: at the canonical address of
    /// `["listing", marketplace, seller, mint]`, recording that mint and that
    /// seller, and not the seller itself. Gives the canonical bump.
    pub open spec fn listing_check(&self) -> Result<u8, AccountsError> {
        match pda_found(
            self.listing.key@,
            listing_seeds(self.marketplace_account.key@, self.seller@, self.mint.key@),
            self.program_id@,
        ) {
            Err(e) => Err(e),
            Ok(b) => guard(
                has_one(self.listing.data.mint@, self.mint.key@),
                guard(has_one(self.listing.data.seller@, self.seller@), guard(close_to(self.listing.key@, self.seller@), Ok(b))),
            ),
        }
    }

    /// The check of the marketplace account: at the address of
    /// `"marketplace"` and its recorded bump.
    pub open spec fn marketplace_check(&self) -> Result<(), AccountsError> {
        pda_with_bump(self.marketplace_account.key@, marketplace_seeds(), self.marketplace_account.data.marketplace_bump, self.program_id@)
    }

    /// Checks the accounts.
    pub fn try_accounts(&self) -> (r: Result<DelistBumps, AccountsError>)
        ensures
            r == self.accounts_check(),
    {
        check_signer(self.seller_signed)?;
        check_mint_loaded(&self.mint)?;
        check_token_account_loaded(&self.listing_ata)?;
        check_token_interface(&self.token_program)?;
        check_associated_token_program(&self.associated_token_program)?;
        check_ata_if_needed(&self.seller_ata, &self.seller, &self.mint.key, &self.token_program)?;
        check_mint_of_program(&self.mint, &self.token_program)?;
        let seeds = build_listing_seeds(&self.marketplace_account.key, &self.seller, &self.mint.key, None);
        let listing_bump = check_pda_found(&self.listing.key, &seeds, &self.program_id)?;
        check_has_one(&self.listing.data.mint, &self.mint.key)?;
        check_has_one(&self.listing.data.seller, &self.seller)?;
        check_close_to(&self.listing.key, &self.seller)?;
        check_ata_existing(&self.listing_ata, &self.listing.key, &self.mint.key, &self.token_program)?;
        let mseeds = build_marketplace_seeds(Some(self.marketplace_account.data.marketplace_bump));
        check_pda_at(&self.marketplace_account.key, &mseeds, &self.program_id)?;
        Ok(DelistBumps { listing: listing_bump })
    }

    /// The listing signing with its recorded bump.
    pub open spec fn listing_signer(&self) -> ListingSigner {
        ListingSigner {
            marketplace: self.marketplace_account.key,
            seller: self.seller,
            mint: self.mint.key,
            bump: self.listing.data.listing_bump,
        }
    }

    /// The calls of `return_nft`, in order.
    pub open spec fn nft_return(&self) -> Seq<Action> {
        seq![
            Action::TransferChecked {
                from: self.listing_ata.key,
                mint: self.mint.key,
                to: self.seller_ata.key,
                authority: self.listing.key,
                amount: 1,
                decimals: self.mint.decimals,
                signer: Some(self.listing_signer()),
            },
            Action::CloseTokenAccount {
                account: self.listing_ata.key,
                destination: self.seller,
                authority: self.listing.key,
                signer: Some(self.listing_signer()),
            },
        ]
    }

    /// Moves the NFT from the listing's token account back to the seller's,
    /// then closes the listing's token account with its lamports to the
    /// seller; the listing signs both with its recorded bump.
    pub fn return_nft(&self) -> (r: Vec<Action>)
        ensures
            r@ == self.nft_return(),
    {
        let signer = ListingSigner {
            marketplace: self.marketplace_account.key,
            seller: self.seller,
            mint: self.mint.key,
            bump: self.listing.data.listing_bump,
        };
        let mut r: Vec<Action> = Vec::new();
        r.push(
            Action::TransferChecked {
                from: self.listing_ata.key,
                mint: self.mint.key,
                to: self.seller_ata.key,
                authority: self.listing.key,
                amount: 1,
                decimals: self.mint.decimals,
                signer: Some(signer),
            },
        );
        r.push(
            Action::CloseTokenAccount {
                account: self.listing_ata.key,
                destination: self.seller,
                authority: self.listing.key,
                signer: Some(signer),
            },
        );
        assert(r@ =~= self.nft_return());
        r
    }
}

} // verus!
