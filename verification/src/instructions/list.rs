//! Offering an NFT for sale.
use vstd::prelude::*;

use crate::action::Action;
use crate::constraints::{
    associated_token_program, ata_created, ata_existing, check_associated_token_program, check_ata_created,
    check_ata_existing, check_mint_loaded, check_mint_of_program, check_pda_at, check_pda_found, check_signer,
    check_token_account_loaded, check_token_interface, guard, mint_loaded, mint_of_program, pda_found, pda_with_bump,
    raw, signer, token_account_loaded, token_interface,
};
use crate::error::{AccountsError, MarketplaceError};
use crate::programs::{metadata_program_id, metadata_program_key};
use crate::pubkey::{same_key, Pubkey};
use crate::state::{
    build_listing_seeds, build_marketplace_seeds, build_metadata_seeds, listing_seeds, marketplace_seeds,
    master_edition_seeds, metadata_seeds, Account, ListingAccount, MarketplaceAccount, Metadata, Mint, TokenAccount,
};

verus! {

/// The accounts of the instruction that offers an NFT for sale.
#[derive(Clone, Copy, Debug)]
pub struct List {
    /// This program's id.
    pub program_id: Pubkey,
    /// The seller, who signs and pays for the new accounts.
    pub seller: Pubkey,
    /// Whether the seller signed the instruction.
    pub seller_signed: bool,
    /// The seller's token account that holds the NFT.
    pub seller_ata: TokenAccount,
    /// The NFT's mint.
    pub mint: Mint,
    /// The listing account, which the instruction creates.
    pub listing: Account<ListingAccount>,
    /// The listing's token account, which the instruction creates.
    pub listing_ata: TokenAccount,
    pub marketplace_account: Account<MarketplaceAccount>,
    /// The mint of the collection that the NFT must verifiably belong to.
    pub collection_mint: Mint,
    /// The NFT's metadata account.
    pub metadata: Metadata,
    /// The NFT's master edition account.
    pub master_edition: Pubkey,
    pub token_program: Pubkey,
    pub associated_token_program: Pubkey,
    /// The cluster's clock, in seconds since the Unix epoch.
    pub unix_timestamp: i64,
}

/// The bump seeds found while checking `List`.
#[derive(Clone, Copy, Debug, PartialEq, Eq, Structural)]
pub struct ListBumps {
    pub listing: u8,
    pub metadata: u8,
    pub master_edition: u8,
}

/// Whether the metadata names `collection_mint` as its collection, verified.
pub open spec fn in_verified_collection(metadata: Metadata, collection_mint: Seq<u8>) -> bool {
    &&& metadata.collection is Some
    &&& metadata.collection->0.verified
    &&& metadata.collection->0.key@ == collection_mint
}

impl List {
    /// What loading the accounts gives, account by account in order: the
    /// seller signed; the seller's token account, the mint and the collection
    /// mint exist under a token program; the token program is one of the two;
    /// the associated token program is that program.
    pub open spec fn loading(&self) -> Result<(), AccountsError> {
        guard(
            signer(self.seller_signed),
            guard(
                token_account_loaded(self.seller_ata),
                guard(
                    mint_loaded(self.mint),
                    guard(
                        mint_loaded(self.collection_mint),
                        guard(token_interface(self.token_program@), associated_token_program(self.associated_token_program@)),
                    ),
                ),
            ),
        )
    }

    /// What checking the accounts gives: loading them, then check by check in
    /// order: the listing at the canonical address of `["listing",
    /// marketplace, seller, mint]`; the listing's token account created at its
    /// associated address; the seller's token account, the seller's
    /// associated one; the mint, of the token program; the marketplace
    /// account, at the address of `"marketplace"` and its recorded bump; the
    /// metadata, at the canonical address of `["metadata", metadata program,
    /// mint]` for the metadata program and naming the collection mint,
    /// verified; the master edition, at the canonical address of those seeds
    /// and `"edition"`.
    pub open spec fn accounts_check(&self) -> Result<ListBumps, AccountsError> {
        guard(self.loading(), match pda_found(
            self.listing.key@,
            listing_seeds(self.marketplace_account.key@, self.seller@, self.mint.key@),
            self.program_id@,
        ) {
            Err(e) => Err(e),
            Ok(listing_bump) => guard(
                ata_created(self.listing_ata, self.listing.key@, self.mint.key@, self.token_program@),
                guard(
                    ata_existing(self.seller_ata, self.seller@, self.mint.key@, self.token_program@),
                    guard(
                        mint_of_program(self.mint, self.token_program@),
                        guard(
                            pda_with_bump(
                                self.marketplace_account.key@,
                                marketplace_seeds(),
                                self.marketplace_account.data.marketplace_bump,
                                self.program_id@,
                            ),
                            match pda_found(self.metadata.key@, metadata_seeds(metadata_program_key(), self.mint.key@), metadata_program_key()) {
                                Err(e) => Err(e),
                                Ok(metadata_bump) => guard(
                                    raw(in_verified_collection(self.metadata, self.collection_mint.key@)),
                                    match pda_found(
                                        self.master_edition@,
                                        master_edition_seeds(metadata_program_key(), self.mint.key@),
                                        metadata_program_key(),
                                    ) {
                                        Err(e) => Err(e),
                                        Ok(edition_bump) => Ok(ListBumps { listing: listing_bump, metadata: metadata_bump, master_edition: edition_bump }),
                                    },
                                ),
                            },
                        ),
                    ),
                ),
            ),
        })
    }

    /// Checks the accounts.
    pub fn try_accounts(&self) -> (r: Result<ListBumps, AccountsError>)
        ensures
            r == self.accounts_check(),
    {
        check_signer(self.seller_signed)?;
        check_token_account_loaded(&self.seller_ata)?;
        check_mint_loaded(&self.mint)?;
        check_mint_loaded(&self.collection_mint)?;
        check_token_interface(&self.token_program)?;
        check_associated_token_program(&self.associated_token_program)?;
        let seeds = build_listing_seeds(&self.marketplace_account.key, &self.seller, &self.mint.key, None);
        let listing_bump = check_pda_found(&self.listing.key, &seeds, &self.program_id)?;
        check_ata_created(&self.listing_ata, &self.listing.key, &self.mint.key, &self.token_program)?;
        check_ata_existing(&self.seller_ata, &self.seller, &self.mint.key, &self.token_program)?;
        check_mint_of_program(&self.mint, &self.token_program)?;
        let mseeds = build_marketplace_seeds(Some(self.marketplace_account.data.marketplace_bump));
        check_pda_at(&self.marketplace_account.key, &mseeds, &self.program_id)?;
        let metadata_program = metadata_program_id();
        let meta_seeds = build_metadata_seeds(&metadata_program, &self.mint.key, false);
        let metadata_bump = check_pda_found(&self.metadata.key, &meta_seeds, &metadata_program)?;
        let collected = match &self.metadata.collection {
            Some(c) => c.verified && same_key(&c.key, &self.collection_mint.key),
            None => false,
        };
        if !collected {
            return Err(AccountsError::ConstraintRaw);
        }
        let edition_seeds = build_metadata_seeds(&metadata_program, &self.mint.key, true);
        let edition_bump = check_pda_found(&self.master_edition, &edition_seeds, &metadata_program)?;
        Ok(ListBumps { listing: listing_bump, metadata: metadata_bump, master_edition: edition_bump })
    }

    /// The listing that `initialize_listing` records at `price`.
    pub open spec fn new_listing(&self, price: u64, bumps: ListBumps) -> ListingAccount {
        ListingAccount {
            seller: self.seller,
            mint: self.mint.key,
            price,
            created_at: self.unix_timestamp,
            listing_bump: bumps.listing,
        }
    }

    /// Records the listing: refuses a price of zero, then a seller who holds
    /// none of the token; otherwise records the seller, the mint, the price,
    /// the time and the listing's bump.
    pub fn initialize_listing(&mut self, price: u64, bumps: &ListBumps) -> (r: Result<(), MarketplaceError>)
        ensures
            price == 0 ==> r == Err::<(), MarketplaceError>(MarketplaceError::InvalidPrice),
            price > 0 && old(self).seller_ata.amount == 0 ==> r == Err::<(), MarketplaceError>(MarketplaceError::NoToken),
            price > 0 && old(self).seller_ata.amount > 0 ==> r is Ok,
            r is Ok ==> *final(self) == (List {
                listing: Account { key: old(self).listing.key, data: old(self).new_listing(price, *bumps) },
                ..*old(self)
            }),
            r is Err ==> *final(self) == *old(self),
    {
        if price == 0 {
            return Err(MarketplaceError::InvalidPrice);
        }
        if self.seller_ata.amount == 0 {
            return Err(MarketplaceError::NoToken);
        }
        self.listing.data = ListingAccount {
            seller: self.seller,
            mint: self.mint.key,
            price: price,
            created_at: self.unix_timestamp,
            listing_bump: bumps.listing,
        };
        Ok(())
    }

    /// The transfer of the NFT into the listing's token account.
    pub open spec fn nft_deposit(&self) -> Action {
        Action::TransferChecked {
            from: self.seller_ata.key,
            mint: self.mint.key,
            to: self.listing_ata.key,
            authority: self.seller,
            amount: 1,
            decimals: self.mint.decimals,
            signer: None,
        }
    }

    /// Moves one token of the NFT from the seller's token account to the
    /// listing's, on the seller's authority.
    pub fn transfer_nft(&self) -> (r: Action)
        ensures
            r == self.nft_deposit(),
    {
        Action::TransferChecked {
            from: self.seller_ata.key,
            mint: self.mint.key,
            to: self.listing_ata.key,
            authority: self.seller,
            amount: 1,
            decimals: self.mint.decimals,
            signer: None,
        }
    }
}

} // verus!
