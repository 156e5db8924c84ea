//! Buying a listed NFT.
use vstd::prelude::*;

use crate::action::{Action, ListingSigner};
use crate::constraints::{
    associated_token_program, ata_existing, ata_if_needed, check_associated_token_program, check_ata_existing,
    check_ata_if_needed, check_close_to, check_mint_loaded, check_mint_of_program, check_pda_at, check_signer,
    check_token_account_loaded, check_token_interface, close_to, guard, mint_loaded, mint_of_program, pda_with_bump,
    raw, signer, token_account_loaded, token_interface,
};
use crate::error::AccountsError;
use crate::pubkey::{same_key, Pubkey};
use crate::state::{
    build_listing_seeds, build_marketplace_seeds, listing_seeds, marketplace_seeds, Account, ListingAccount,
    MarketplaceAccount, Mint, TokenAccount,
};

verus! {

/// The accounts of the instruction that buys a listed NFT.
#[derive(Clone, Copy, Debug)]
pub struct Purchase {
    /// This program's id.
    pub program_id: Pubkey,
    /// The buyer, who must sign, and pays.
    pub buyer: Pubkey,
    /// Whether the buyer signed the instruction.
    pub buyer_signed: bool,
    /// The buyer's token account for the NFT, created where it is missing.
    pub buyer_ata: TokenAccount,
    /// The seller, who is paid and receives the listing's lamports.
    pub seller: Pubkey,
    pub mint: Mint,
    /// The listing, closed at the end of the instruction.
    pub listing: Account<ListingAccount>,
    /// The listing's token account, which holds the NFT.
    pub listing_ata: TokenAccount,
    pub marketplace_account: Account<MarketplaceAccount>,
    /// The account that receives the fee.
    pub treasury: Pubkey,
    pub token_program: Pubkey,
    pub associated_token_program: Pubkey,
}

/// The marketplace's fee on a sale at `price`: `price * fee_basis_points /
/// 10000`, rounded down, kept to its low 64 bits.
pub open spec fn fee_of(price: u64, fee_basis_points: u16) -> u64 {
    ((price as int * fee_basis_points as int) / 10000) as u64
}

/// The fee never exceeds the price when the fee is at most 100%.
pub proof fn lemma_fee_within_price(price: u64, fee_basis_points: u16)
    requires
        fee_basis_points <= 10000,
    ensures
        fee_of(price, fee_basis_points) <= price,
        fee_of(price, fee_basis_points) == (price as int * fee_basis_points as int) / 10000,
{
    assert(price as int * fee_basis_points as int <= price as int * 10000) by (nonlinear_arith)
        requires
            fee_basis_points <= 10000,
    ;
    assert((price as int * fee_basis_points as int) / 10000 <= price) by (nonlinear_arith)
        requires
            price as int * fee_basis_points as int <= price as int * 10000,
            price as int * fee_basis_points as int >= 0,
    ;
}

impl Purchase {
    /// What loading the accounts gives, account by account in order: the
    /// buyer signed; the mint and the listing's token account exist under a
    /// token program; the token program is one of the two; the associated
    /// token program is that program.
    pub open spec fn loading(&self) -> Result<(), AccountsError> {
        guard(
            signer(self.buyer_signed),
            guard(
                mint_loaded(self.mint),
                guard(
                    token_account_loaded(self.listing_ata),
                    guard(token_interface(self.token_program@), associated_token_program(self.associated_token_program@)),
                ),
            ),
        )
    }

    /// What checking the accounts gives: loading them, then check by check in
    /// order: the buyer's token account, associated (created where missing);
    /// the mint, of the token program; the listing, at the address of
    /// `["listing", marketplace, seller, mint]` and its recorded bump, and not
    /// the seller itself; the listing's token account, the listing's
    /// associated one; the marketplace account, at the address of
    /// `"marketplace"` and its recorded bump; the treasury, the one that the
    /// marketplace records.
    pub open spec fn accounts_check(&self) -> Result<(), AccountsError> {
        guard(
            self.loading(),
            guard(
                ata_if_needed(self.buyer_ata, self.buyer@, self.mint.key@, self.token_program@),
                guard(
                    mint_of_program(self.mint, self.token_program@),
                    guard(
                        self.listing_check(),
                        guard(
                            ata_existing(self.listing_ata, self.listing.key@, self.mint.key@, self.token_program@),
                            guard(self.marketplace_check(), raw(self.treasury@ == self.marketplace_account.data.treasury@)),
                        ),
                    ),
                ),
            ),
        )
    }

    /// The checks of the listing, in order: at the address of `["listing",
    /// marketplace, seller, mint]` and its recorded bump, and not the seller
    /// itself.
    pub open spec fn listing_check(&self) -> Result<(), AccountsError> {
        guard(
            pda_with_bump(
                self.listing.key@,
                listing_seeds(self.marketplace_account.key@, self.seller@, self.mint.key@),
                self.listing.data.listing_bump,
                self.program_id@,
            ),
            close_to(self.listing.key@, self.seller@),
        )
    }

    /// The check of the marketplace account: at the address of
    /// `"marketplace"` and its recorded bump.
    pub open spec fn marketplace_check(&self) -> Result<(), AccountsError> {
        pda_with_bump(self.marketplace_account.key@, marketplace_seeds(), self.marketplace_account.data.marketplace_bump, self.program_id@)
    }

    /// Checks the accounts.
    pub fn try_accounts(&self) -> (r: Result<(), AccountsError>)
        ensures
            r == self.accounts_check(),
    {
        check_signer(self.buyer_signed)?;
        check_mint_loaded(&self.mint)?;
        check_token_account_loaded(&self.listing_ata)?;
        check_token_interface(&self.token_program)?;
        check_associated_token_program(&self.associated_token_program)?;
        check_ata_if_needed(&self.buyer_ata, &self.buyer, &self.mint.key, &self.token_program)?;
        check_mint_of_program(&self.mint, &self.token_program)?;
        let seeds = build_listing_seeds(
            &self.marketplace_account.key,
            &self.seller,
            &self.mint.key,
            Some(self.listing.data.listing_bump),
        );
        check_pda_at(&self.listing.key, &seeds, &self.program_id)?;
        check_close_to(&self.listing.key, &self.seller)?;
        check_ata_existing(&self.listing_ata, &self.listing.key, &self.mint.key, &self.token_program)?;
        let mseeds = build_marketplace_seeds(Some(self.marketplace_account.data.marketplace_bump));
        check_pda_at(&self.marketplace_account.key, &mseeds, &self.program_id)?;
        if !same_key(&self.treasury, &self.marketplace_account.data.treasury) {
            return Err(AccountsError::ConstraintRaw);
        }
        Ok(())
    }

    /// The fee on this sale.
    pub open spec fn fee(&self) -> u64 {
        fee_of(self.listing.data.price, self.marketplace_account.data.fee_basis_points)
    }

    /// Whether paying can go through: the fee does not exceed the price.
    pub open spec fn payable(&self) -> bool {
        self.fee() <= self.listing.data.price
    }

    /// Computes the fee on this sale.
    pub fn sale_fee(&self) -> (r: u64)
        ensures
            r == self.fee(),
    {
        let fee_basis_points = self.marketplace_account.data.fee_basis_points;
        let price = self.listing.data.price;
        assert(price as int * fee_basis_points as int <= u64::MAX as int * u16::MAX as int) by (nonlinear_arith);
        #[verifier::truncate] (((price as u128) * (fee_basis_points as u128) / 10000) as u64)
    }

    /// Tells whether paying can go through.
    pub fn is_payable(&self) -> (r: bool)
        ensures
            r == self.payable(),
    {
        self.sale_fee() <= self.listing.data.price
    }

    /// The calls of `process_payment`, in order.
    pub open spec fn payment(&self) -> Seq<Action> {
        seq![
            Action::SystemTransfer { from: self.buyer, to: self.treasury, lamports: self.fee() },
            Action::SystemTransfer {
                from: self.buyer,
                to: self.seller,
                lamports: (self.listing.data.price - self.fee()) as u64,
            },
        ]
    }

    /// Pays for the NFT: the fee from the buyer to the treasury, then the rest
    /// of the price from the buyer to the seller.
    pub fn process_payment(&self) -> (r: Vec<Action>)
        requires
            self.payable(),
        ensures
            r@ == self.payment(),
    {
        let price = self.listing.data.price;
        let fee = self.sale_fee();
        let mut r: Vec<Action> = Vec::new();
        r.push(Action::SystemTransfer { from: self.buyer, to: self.treasury, lamports: fee });
        let amount = price - fee;
        r.push(Action::SystemTransfer { from: self.buyer, to: self.seller, lamports: amount });
        assert(r@ =~= self.payment());
        r
    }

    /// The listing signing with its recorded bump.
    pub open spec fn listing_signer(&self) -> ListingSigner {
        ListingSigner {
            marketplace: self.marketplace_account.key,
            seller: self.seller,
            mint: self.mint.key,
            bump: self.listing.data.listing_bump,
        }
    }

    /// The calls of `transfer_nft`, in order.
    pub open spec fn nft_delivery(&self) -> Seq<Action> {
        seq![
            Action::TransferChecked {
                from: self.listing_ata.key,
                mint: self.mint.key,
                to: self.buyer_ata.key,
                authority: self.listing.key,
                amount: 1,
                decimals: self.mint.decimals,
                signer: Some(self.listing_signer()),
            },
            Action::CloseTokenAccount {
                account: self.listing_ata.key,
                destination: self.seller,
                authority: self.listing.key,
                signer: Some(self.listing_signer()),
            },
        ]
    }

    /// Moves the NFT from the listing's token account to the buyer's, then
    /// closes the listing's token account with its lamports to the seller; the
    /// listing signs both with its recorded bump.
    pub fn transfer_nft(&self) -> (r: Vec<Action>)
        ensures
            r@ == self.nft_delivery(),
    {
        let signer = ListingSigner {
            marketplace: self.marketplace_account.key,
            seller: self.seller,
            mint: self.mint.key,
            bump: self.listing.data.listing_bump,
        };
        let mut r: Vec<Action> = Vec::new();
        r.push(
            Action::TransferChecked {
                from: self.listing_ata.key,
                mint: self.mint.key,
                to: self.buyer_ata.key,
                authority: self.listing.key,
                amount: 1,
                decimals: self.mint.decimals,
                signer: Some(signer),
            },
        );
        r.push(
            Action::CloseTokenAccount {
                account: self.listing_ata.key,
                destination: self.seller,
                authority: self.listing.key,
                signer: Some(signer),
            },
        );
        assert(r@ =~= self.nft_delivery());
        r
    }
}

} // verus!
