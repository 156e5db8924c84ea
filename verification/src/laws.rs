//! Properties of the marketplace that span its instructions.
use vstd::prelude::*;

use crate::action::{Action, ListingSigner};
use crate::constraints::{lemma_find_from_derives, pda_with_bump};
use crate::error::AccountsError;
use crate::instructions::delist::{Delist, DelistBumps};
use crate::instructions::initialize::{Initialize, InitializeBumps};
use crate::instructions::list::{List, ListBumps};
use crate::instructions::purchase::{fee_of, lemma_fee_within_price, Purchase};
use crate::programs::{associated_token_program_key, token_2022_program_key, token_program_key};
use crate::pubkey::{associated_token_address, find_pda, program_address, Pubkey};
use crate::marketplace::listing_closed;
use crate::programs::metadata_program_key;
use crate::state::{
    listing_seeds, marketplace_seeds, master_edition_seeds, metadata_seeds, with_bump, Account, ListingAccount,
    MarketplaceAccount,
};

verus! {

/// Where the canonical address of `seeds` is `key` with bump `b`, the seeds
/// with `b` derive `key`.
proof fn lemma_found_derives(seeds: Seq<Seq<u8>>, program_id: Seq<u8>, key: Seq<u8>, b: u8)
    requires
        find_pda(seeds, program_id) == Some((key, b)),
    ensures
        program_address(with_bump(seeds, b), program_id) == Some(key),
{
    lemma_find_from_derives(seeds, program_id, 255);
}

/// A marketplace whose fee is at most 100% can always be paid for: the fee of
/// any sale is at most its price.
pub proof fn fee_at_most_whole_is_payable(p: Purchase)
    requires
        p.marketplace_account.data.fee_basis_points <= 10000,
    ensures
        p.payable(),
        p.fee() == (p.listing.data.price as int * p.marketplace_account.data.fee_basis_points as int) / 10000,
{
    lemma_fee_within_price(p.listing.data.price, p.marketplace_account.data.fee_basis_points);
}

/// A buyer pays exactly the listed price: the fee and the seller's share, both
/// from the buyer, add up to it.
pub proof fn buyer_pays_the_price(p: Purchase)
    requires
        p.payable(),
    ensures
        p.payment()[0] matches Action::SystemTransfer { from, lamports, .. } && from == p.buyer
            && lamports == fee_of(p.listing.data.price, p.marketplace_account.data.fee_basis_points),
        p.payment()[1] matches Action::SystemTransfer { from, lamports, .. } && from == p.buyer
            && lamports + p.fee() == p.listing.data.price,
{
}

/// Fees cannot be diverted: where the accounts of a purchase are accepted, the
/// fee goes to the treasury that the marketplace records.
pub proof fn fee_goes_to_marketplace_treasury(p: Purchase)
    requires
        p.accounts_check() is Ok,
    ensures
        p.payment()[0] matches Action::SystemTransfer { to, .. } && to@ == p.marketplace_account.data.treasury@,
{
}

/// Where the accounts of a purchase are accepted, the seller who is paid is
/// the one whose key, with the marketplace and the mint, derives the
/// listing's address; and the listing can sign the delivery of the NFT with
/// those seeds and its recorded bump.
pub proof fn proceeds_go_to_listing_seller(p: Purchase)
    requires
        p.accounts_check() is Ok,
    ensures
        program_address(
            with_bump(listing_seeds(p.marketplace_account.key@, p.seller@, p.mint.key@), p.listing.data.listing_bump),
            p.program_id@,
        ) == Some(p.listing.key@),
        program_address(p.listing_signer().signer_seeds(), p.program_id@) == Some(p.listing.key@),
        p.payment()[1] matches Action::SystemTransfer { to, .. } && to == p.seller,
{
}

/// A listing records the bump with which its seeds derive its own address, so
/// that it can later sign for its token account.
pub proof fn listing_records_its_own_bump(l: List, bumps: ListBumps, price: u64)
    requires
        l.accounts_check() == Ok::<ListBumps, AccountsError>(bumps),
    ensures
        program_address(
            with_bump(listing_seeds(l.marketplace_account.key@, l.seller@, l.mint.key@), l.new_listing(price, bumps).listing_bump),
            l.program_id@,
        ) == Some(l.listing.key@),
{
    let seeds = listing_seeds(l.marketplace_account.key@, l.seller@, l.mint.key@);
    let found = find_pda(seeds, l.program_id@);
    assert(found == Some((l.listing.key@, bumps.listing)));
    lemma_found_derives(seeds, l.program_id@, l.listing.key@, bumps.listing);
}

/// A marketplace records the bump with which the seed `"marketplace"` derives
/// its address, so that the other instructions accept it.
pub proof fn marketplace_records_its_own_bump(i: Initialize, bumps: InitializeBumps, fee_basis_points: u16, treasury: Pubkey)
    requires
        i.accounts_check() == Ok::<InitializeBumps, AccountsError>(bumps),
    ensures
        pda_with_bump(
            i.marketplace_account.key@,
            marketplace_seeds(),
            i.new_marketplace(fee_basis_points, treasury, bumps).marketplace_bump,
            i.program_id@,
        ) == Ok::<(), AccountsError>(()),
{
    lemma_found_derives(marketplace_seeds(), i.program_id@, i.marketplace_account.key@, bumps.marketplace_account);
}

/// Only the seller of a listing can withdraw it: the seller must have signed
/// and be the one that the listing records, for the mint that it records. The
/// NFT goes back to the seller's own associated token account, and the
/// listing's lamports to the seller, who is not the listing itself; the
/// listing signs with the seeds that derive its address wherever its recorded
/// bump is the canonical one.
pub proof fn only_the_seller_delists(d: Delist, bumps: DelistBumps)
    requires
        d.accounts_check() == Ok::<DelistBumps, AccountsError>(bumps),
    ensures
        d.seller_signed,
        d.listing.data.seller@ == d.seller@,
        d.listing.key@ != d.seller@,
        d.listing.data.mint@ == d.mint.key@,
        associated_token_address(d.seller@, d.mint.key@, d.token_program@) == Some(
            d.seller_ata.key@,
        ),
        d.nft_return()[0] matches Action::TransferChecked { to, amount, .. } && to == d.seller_ata.key && amount == 1,
        d.listing.data.listing_bump == bumps.listing ==> program_address(d.listing_signer().signer_seeds(), d.program_id@)
            == Some(d.listing.key@),
{
    let seeds = listing_seeds(d.marketplace_account.key@, d.seller@, d.mint.key@);
    if d.listing.data.listing_bump == bumps.listing {
        lemma_found_derives(seeds, d.program_id@, d.listing.key@, bumps.listing);
    }
}

/// Withdrawing undoes listing: for the same seller, mint and marketplace, the
/// accounts of both instructions being accepted, the delisting names the same
/// listing with the same bump, and moves the NFT back along the path by which
/// the listing moved it in.
pub proof fn delist_reverses_list(l: List, list_bumps: ListBumps, d: Delist, delist_bumps: DelistBumps)
    requires
        l.accounts_check() == Ok::<ListBumps, AccountsError>(list_bumps),
        d.accounts_check() == Ok::<DelistBumps, AccountsError>(delist_bumps),
        d.program_id@ == l.program_id@,
        d.seller@ == l.seller@,
        d.mint.key@ == l.mint.key@,
        d.mint.decimals == l.mint.decimals,
        d.marketplace_account.key@ == l.marketplace_account.key@,
        d.token_program@ == l.token_program@,
    ensures
        d.listing.key@ == l.listing.key@,
        delist_bumps.listing == list_bumps.listing,
        l.nft_deposit() matches Action::TransferChecked { from, mint, to, amount, decimals, .. }
            && (d.nft_return()[0] matches Action::TransferChecked {
                from: back_from,
                mint: back_mint,
                to: back_to,
                amount: back_amount,
                decimals: back_decimals,
                ..
            } && back_from@ == to@ && back_to@ == from@ && back_mint@ == mint@ && back_amount == amount
                && back_decimals == decimals),
{
}

/// A purchase delivers what a listing offered: for the same seller, mint and
/// marketplace, a purchase of the listing that `initialize_listing` recorded
/// names the same listing, takes the NFT from the account into which the
/// listing moved it, and pays the listed price, less the fee, to the seller
/// who listed.
pub proof fn purchase_delivers_the_listing(l: List, list_bumps: ListBumps, price: u64, p: Purchase)
    requires
        l.accounts_check() == Ok::<ListBumps, AccountsError>(list_bumps),
        p.accounts_check() is Ok,
        p.listing.data == l.new_listing(price, list_bumps),
        p.payable(),
        p.program_id@ == l.program_id@,
        p.seller@ == l.seller@,
        p.mint.key@ == l.mint.key@,
        p.marketplace_account.key@ == l.marketplace_account.key@,
        p.token_program@ == l.token_program@,
    ensures
        p.listing.key@ == l.listing.key@,
        l.nft_deposit() matches Action::TransferChecked { to, .. } && (p.nft_delivery()[0] matches Action::TransferChecked {
            from,
            amount,
            ..
        } && from@ == to@ && amount == 1),
        p.payment()[1] matches Action::SystemTransfer { to, lamports, .. } && to@ == l.seller@ && lamports + p.fee()
            == price,
{
    listing_records_its_own_bump(l, list_bumps, price);
}

/// Whether a listing is sound: priced above zero, and standing at the address
/// that `["listing", marketplace, its seller, its mint]` with its recorded bump
/// derive, so that it can sign with those seeds.
pub open spec fn listing_sound(listing: Account<ListingAccount>, marketplace: Seq<u8>, program_id: Seq<u8>) -> bool {
    &&& listing.data.price > 0
    &&& program_address(
        with_bump(listing_seeds(marketplace, listing.data.seller@, listing.data.mint@), listing.data.listing_bump),
        program_id,
    ) == Some(listing.key@)
}

/// Every listing that listing records is sound; its token account is the
/// listing's associated token account for the mint, and the one token of the
/// NFT moves into it.
pub proof fn listed_listing_is_sound(l: List, bumps: ListBumps, price: u64)
    requires
        l.accounts_check() == Ok::<ListBumps, AccountsError>(bumps),
        price > 0,
    ensures
        listing_sound(Account { key: l.listing.key, data: l.new_listing(price, bumps) }, l.marketplace_account.key@, l.program_id@),
        associated_token_address(l.listing.key@, l.mint.key@, l.token_program@) == Some(
            l.listing_ata.key@,
        ),
        l.nft_deposit() matches Action::TransferChecked { to, mint, amount, .. } && to == l.listing_ata.key && mint
            == l.mint.key && amount == 1,
{
    listing_records_its_own_bump(l, bumps, price);
}

/// The listing of `marketplace`, `seller` and `mint` signing with `bump`.
pub open spec fn listing_signer_of(marketplace: Pubkey, seller: Pubkey, mint: Pubkey, bump: u8) -> ListingSigner {
    ListingSigner { marketplace, seller, mint, bump }
}

/// What listing asks of the token program: one token of the mint, with the
/// mint's decimals, from the seller's token account into the listing's, on the
/// seller's own authority, with no program signature.
pub proof fn list_deposits_one_token(l: List)
    ensures
        l.nft_deposit() == (Action::TransferChecked {
            from: l.seller_ata.key,
            mint: l.mint.key,
            to: l.listing_ata.key,
            authority: l.seller,
            amount: 1,
            decimals: l.mint.decimals,
            signer: None,
        }),
{
}

/// What withdrawing asks of the token program: first one token of the mint,
/// with the mint's decimals, from the listing's token account back to the
/// seller's, on the listing's authority; then the closing of the listing's
/// token account with its lamports to the seller. The listing signs both as
/// the listing of the marketplace, the seller and the mint, with its recorded
/// bump; where the accounts are accepted and that bump is the canonical one,
/// those seeds derive the listing's own address.
pub proof fn delist_returns_the_nft_to_the_seller(d: Delist, bumps: DelistBumps)
    ensures
        d.nft_return().len() == 2,
        d.nft_return()[0] == (Action::TransferChecked {
            from: d.listing_ata.key,
            mint: d.mint.key,
            to: d.seller_ata.key,
            authority: d.listing.key,
            amount: 1,
            decimals: d.mint.decimals,
            signer: Some(listing_signer_of(d.marketplace_account.key, d.seller, d.mint.key, d.listing.data.listing_bump)),
        }),
        d.nft_return()[1] == (Action::CloseTokenAccount {
            account: d.listing_ata.key,
            destination: d.seller,
            authority: d.listing.key,
            signer: Some(listing_signer_of(d.marketplace_account.key, d.seller, d.mint.key, d.listing.data.listing_bump)),
        }),
        d.accounts_check() == Ok::<DelistBumps, AccountsError>(bumps) && d.listing.data.listing_bump == bumps.listing
            ==> forall|i: int|
            0 <= i < 2 ==> (#[trigger] d.nft_return()[i] matches Action::TransferChecked { signer: Some(s), .. }
                ==> program_address(s.signer_seeds(), d.program_id@) == Some(d.listing.key@))
                && (d.nft_return()[i] matches Action::CloseTokenAccount { signer: Some(s), .. }
                ==> program_address(s.signer_seeds(), d.program_id@) == Some(d.listing.key@)),
{
    if d.accounts_check() == Ok::<DelistBumps, AccountsError>(bumps) && d.listing.data.listing_bump == bumps.listing {
        let seeds = listing_seeds(d.marketplace_account.key@, d.seller@, d.mint.key@);
        lemma_found_derives(seeds, d.program_id@, d.listing.key@, bumps.listing);
    }
}

/// What a purchase asks of the token program after paying: first one token of
/// the mint, with the mint's decimals, from the listing's token account to the
/// buyer's, on the listing's authority; then the closing of the listing's
/// token account with its lamports to the seller, not the buyer. The listing
/// signs both as the listing of the marketplace, the seller and the mint, with
/// its recorded bump; where the accounts are accepted, those seeds derive the
/// listing's own address.
pub proof fn purchase_delivers_the_nft_to_the_buyer(p: Purchase)
    ensures
        p.nft_delivery().len() == 2,
        p.nft_delivery()[0] == (Action::TransferChecked {
            from: p.listing_ata.key,
            mint: p.mint.key,
            to: p.buyer_ata.key,
            authority: p.listing.key,
            amount: 1,
            decimals: p.mint.decimals,
            signer: Some(listing_signer_of(p.marketplace_account.key, p.seller, p.mint.key, p.listing.data.listing_bump)),
        }),
        p.nft_delivery()[1] == (Action::CloseTokenAccount {
            account: p.listing_ata.key,
            destination: p.seller,
            authority: p.listing.key,
            signer: Some(listing_signer_of(p.marketplace_account.key, p.seller, p.mint.key, p.listing.data.listing_bump)),
        }),
        p.accounts_check() is Ok ==> forall|i: int|
            0 <= i < 2 ==> (#[trigger] p.nft_delivery()[i] matches Action::TransferChecked { signer: Some(s), .. }
                ==> program_address(s.signer_seeds(), p.program_id@) == Some(p.listing.key@))
                && (p.nft_delivery()[i] matches Action::CloseTokenAccount { signer: Some(s), .. }
                ==> program_address(s.signer_seeds(), p.program_id@) == Some(p.listing.key@)),
{
}

/// Whether `key` is the token program or the token-2022 program.
pub open spec fn either_token_program(key: Seq<u8>) -> bool {
    key == token_program_key() || key == token_2022_program_key()
}

/// Loading the accounts of a listing succeeds exactly where the seller signed,
/// the seller's token account, the mint and the collection mint hold data
/// owned by either token program, the token program given is either of the
/// two, and the associated token program is that program.
pub proof fn list_loading_accepts_either_token_program(l: List)
    ensures
        l.loading() is Ok <==> {
            &&& l.seller_signed
            &&& l.seller_ata.initialized && either_token_program(l.seller_ata.program_owner@)
            &&& l.mint.initialized && either_token_program(l.mint.program_owner@)
            &&& l.collection_mint.initialized && either_token_program(l.collection_mint.program_owner@)
            &&& either_token_program(l.token_program@)
            &&& l.associated_token_program@ == associated_token_program_key()
        },
{
}

/// Loading the accounts of a withdrawal succeeds exactly where the seller
/// signed, the mint and the listing's token account hold data owned by either
/// token program, the token program given is either of the two, and the
/// associated token program is that program.
pub proof fn delist_loading_accepts_either_token_program(d: Delist)
    ensures
        d.loading() is Ok <==> {
            &&& d.seller_signed
            &&& d.mint.initialized && either_token_program(d.mint.program_owner@)
            &&& d.listing_ata.initialized && either_token_program(d.listing_ata.program_owner@)
            &&& either_token_program(d.token_program@)
            &&& d.associated_token_program@ == associated_token_program_key()
        },
{
}

/// Loading the accounts of a purchase succeeds exactly where the buyer
/// signed, the mint and the listing's token account hold data owned by either
/// token program, the token program given is either of the two, and the
/// associated token program is that program.
pub proof fn purchase_loading_accepts_either_token_program(p: Purchase)
    ensures
        p.loading() is Ok <==> {
            &&& p.buyer_signed
            &&& p.mint.initialized && either_token_program(p.mint.program_owner@)
            &&& p.listing_ata.initialized && either_token_program(p.listing_ata.program_owner@)
            &&& either_token_program(p.token_program@)
            &&& p.associated_token_program@ == associated_token_program_key()
        },
{
}

/// What a purchase pays, before the NFT moves: first the fee, `price *
/// fee_basis_points / 10000` rounded down, from the buyer to the treasury
/// account given; then the rest of the price from the buyer to the seller.
pub proof fn purchase_pays_fee_then_seller(p: Purchase)
    requires
        p.payable(),
    ensures
        p.payment().len() == 2,
        p.payment()[0] == (Action::SystemTransfer {
            from: p.buyer,
            to: p.treasury,
            lamports: ((p.listing.data.price as int * p.marketplace_account.data.fee_basis_points as int) / 10000) as u64,
        }),
        p.payment()[1] == (Action::SystemTransfer {
            from: p.buyer,
            to: p.seller,
            lamports: (p.listing.data.price - ((p.listing.data.price as int * p.marketplace_account.data.fee_basis_points as int)
                / 10000) as u64) as u64,
        }),
{
}

/// Withdrawing and buying close the listing with its lamports to the seller.
pub proof fn closing_a_listing_pays_the_seller(listing: Pubkey, seller: Pubkey)
    ensures
        listing_closed(listing, seller) == (Action::CloseProgramAccount { account: listing, destination: seller }),
{
}

/// A listing records the seller and the mint of the accounts given, the price
/// asked, the clock's time and the canonical bump found for its address.
pub proof fn listing_records_what_it_was_given(l: List, bumps: ListBumps, price: u64)
    ensures
        l.new_listing(price, bumps) == (ListingAccount {
            seller: l.seller,
            mint: l.mint.key,
            price,
            created_at: l.unix_timestamp,
            listing_bump: bumps.listing,
        }),
{
}

/// A marketplace records its authority, the fee and the treasury given and the
/// canonical bump found for its address.
pub proof fn marketplace_records_what_it_was_given(i: Initialize, bumps: InitializeBumps, fee_basis_points: u16, treasury: Pubkey)
    ensures
        i.new_marketplace(fee_basis_points, treasury, bumps) == (MarketplaceAccount {
            authority: i.authority,
            fee_basis_points,
            marketplace_bump: bumps.marketplace_account,
            treasury,
        }),
{
}

/// The accounts that setting up the marketplace accepts: a signing authority
/// and the canonical address of the seed `"marketplace"`.
pub proof fn initialize_accepts_only_the_marketplace_address(i: Initialize)
    ensures
        i.accounts_check() matches Ok(b) ==> i.authority_signed && find_pda(marketplace_seeds(), i.program_id@) == Some(
            (i.marketplace_account.key@, b.marketplace_account),
        ),
        !i.authority_signed ==> i.accounts_check() == Err::<InitializeBumps, AccountsError>(AccountsError::AccountNotSigner),
{
}

/// The accounts that listing accepts: a signing seller; the listing at the
/// canonical address of `["listing", marketplace, seller, mint]`; the
/// listing's token account at its associated address, not yet existing; the
/// seller's token account the seller's associated one; the marketplace at its
/// recorded bump; metadata and master edition at their canonical addresses
/// for the metadata program, the metadata naming the collection mint as its
/// verified collection.
pub proof fn list_accepts_only_sound_accounts(l: List)
    ensures
        l.accounts_check() matches Ok(b) ==> {
            &&& l.seller_signed
            &&& find_pda(listing_seeds(l.marketplace_account.key@, l.seller@, l.mint.key@), l.program_id@) == Some(
                (l.listing.key@, b.listing),
            )
            &&& associated_token_address(l.listing.key@, l.mint.key@, l.token_program@) == Some(l.listing_ata.key@)
            &&& !l.listing_ata.initialized
            &&& associated_token_address(l.seller@, l.mint.key@, l.token_program@) == Some(l.seller_ata.key@)
            &&& l.seller_ata.owner@ == l.seller@
            &&& l.mint.program_owner@ == l.token_program@
            &&& program_address(
                with_bump(marketplace_seeds(), l.marketplace_account.data.marketplace_bump),
                l.program_id@,
            ) == Some(l.marketplace_account.key@)
            &&& find_pda(metadata_seeds(metadata_program_key(), l.mint.key@), metadata_program_key()) == Some(
                (l.metadata.key@, b.metadata),
            )
            &&& l.metadata.collection matches Some(c) && c.verified && c.key@ == l.collection_mint.key@
            &&& find_pda(master_edition_seeds(metadata_program_key(), l.mint.key@), metadata_program_key()) == Some(
                (l.master_edition@, b.master_edition),
            )
        },
{
}

/// The accounts that a purchase accepts: a signing buyer whose token account
/// is the associated one; the listing at the address of `["listing",
/// marketplace, seller, mint]` and its recorded bump, not the seller itself;
/// the listing's token account its associated one; the marketplace at its
/// recorded bump; the treasury that the marketplace records.
pub proof fn purchase_accepts_only_sound_accounts(p: Purchase)
    ensures
        p.accounts_check() is Ok ==> {
            &&& p.buyer_signed
            &&& associated_token_address(p.buyer@, p.mint.key@, p.token_program@) == Some(p.buyer_ata.key@)
            &&& program_address(
                with_bump(listing_seeds(p.marketplace_account.key@, p.seller@, p.mint.key@), p.listing.data.listing_bump),
                p.program_id@,
            ) == Some(p.listing.key@)
            &&& p.listing.key@ != p.seller@
            &&& associated_token_address(p.listing.key@, p.mint.key@, p.token_program@) == Some(p.listing_ata.key@)
            &&& p.listing_ata.owner@ == p.listing.key@
            &&& program_address(
                with_bump(marketplace_seeds(), p.marketplace_account.data.marketplace_bump),
                p.program_id@,
            ) == Some(p.marketplace_account.key@)
            &&& p.treasury@ == p.marketplace_account.data.treasury@
        },
{
}

/// The accounts that withdrawing accepts: the listing's token account is the
/// listing's associated one, the seller's is the seller's, and the
/// marketplace is at its recorded bump.
pub proof fn delist_accepts_only_sound_accounts(d: Delist)
    ensures
        d.accounts_check() is Ok ==> {
            &&& associated_token_address(d.seller@, d.mint.key@, d.token_program@) == Some(d.seller_ata.key@)
            &&& associated_token_address(d.listing.key@, d.mint.key@, d.token_program@) == Some(d.listing_ata.key@)
            &&& d.listing_ata.owner@ == d.listing.key@
            &&& program_address(
                with_bump(marketplace_seeds(), d.marketplace_account.data.marketplace_bump),
                d.program_id@,
            ) == Some(d.marketplace_account.key@)
        },
{
}

} // verus!
