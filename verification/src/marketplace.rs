//! The program's instructions: the handlers, and each whole instruction
//! from the check of its accounts to the calls that it asks for.
use vstd::prelude::*;

use crate::action::Action;
use crate::error::{InstructionError, MarketplaceError};
use crate::instructions::delist::{Delist, DelistBumps};
use crate::instructions::initialize::{Initialize, InitializeBumps};
use crate::instructions::list::{List, ListBumps};
use crate::instructions::purchase::Purchase;
use crate::pubkey::Pubkey;
use crate::laws::{listed_listing_is_sound, listing_sound};
use crate::state;

verus! {

/// The checked accounts of an instruction with the bumps found in checking.
#[derive(Clone, Copy, Debug)]
pub struct Context<T, B> {
    pub accounts: T,
    pub bumps: B,
}

/// Sets up the marketplace with its fee and treasury.
pub fn initialize_marketplace(
    ctx: &mut Context<Initialize, InitializeBumps>,
    fee_basis_points: u16,
    treasury: Pubkey,
) -> (r: Result<(), MarketplaceError>)
    ensures
        r is Ok,
        final(ctx).accounts == (Initialize {
            marketplace_account: state::Account {
                key: old(ctx).accounts.marketplace_account.key,
                data: old(ctx).accounts.new_marketplace(fee_basis_points, treasury, old(ctx).bumps),
            },
            ..old(ctx).accounts
        }),
        final(ctx).bumps == old(ctx).bumps,
{
    let bumps = ctx.bumps;
    ctx.accounts.initialize_marketplace(fee_basis_points, treasury, &bumps)
}

/// Lists an NFT at `price`: records the listing, then moves the NFT into the
/// listing's token account.
pub fn list_nft(ctx: &mut Context<List, ListBumps>, price: u64) -> (r: Result<Vec<Action>, MarketplaceError>)
    ensures
        price == 0 ==> r matches Err(MarketplaceError::InvalidPrice),
        price > 0 && old(ctx).accounts.seller_ata.amount == 0 ==> r matches Err(MarketplaceError::NoToken),
        price > 0 && old(ctx).accounts.seller_ata.amount > 0 ==> r is Ok,
        r matches Ok(v) ==> v@ == seq![old(ctx).accounts.nft_deposit()],
        r is Ok ==> final(ctx).accounts == (List {
            listing: state::Account { key: old(ctx).accounts.listing.key, data: old(ctx).accounts.new_listing(price, old(ctx).bumps) },
            ..old(ctx).accounts
        }),
        r is Err ==> final(ctx).accounts == old(ctx).accounts,
        final(ctx).bumps == old(ctx).bumps,
{
    let bumps = ctx.bumps;
    match ctx.accounts.initialize_listing(price, &bumps) {
        Err(e) => Err(e),
        Ok(()) => {
            let deposit = ctx.accounts.transfer_nft();
            let mut v: Vec<Action> = Vec::new();
            v.push(deposit);
            assert(v@ =~= seq![old(ctx).accounts.nft_deposit()]);
            Ok(v)
        },
    }
}

/// Withdraws a listed NFT: moves it back to the seller and closes the
/// listing's token account.
pub fn delist_nft(ctx: &Context<Delist, DelistBumps>) -> (r: Result<Vec<Action>, MarketplaceError>)
    ensures
        r matches Ok(v) && v@ == ctx.accounts.nft_return(),
{
    Ok(ctx.accounts.return_nft())
}

/// Buys a listed NFT: pays the fee and the seller, then moves the NFT to the
/// buyer and closes the listing's token account.
pub fn purchase_nft(ctx: &Context<Purchase, ()>) -> (r: Result<Vec<Action>, MarketplaceError>)
    requires
        ctx.accounts.payable(),
    ensures
        r matches Ok(v) && v@ == ctx.accounts.payment() + ctx.accounts.nft_delivery(),
{
    let mut v = ctx.accounts.process_payment();
    let mut delivery = ctx.accounts.transfer_nft();
    v.append(&mut delivery);
    Ok(v)
}

/// The closing of a listing at the end of an instruction, its lamports going
/// to the seller.
pub open spec fn listing_closed(listing: Pubkey, seller: Pubkey) -> Action {
    Action::CloseProgramAccount { account: listing, destination: seller }
}

/// The whole instruction that sets up the marketplace: checks the accounts,
/// then records the marketplace.
pub fn process_initialize(accounts: &mut Initialize, fee_basis_points: u16, treasury: Pubkey) -> (r: Result<(), InstructionError>)
    ensures
        old(accounts).accounts_check() matches Err(e) ==> r == Err::<(), InstructionError>(InstructionError::Accounts(e))
            && *final(accounts) == *old(accounts),
        old(accounts).accounts_check() matches Ok(b) ==> r is Ok && *final(accounts) == (Initialize {
            marketplace_account: state::Account {
                key: old(accounts).marketplace_account.key,
                data: old(accounts).new_marketplace(fee_basis_points, treasury, b),
            },
            ..*old(accounts)
        }),
{
    let bumps = match accounts.try_accounts() {
        Err(e) => return Err(InstructionError::Accounts(e)),
        Ok(b) => b,
    };
    let mut ctx = Context { accounts: *accounts, bumps: bumps };
    let _ = initialize_marketplace(&mut ctx, fee_basis_points, treasury);
    *accounts = ctx.accounts;
    Ok(())
}

/// The whole instruction that lists an NFT: checks the accounts, then lists.
pub fn process_list(accounts: &mut List, price: u64) -> (r: Result<Vec<Action>, InstructionError>)
    ensures
        old(accounts).accounts_check() matches Err(e) ==> r matches Err(InstructionError::Accounts(e2)) && e2 == e,
        old(accounts).accounts_check() is Ok && price == 0 ==> r matches Err(InstructionError::Marketplace(MarketplaceError::InvalidPrice)),
        old(accounts).accounts_check() is Ok && price > 0 && old(accounts).seller_ata.amount == 0
            ==> r matches Err(InstructionError::Marketplace(MarketplaceError::NoToken)),
        old(accounts).accounts_check() matches Ok(b) ==> (price > 0 && old(accounts).seller_ata.amount > 0 ==> {
            &&& (r matches Ok(v) && v@ == seq![old(accounts).nft_deposit()])
            &&& *final(accounts) == (List {
                listing: state::Account { key: old(accounts).listing.key, data: old(accounts).new_listing(price, b) },
                ..*old(accounts)
            })
        }),
        r is Err ==> *final(accounts) == *old(accounts),
        r is Ok ==> listing_sound(final(accounts).listing, final(accounts).marketplace_account.key@, final(accounts).program_id@),
{
    let bumps = match accounts.try_accounts() {
        Err(e) => return Err(InstructionError::Accounts(e)),
        Ok(b) => b,
    };
    let mut ctx = Context { accounts: *accounts, bumps: bumps };
    match list_nft(&mut ctx, price) {
        Err(e) => Err(InstructionError::Marketplace(e)),
        Ok(v) => {
            proof {
                listed_listing_is_sound(*old(accounts), bumps, price);
            }
            *accounts = ctx.accounts;
            Ok(v)
        },
    }
}

/// The whole instruction that withdraws an NFT: checks the accounts, returns
/// the NFT, then closes the listing with its lamports to the seller.
pub fn process_delist(accounts: &Delist) -> (r: Result<Vec<Action>, InstructionError>)
    ensures
        accounts.accounts_check() matches Err(e) ==> r matches Err(InstructionError::Accounts(e2)) && e2 == e,
        accounts.accounts_check() is Ok ==> (r matches Ok(v) && v@ == accounts.nft_return().push(
            listing_closed(accounts.listing.key, accounts.seller),
        )),
{
    let bumps = match accounts.try_accounts() {
        Err(e) => return Err(InstructionError::Accounts(e)),
        Ok(b) => b,
    };
    let ctx = Context { accounts: *accounts, bumps: bumps };
    match delist_nft(&ctx) {
        Err(e) => Err(InstructionError::Marketplace(e)),
        Ok(v) => {
            let mut v = v;
            v.push(Action::CloseProgramAccount { account: accounts.listing.key, destination: accounts.seller });
            Ok(v)
        },
    }
}

/// The whole instruction that buys an NFT: checks the accounts, pays,
/// delivers the NFT, then closes the listing with its lamports to the seller.
pub fn process_purchase(accounts: &Purchase) -> (r: Result<Vec<Action>, InstructionError>)
    requires
        accounts.accounts_check() is Ok ==> accounts.payable(),
    ensures
        accounts.accounts_check() matches Err(e) ==> r matches Err(InstructionError::Accounts(e2)) && e2 == e,
        accounts.accounts_check() is Ok ==> (r matches Ok(v) && v@ == (accounts.payment() + accounts.nft_delivery()).push(
            listing_closed(accounts.listing.key, accounts.seller),
        )),
{
    match accounts.try_accounts() {
        Err(e) => return Err(InstructionError::Accounts(e)),
        Ok(()) => {},
    };
    let ctx = Context { accounts: *accounts, bumps: () };
    match purchase_nft(&ctx) {
        Err(e) => Err(InstructionError::Marketplace(e)),
        Ok(v) => {
            let mut v = v;
            v.push(Action::CloseProgramAccount { account: accounts.listing.key, destination: accounts.seller });
            Ok(v)
        },
    }
}

} // verus!
