use std::str::FromStr;

use anchor_lang::prelude::Pubkey as Key;
use anchor_spl::associated_token::get_associated_token_address_with_program_id;
use marketplace::marketplace::{
    delist_nft, initialize_marketplace, list_nft, process_delist, process_initialize, process_list,
    process_purchase, purchase_nft, Context,
};
use marketplace::{
    AccountsError, Account, Action, Collection, Delist, DelistBumps, Initialize, InitializeBumps, InstructionError,
    List, ListBumps, ListingAccount, ListingSigner, MarketplaceAccount, MarketplaceError, Metadata, Mint, Pubkey,
    Purchase, TokenAccount,
};

fn k(key: &Key) -> Pubkey {
    Pubkey(key.to_bytes())
}

fn program_id() -> Key {
    Key::from_str("ALAywgGpzDGo25uYh53aUvMmyu5PqEgWahTBw3xukUUY").unwrap()
}

fn token_program() -> Key {
    anchor_spl::token::ID
}

fn ata_program() -> Key {
    anchor_spl::associated_token::ID
}

fn metadata_program() -> Key {
    anchor_spl::metadata::ID
}

fn seller() -> Key {
    Key::new_from_array([7u8; 32])
}

fn buyer() -> Key {
    Key::new_from_array([9u8; 32])
}

fn mint_key() -> Key {
    Key::new_from_array([11u8; 32])
}

fn collection_mint() -> Key {
    Key::new_from_array([13u8; 32])
}

fn treasury() -> Key {
    Key::new_from_array([17u8; 32])
}

fn authority() -> Key {
    Key::new_from_array([19u8; 32])
}

fn marketplace_pda() -> (Key, u8) {
    Key::find_program_address(&[b"marketplace"], &program_id())
}

fn listing_pda() -> (Key, u8) {
    let (m, _) = marketplace_pda();
    Key::find_program_address(&[b"listing", m.as_ref(), seller().as_ref(), mint_key().as_ref()], &program_id())
}

fn ata(wallet: &Key) -> Key {
    get_associated_token_address_with_program_id(wallet, &mint_key(), &token_program())
}

fn token_account(key: Key, owner: Key, amount: u64) -> TokenAccount {
    TokenAccount {
        key: k(&key),
        initialized: true,
        program_owner: k(&token_program()),
        mint: k(&mint_key()),
        owner: k(&owner),
        amount,
    }
}

fn fresh_account(key: Key) -> TokenAccount {
    TokenAccount {
        key: k(&key),
        initialized: false,
        program_owner: Pubkey([0u8; 32]),
        mint: Pubkey([0u8; 32]),
        owner: Pubkey([0u8; 32]),
        amount: 0,
    }
}

fn mint() -> Mint {
    Mint { key: k(&mint_key()), initialized: true, program_owner: k(&token_program()), decimals: 0 }
}

fn marketplace_data(fee_basis_points: u16) -> MarketplaceAccount {
    MarketplaceAccount {
        authority: k(&authority()),
        fee_basis_points,
        marketplace_bump: marketplace_pda().1,
        treasury: k(&treasury()),
    }
}

fn empty_listing() -> ListingAccount {
    ListingAccount { seller: Pubkey([0u8; 32]), mint: Pubkey([0u8; 32]), price: 0, created_at: 0, listing_bump: 0 }
}

fn listing_data(price: u64) -> ListingAccount {
    ListingAccount {
        seller: k(&seller()),
        mint: k(&mint_key()),
        price,
        created_at: 1_700_000_000,
        listing_bump: listing_pda().1,
    }
}

fn initialize_accounts() -> Initialize {
    Initialize {
        program_id: k(&program_id()),
        authority: k(&authority()),
        authority_signed: true,
        marketplace_account: Account { key: k(&marketplace_pda().0), data: MarketplaceAccount {
            authority: Pubkey([0u8; 32]),
            fee_basis_points: 0,
            marketplace_bump: 0,
            treasury: Pubkey([0u8; 32]),
        } },
    }
}

fn metadata_pda() -> (Key, u8) {
    let mp = metadata_program();
    Key::find_program_address(&[b"metadata", mp.as_ref(), mint_key().as_ref()], &mp)
}

fn master_edition_pda() -> (Key, u8) {
    let mp = metadata_program();
    Key::find_program_address(&[b"metadata", mp.as_ref(), mint_key().as_ref(), b"edition"], &mp)
}

fn list_accounts() -> List {
    let (listing, _) = listing_pda();
    List {
        program_id: k(&program_id()),
        seller: k(&seller()),
        seller_signed: true,
        seller_ata: token_account(ata(&seller()), seller(), 1),
        mint: mint(),
        listing: Account { key: k(&listing), data: empty_listing() },
        listing_ata: fresh_account(ata(&listing)),
        marketplace_account: Account { key: k(&marketplace_pda().0), data: marketplace_data(250) },
        collection_mint: Mint {
            key: k(&collection_mint()),
            initialized: true,
            program_owner: k(&token_program()),
            decimals: 0,
        },
        metadata: Metadata {
            key: k(&metadata_pda().0),
            collection: Some(Collection { verified: true, key: k(&collection_mint()) }),
        },
        master_edition: k(&master_edition_pda().0),
        token_program: k(&token_program()),
        associated_token_program: k(&ata_program()),
        unix_timestamp: 1_700_000_000,
    }
}

fn list_bumps() -> ListBumps {
    ListBumps { listing: listing_pda().1, metadata: metadata_pda().1, master_edition: master_edition_pda().1 }
}

fn delist_accounts() -> Delist {
    let (listing, _) = listing_pda();
    Delist {
        program_id: k(&program_id()),
        seller: k(&seller()),
        seller_signed: true,
        seller_ata: token_account(ata(&seller()), seller(), 0),
        mint: mint(),
        listing: Account { key: k(&listing), data: listing_data(1_000_000) },
        listing_ata: token_account(ata(&listing), listing, 1),
        marketplace_account: Account { key: k(&marketplace_pda().0), data: marketplace_data(250) },
        token_program: k(&token_program()),
        associated_token_program: k(&ata_program()),
    }
}

fn purchase_accounts(price: u64, fee_basis_points: u16) -> Purchase {
    let (listing, _) = listing_pda();
    Purchase {
        program_id: k(&program_id()),
        buyer: k(&buyer()),
        buyer_signed: true,
        buyer_ata: fresh_account(ata(&buyer())),
        seller: k(&seller()),
        mint: mint(),
        listing: Account { key: k(&listing), data: listing_data(price) },
        listing_ata: token_account(ata(&listing), listing, 1),
        marketplace_account: Account { key: k(&marketplace_pda().0), data: marketplace_data(fee_basis_points) },
        treasury: k(&treasury()),
        token_program: k(&token_program()),
        associated_token_program: k(&ata_program()),
    }
}

fn listing_signer() -> ListingSigner {
    ListingSigner {
        marketplace: k(&marketplace_pda().0),
        seller: k(&seller()),
        mint: k(&mint_key()),
        bump: listing_pda().1,
    }
}

// ---------------------------------------------------------------- initialize

#[test]
fn initialize_accepts_the_marketplace_address() {
    let accounts = initialize_accounts();
    assert_eq!(accounts.try_accounts(), Ok(InitializeBumps { marketplace_account: marketplace_pda().1 }));
}

#[test]
fn initialize_rejects_another_address() {
    let mut accounts = initialize_accounts();
    accounts.marketplace_account.key = k(&treasury());
    assert_eq!(accounts.try_accounts(), Err(AccountsError::ConstraintSeeds));
}

#[test]
fn initialize_records_the_marketplace() {
    let accounts = initialize_accounts();
    let mut ctx = Context { accounts, bumps: InitializeBumps { marketplace_account: 254 } };
    assert_eq!(initialize_marketplace(&mut ctx, 250, k(&treasury())), Ok(()));
    let data = ctx.accounts.marketplace_account.data;
    assert_eq!(data.authority, k(&authority()));
    assert_eq!(data.fee_basis_points, 250);
    assert_eq!(data.marketplace_bump, 254);
    assert_eq!(data.treasury, k(&treasury()));
    assert_eq!(ctx.accounts.marketplace_account.key, k(&marketplace_pda().0));
}

#[test]
fn process_initialize_records_the_canonical_bump() {
    let mut accounts = initialize_accounts();
    assert_eq!(process_initialize(&mut accounts, 10_000, k(&treasury())), Ok(()));
    assert_eq!(accounts.marketplace_account.data.marketplace_bump, marketplace_pda().1);
    assert_eq!(accounts.marketplace_account.data.fee_basis_points, 10_000);
}

#[test]
fn process_initialize_leaves_rejected_accounts_alone() {
    let mut accounts = initialize_accounts();
    accounts.marketplace_account.key = k(&seller());
    let before = accounts;
    assert_eq!(
        process_initialize(&mut accounts, 250, k(&treasury())),
        Err(InstructionError::Accounts(AccountsError::ConstraintSeeds))
    );
    assert_eq!(accounts.marketplace_account.data.fee_basis_points, before.marketplace_account.data.fee_basis_points);
}

// ---------------------------------------------------------------- list

#[test]
fn list_accepts_valid_accounts() {
    assert_eq!(list_accounts().try_accounts(), Ok(list_bumps()));
}

#[test]
fn list_rejects_a_listing_at_another_address() {
    let mut a = list_accounts();
    a.listing.key = k(&treasury());
    assert_eq!(a.try_accounts(), Err(AccountsError::ConstraintSeeds));
}

#[test]
fn list_rejects_a_listing_token_account_elsewhere() {
    let mut a = list_accounts();
    a.listing_ata.key = k(&ata(&seller()));
    assert_eq!(a.try_accounts(), Err(AccountsError::InvalidSeeds));
}

#[test]
fn list_rejects_a_seller_account_of_another_wallet() {
    let mut a = list_accounts();
    a.seller_ata.owner = k(&buyer());
    assert_eq!(a.try_accounts(), Err(AccountsError::ConstraintTokenOwner));
}

#[test]
fn list_rejects_a_seller_account_at_another_address() {
    let mut a = list_accounts();
    a.seller_ata.key = k(&buyer());
    assert_eq!(a.try_accounts(), Err(AccountsError::ConstraintAssociated));
}

#[test]
fn list_rejects_a_seller_account_of_another_program() {
    let mut a = list_accounts();
    a.seller_ata.program_owner = k(&anchor_spl::token_2022::ID);
    assert_eq!(a.try_accounts(), Err(AccountsError::ConstraintAssociatedTokenTokenProgram));
}

#[test]
fn list_rejects_a_seller_account_of_no_token_program() {
    let mut a = list_accounts();
    a.seller_ata.program_owner = k(&ata_program());
    assert_eq!(a.try_accounts(), Err(AccountsError::AccountOwnedByWrongProgram));
}

#[test]
fn list_rejects_an_empty_seller_account() {
    let mut a = list_accounts();
    a.seller_ata.initialized = false;
    assert_eq!(a.try_accounts(), Err(AccountsError::AccountNotInitialized));
}

#[test]
fn list_rejects_a_mint_of_another_program() {
    let mut a = list_accounts();
    a.mint.program_owner = k(&anchor_spl::token_2022::ID);
    assert_eq!(a.try_accounts(), Err(AccountsError::ConstraintMintTokenProgram));
}

#[test]
fn list_rejects_a_mint_of_no_token_program() {
    let mut a = list_accounts();
    a.mint.program_owner = k(&ata_program());
    assert_eq!(a.try_accounts(), Err(AccountsError::AccountOwnedByWrongProgram));
}

#[test]
fn list_rejects_a_marketplace_with_another_bump() {
    let mut a = list_accounts();
    a.marketplace_account.data.marketplace_bump = marketplace_pda().1.wrapping_sub(1);
    assert_eq!(a.try_accounts(), Err(AccountsError::ConstraintSeeds));
}

#[test]
fn list_rejects_metadata_at_another_address() {
    let mut a = list_accounts();
    a.metadata.key = k(&master_edition_pda().0);
    assert_eq!(a.try_accounts(), Err(AccountsError::ConstraintSeeds));
}

#[test]
fn list_rejects_an_unverified_collection() {
    let mut a = list_accounts();
    a.metadata.collection = Some(Collection { verified: false, key: k(&collection_mint()) });
    assert_eq!(a.try_accounts(), Err(AccountsError::ConstraintRaw));
}

#[test]
fn list_rejects_another_collection() {
    let mut a = list_accounts();
    a.metadata.collection = Some(Collection { verified: true, key: k(&buyer()) });
    assert_eq!(a.try_accounts(), Err(AccountsError::ConstraintRaw));
}

#[test]
fn list_rejects_an_nft_outside_any_collection() {
    let mut a = list_accounts();
    a.metadata.collection = None;
    assert_eq!(a.try_accounts(), Err(AccountsError::ConstraintRaw));
}

#[test]
fn list_rejects_a_master_edition_at_another_address() {
    let mut a = list_accounts();
    a.master_edition = k(&metadata_pda().0);
    assert_eq!(a.try_accounts(), Err(AccountsError::ConstraintSeeds));
}

#[test]
fn initialize_listing_refuses_a_zero_price() {
    let mut a = list_accounts();
    assert_eq!(a.initialize_listing(0, &list_bumps()), Err(MarketplaceError::InvalidPrice));
    assert_eq!(a.listing.data.price, 0);
}

#[test]
fn initialize_listing_refuses_a_seller_without_the_token() {
    let mut a = list_accounts();
    a.seller_ata.amount = 0;
    assert_eq!(a.initialize_listing(5, &list_bumps()), Err(MarketplaceError::NoToken));
    assert_eq!(a.listing.data.price, 0);
}

#[test]
fn initialize_listing_checks_the_price_first() {
    let mut a = list_accounts();
    a.seller_ata.amount = 0;
    assert_eq!(a.initialize_listing(0, &list_bumps()), Err(MarketplaceError::InvalidPrice));
}

#[test]
fn initialize_listing_records_the_listing() {
    let mut a = list_accounts();
    assert_eq!(a.initialize_listing(1_500_000, &list_bumps()), Ok(()));
    let d = a.listing.data;
    assert_eq!(d.seller, k(&seller()));
    assert_eq!(d.mint, k(&mint_key()));
    assert_eq!(d.price, 1_500_000);
    assert_eq!(d.created_at, 1_700_000_000);
    assert_eq!(d.listing_bump, listing_pda().1);
}

#[test]
fn list_transfer_moves_one_token_into_the_listing() {
    let a = list_accounts();
    match a.transfer_nft() {
        Action::TransferChecked { from, mint, to, authority, amount, decimals, signer } => {
            assert_eq!(from, k(&ata(&seller())));
            assert_eq!(mint, k(&mint_key()));
            assert_eq!(to, k(&ata(&listing_pda().0)));
            assert_eq!(authority, k(&seller()));
            assert_eq!(amount, 1);
            assert_eq!(decimals, 0);
            assert!(signer.is_none());
        },
        _ => panic!("expected a token transfer"),
    }
}

#[test]
fn list_nft_records_and_deposits() {
    let mut ctx = Context { accounts: list_accounts(), bumps: list_bumps() };
    let actions = list_nft(&mut ctx, 42).unwrap();
    assert_eq!(actions.len(), 1);
    assert_eq!(ctx.accounts.listing.data.price, 42);
    assert!(matches!(actions[0], Action::TransferChecked { amount: 1, .. }));
}

#[test]
fn list_nft_refuses_a_zero_price() {
    let mut ctx = Context { accounts: list_accounts(), bumps: list_bumps() };
    assert_eq!(list_nft(&mut ctx, 0).unwrap_err(), MarketplaceError::InvalidPrice);
}

#[test]
fn process_list_lists_a_valid_offer() {
    let mut a = list_accounts();
    let actions = process_list(&mut a, 77).unwrap();
    assert_eq!(actions.len(), 1);
    assert_eq!(a.listing.data.listing_bump, listing_pda().1);
    assert_eq!(a.listing.data.price, 77);
}

#[test]
fn process_list_reports_account_errors_first() {
    let mut a = list_accounts();
    a.metadata.collection = None;
    assert_eq!(process_list(&mut a, 0).unwrap_err(), InstructionError::Accounts(AccountsError::ConstraintRaw));
}

#[test]
fn process_list_reports_a_seller_without_the_token() {
    let mut a = list_accounts();
    a.seller_ata.amount = 0;
    assert_eq!(process_list(&mut a, 3).unwrap_err(), InstructionError::Marketplace(MarketplaceError::NoToken));
    assert_eq!(a.listing.data.price, 0);
}

#[test]
fn listing_records_its_own_bump_on_concrete_accounts() {
    let mut a = list_accounts();
    process_list(&mut a, 10).unwrap();
    let (m, _) = marketplace_pda();
    let derived = Key::create_program_address(
        &[b"listing", m.as_ref(), seller().as_ref(), mint_key().as_ref(), &[a.listing.data.listing_bump]],
        &program_id(),
    )
    .unwrap();
    assert_eq!(k(&derived), a.listing.key);
}

// ---------------------------------------------------------------- delist

#[test]
fn delist_accepts_valid_accounts() {
    assert_eq!(delist_accounts().try_accounts(), Ok(DelistBumps { listing: listing_pda().1 }));
}

#[test]
fn delist_accepts_a_seller_account_yet_to_be_created() {
    let mut a = delist_accounts();
    a.seller_ata = fresh_account(ata(&seller()));
    assert!(a.try_accounts().is_ok());
}

#[test]
fn delist_rejects_a_seller_account_to_be_created_elsewhere() {
    let mut a = delist_accounts();
    a.seller_ata = fresh_account(buyer());
    assert_eq!(a.try_accounts(), Err(AccountsError::InvalidSeeds));
}

#[test]
fn delist_rejects_an_existing_seller_account_elsewhere() {
    let mut a = delist_accounts();
    a.seller_ata.key = k(&buyer());
    assert_eq!(a.try_accounts(), Err(AccountsError::AccountNotAssociatedTokenAccount));
}

#[test]
fn delist_rejects_a_seller_account_of_another_mint() {
    let mut a = delist_accounts();
    a.seller_ata.mint = k(&collection_mint());
    assert_eq!(a.try_accounts(), Err(AccountsError::ConstraintTokenMint));
}

#[test]
fn delist_rejects_another_seller() {
    let mut a = delist_accounts();
    a.listing.data.seller = k(&buyer());
    assert_eq!(a.try_accounts(), Err(AccountsError::ConstraintHasOne));
}

#[test]
fn delist_rejects_a_listing_of_another_mint() {
    let mut a = delist_accounts();
    a.listing.data.mint = k(&collection_mint());
    assert_eq!(a.try_accounts(), Err(AccountsError::ConstraintHasOne));
}

#[test]
fn delist_rejects_a_stranger_signing_as_seller() {
    let mut a = delist_accounts();
    a.seller = k(&buyer());
    a.seller_ata = fresh_account(ata(&buyer()));
    assert_eq!(a.try_accounts(), Err(AccountsError::ConstraintSeeds));
}

#[test]
fn delist_rejects_a_listing_account_of_another_wallet() {
    let mut a = delist_accounts();
    a.listing_ata.owner = k(&seller());
    assert_eq!(a.try_accounts(), Err(AccountsError::ConstraintTokenOwner));
}

#[test]
fn return_nft_moves_the_token_back_and_closes() {
    let a = delist_accounts();
    let actions = a.return_nft();
    assert_eq!(actions.len(), 2);
    let (listing, _) = listing_pda();
    match actions[0] {
        Action::TransferChecked { from, to, authority, amount, signer, .. } => {
            assert_eq!(from, k(&ata(&listing)));
            assert_eq!(to, k(&ata(&seller())));
            assert_eq!(authority, k(&listing));
            assert_eq!(amount, 1);
            assert_eq!(signer.unwrap().bump, listing_pda().1);
        },
        _ => panic!("expected a token transfer"),
    }
    match actions[1] {
        Action::CloseTokenAccount { account, destination, authority, signer } => {
            assert_eq!(account, k(&ata(&listing)));
            assert_eq!(destination, k(&seller()));
            assert_eq!(authority, k(&listing));
            assert!(signer.is_some());
        },
        _ => panic!("expected a close"),
    }
}

#[test]
fn delist_nft_returns_the_nft() {
    let ctx = Context { accounts: delist_accounts(), bumps: DelistBumps { listing: listing_pda().1 } };
    assert_eq!(delist_nft(&ctx).unwrap().len(), 2);
}

#[test]
fn process_delist_closes_the_listing() {
    let a = delist_accounts();
    let actions = process_delist(&a).unwrap();
    assert_eq!(actions.len(), 3);
    match actions[2] {
        Action::CloseProgramAccount { account, destination } => {
            assert_eq!(account, k(&listing_pda().0));
            assert_eq!(destination, k(&seller()));
        },
        _ => panic!("expected the listing closed"),
    }
}

#[test]
fn process_delist_refuses_another_seller() {
    let mut a = delist_accounts();
    a.listing.data.seller = k(&buyer());
    assert_eq!(process_delist(&a).unwrap_err(), InstructionError::Accounts(AccountsError::ConstraintHasOne));
}

#[test]
fn delist_reverses_list_on_concrete_accounts() {
    let l = list_accounts();
    let d = delist_accounts();
    assert!(l.try_accounts().is_ok());
    assert!(d.try_accounts().is_ok());
    let deposit = l.transfer_nft();
    let back = d.return_nft();
    match (deposit, back[0]) {
        (
            Action::TransferChecked { from, to, mint, amount, .. },
            Action::TransferChecked { from: bf, to: bt, mint: bm, amount: ba, .. },
        ) => {
            assert_eq!(bf, to);
            assert_eq!(bt, from);
            assert_eq!(bm, mint);
            assert_eq!(ba, amount);
        },
        _ => panic!("expected token transfers"),
    }
}

#[test]
fn listing_signer_seeds_derive_the_listing() {
    let seeds = listing_signer().seeds();
    let refs: Vec<&[u8]> = seeds.iter().map(|s| s.as_slice()).collect();
    assert_eq!(seeds.len(), 5);
    assert_eq!(seeds[0], b"listing".to_vec());
    let derived = Key::create_program_address(&refs, &program_id()).unwrap();
    assert_eq!(derived, listing_pda().0);
}

// ---------------------------------------------------------------- purchase

#[test]
fn purchase_accepts_valid_accounts() {
    assert_eq!(purchase_accounts(1_000_000, 250).try_accounts(), Ok(()));
}

#[test]
fn purchase_rejects_another_treasury() {
    let mut a = purchase_accounts(1_000_000, 250);
    a.treasury = k(&buyer());
    assert_eq!(a.try_accounts(), Err(AccountsError::ConstraintRaw));
}

#[test]
fn purchase_rejects_paying_another_seller() {
    let mut a = purchase_accounts(1_000_000, 250);
    a.seller = k(&buyer());
    assert_eq!(a.try_accounts(), Err(AccountsError::ConstraintSeeds));
}

#[test]
fn purchase_rejects_a_listing_with_another_bump() {
    let mut a = purchase_accounts(1_000_000, 250);
    a.listing.data.listing_bump = listing_pda().1.wrapping_sub(1);
    assert_eq!(a.try_accounts(), Err(AccountsError::ConstraintSeeds));
}

#[test]
fn purchase_rejects_a_buyer_account_of_another_wallet() {
    let mut a = purchase_accounts(1_000_000, 250);
    a.buyer_ata = token_account(ata(&buyer()), seller(), 0);
    assert_eq!(a.try_accounts(), Err(AccountsError::ConstraintTokenOwner));
}

#[test]
fn purchase_accepts_an_existing_buyer_account() {
    let mut a = purchase_accounts(1_000_000, 250);
    a.buyer_ata = token_account(ata(&buyer()), buyer(), 3);
    assert_eq!(a.try_accounts(), Ok(()));
}

fn payment_lamports(actions: &[Action]) -> (Pubkey, u64, Pubkey, u64) {
    match (actions[0], actions[1]) {
        (
            Action::SystemTransfer { from: f1, to: t1, lamports: l1 },
            Action::SystemTransfer { from: f2, to: t2, lamports: l2 },
        ) => {
            assert_eq!(f1, k(&buyer()));
            assert_eq!(f2, k(&buyer()));
            (t1, l1, t2, l2)
        },
        _ => panic!("expected lamport transfers"),
    }
}

#[test]
fn payment_splits_the_price() {
    let a = purchase_accounts(1_000_000, 250);
    let (t1, fee, t2, rest) = payment_lamports(&a.process_payment());
    assert_eq!(t1, k(&treasury()));
    assert_eq!(fee, 25_000);
    assert_eq!(t2, k(&seller()));
    assert_eq!(rest, 975_000);
}

#[test]
fn payment_rounds_the_fee_down() {
    let a = purchase_accounts(999, 100);
    let (_, fee, _, rest) = payment_lamports(&a.process_payment());
    assert_eq!(fee, 9);
    assert_eq!(rest, 990);
}

#[test]
fn payment_without_fee_pays_the_seller_all() {
    let a = purchase_accounts(5_000, 0);
    let (_, fee, _, rest) = payment_lamports(&a.process_payment());
    assert_eq!(fee, 0);
    assert_eq!(rest, 5_000);
}

#[test]
fn payment_of_the_whole_price_as_fee() {
    let a = purchase_accounts(5_000, 10_000);
    let (_, fee, _, rest) = payment_lamports(&a.process_payment());
    assert_eq!(fee, 5_000);
    assert_eq!(rest, 0);
}

#[test]
fn payment_of_the_largest_price() {
    let a = purchase_accounts(u64::MAX, 10_000);
    let (_, fee, _, rest) = payment_lamports(&a.process_payment());
    assert_eq!(fee, u64::MAX);
    assert_eq!(rest, 0);
}

#[test]
fn purchase_transfer_delivers_to_the_buyer() {
    let a = purchase_accounts(1_000, 250);
    let actions = a.transfer_nft();
    let (listing, _) = listing_pda();
    match actions[0] {
        Action::TransferChecked { from, to, authority, amount, .. } => {
            assert_eq!(from, k(&ata(&listing)));
            assert_eq!(to, k(&ata(&buyer())));
            assert_eq!(authority, k(&listing));
            assert_eq!(amount, 1);
        },
        _ => panic!("expected a token transfer"),
    }
    assert!(matches!(actions[1], Action::CloseTokenAccount { .. }));
}

#[test]
fn purchase_nft_pays_then_delivers() {
    let ctx = Context { accounts: purchase_accounts(1_000, 250), bumps: () };
    let actions = purchase_nft(&ctx).unwrap();
    assert_eq!(actions.len(), 4);
    assert!(matches!(actions[0], Action::SystemTransfer { lamports: 25, .. }));
    assert!(matches!(actions[1], Action::SystemTransfer { lamports: 975, .. }));
    assert!(matches!(actions[2], Action::TransferChecked { .. }));
    assert!(matches!(actions[3], Action::CloseTokenAccount { .. }));
}

#[test]
fn process_purchase_closes_the_listing() {
    let a = purchase_accounts(1_000, 250);
    let actions = process_purchase(&a).unwrap();
    assert_eq!(actions.len(), 5);
    assert!(matches!(actions[4], Action::CloseProgramAccount { .. }));
}

#[test]
fn process_purchase_refuses_another_treasury() {
    let mut a = purchase_accounts(1_000, 250);
    a.treasury = k(&seller());
    assert_eq!(process_purchase(&a).unwrap_err(), InstructionError::Accounts(AccountsError::ConstraintRaw));
}

#[test]
fn fee_goes_to_the_marketplace_treasury_on_concrete_accounts() {
    let a = purchase_accounts(400, 500);
    assert!(a.try_accounts().is_ok());
    let (t1, fee, _, _) = payment_lamports(&a.process_payment());
    assert_eq!(t1, a.marketplace_account.data.treasury);
    assert_eq!(fee, 20);
}

#[test]
fn buyer_pays_the_price_on_concrete_accounts() {
    let a = purchase_accounts(123_456_789, 333);
    let (_, fee, _, rest) = payment_lamports(&a.process_payment());
    assert_eq!(fee + rest, 123_456_789);
    assert_eq!(fee, 4_111_111);
}

// ---------------------------------------------------------------- errors

#[test]
fn marketplace_error_messages() {
    assert_eq!(MarketplaceError::InvalidPrice.message(), "The price must be greater than 0");
    assert_eq!(MarketplaceError::NoToken.message(), "You must have at least one token.");
}

#[test]
fn purchase_delivers_the_listing_on_concrete_accounts() {
    let mut l = list_accounts();
    let listed = process_list(&mut l, 2_000).unwrap();
    let mut p = purchase_accounts(0, 250);
    p.listing = l.listing;
    assert_eq!(p.try_accounts(), Ok(()));
    let actions = process_purchase(&p).unwrap();
    match (listed[0], actions[2]) {
        (Action::TransferChecked { to, .. }, Action::TransferChecked { from, amount, .. }) => {
            assert_eq!(from, to);
            assert_eq!(amount, 1);
        },
        _ => panic!("expected token transfers"),
    }
    let (t1, fee, t2, rest) = payment_lamports(&actions);
    assert_eq!(t1, k(&treasury()));
    assert_eq!(t2, l.seller);
    assert_eq!(fee, 50);
    assert_eq!(fee + rest, 2_000);
}

#[test]
fn marketplace_records_its_own_bump_on_concrete_accounts() {
    let mut i = initialize_accounts();
    process_initialize(&mut i, 300, k(&treasury())).unwrap();
    let mut l = list_accounts();
    l.marketplace_account = i.marketplace_account;
    assert_eq!(l.try_accounts(), Ok(list_bumps()));
    let mut p = purchase_accounts(1_000, 0);
    p.marketplace_account = i.marketplace_account;
    assert_eq!(p.try_accounts(), Ok(()));
    let (_, fee, _, _) = payment_lamports(&p.process_payment());
    assert_eq!(fee, 30);
}

// ---------------------------------------------------------------- loading

#[test]
fn initialize_requires_the_authority_signature() {
    let mut a = initialize_accounts();
    a.authority_signed = false;
    assert_eq!(a.try_accounts(), Err(AccountsError::AccountNotSigner));
}

#[test]
fn list_requires_the_seller_signature() {
    let mut a = list_accounts();
    a.seller_signed = false;
    a.listing.key = k(&treasury());
    assert_eq!(a.try_accounts(), Err(AccountsError::AccountNotSigner));
}

#[test]
fn list_rejects_an_uninitialized_collection_mint() {
    let mut a = list_accounts();
    a.collection_mint.initialized = false;
    assert_eq!(a.try_accounts(), Err(AccountsError::AccountNotInitialized));
}

#[test]
fn list_rejects_a_foreign_token_program() {
    let mut a = list_accounts();
    a.token_program = k(&ata_program());
    assert_eq!(a.try_accounts(), Err(AccountsError::InvalidProgramId));
}

#[test]
fn list_rejects_a_foreign_associated_token_program() {
    let mut a = list_accounts();
    a.associated_token_program = k(&token_program());
    assert_eq!(a.try_accounts(), Err(AccountsError::InvalidProgramId));
}

#[test]
fn list_rejects_an_escrow_that_already_exists() {
    let mut a = list_accounts();
    a.listing_ata.initialized = true;
    assert_eq!(a.try_accounts(), Err(AccountsError::AccountAlreadyInUse));
}

#[test]
fn delist_requires_the_seller_signature() {
    let mut a = delist_accounts();
    a.seller_signed = false;
    assert_eq!(a.try_accounts(), Err(AccountsError::AccountNotSigner));
    assert_eq!(process_delist(&a).unwrap_err(), InstructionError::Accounts(AccountsError::AccountNotSigner));
}

#[test]
fn delist_reports_an_empty_escrow_before_other_accounts() {
    let mut a = delist_accounts();
    a.seller_ata.key = k(&buyer());
    a.listing_ata.initialized = false;
    assert_eq!(a.try_accounts(), Err(AccountsError::AccountNotInitialized));
}

#[test]
fn delist_rejects_a_foreign_associated_token_program() {
    let mut a = delist_accounts();
    a.associated_token_program = k(&seller());
    assert_eq!(a.try_accounts(), Err(AccountsError::InvalidProgramId));
}

#[test]
fn purchase_requires_the_buyer_signature() {
    let mut a = purchase_accounts(1_000, 250);
    a.buyer_signed = false;
    assert_eq!(a.try_accounts(), Err(AccountsError::AccountNotSigner));
}

#[test]
fn purchase_derives_the_buyer_account_under_the_given_token_program() {
    let mut a = purchase_accounts(1_000, 250);
    a.token_program = k(&anchor_spl::token_2022::ID);
    assert_eq!(a.try_accounts(), Err(AccountsError::InvalidSeeds));
}

#[test]
fn purchase_rejects_a_foreign_token_program() {
    let mut a = purchase_accounts(1_000, 250);
    a.token_program = k(&seller());
    assert_eq!(a.try_accounts(), Err(AccountsError::InvalidProgramId));
}

#[test]
fn a_listing_cannot_close_to_itself() {
    let key = k(&listing_pda().0);
    assert_eq!(marketplace::constraints::check_close_to(&key, &key), Err(AccountsError::ConstraintClose));
    assert_eq!(marketplace::constraints::check_close_to(&key, &k(&seller())), Ok(()));
}
