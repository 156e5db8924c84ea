//! The checks that an instruction makes of its accounts, each in the order in
//! which it makes them.
use vstd::prelude::*;

use crate::error::AccountsError;
use crate::programs::{
    associated_token_program_id, associated_token_program_key, is_token_program, token_2022_program_id,
    token_program_id,
};
use crate::pubkey::{
    associated_token_address, create_program_address, find_from, find_pda, get_associated_token_address,
    program_address, same_key, try_find_program_address, Pubkey,
};
use crate::state::{with_bump, Mint, TokenAccount};

verus! {

/// `c`, where it is an error; `rest` otherwise.
pub open spec fn guard<T>(c: Result<(), AccountsError>, rest: Result<T, AccountsError>) -> Result<T, AccountsError> {
    match c {
        Err(e) => Err(e),
        Ok(_) => rest,
    }
}

/// An account that must stand at the canonical address of `seeds`: gives the
/// canonical bump. Where no bump in `1..=255` derives an address, the search
/// of `Pubkey::find_program_address` panics; this check reports
/// `NoViableBump` there instead, and a caller that must fail as that search
/// does panics on it.
pub open spec fn pda_found(key: Seq<u8>, seeds: Seq<Seq<u8>>, program_id: Seq<u8>) -> Result<u8, AccountsError> {
    match find_pda(seeds, program_id) {
        None => Err(AccountsError::NoViableBump),
        Some((k, b)) => if key == k {
            Ok(b)
        } else {
            Err(AccountsError::ConstraintSeeds)
        },
    }
}

/// An account that must stand at the address that `seeds` (bump included)
/// derive.
pub open spec fn pda_at(key: Seq<u8>, seeds: Seq<Seq<u8>>, program_id: Seq<u8>) -> Result<(), AccountsError> {
    match program_address(seeds, program_id) {
        Some(k) => if key == k {
            Ok(())
        } else {
            Err(AccountsError::ConstraintSeeds)
        },
        None => Err(AccountsError::ConstraintSeeds),
    }
}

/// An account that must stand at the address of `seeds` with a given bump.
pub open spec fn pda_with_bump(key: Seq<u8>, seeds: Seq<Seq<u8>>, bump: u8, program_id: Seq<u8>) -> Result<(), AccountsError> {
    pda_at(key, with_bump(seeds, bump), program_id)
}

/// The address check of an associated token account.
pub open spec fn ata_address(
    key: Seq<u8>,
    wallet: Seq<u8>,
    mint: Seq<u8>,
    token_program: Seq<u8>,
    mismatch: AccountsError,
) -> Result<(), AccountsError> {
    match associated_token_address(wallet, mint, token_program) {
        None => Err(AccountsError::NoViableBump),
        Some(k) => if key == k {
            Ok(())
        } else {
            Err(mismatch)
        },
    }
}

/// An account that the associated token program is to create as the
/// associated token account of `wallet` for `mint`: it refuses, with
/// `InvalidSeeds`, an address other than that one, and the system program then
/// refuses an account that already exists.
pub open spec fn ata_created(acc: TokenAccount, wallet: Seq<u8>, mint: Seq<u8>, token_program: Seq<u8>) -> Result<(), AccountsError> {
    guard(
        ata_address(acc.key@, wallet, mint, token_program, AccountsError::InvalidSeeds),
        if acc.initialized {
            Err(AccountsError::AccountAlreadyInUse)
        } else {
            Ok(())
        },
    )
}

/// An associated token account that is created where it does not exist yet;
/// where it exists, it must hold `mint` for `wallet` under `token_program`.
pub open spec fn ata_if_needed(acc: TokenAccount, wallet: Seq<u8>, mint: Seq<u8>, token_program: Seq<u8>) -> Result<(), AccountsError> {
    if !acc.initialized {
        ata_created(acc, wallet, mint, token_program)
    } else if acc.mint@ != mint {
        Err(AccountsError::ConstraintTokenMint)
    } else if acc.owner@ != wallet {
        Err(AccountsError::ConstraintTokenOwner)
    } else if acc.program_owner@ != token_program {
        Err(AccountsError::ConstraintAssociatedTokenTokenProgram)
    } else {
        ata_address(acc.key@, wallet, mint, token_program, AccountsError::AccountNotAssociatedTokenAccount)
    }
}

/// An existing associated token account of `wallet` for `mint`.
pub open spec fn ata_existing(acc: TokenAccount, wallet: Seq<u8>, mint: Seq<u8>, token_program: Seq<u8>) -> Result<(), AccountsError> {
    if acc.program_owner@ != token_program {
        Err(AccountsError::ConstraintAssociatedTokenTokenProgram)
    } else if acc.owner@ != wallet {
        Err(AccountsError::ConstraintTokenOwner)
    } else {
        ata_address(acc.key@, wallet, mint, token_program, AccountsError::ConstraintAssociated)
    }
}

/// A mint owned by `token_program`.
pub open spec fn mint_of_program(mint: Mint, token_program: Seq<u8>) -> Result<(), AccountsError> {
    if mint.program_owner@ == token_program {
        Ok(())
    } else {
        Err(AccountsError::ConstraintMintTokenProgram)
    }
}

/// A field of a program account that must name a given account.
pub open spec fn has_one(field: Seq<u8>, target: Seq<u8>) -> Result<(), AccountsError> {
    if field == target {
        Ok(())
    } else {
        Err(AccountsError::ConstraintHasOne)
    }
}

/// A condition that must hold.
pub open spec fn raw(cond: bool) -> Result<(), AccountsError> {
    if cond {
        Ok(())
    } else {
        Err(AccountsError::ConstraintRaw)
    }
}

/// An account closed at the end of the instruction, whose lamports must go to
/// another account.
pub open spec fn close_to(account: Seq<u8>, destination: Seq<u8>) -> Result<(), AccountsError> {
    if account != destination {
        Ok(())
    } else {
        Err(AccountsError::ConstraintClose)
    }
}

/// An account that must sign.
pub open spec fn signer(signed: bool) -> Result<(), AccountsError> {
    if signed {
        Ok(())
    } else {
        Err(AccountsError::AccountNotSigner)
    }
}

/// Loading a token account that must exist: it holds data and is owned by a
/// token program.
pub open spec fn token_account_loaded(acc: TokenAccount) -> Result<(), AccountsError> {
    if !acc.initialized {
        Err(AccountsError::AccountNotInitialized)
    } else if !is_token_program(acc.program_owner@) {
        Err(AccountsError::AccountOwnedByWrongProgram)
    } else {
        Ok(())
    }
}

/// Loading a mint: it holds data and is owned by a token program.
pub open spec fn mint_loaded(mint: Mint) -> Result<(), AccountsError> {
    if !mint.initialized {
        Err(AccountsError::AccountNotInitialized)
    } else if !is_token_program(mint.program_owner@) {
        Err(AccountsError::AccountOwnedByWrongProgram)
    } else {
        Ok(())
    }
}

/// The token program given: one of the two token programs.
pub open spec fn token_interface(key: Seq<u8>) -> Result<(), AccountsError> {
    if is_token_program(key) {
        Ok(())
    } else {
        Err(AccountsError::InvalidProgramId)
    }
}

/// The associated token program given.
pub open spec fn associated_token_program(key: Seq<u8>) -> Result<(), AccountsError> {
    if key == associated_token_program_key() {
        Ok(())
    } else {
        Err(AccountsError::InvalidProgramId)
    }
}

pub fn check_pda_found(key: &Pubkey, seeds: &Vec<Vec<u8>>, program_id: &Pubkey) -> (r: Result<u8, AccountsError>)
    ensures
        r == pda_found(key@, seeds.deep_view(), program_id@),
{
    match try_find_program_address(seeds, program_id) {
        None => Err(AccountsError::NoViableBump),
        Some((k, b)) => if same_key(key, &k) {
            Ok(b)
        } else {
            Err(AccountsError::ConstraintSeeds)
        },
    }
}

pub fn check_pda_at(key: &Pubkey, seeds: &Vec<Vec<u8>>, program_id: &Pubkey) -> (r: Result<(), AccountsError>)
    ensures
        r == pda_at(key@, seeds.deep_view(), program_id@),
{
    match create_program_address(seeds, program_id) {
        Some(k) => if same_key(key, &k) {
            Ok(())
        } else {
            Err(AccountsError::ConstraintSeeds)
        },
        None => Err(AccountsError::ConstraintSeeds),
    }
}

pub fn check_ata_address(
    key: &Pubkey,
    wallet: &Pubkey,
    mint: &Pubkey,
    token_program: &Pubkey,
    mismatch: AccountsError,
) -> (r: Result<(), AccountsError>)
    ensures
        r == ata_address(key@, wallet@, mint@, token_program@, mismatch),
{
    match get_associated_token_address(wallet, mint, token_program) {
        None => Err(AccountsError::NoViableBump),
        Some(k) => if same_key(key, &k) {
            Ok(())
        } else {
            Err(mismatch)
        },
    }
}

pub fn check_ata_created(acc: &TokenAccount, wallet: &Pubkey, mint: &Pubkey, token_program: &Pubkey) -> (r: Result<(), AccountsError>)
    ensures
        r == ata_created(*acc, wallet@, mint@, token_program@),
{
    check_ata_address(&acc.key, wallet, mint, token_program, AccountsError::InvalidSeeds)?;
    if acc.initialized {
        Err(AccountsError::AccountAlreadyInUse)
    } else {
        Ok(())
    }
}

pub fn check_ata_if_needed(acc: &TokenAccount, wallet: &Pubkey, mint: &Pubkey, token_program: &Pubkey) -> (r: Result<(), AccountsError>)
    ensures
        r == ata_if_needed(*acc, wallet@, mint@, token_program@),
{
    if !acc.initialized {
        check_ata_created(acc, wallet, mint, token_program)
    } else if !same_key(&acc.mint, mint) {
        Err(AccountsError::ConstraintTokenMint)
    } else if !same_key(&acc.owner, wallet) {
        Err(AccountsError::ConstraintTokenOwner)
    } else if !same_key(&acc.program_owner, token_program) {
        Err(AccountsError::ConstraintAssociatedTokenTokenProgram)
    } else {
        check_ata_address(&acc.key, wallet, mint, token_program, AccountsError::AccountNotAssociatedTokenAccount)
    }
}

pub fn check_ata_existing(acc: &TokenAccount, wallet: &Pubkey, mint: &Pubkey, token_program: &Pubkey) -> (r: Result<(), AccountsError>)
    ensures
        r == ata_existing(*acc, wallet@, mint@, token_program@),
{
    if !same_key(&acc.program_owner, token_program) {
        Err(AccountsError::ConstraintAssociatedTokenTokenProgram)
    } else if !same_key(&acc.owner, wallet) {
        Err(AccountsError::ConstraintTokenOwner)
    } else {
        check_ata_address(&acc.key, wallet, mint, token_program, AccountsError::ConstraintAssociated)
    }
}

pub fn check_mint_of_program(mint: &Mint, token_program: &Pubkey) -> (r: Result<(), AccountsError>)
    ensures
        r == mint_of_program(*mint, token_program@),
{
    if same_key(&mint.program_owner, token_program) {
        Ok(())
    } else {
        Err(AccountsError::ConstraintMintTokenProgram)
    }
}

pub fn check_has_one(field: &Pubkey, target: &Pubkey) -> (r: Result<(), AccountsError>)
    ensures
        r == has_one(field@, target@),
{
    if same_key(field, target) {
        Ok(())
    } else {
        Err(AccountsError::ConstraintHasOne)
    }
}

pub fn check_close_to(account: &Pubkey, destination: &Pubkey) -> (r: Result<(), AccountsError>)
    ensures
        r == close_to(account@, destination@),
{
    if same_key(account, destination) {
        Err(AccountsError::ConstraintClose)
    } else {
        Ok(())
    }
}

pub fn check_signer(signed: bool) -> (r: Result<(), AccountsError>)
    ensures
        r == signer(signed),
{
    if signed {
        Ok(())
    } else {
        Err(AccountsError::AccountNotSigner)
    }
}

/// Tells whether `key` is one of the two token programs.
pub fn is_token_program_key(key: &Pubkey) -> (r: bool)
    ensures
        r == is_token_program(key@),
{
    let token = token_program_id();
    let token_2022 = token_2022_program_id();
    same_key(key, &token) || same_key(key, &token_2022)
}

pub fn check_token_account_loaded(acc: &TokenAccount) -> (r: Result<(), AccountsError>)
    ensures
        r == token_account_loaded(*acc),
{
    if !acc.initialized {
        Err(AccountsError::AccountNotInitialized)
    } else if !is_token_program_key(&acc.program_owner) {
        Err(AccountsError::AccountOwnedByWrongProgram)
    } else {
        Ok(())
    }
}

pub fn check_mint_loaded(mint: &Mint) -> (r: Result<(), AccountsError>)
    ensures
        r == mint_loaded(*mint),
{
    if !mint.initialized {
        Err(AccountsError::AccountNotInitialized)
    } else if !is_token_program_key(&mint.program_owner) {
        Err(AccountsError::AccountOwnedByWrongProgram)
    } else {
        Ok(())
    }
}

pub fn check_token_interface(key: &Pubkey) -> (r: Result<(), AccountsError>)
    ensures
        r == token_interface(key@),
{
    if is_token_program_key(key) {
        Ok(())
    } else {
        Err(AccountsError::InvalidProgramId)
    }
}

pub fn check_associated_token_program(key: &Pubkey) -> (r: Result<(), AccountsError>)
    ensures
        r == associated_token_program(key@),
{
    let ata_program = associated_token_program_id();
    if same_key(key, &ata_program) {
        Ok(())
    } else {
        Err(AccountsError::InvalidProgramId)
    }
}

/// Where `find_from` finds a bump, that bump is in range and derives the
/// address found.
pub proof fn lemma_find_from_derives(seeds: Seq<Seq<u8>>, program_id: Seq<u8>, bump: u8)
    ensures
        find_from(seeds, program_id, bump) matches Some((k, b)) ==> {
            &&& b <= bump
            &&& program_address(with_bump(seeds, b), program_id) == Some(k)
        },
    decreases bump,
{
    if bump > 1 && program_address(seeds.push(seq![bump]), program_id) is None {
        lemma_find_from_derives(seeds, program_id, (bump - 1) as u8);
    }
}

} // verus!
