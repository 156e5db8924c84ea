//! The ids of the outside programs that the marketplace works with.
use vstd::prelude::*;

use crate::pubkey::Pubkey;

verus! {

/// `ATokenGPvbdGVxr1b2hvZbsiqW5xWH25efTNsLJA8knL`, the associated token program.
pub open spec fn associated_token_program_key() -> Seq<u8> {
    seq![
        140u8, 151, 37, 143, 78, 36, 137, 241, 187, 61, 16, 41, 20, 142, 13, 131,
        11, 90, 19, 153, 218, 255, 16, 132, 4, 142, 123, 216, 219, 233, 248, 89,
    ]
}

/// `TokenkegQfeZyiNwAJbNbGKPFXCWuBvf9Ss623VQ5DA`, the token program.
pub open spec fn token_program_key() -> Seq<u8> {
    seq![
        6u8, 221, 246, 225, 215, 101, 161, 147, 217, 203, 225, 70, 206, 235, 121, 172,
        28, 180, 133, 237, 95, 91, 55, 145, 58, 140, 245, 133, 126, 255, 0, 169,
    ]
}

/// `TokenzQdBNbLqP5VEhdkAS6EPFLC1PHnBqCXEpPxuEb`, the token-2022 program.
pub open spec fn token_2022_program_key() -> Seq<u8> {
    seq![
        6u8, 221, 246, 225, 238, 117, 143, 222, 24, 66, 93, 188, 228, 108, 205, 218,
        182, 26, 252, 77, 131, 185, 13, 39, 254, 189, 249, 40, 216, 161, 139, 252,
    ]
}

/// `metaqbxxUerdq28cj1RbAWkYQm3ybzjb6a8bt518x1s`, the token metadata program.
pub open spec fn metadata_program_key() -> Seq<u8> {
    seq![
        11u8, 112, 101, 177, 227, 209, 124, 69, 56, 157, 82, 127, 107, 4, 195, 205,
        88, 184, 108, 115, 26, 160, 253, 181, 73, 182, 209, 188, 3, 248, 41, 70,
    ]
}

/// Whether `key` is one of the two token programs that own token accounts and
/// mints.
pub open spec fn is_token_program(key: Seq<u8>) -> bool {
    key == token_program_key() || key == token_2022_program_key()
}

/// `anchor_spl::associated_token::ID`, declared in
/// `spl-associated-token-account-client` from the string above.
#[verifier::external_body]
pub fn associated_token_program_id() -> (r: Pubkey)
    ensures
        r@ == associated_token_program_key(),
{
    Pubkey(anchor_spl::associated_token::ID.to_bytes())
}

/// `anchor_spl::token::ID`, declared in `spl-token` from the string above.
#[verifier::external_body]
pub fn token_program_id() -> (r: Pubkey)
    ensures
        r@ == token_program_key(),
{
    Pubkey(anchor_spl::token::ID.to_bytes())
}

/// `anchor_spl::token_2022::ID`, declared in `spl-token-2022` from the string
/// above.
#[verifier::external_body]
pub fn token_2022_program_id() -> (r: Pubkey)
    ensures
        r@ == token_2022_program_key(),
{
    Pubkey(anchor_spl::token_2022::ID.to_bytes())
}

/// `anchor_spl::metadata::ID`, declared in `mpl-token-metadata` from the
/// string above.
#[verifier::external_body]
pub fn metadata_program_id() -> (r: Pubkey)
    ensures
        r@ == metadata_program_key(),
{
    Pubkey(anchor_spl::metadata::ID.to_bytes())
}

} // verus!
