//! The program's accounts, and the views of other accounts that its
//! instructions read.
use vstd::prelude::*;

use crate::pubkey::{key_bytes, Pubkey};

verus! {

/// The marketplace's configuration, stored at the address derived from the
/// seed `"marketplace"`.
#[derive(Clone, Copy, Debug)]
pub struct MarketplaceAccount {
    /// The account that initialized the marketplace.
    pub authority: Pubkey,
    /// The fee that the marketplace takes from each sale, in hundredths of a
    /// percent of the price.
    pub fee_basis_points: u16,
    /// The bump seed of the marketplace account's address.
    pub marketplace_bump: u8,
    /// The account that receives the fees.
    pub treasury: Pubkey,
}

/// One NFT offered for sale, stored at the address derived from
/// `["listing", marketplace, seller, mint]`.
#[derive(Clone, Copy, Debug)]
pub struct ListingAccount {
    /// The account that listed the NFT.
    pub seller: Pubkey,
    /// The mint of the listed NFT.
    pub mint: Pubkey,
    /// The price, in lamports.
    pub price: u64,
    /// The time of listing, in seconds since the Unix epoch.
    pub created_at: i64,
    /// The bump seed of the listing account's address.
    pub listing_bump: u8,
}

/// A program account: its address and its data.
#[derive(Clone, Copy, Debug)]
pub struct Account<T> {
    pub key: Pubkey,
    pub data: T,
}

/// What an instruction reads of a token account.
#[derive(Clone, Copy, Debug)]
pub struct TokenAccount {
    pub key: Pubkey,
    /// Whether the account holds token-account data at the start of the
    /// instruction.
    pub initialized: bool,
    /// The program that owns the account.
    pub program_owner: Pubkey,
    pub mint: Pubkey,
    /// The wallet that owns the tokens.
    pub owner: Pubkey,
    pub amount: u64,
}

/// What an instruction reads of a mint account.
#[derive(Clone, Copy, Debug)]
pub struct Mint {
    pub key: Pubkey,
    /// Whether the account holds mint data.
    pub initialized: bool,
    /// The program that owns the account.
    pub program_owner: Pubkey,
    pub decimals: u8,
}

/// The collection that an NFT's metadata names.
#[derive(Clone, Copy, Debug)]
pub struct Collection {
    pub verified: bool,
    pub key: Pubkey,
}

/// What an instruction reads of a token-metadata account.
#[derive(Clone, Copy, Debug)]
pub struct Metadata {
    pub key: Pubkey,
    pub collection: Option<Collection>,
}

/// The seed `"marketplace"`.
pub open spec fn marketplace_tag() -> Seq<u8> {
    seq![109u8, 97, 114, 107, 101, 116, 112, 108, 97, 99, 101]
}

/// The seed `"listing"`.
pub open spec fn listing_tag() -> Seq<u8> {
    seq![108u8, 105, 115, 116, 105, 110, 103]
}

/// The seed `"metadata"`.
pub open spec fn metadata_tag() -> Seq<u8> {
    seq![109u8, 101, 116, 97, 100, 97, 116, 97]
}

/// The seed `"edition"`.
pub open spec fn edition_tag() -> Seq<u8> {
    seq![101u8, 100, 105, 116, 105, 111, 110]
}

/// The seeds of the marketplace account's address, without the bump.
pub open spec fn marketplace_seeds() -> Seq<Seq<u8>> {
    seq![marketplace_tag()]
}

/// The seeds of a listing's address, without the bump.
pub open spec fn listing_seeds(marketplace: Seq<u8>, seller: Seq<u8>, mint: Seq<u8>) -> Seq<Seq<u8>> {
    seq![listing_tag(), marketplace, seller, mint]
}

/// The seeds of an NFT's metadata address, for the metadata program.
pub open spec fn metadata_seeds(metadata_program: Seq<u8>, mint: Seq<u8>) -> Seq<Seq<u8>> {
    seq![metadata_tag(), metadata_program, mint]
}

/// The seeds of an NFT's master edition address, for the metadata program.
pub open spec fn master_edition_seeds(metadata_program: Seq<u8>, mint: Seq<u8>) -> Seq<Seq<u8>> {
    seq![metadata_tag(), metadata_program, mint, edition_tag()]
}

/// A seed list with a bump seed at its end.
pub open spec fn with_bump(seeds: Seq<Seq<u8>>, bump: u8) -> Seq<Seq<u8>> {
    seeds.push(seq![bump])
}

proof fn lemma_deep_view_one(v: Vec<u8>, s: Seq<u8>)
    requires
        v@ == s,
    ensures
        v.deep_view() == s,
{
    assert(v.deep_view() =~= s);
}

/// Builds `marketplace_seeds()`, with the bump at the end where one is given.
pub fn build_marketplace_seeds(bump: Option<u8>) -> (r: Vec<Vec<u8>>)
    ensures
        bump is None ==> r.deep_view() == marketplace_seeds(),
        bump matches Some(b) ==> r.deep_view() == with_bump(marketplace_seeds(), b),
{
    let tag: Vec<u8> = vec![109u8, 97, 114, 107, 101, 116, 112, 108, 97, 99, 101];
    assert(tag@ =~= marketplace_tag());
    let mut r: Vec<Vec<u8>> = Vec::new();
    r.push(tag);
    proof {
        lemma_deep_view_one(r@[0], marketplace_tag());
    }
    match bump {
        None => {
            assert(r.deep_view() =~= marketplace_seeds());
        },
        Some(b) => {
            let bv: Vec<u8> = vec![b];
            assert(bv@ =~= seq![b]);
            r.push(bv);
            proof {
                lemma_deep_view_one(r@[1], seq![b]);
            }
            assert(r.deep_view() =~= with_bump(marketplace_seeds(), b));
        },
    }
    r
}

/// Builds `listing_seeds(marketplace, seller, mint)`, with the bump at the end
/// where one is given.
pub fn build_listing_seeds(marketplace: &Pubkey, seller: &Pubkey, mint: &Pubkey, bump: Option<u8>) -> (r: Vec<Vec<u8>>)
    ensures
        bump is None ==> r.deep_view() == listing_seeds(marketplace@, seller@, mint@),
        bump matches Some(b) ==> r.deep_view() == with_bump(listing_seeds(marketplace@, seller@, mint@), b),
{
    let tag: Vec<u8> = vec![108u8, 105, 115, 116, 105, 110, 103];
    assert(tag@ =~= listing_tag());
    let mut r: Vec<Vec<u8>> = Vec::new();
    r.push(tag);
    r.push(key_bytes(marketplace));
    r.push(key_bytes(seller));
    r.push(key_bytes(mint));
    proof {
        lemma_deep_view_one(r@[0], listing_tag());
        lemma_deep_view_one(r@[1], marketplace@);
        lemma_deep_view_one(r@[2], seller@);
        lemma_deep_view_one(r@[3], mint@);
    }
    match bump {
        None => {
            assert(r.deep_view() =~= listing_seeds(marketplace@, seller@, mint@));
        },
        Some(b) => {
            let bv: Vec<u8> = vec![b];
            assert(bv@ =~= seq![b]);
            r.push(bv);
            proof {
                lemma_deep_view_one(r@[4], seq![b]);
            }
            assert(r.deep_view() =~= with_bump(listing_seeds(marketplace@, seller@, mint@), b));
        },
    }
    r
}

/// Builds the seeds of an NFT's metadata address (`edition` false) or of its
/// master edition address (`edition` true).
pub fn build_metadata_seeds(metadata_program: &Pubkey, mint: &Pubkey, edition: bool) -> (r: Vec<Vec<u8>>)
    ensures
        !edition ==> r.deep_view() == metadata_seeds(metadata_program@, mint@),
        edition ==> r.deep_view() == master_edition_seeds(metadata_program@, mint@),
{
    let tag: Vec<u8> = vec![109u8, 101, 116, 97, 100, 97, 116, 97];
    assert(tag@ =~= metadata_tag());
    let mut r: Vec<Vec<u8>> = Vec::new();
    r.push(tag);
    r.push(key_bytes(metadata_program));
    r.push(key_bytes(mint));
    proof {
        lemma_deep_view_one(r@[0], metadata_tag());
        lemma_deep_view_one(r@[1], metadata_program@);
        lemma_deep_view_one(r@[2], mint@);
    }
    if edition {
        let e: Vec<u8> = vec![101u8, 100, 105, 116, 105, 111, 110];
        assert(e@ =~= edition_tag());
        r.push(e);
        proof {
            lemma_deep_view_one(r@[3], edition_tag());
        }
        assert(r.deep_view() =~= master_edition_seeds(metadata_program@, mint@));
    } else {
        assert(r.deep_view() =~= metadata_seeds(metadata_program@, mint@));
    }
    r
}

} // verus!
