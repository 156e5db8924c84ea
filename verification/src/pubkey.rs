//! Account addresses and program-derived addresses.
use vstd::prelude::*;

use crate::programs::{associated_token_program_id, associated_token_program_key};

verus! {

/// A 32-byte account address.
#[derive(Clone, Copy, Debug, PartialEq, Eq)]
pub struct Pubkey(pub [u8; 32]);

impl View for Pubkey {
    type V = Seq<u8>;

    open spec fn view(&self) -> Seq<u8> {
        self.0@
    }
}

/// Compares two addresses byte by byte.
pub fn same_key(a: &Pubkey, b: &Pubkey) -> (r: bool)
    ensures
        r <==> a@ == b@,
{
    let mut i: usize = 0;
    while i < 32
        invariant
            i <= 32,
            a@.len() == 32,
            b@.len() == 32,
            forall|j: int| 0 <= j < i ==> a@[j] == b@[j],
        decreases 32 - i,
    {
        if a.0[i] != b.0[i] {
            return false;
        }
        i = i + 1;
    }
    assert(a@ =~= b@);
    true
}

/// The bytes of an address, as a seed.
pub fn key_bytes(k: &Pubkey) -> (r: Vec<u8>)
    ensures
        r@ == k@,
{
    let mut r: Vec<u8> = Vec::new();
    let mut i: usize = 0;
    while i < 32
        invariant
            i <= 32,
            k@.len() == 32,
            r@ == k@.take(i as int),
        decreases 32 - i,
    {
        r.push(k.0[i]);
        i = i + 1;
        assert(r@ =~= k@.take(i as int));
    }
    assert(k@.take(32) =~= k@);
    r
}

/// The address that the runtime derives from `seeds` for `program_id`
/// (`Pubkey::create_program_address`), or `None` where it derives none.
pub uninterp spec fn program_address(seeds: Seq<Seq<u8>>, program_id: Seq<u8>) -> Option<Seq<u8>>;

/// Searches the bump seeds from `bump` down to 1 for the first one with which
/// `seeds` derive an address.
pub open spec fn find_from(seeds: Seq<Seq<u8>>, program_id: Seq<u8>, bump: u8) -> Option<(Seq<u8>, u8)>
    decreases bump,
{
    match program_address(seeds.push(seq![bump]), program_id) {
        Some(k) => Some((k, bump)),
        None => if bump <= 1 {
            None
        } else {
            find_from(seeds, program_id, (bump - 1) as u8)
        },
    }
}

/// The canonical program-derived address of `seeds` and its bump seed: the
/// greatest bump in `1..=255` with which an address is derived.
pub open spec fn find_pda(seeds: Seq<Seq<u8>>, program_id: Seq<u8>) -> Option<(Seq<u8>, u8)> {
    find_from(seeds, program_id, 255)
}

/// The associated token account of `wallet` for `mint` under `token_program`:
/// the canonical address of the seeds `[wallet, token_program, mint]` for the
/// associated token program.
pub open spec fn associated_token_address(wallet: Seq<u8>, mint: Seq<u8>, token_program: Seq<u8>) -> Option<Seq<u8>> {
    match find_pda(seq![wallet, token_program, mint], associated_token_program_key()) {
        Some((k, _)) => Some(k),
        None => None,
    }
}

/// `Pubkey::create_program_address` of `anchor_lang`: hashes the seeds with
/// the program id. The contract claims that its `Ok` value is the named
/// `program_address`, and that its errors are where that name is `None`.
#[verifier::external_body]
pub fn create_program_address(seeds: &Vec<Vec<u8>>, program_id: &Pubkey) -> (r: Option<Pubkey>)
    ensures
        r matches Some(k) ==> program_address(seeds.deep_view(), program_id@) == Some(k@),
        r is None ==> program_address(seeds.deep_view(), program_id@) is None,
{
    let refs: Vec<&[u8]> = seeds.iter().map(|s| s.as_slice()).collect();
    let id = anchor_lang::prelude::Pubkey::new_from_array(program_id.0);
    anchor_lang::prelude::Pubkey::create_program_address(&refs, &id).ok().map(|k| Pubkey(k.to_bytes()))
}

/// `Pubkey::try_find_program_address` of `anchor_lang`: tries the bump seeds
/// 255, 254, ..., 1 in turn with `create_program_address` and returns the
/// first address derived, with its bump. The contract claims exactly that
/// search, over `program_address`.
#[verifier::external_body]
pub fn try_find_program_address(seeds: &Vec<Vec<u8>>, program_id: &Pubkey) -> (r: Option<(Pubkey, u8)>)
    ensures
        r is Some <==> find_pda(seeds.deep_view(), program_id@) is Some,
        r matches Some((k, b)) ==> find_pda(seeds.deep_view(), program_id@) == Some((k@, b)),
{
    let refs: Vec<&[u8]> = seeds.iter().map(|s| s.as_slice()).collect();
    let id = anchor_lang::prelude::Pubkey::new_from_array(program_id.0);
    anchor_lang::prelude::Pubkey::try_find_program_address(&refs, &id).map(|(k, b)| (Pubkey(k.to_bytes()), b))
}

/// The associated token account of `wallet` for `mint` under `token_program`.
pub fn get_associated_token_address(wallet: &Pubkey, mint: &Pubkey, token_program: &Pubkey) -> (r: Option<Pubkey>)
    ensures
        r is Some <==> associated_token_address(wallet@, mint@, token_program@) is Some,
        r matches Some(k) ==> associated_token_address(wallet@, mint@, token_program@) == Some(k@),
{
    let mut seeds: Vec<Vec<u8>> = Vec::new();
    seeds.push(key_bytes(wallet));
    seeds.push(key_bytes(token_program));
    seeds.push(key_bytes(mint));
    assert(seeds.deep_view() =~= seq![wallet@, token_program@, mint@]) by {
        assert(seeds.deep_view()[0] =~= wallet@);
        assert(seeds.deep_view()[1] =~= token_program@);
        assert(seeds.deep_view()[2] =~= mint@);
    }
    let ata_program = associated_token_program_id();
    match try_find_program_address(&seeds, &ata_program) {
        Some((k, _)) => Some(k),
        None => None,
    }
}

} // verus!
