//! What an instruction asks the runtime and other programs to do once it has
//! decided: token transfers, account closings and lamport transfers.
use vstd::prelude::*;

use crate::pubkey::Pubkey;
use crate::state::{build_listing_seeds, listing_seeds, with_bump};

verus! {

/// A listing account signing as the authority of a call: its address is
/// derived from `["listing", marketplace, seller, mint, [bump]]`.
#[derive(Clone, Copy, Debug)]
pub struct ListingSigner {
    pub marketplace: Pubkey,
    pub seller: Pubkey,
    pub mint: Pubkey,
    pub bump: u8,
}

impl ListingSigner {
    /// The seeds, bump included, with which the listing signs.
    pub open spec fn signer_seeds(&self) -> Seq<Seq<u8>> {
        with_bump(listing_seeds(self.marketplace@, self.seller@, self.mint@), self.bump)
    }

    /// Builds `signer_seeds()`.
    pub fn seeds(&self) -> (r: Vec<Vec<u8>>)
        ensures
            r.deep_view() == self.signer_seeds(),
    {
        build_listing_seeds(&self.marketplace, &self.seller, &self.mint, Some(self.bump))
    }
}

/// One call that an instruction makes after its decisions, in order.
#[derive(Clone, Copy, Debug)]
pub enum Action {
    /// Moves `amount` tokens of `mint` (with `decimals` decimals) from the
    /// token account `from` to `to`, authorized by `authority`, which signs
    /// with the listing's seeds where `signer` is given.
    TransferChecked {
        from: Pubkey,
        mint: Pubkey,
        to: Pubkey,
        authority: Pubkey,
        amount: u64,
        decimals: u8,
        signer: Option<ListingSigner>,
    },
    /// Closes the token account `account`, sending its lamports to
    /// `destination`, authorized by `authority`.
    CloseTokenAccount { account: Pubkey, destination: Pubkey, authority: Pubkey, signer: Option<ListingSigner> },
    /// Moves `lamports` from `from` to `to` through the system program.
    SystemTransfer { from: Pubkey, to: Pubkey, lamports: u64 },
    /// Closes the program account `account` at the end of the instruction,
    /// sending its lamports to `destination`.
    CloseProgramAccount { account: Pubkey, destination: Pubkey },
}

} // verus!
