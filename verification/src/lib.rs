//! An NFT marketplace: sellers list NFTs of a verified collection at a price,
//! may withdraw them, and buyers purchase them, the marketplace taking a fee
//! in basis points of the price for its treasury.
//!
//! Each instruction is a check of its accounts (`try_accounts`), a handler
//! that records state and decides on calls, and a list of `Action`s for the
//! runtime to carry out (see `marketplace`).
pub mod action;
pub mod constraints;
pub mod error;
pub mod instructions;
pub mod laws;
pub mod marketplace;
pub mod programs;
pub mod pubkey;
pub mod state;

pub use crate::action::{Action, ListingSigner};
pub use crate::error::{AccountsError, InstructionError, MarketplaceError};
pub use crate::instructions::delist::{Delist, DelistBumps};
pub use crate::instructions::initialize::{Initialize, InitializeBumps};
pub use crate::instructions::list::{List, ListBumps};
pub use crate::instructions::purchase::Purchase;
pub use crate::pubkey::Pubkey;
pub use crate::state::{Account, Collection, ListingAccount, MarketplaceAccount, Metadata, Mint, TokenAccount};
