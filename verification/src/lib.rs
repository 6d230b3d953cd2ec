//! An escrow marketplace for non-fungible tokens.
//!
//! A holder deposits a token with the marketplace and names a price; a buyer
//! pays that price, in the native coin or in a fungible token, and receives the
//! token. The marketplace keeps two ledgers, one of the tokens it holds and one
//! of the prices asked for them, and changes both together or not at all.

pub mod contract;
pub mod error;
pub mod host;
pub mod msg;
pub mod nft;
pub mod order;
pub mod payment;
pub mod state;
pub mod storage;
pub mod version;
pub mod wire;
