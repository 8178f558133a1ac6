//! Tournaments with an entry price, prizes per place, and optional entry by
//! NFT.
pub mod metadata;
pub mod utils;
pub mod base;
pub mod enumeration;
pub mod nft_access;
pub mod receivers;
