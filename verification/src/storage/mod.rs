//! Deposits that pay for the storage an account uses.
pub mod calc;
pub mod storage_impl;
