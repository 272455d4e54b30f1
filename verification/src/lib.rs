//! Client-side helpers for reading on-chain program state: deterministic
//! program-owned address derivation with memoization, fixed-layout account
//! record decoding, base-unit amount formatting, and classification of
//! submitted transactions by commitment level.

pub mod accounts;
pub mod addresses;
pub mod amounts;
pub mod landing;
