//! Data model and hashing primitives of a minimal proof-of-work ledger.
pub mod uint256;
pub mod hex_text;
pub mod canonical;
pub mod sha256;
pub mod crypto;
pub mod time;
pub mod types;
pub mod util;

pub use crate::uint256::U256;
