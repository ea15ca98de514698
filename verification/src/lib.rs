//! Swaps on the Liquid network: their scripts, the outputs that lock the coins up, and the
//! transactions that end them.
pub mod address;
pub mod blinding;
pub mod boltz;
pub mod bytes;
pub mod chain;
pub mod cosign;
pub mod error;
pub mod hex_text;
pub mod keys;
pub mod laws;
pub mod laws_calls;
pub mod laws_scripts;
pub mod laws_spends;
pub mod lockup;
pub mod musig;
pub mod range_proof;
pub mod script;
pub mod signing;
pub mod swap_script;
pub mod swap_tx;
pub mod taproot;
pub mod util;
