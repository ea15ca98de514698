//! Helpers that the rest of the crate shares.
use crate::error::Error;
use crate::hex_text::{array_outcome, bitcoin_bytes_from_hex, fixed_bytes, is_fixed_hex};
use vstd::prelude::*;

verus! {

/// Reads 32 bytes from a hexadecimal text.
pub fn hex_to_bytes32(hex: &str) -> (r: Result<[u8; 32], Error>)
    ensures
        is_fixed_hex(hex@, 32, array_outcome(r)),
{
    match bitcoin_bytes_from_hex(hex) {
        Ok(bytes) => fixed_bytes(bytes),
        Err(text) => Err(Error::Hex(text)),
    }
}

} // verus!
