//! What can go wrong while a swap is read, checked, signed or broadcast.
use vstd::prelude::*;

verus! {

/// An error of this library. Every variant carries a text for the reader.
#[derive(Debug, Clone, PartialEq, Eq)]
pub enum Error {
    /// A string was not the hexadecimal text that it should be.
    Hex(String),
    /// A rule of the swap protocol is broken.
    Protocol(String),
    /// A taproot construction or a taproot signature failed.
    Taproot(String),
    /// An address could not be read.
    Address(String),
    /// A key could not be read.
    Key(String),
    /// A transaction could not be encoded or decoded.
    Encode(String),
    /// A signature hash could not be computed.
    Sighash(String),
    /// A confidential output could not be opened.
    Unblind(String),
    /// A confidential output could not be made.
    Blind(String),
    /// A signature did not verify.
    Signature(String),
}

/// Whether two errors are of one variant and carry one text.
pub open spec fn same_error(a: Error, b: Error) -> bool {
    match (a, b) {
        (Error::Hex(s), Error::Hex(t)) => s@ == t@,
        (Error::Protocol(s), Error::Protocol(t)) => s@ == t@,
        (Error::Taproot(s), Error::Taproot(t)) => s@ == t@,
        (Error::Address(s), Error::Address(t)) => s@ == t@,
        (Error::Key(s), Error::Key(t)) => s@ == t@,
        (Error::Encode(s), Error::Encode(t)) => s@ == t@,
        (Error::Sighash(s), Error::Sighash(t)) => s@ == t@,
        (Error::Unblind(s), Error::Unblind(t)) => s@ == t@,
        (Error::Blind(s), Error::Blind(t)) => s@ == t@,
        (Error::Signature(s), Error::Signature(t)) => s@ == t@,
        _ => false,
    }
}

} // verus!
