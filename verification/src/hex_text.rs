//! Hexadecimal text: what it means, and the crates that read and write it.
use crate::bytes::to_array;
use crate::error::Error;
use vstd::prelude::*;
use vstd::string::StringExecFns;

verus! {

/// The value of a hexadecimal digit, in either case.
pub open spec fn hex_digit(c: char) -> Option<int> {
    let n = c as int;
    if '0' as int <= n <= '9' as int {
        Some(n - '0' as int)
    } else if 'a' as int <= n <= 'f' as int {
        Some(n - 'a' as int + 10)
    } else if 'A' as int <= n <= 'F' as int {
        Some(n - 'A' as int + 10)
    } else {
        None
    }
}

/// The bytes that a hexadecimal text stands for, two digits to a byte, the higher digit
/// first; `None` for a text of odd length or with another character in it.
pub open spec fn hex_decode(text: Seq<char>) -> Option<Seq<u8>> {
    if text.len() % 2 == 0 && (forall|i: int|
        0 <= i < text.len() ==> hex_digit(#[trigger] text[i]) is Some) {
        Some(
            Seq::new(
                text.len() / 2,
                |i: int|
                    (16 * hex_digit(text[2 * i])->0 + hex_digit(text[2 * i + 1])->0) as u8,
            ),
        )
    } else {
        None
    }
}

/// The lower case hexadecimal digit of a value below 16.
pub open spec fn lower_digit(v: int) -> char {
    if v < 10 {
        ('0' as int + v) as char
    } else {
        ('a' as int + v - 10) as char
    }
}

/// The lower case hexadecimal text of some bytes.
pub open spec fn hex_encode(bytes: Seq<u8>) -> Seq<char> {
    Seq::new(
        2 * bytes.len(),
        |i: int|
            lower_digit(
                if i % 2 == 0 {
                    bytes[i / 2] as int / 16
                } else {
                    bytes[i / 2] as int % 16
                },
            ),
    )
}

/// The decimal digits of a number.
pub open spec fn decimal(n: nat) -> Seq<char>
    decreases n,
{
    let last = ('0' as int + n % 10) as char;
    if n < 10 {
        seq![last]
    } else {
        decimal(n / 10).push(last)
    }
}

/// Reading back what was written gives the same bytes.
pub proof fn law_hex_round_trip(bytes: Seq<u8>)
    ensures
        hex_decode(hex_encode(bytes)) == Some(bytes),
{
    let text = hex_encode(bytes);
    assert forall|i: int| 0 <= i < text.len() implies hex_digit(#[trigger] text[i]) is Some by {
        let b = bytes[i / 2];
    }
    let back = hex_decode(text)->0;
    assert forall|i: int| 0 <= i < bytes.len() implies back[i] == bytes[i] by {
        assert((2 * i) / 2 == i && (2 * i + 1) / 2 == i);
        assert(text[2 * i] == lower_digit(bytes[i] as int / 16));
        assert(text[2 * i + 1] == lower_digit(bytes[i] as int % 16));
    }
    assert(back =~= bytes);
}

/// `elements::hex::FromHex::from_hex` for `Vec<u8>`: it gives the bytes of a hexadecimal
/// text, and a description of what is wrong for any other.
#[verifier::external_body]
fn elements_bytes_from_hex(text: &str) -> (r: Result<Vec<u8>, String>)
    ensures
        r is Ok <==> hex_decode(text@) is Some,
        r matches Ok(bytes) ==> hex_decode(text@) == Some(bytes@),
{
    <Vec<u8> as elements::hex::FromHex>::from_hex(text).map_err(|e| e.to_string())
}

/// `elements::hex::FromHex::from_hex` for `elements::Script`, whose bytes it hands out: they
/// are those of a hexadecimal text, with a description of what is wrong for any other.
#[verifier::external_body]
pub(crate) fn script_from_hex(text: &str) -> (r: Result<Vec<u8>, String>)
    ensures
        r is Ok <==> hex_decode(text@) is Some,
        r matches Ok(bytes) ==> hex_decode(text@) == Some(bytes@),
{
    <elements::Script as elements::hex::FromHex>::from_hex(text)
        .map(|script| script.into_bytes())
        .map_err(|e| e.to_string())
}

/// `bitcoin::hex::FromHex::from_hex` for `Vec<u8>`: it gives the bytes of a hexadecimal
/// text, and a description of what is wrong for any other.
#[verifier::external_body]
pub(crate) fn bitcoin_bytes_from_hex(text: &str) -> (r: Result<Vec<u8>, String>)
    ensures
        r is Ok <==> hex_decode(text@) is Some,
        r matches Ok(bytes) ==> hex_decode(text@) == Some(bytes@),
{
    <Vec<u8> as bitcoin::hex::FromHex>::from_hex(text).map_err(|e| e.to_string())
}

/// `hex::decode`: it gives the bytes of a hexadecimal text, and a description of what is
/// wrong for any other.
#[verifier::external_body]
pub(crate) fn decode(text: &str) -> (r: Result<Vec<u8>, String>)
    ensures
        r is Ok <==> hex_decode(text@) is Some,
        r matches Ok(bytes) ==> hex_decode(text@) == Some(bytes@),
{
    hex::decode(text).map_err(|e| e.to_string())
}

/// `bitcoin::hex::DisplayHex::to_lower_hex_string`: the lower case text of the bytes.
#[verifier::external_body]
pub(crate) fn to_lower_hex(bytes: &[u8]) -> (r: String)
    ensures
        r@ == hex_encode(bytes@),
{
    bitcoin::hex::DisplayHex::to_lower_hex_string(bytes)
}

/// `usize`'s `to_string`: the decimal digits, without a sign or leading zeros.
#[verifier::external_body]
fn usize_to_string(n: usize) -> (r: String)
    ensures
        r@ == decimal(n as nat),
{
    n.to_string()
}

/// The text that tells how long a decoded value should have been and how long it was.
pub open spec fn wrong_length_text(expected: nat, got: nat) -> Seq<char> {
    "Expected "@ + decimal(expected) + " bytes, got "@ + decimal(got)
}

fn wrong_length(expected: usize, got: usize) -> (r: Error)
    ensures
        r matches Error::Protocol(text) && text@ == wrong_length_text(expected as nat, got as nat),
{
    let mut text = "Expected ".to_owned();
    text.append(usize_to_string(expected).as_str());
    text.append(" bytes, got ");
    text.append(usize_to_string(got).as_str());
    Error::Protocol(text)
}

/// What reading `n` bytes from a hexadecimal text comes to: the bytes, an [`Error::Hex`] for a
/// text that is not hexadecimal, or an [`Error::Protocol`] that names both lengths for one of
/// another length.
pub open spec fn is_fixed_hex(text: Seq<char>, n: nat, r: Result<Seq<u8>, Error>) -> bool {
    match hex_decode(text) {
        None => r matches Err(Error::Hex(_)),
        Some(bytes) => if bytes.len() == n {
            r == Ok::<Seq<u8>, Error>(bytes)
        } else {
            r matches Err(Error::Protocol(t)) && t@ == wrong_length_text(n, bytes.len())
        },
    }
}

/// The outcome of a reading, its array taken as a sequence.
pub open spec fn array_outcome<const N: usize>(r: Result<[u8; N], Error>) -> Result<
    Seq<u8>,
    Error,
> {
    match r {
        Ok(a) => Ok(a@),
        Err(e) => Err(e),
    }
}

/// The bytes as an array, or an error that names both lengths.
pub(crate) fn fixed_bytes<const N: usize>(bytes: Vec<u8>) -> (r: Result<[u8; N], Error>)
    ensures
        bytes@.len() == N ==> (r matches Ok(a) && a@ == bytes@),
        bytes@.len() != N ==> (r matches Err(Error::Protocol(t)) && t@ == wrong_length_text(
            N as nat,
            bytes@.len(),
        )),
{
    if bytes.len() != N {
        return Err(wrong_length(N, bytes.len()));
    }
    Ok(to_array(bytes.as_slice()))
}

/// Reads 32 bytes from a hexadecimal text.
pub fn hex_to_bytes32(hex: &str) -> (r: Result<[u8; 32], Error>)
    ensures
        is_fixed_hex(hex@, 32, array_outcome(r)),
{
    match elements_bytes_from_hex(hex) {
        Ok(bytes) => fixed_bytes(bytes),
        Err(text) => Err(Error::Hex(text)),
    }
}

/// Reads 66 bytes from a hexadecimal text.
pub fn hex_to_bytes66(hex: &str) -> (r: Result<[u8; 66], Error>)
    ensures
        is_fixed_hex(hex@, 66, array_outcome(r)),
{
    match elements_bytes_from_hex(hex) {
        Ok(bytes) => fixed_bytes(bytes),
        Err(text) => Err(Error::Hex(text)),
    }
}

} // verus!
