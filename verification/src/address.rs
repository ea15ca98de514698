//! Addresses of the Liquid network.
use crate::bytes::optional_bytes;
use crate::error::Error;
use crate::keys::{is_public_key, is_xonly_key, PublicKey};
use crate::taproot::tap_output_key;
use vstd::prelude::*;

verus! {

/// The networks on which a swap can take place.
#[derive(Debug, Clone, Copy, PartialEq, Eq, Structural)]
pub enum LiquidChain {
    Liquid,
    LiquidTestnet,
    LiquidRegtest,
}

/// An address: its text, the script that it pays to, and the key with which outputs to it are
/// blinded. One with such a key is confidential.
#[derive(Debug, Clone, PartialEq, Eq)]
pub struct Address {
    pub text: String,
    pub script_pubkey: Vec<u8>,
    pub blinding_pubkey: Option<PublicKey>,
}

/// What an [`Address`] holds.
#[verifier::ext_equal]
pub struct AddressView {
    pub text: Seq<char>,
    pub script_pubkey: Seq<u8>,
    pub blinding_pubkey: Option<Seq<u8>>,
}

/// A key that may be missing, taken by its bytes.
pub open spec fn optional_key(key: Option<PublicKey>) -> Option<Seq<u8>> {
    match key {
        Some(key) => Some(key@),
        None => None,
    }
}

impl View for Address {
    type V = AddressView;

    open spec fn view(&self) -> AddressView {
        AddressView {
            text: self.text@,
            script_pubkey: self.script_pubkey@,
            blinding_pubkey: optional_key(self.blinding_pubkey),
        }
    }
}

/// The script that pays to an x-only key: the number 1, and a push of the key.
pub open spec fn p2tr_script(key: Seq<u8>) -> Seq<u8> {
    seq![0x51u8, 0x20u8] + key
}

/// What `elements::Address::from_str` makes of a text: the address as its `to_string` writes
/// it, its script and its blinding key.
pub uninterp spec fn parsed_address(text: Seq<char>) -> Option<
    (Seq<char>, Seq<u8>, Option<Seq<u8>>),
>;

/// The text of the address that `elements::Address::p2tr` makes of an internal key, a merkle
/// root, a blinding key and a network.
pub uninterp spec fn p2tr_text(
    internal_key: Seq<u8>,
    merkle_root: Option<Seq<u8>>,
    blinder: Option<Seq<u8>>,
    network: LiquidChain,
) -> Seq<char>;

/// `elements::Address::from_str`, the address taken apart into its text, its script and its
/// blinding key.
#[verifier::external_body]
fn parse_address(text: &str) -> (r: Result<(String, Vec<u8>, Option<[u8; 33]>), String>)
    ensures
        match parsed_address(text@) {
            Some(address) => r matches Ok(parts) && parts.0@ == address.0 && parts.1@ == address.1
                && (match parts.2 {
                Some(key) => address.2 == Some(key@) && is_public_key(key@),
                None => address.2 is None,
            }),
            None => r is Err,
        },
{
    <elements::Address as std::str::FromStr>::from_str(text)
        .map(|a| (
            a.to_string(),
            a.script_pubkey().into_bytes(),
            a.blinding_pubkey.map(|key| key.serialize()),
        ))
        .map_err(|e| e.to_string())
}

/// `elements::Address::p2tr`, the address taken apart into its text, its script and its
/// blinding key: the script pushes the number 1 and the 32 bytes of the tweaked key, and the
/// blinding key is the given one. As with every taproot tweak, the call panics where the hash
/// of the key and the root exceeds the curve order or the tweaked key is no point, for which no
/// input is known.
#[verifier::external_body]
fn p2tr(
    internal_key: &[u8; 32],
    merkle_root: &Option<[u8; 32]>,
    blinder: &Option<[u8; 33]>,
    network: LiquidChain,
) -> (r: (String, Vec<u8>, Option<[u8; 33]>))
    requires
        is_xonly_key(internal_key@),
        blinder matches Some(key) ==> is_public_key(key@),
    ensures
        r.0@ == p2tr_text(
            internal_key@,
            optional_bytes(*merkle_root),
            optional_bytes(*blinder),
            network,
        ),
        r.1@ == p2tr_script(tap_output_key(internal_key@, optional_bytes(*merkle_root))),
        r.2 == *blinder,
{
    let key = elements::schnorr::XOnlyPublicKey::from_slice(internal_key).unwrap();
    let root = merkle_root.map(|h| elements::hashes::Hash::from_byte_array(h));
    let blinder = blinder.map(|b| elements::secp256k1_zkp::PublicKey::from_slice(&b).unwrap());
    let params = match network {
        LiquidChain::Liquid => &elements::AddressParams::LIQUID,
        LiquidChain::LiquidTestnet => &elements::AddressParams::LIQUID_TESTNET,
        LiquidChain::LiquidRegtest => &elements::AddressParams::ELEMENTS,
    };
    let secp = elements::secp256k1_zkp::Secp256k1::new();
    let a = elements::Address::p2tr(&secp, key, root, blinder, params);
    (a.to_string(), a.script_pubkey().into_bytes(), a.blinding_pubkey.map(|b| b.serialize()))
}

impl Address {
    /// The address that a text stands for, or an [`Error::Address`] where it stands for none.
    pub fn from_str(text: &str) -> (r: Result<Address, Error>)
        ensures
            match parsed_address(text@) {
                Some(parts) => r matches Ok(address) && address@ == (AddressView {
                    text: parts.0,
                    script_pubkey: parts.1,
                    blinding_pubkey: parts.2,
                }),
                None => r matches Err(Error::Address(_)),
            },
    {
        match parse_address(text) {
            Ok((text, script_pubkey, key)) => {
                let blinding_pubkey = match key {
                    Some(key) => match PublicKey::from_bytes(key) {
                        Ok(key) => Some(key),
                        Err(_) => None,
                    },
                    None => None,
                };
                Ok(Address { text, script_pubkey, blinding_pubkey })
            },
            Err(text) => Err(Error::Address(text)),
        }
    }

    /// The confidential address that pays to an internal key tweaked with a merkle root.
    pub(crate) fn taproot(
        internal_key: &[u8; 32],
        merkle_root: &Option<[u8; 32]>,
        blinder: PublicKey,
        network: LiquidChain,
    ) -> (r: Address)
        requires
            is_xonly_key(internal_key@),
        ensures
            r@ == (AddressView {
                text: p2tr_text(
                    internal_key@,
                    optional_bytes(*merkle_root),
                    Some(blinder@),
                    network,
                ),
                script_pubkey: p2tr_script(
                    tap_output_key(internal_key@, optional_bytes(*merkle_root)),
                ),
                blinding_pubkey: Some(blinder@),
            }),
    {
        let bytes = Some(blinder.to_bytes());
        let (text, script_pubkey, _) = p2tr(internal_key, merkle_root, &bytes, network);
        Address { text, script_pubkey, blinding_pubkey: Some(blinder) }
    }
}

} // verus!
