//! Keys and signatures on the curve, held as the bytes that they are written in.
use crate::bytes::{be_value, to_array};
use crate::error::Error;
use crate::hex_text::hex_decode;
use vstd::prelude::*;

verus! {

/// The number of points on the curve, the generator's multiples.
pub open spec fn curve_order() -> nat {
    0xFFFFFFFFFFFFFFFFFFFFFFFFFFFFFFFEBAAEDCE6AF48A03BBFD25E8CD0364141nat
}

/// Whether 32 bytes are a secret key: a number between zero and the curve order.
pub open spec fn is_secret_key(bytes: Seq<u8>) -> bool {
    bytes.len() == 32 && 0 < be_value(bytes) < curve_order()
}

/// The secret key that a hexadecimal text stands for, if it stands for one.
pub open spec fn secret_key_of(text: Seq<char>) -> Option<Seq<u8>> {
    match hex_decode(text) {
        Some(bytes) if is_secret_key(bytes) => Some(bytes),
        _ => None,
    }
}

/// Whether `secp256k1::PublicKey::from_slice` finds a point in 33 bytes.
pub uninterp spec fn is_public_key(bytes: Seq<u8>) -> bool;

/// Whether `secp256k1::XOnlyPublicKey::from_slice` finds a point in some bytes.
pub uninterp spec fn is_xonly_key(bytes: Seq<u8>) -> bool;

/// The compressed public key that `secp256k1::Keypair::public_key` gives for a secret key.
pub uninterp spec fn public_key_of(secret: Seq<u8>) -> Seq<u8>;

/// Whether `secp256k1::Secp256k1::verify_schnorr` accepts a signature of a message under an
/// x-only key.
pub uninterp spec fn schnorr_verifies(
    signature: Seq<u8>,
    message: Seq<u8>,
    key: Seq<u8>,
) -> bool;

/// The x coordinate of a compressed public key.
pub open spec fn x_only(key: Seq<u8>) -> Seq<u8> {
    key.skip(1)
}

/// `secp256k1::PublicKey::from_slice` on 33 bytes, the outcome alone: whether they are a point
/// in compressed form.
#[verifier::external_body]
fn check_public_key(bytes: &[u8; 33]) -> (r: Result<(), String>)
    ensures
        r is Ok <==> is_public_key(bytes@),
{
    bitcoin::secp256k1::PublicKey::from_slice(bytes).map(|_| ()).map_err(|e| e.to_string())
}

/// `secp256k1::XOnlyPublicKey::from_slice`, the outcome alone: whether the bytes are the x
/// coordinate of a point, which takes 32 of them. It has one error, for any other bytes.
#[verifier::external_body]
pub(crate) fn check_xonly_key(bytes: &[u8]) -> (r: Result<(), String>)
    ensures
        r is Ok <==> is_xonly_key(bytes@),
        r is Ok ==> bytes@.len() == 32,
        r matches Err(text) ==> text@ == "malformed public key"@,
{
    bitcoin::secp256k1::XOnlyPublicKey::from_slice(bytes).map(|_| ()).map_err(|e| e.to_string())
}

/// `secp256k1::SecretKey::from_slice` on 32 bytes, the outcome alone: whether they are a number
/// between zero and the curve order.
#[verifier::external_body]
fn check_secret_key(bytes: &[u8; 32]) -> (r: Result<(), String>)
    ensures
        r is Ok <==> is_secret_key(bytes@),
{
    bitcoin::secp256k1::SecretKey::from_slice(bytes).map(|_| ()).map_err(|e| e.to_string())
}

/// `secp256k1::Keypair::from_seckey_str`, the pair taken by its secret key: it reads 64
/// hexadecimal digits that spell a secret key, and refuses any other text.
#[verifier::external_body]
fn seckey_from_str(text: &str) -> (r: Result<[u8; 32], String>)
    ensures
        r is Ok <==> secret_key_of(text@) is Some,
        r matches Ok(secret) ==> secret_key_of(text@) == Some(secret@),
{
    let secp = bitcoin::secp256k1::Secp256k1::new();
    bitcoin::secp256k1::Keypair::from_seckey_str(&secp, text)
        .map(|pair| pair.secret_bytes())
        .map_err(|e| e.to_string())
}

/// `secp256k1::Keypair::public_key`, of the pair that a secret key makes: a point, in
/// compressed form.
#[verifier::external_body]
fn public_key_bytes(secret: &[u8; 32]) -> (r: [u8; 33])
    requires
        is_secret_key(secret@),
    ensures
        r@ == public_key_of(secret@),
        is_public_key(r@),
{
    let secp = bitcoin::secp256k1::Secp256k1::new();
    bitcoin::secp256k1::Keypair::from_seckey_slice(&secp, secret).unwrap().public_key().serialize()
}

/// `secp256k1::Secp256k1::sign_schnorr`, of the pair that a secret key makes: a signature that
/// verifies under the x coordinate of its public key. The call draws auxiliary randomness, so
/// which one it is stays open.
#[verifier::external_body]
fn sign_schnorr_bytes(secret: &[u8; 32], message: &[u8; 32]) -> (r: [u8; 64])
    requires
        is_secret_key(secret@),
    ensures
        schnorr_verifies(r@, message@, x_only(public_key_of(secret@))),
{
    let secp = bitcoin::secp256k1::Secp256k1::new();
    let pair = bitcoin::secp256k1::Keypair::from_seckey_slice(&secp, secret).unwrap();
    secp.sign_schnorr(&bitcoin::secp256k1::Message::from_digest(*message), &pair).serialize()
}

/// `secp256k1::Secp256k1::verify_schnorr`: whether the signature is one of the message under
/// the key.
#[verifier::external_body]
pub(crate) fn verify_schnorr(signature: &[u8; 64], message: &[u8; 32], key: &[u8; 32]) -> (r:
    Result<(), String>)
    requires
        is_xonly_key(key@),
    ensures
        r is Ok <==> schnorr_verifies(signature@, message@, key@),
{
    bitcoin::secp256k1::Secp256k1::new()
        .verify_schnorr(
            &bitcoin::secp256k1::schnorr::Signature::from_slice(signature).unwrap(),
            &bitcoin::secp256k1::Message::from_digest(*message),
            &bitcoin::secp256k1::XOnlyPublicKey::from_slice(key).unwrap(),
        )
        .map_err(|e| e.to_string())
}

/// A point on the curve, in its compressed form.
#[derive(Debug, Clone, Copy, PartialEq, Eq)]
pub struct PublicKey {
    bytes: [u8; 33],
}

impl View for PublicKey {
    type V = Seq<u8>;

    closed spec fn view(&self) -> Seq<u8> {
        self.bytes@
    }
}

impl PublicKey {
    #[verifier::type_invariant]
    spec fn well_formed(self) -> bool {
        is_public_key(self.bytes@)
    }

    /// The key that 33 bytes stand for, or an [`Error::Key`] where they are no point.
    pub fn from_bytes(bytes: [u8; 33]) -> (r: Result<PublicKey, Error>)
        ensures
            is_public_key(bytes@) ==> (r matches Ok(key) && key@ == bytes@),
            !is_public_key(bytes@) ==> (r matches Err(Error::Key(_))),
    {
        match check_public_key(&bytes) {
            Ok(_) => Ok(PublicKey { bytes }),
            Err(text) => Err(Error::Key(text)),
        }
    }

    /// The compressed form.
    pub fn to_bytes(&self) -> (r: [u8; 33])
        ensures
            r@ == self@,
            is_public_key(r@),
            self@.len() == 33,
    {
        proof {
            use_type_invariant(self);
        }
        self.bytes
    }

    /// The x coordinate.
    pub fn x_only(&self) -> (r: [u8; 32])
        ensures
            r@ == x_only(self@),
    {
        let slice = vstd::slice::slice_subrange(&self.bytes, 1, 33);
        assert(slice@ =~= x_only(self@));
        to_array(slice)
    }
}

/// A secret key, and with it the public key that belongs to it. It has no `Debug`, so that no
/// log shows the secret.
#[derive(Clone, Copy, PartialEq, Eq)]
pub struct Keypair {
    secret: [u8; 32],
}

impl View for Keypair {
    type V = Seq<u8>;

    /// The secret key.
    closed spec fn view(&self) -> Seq<u8> {
        self.secret@
    }
}

impl Keypair {
    #[verifier::type_invariant]
    spec fn well_formed(self) -> bool {
        is_secret_key(self.secret@)
    }

    /// The pair of a secret key, or an [`Error::Key`] where the bytes are none.
    pub fn from_secret_bytes(secret: [u8; 32]) -> (r: Result<Keypair, Error>)
        ensures
            is_secret_key(secret@) ==> (r matches Ok(keys) && keys@ == secret@),
            !is_secret_key(secret@) ==> (r matches Err(Error::Key(_))),
    {
        match check_secret_key(&secret) {
            Ok(_) => Ok(Keypair { secret }),
            Err(text) => Err(Error::Key(text)),
        }
    }

    /// The pair of the secret key that a hexadecimal text stands for, or an [`Error::Key`]
    /// where it stands for none.
    pub fn from_seckey_str(text: &str) -> (r: Result<Keypair, Error>)
        ensures
            match secret_key_of(text@) {
                Some(secret) => r matches Ok(keys) && keys@ == secret,
                None => r matches Err(Error::Key(_)),
            },
    {
        match seckey_from_str(text) {
            Ok(secret) => Ok(Keypair { secret }),
            Err(text) => Err(Error::Key(text)),
        }
    }

    /// The secret key.
    pub fn secret_bytes(&self) -> (r: [u8; 32])
        ensures
            r@ == self@,
            is_secret_key(r@),
    {
        proof {
            use_type_invariant(self);
        }
        self.secret
    }

    /// The public key.
    pub fn public_key(&self) -> (r: PublicKey)
        ensures
            r@ == public_key_of(self@),
    {
        proof {
            use_type_invariant(self);
        }
        PublicKey { bytes: public_key_bytes(&self.secret) }
    }

    /// A signature of a message, which verifies under the x coordinate of the public key.
    pub fn sign_schnorr(&self, message: &[u8; 32]) -> (r: [u8; 64])
        ensures
            schnorr_verifies(r@, message@, x_only(public_key_of(self@))),
    {
        proof {
            use_type_invariant(self);
        }
        sign_schnorr_bytes(&self.secret, message)
    }
}

} // verus!
