//! Confidential outputs: opening one, and making the next so that the two balance.
use crate::address::{Address, AddressView};
use crate::bytes::{
    be_digits, be_value, lemma_be_digits, lemma_be_zeros, pow256, same_bytes, to_vec,
};
use crate::chain::{
    is_asset, is_confidential_nonce, is_nonce, is_rangeproof, is_surjection_proof, is_value,
    output_parts, Output, OutputParts, OutputView,
};
use crate::error::Error;
use crate::keys::{curve_order, is_public_key, is_secret_key, public_key_of, Keypair};
use crate::range_proof::{range_top, read_range_top};
use elements::confidential::{Asset, AssetBlindingFactor, Value, ValueBlindingFactor};
use elements::encode::serialize;
use elements::secp256k1_zkp::{Secp256k1, SecretKey, Tweak};
use vstd::prelude::*;

verus! {

/// What a confidential output hides: its asset, its value and the factors that blind the two.
#[derive(Clone, Copy, PartialEq, Eq)]
pub struct OutputSecrets {
    pub asset: [u8; 32],
    pub asset_bf: [u8; 32],
    pub value: u64,
    pub value_bf: [u8; 32],
}

/// What [`OutputSecrets`] hold.
#[verifier::ext_equal]
pub struct SecretsView {
    pub asset: Seq<u8>,
    pub asset_bf: Seq<u8>,
    pub value: u64,
    pub value_bf: Seq<u8>,
}

impl View for OutputSecrets {
    type V = SecretsView;

    open spec fn view(&self) -> SecretsView {
        SecretsView {
            asset: self.asset@,
            asset_bf: self.asset_bf@,
            value: self.value,
            value_bf: self.value_bf@,
        }
    }
}

/// Whether 32 bytes are a blinding factor: a number below the curve order.
pub open spec fn is_blinding_factor(bytes: Seq<u8>) -> bool {
    bytes.len() == 32 && be_value(bytes) < curve_order()
}

/// Whether both factors of some secrets are blinding factors.
pub open spec fn are_secrets(secrets: SecretsView) -> bool {
    is_blinding_factor(secrets.asset_bf) && is_blinding_factor(secrets.value_bf)
}

/// What blinds a commitment to a value with these factors.
pub open spec fn blind_weight(value: u64, asset_bf: Seq<u8>, value_bf: Seq<u8>) -> int {
    value * be_value(asset_bf) + be_value(value_bf)
}

/// What blinds a list of commitments together.
pub open spec fn blind_sum(items: Seq<(u64, [u8; 32], [u8; 32])>) -> int
    decreases items.len(),
{
    if items.len() == 0 {
        0
    } else {
        blind_sum(items.drop_last()) + blind_weight(
            items.last().0,
            items.last().1@,
            items.last().2@,
        )
    }
}

/// Whether the range that an output proves ends below the largest number of 64 bits: the number
/// behind its end is then one of them too.
pub open spec fn can_open(output: OutputView) -> bool {
    output.rangeproof matches Some(proof) ==> range_top(proof) != Some(u64::MAX as int)
}

/// What `elements::TxOut::unblind` finds in an output with a secret key.
pub uninterp spec fn unblinded(output: OutputView, secret: Seq<u8>) -> Option<SecretsView>;

/// The asset that `elements::confidential::Asset::blind` gives for an explicit asset and a
/// blinding factor.
pub uninterp spec fn blinded_asset(asset: Seq<u8>, asset_bf: Seq<u8>) -> Seq<u8>;

/// Whether `secp256k1_zkp::SurjectionProof::verify` accepts a proof that a blinded asset is one
/// of the spent ones.
pub uninterp spec fn surjection_proves(
    proof: Seq<u8>,
    asset: Seq<u8>,
    spent: Seq<Seq<u8>>,
) -> bool;

/// The value, the nonce and the range proof that `elements::confidential::Value::blind` gives
/// for an explicit value, its blinding factor, the receiver's blinding key, an ephemeral secret
/// key, a script, an asset and the asset's blinding factor.
pub uninterp spec fn blinded_value(
    value: u64,
    value_bf: Seq<u8>,
    receiver: Seq<u8>,
    ephemeral: Seq<u8>,
    script_pubkey: Seq<u8>,
    asset: Seq<u8>,
    asset_bf: Seq<u8>,
) -> (Seq<u8>, Seq<u8>, Seq<u8>);

/// Whether an output, whatever its surjection proof, opens to some secrets with every secret key
/// that belongs to the receiver's public key.
pub open spec fn opens_to(output: OutputView, receiver: Seq<u8>, secrets: SecretsView) -> bool {
    forall|secret: Seq<u8>, surjection_proof: Option<Seq<u8>>|
        is_secret_key(secret) && public_key_of(secret) == receiver ==> #[trigger] unblinded(
            OutputView { surjection_proof, ..output },
            secret,
        ) == Some(secrets)
}

/// The largest value for which the range proof of a payment has the size that most have: 2^52.
pub const MAX_PROVEN_VALUE: u64 = 0x10_0000_0000_0000;

/// A value, above that of all coins, up to which a payment opens to what it was made of: 3 * 2^50.
/// Where the highest bits of a larger one are set, the proof hides the value at another place.
pub const MAX_OPENED_VALUE: u64 = 0xc_0000_0000_0000;

/// The largest value that can be blinded: 2^63 - 1.
pub const MAX_BLINDED_VALUE: u64 = 0x7fff_ffff_ffff_ffff;

/// `elements::TxOut::unblind`: what the output hides, where the key opens it. The factors that
/// it finds are below the curve order, and the asset and its factor make up the output's blinded
/// asset. The call computes the end of the proven range, one above the greatest value, and
/// panics where 64 bits do not hold that. It panics too where the hash of the shared point is no
/// secret key, for which no input is known.
#[verifier::external_body]
fn outside_unblind(output: &elements::TxOut, secret: &[u8; 32]) -> (r: Result<
    OutputSecrets,
    String,
>)
    requires
        is_secret_key(secret@),
        can_open(output_parts(*output)),
    ensures
        r is Ok <==> unblinded(output_parts(*output), secret@) is Some,
        r matches Ok(s) ==> unblinded(output_parts(*output), secret@) == Some(s@),
        r matches Ok(s) ==> are_secrets(s@),
        r matches Ok(s) ==> output_parts(*output).asset == blinded_asset(s.asset@, s.asset_bf@),
{
    let secp = Secp256k1::new();
    let key = SecretKey::from_slice(secret).unwrap();
    output
        .unblind(&secp, key)
        .map(|s| OutputSecrets {
            asset: s.asset.into_inner().to_byte_array(),
            asset_bf: *s.asset_bf.into_inner().as_ref(),
            value: s.value,
            value_bf: *s.value_bf.into_inner().as_ref(),
        })
        .map_err(|e| e.to_string())
}

/// `elements::confidential::AssetBlindingFactor::new` with the system's random numbers: 32
/// random bytes, of which nothing else is known.
#[verifier::external_body]
fn random_asset_bf() -> [u8; 32] {
    let mut rng = bitcoin::key::rand::rngs::OsRng;
    *AssetBlindingFactor::new(&mut rng).into_inner().as_ref()
}

/// `secp256k1_zkp::Tweak::from_slice` on 32 bytes, the outcome alone: whether they are a number
/// below the curve order.
#[verifier::external_body]
fn check_blinding_factor(bytes: &[u8; 32]) -> (r: Result<(), String>)
    ensures
        r is Ok <==> is_blinding_factor(bytes@),
{
    Tweak::from_slice(bytes).map(|_| ()).map_err(|e| e.to_string())
}

/// `secp256k1_zkp::SecretKey::new` with the system's random numbers: a secret key, of which
/// nothing else is known.
#[verifier::external_body]
fn random_secret_key() -> (r: [u8; 32])
    ensures
        is_secret_key(r@),
{
    let mut rng = bitcoin::key::rand::rngs::OsRng;
    SecretKey::new(&mut rng).secret_bytes()
}

/// `elements::confidential::Asset::blind` with the system's random numbers, for an explicit
/// asset and one spent output: the blinded asset and a proof, which verifies, that it is the one
/// that is spent. Both have sizes that are always the same. Whatever is drawn, there is a proof
/// exactly where the asset is the spent one and the two blinded assets differ, as they do with
/// different factors; which proof it is is left unsaid. That leaves aside hashes that are no
/// number below the curve order. The call panics where a blinded asset is no point. For neither
/// an input is known.
#[verifier::external_body]
fn outside_blind_asset(asset: &[u8; 32], asset_bf: &[u8; 32], spent: &OutputSecrets) -> (r: Result<
    (Vec<u8>, Vec<u8>),
    String,
>)
    requires
        is_blinding_factor(asset_bf@),
        are_secrets(spent@),
    ensures
        r is Ok <==> (asset@ == spent.asset@ && blinded_asset(asset@, asset_bf@) != blinded_asset(
            spent.asset@,
            spent.asset_bf@,
        )),
        asset@ == spent.asset@ && asset_bf@ != spent.asset_bf@ ==> r is Ok,
        r matches Ok(b) ==> b.0@ == blinded_asset(asset@, asset_bf@),
        r matches Ok(b) ==> is_asset(b.0@),
        r matches Ok(b) ==> is_surjection_proof(b.1@),
        r matches Ok(b) ==> b.0@.len() == 33,
        r matches Ok(b) ==> b.1@.len() == 67,
        r matches Ok(b) ==> surjection_proves(
            b.1@,
            b.0@,
            seq![blinded_asset(spent.asset@, spent.asset_bf@)],
        ),
{
    let id = |bytes: &[u8; 32]| elements::AssetId::from_byte_array(*bytes);
    let bf = |bytes: &[u8; 32]| AssetBlindingFactor::from_slice(bytes).unwrap();
    let value_bf = ValueBlindingFactor::from_slice(&spent.value_bf).unwrap();
    let spent_id = id(&spent.asset);
    let spent_bf = bf(&spent.asset_bf);
    let secrets = elements::TxOutSecrets::new(spent_id, spent_bf, spent.value, value_bf);
    let mut rng = bitcoin::key::rand::rngs::OsRng;
    Asset::Explicit(id(asset))
        .blind(&mut rng, &Secp256k1::new(), bf(asset_bf), &[secrets])
        .map(|(blinded, proof)| (serialize(&blinded), proof.serialize()))
        .map_err(|e| e.to_string())
}

/// `elements::confidential::ValueBlindingFactor::last`: the factor with which what blinds the
/// inputs and what blinds the outputs, this value among them, is the same modulo the curve
/// order.
#[verifier::external_body]
fn last_value_bf(
    value: u64,
    asset_bf: &[u8; 32],
    inputs: &[(u64, [u8; 32], [u8; 32])],
    outputs: &[(u64, [u8; 32], [u8; 32])],
) -> (r: [u8; 32])
    requires
        is_blinding_factor(asset_bf@),
        forall|i: int|
            0 <= i < inputs@.len() ==> is_blinding_factor((#[trigger] inputs@[i]).1@)
                && is_blinding_factor(inputs@[i].2@),
        forall|i: int|
            0 <= i < outputs@.len() ==> is_blinding_factor((#[trigger] outputs@[i]).1@)
                && is_blinding_factor(outputs@[i].2@),
    ensures
        is_blinding_factor(r@),
        (blind_sum(outputs@) + blind_weight(value, asset_bf@, r@)) % (curve_order() as int)
            == blind_sum(inputs@) % (curve_order() as int),
{
    let abf = |bytes: &[u8; 32]| AssetBlindingFactor::from_slice(bytes).unwrap();
    let vbf = |bytes: &[u8; 32]| ValueBlindingFactor::from_slice(bytes).unwrap();
    let ins: Vec<_> = inputs.iter().map(|i| (i.0, abf(&i.1), vbf(&i.2))).collect();
    let outs: Vec<_> = outputs.iter().map(|o| (o.0, abf(&o.1), vbf(&o.2))).collect();
    let secp = Secp256k1::new();
    let factor = ValueBlindingFactor::last(&secp, value, abf(asset_bf), &ins, &outs);
    *factor.into_inner().as_ref()
}

/// `elements::confidential::Value::blind` on an explicit value: the blinded value, the nonce
/// and the range proof, which can be made for every value from 1 to 2^63 - 1 and for no larger
/// one. The nonce is the public key of the ephemeral secret key. The proof of a value up to 2^52
/// proves 52 bits and has one size. With the receiver's secret key `elements::TxOut::unblind`
/// finds in these parts what they were made of, up to 3 * 2^50 for certain: the shared point is
/// the same on both sides. That leaves aside hashes that are no number below the curve order, and
/// points at infinity, in the rings of the proof. The call panics where the hash of the shared
/// point is no secret key or the blinded value is no point. For none of these an input with a
/// value above zero is known.
#[verifier::external_body]
fn outside_blind_value(
    value: u64,
    value_bf: &[u8; 32],
    receiver: &[u8; 33],
    ephemeral: &[u8; 32],
    script_pubkey: &[u8],
    asset: &[u8; 32],
    asset_bf: &[u8; 32],
) -> (r: Result<(Vec<u8>, Vec<u8>, Vec<u8>), String>)
    requires
        value > 0,
        is_blinding_factor(value_bf@),
        is_public_key(receiver@),
        is_secret_key(ephemeral@),
        is_blinding_factor(asset_bf@),
    ensures
        r is Ok <==> value <= MAX_BLINDED_VALUE,
        r matches Ok(b) ==> (b.0@, b.1@, b.2@) == blinded_value(
            value,
            value_bf@,
            receiver@,
            ephemeral@,
            script_pubkey@,
            asset@,
            asset_bf@,
        ),
        r matches Ok(b) ==> is_value(b.0@),
        r matches Ok(b) ==> is_nonce(b.1@),
        r matches Ok(b) ==> b.1@ == public_key_of(ephemeral@),
        r matches Ok(b) ==> is_rangeproof(b.2@),
        r matches Ok(b) ==> b.0@.len() == 33,
        r matches Ok(b) ==> is_confidential_nonce(b.1@),
        r matches Ok(b) ==> value <= MAX_PROVEN_VALUE ==> b.2@.len() == 4174,
        r matches Ok(b) ==> value <= MAX_OPENED_VALUE ==> opens_to(
            (OutputView {
                asset: blinded_asset(asset@, asset_bf@),
                value: b.0@,
                nonce: b.1@,
                script_pubkey: script_pubkey@,
                surjection_proof: None,
                rangeproof: Some(b.2@),
            }),
            receiver@,
            (SecretsView { asset: asset@, asset_bf: asset_bf@, value, value_bf: value_bf@ }),
        ),
{
    let asset = elements::AssetId::from_byte_array(*asset);
    let bf = AssetBlindingFactor::from_slice(asset_bf).unwrap();
    let msg = elements::RangeProofMessage { asset, bf };
    let value_bf = ValueBlindingFactor::from_slice(value_bf).unwrap();
    let receiver = elements::secp256k1_zkp::PublicKey::from_slice(receiver).unwrap();
    let ephemeral = SecretKey::from_slice(ephemeral).unwrap();
    let script = elements::Script::from(script_pubkey.to_vec());
    Value::Explicit(value)
        .blind(&Secp256k1::new(), value_bf, receiver, ephemeral, &script, &msg)
        .map(|(value, nonce, proof)| (serialize(&value), serialize(&nonce), proof.serialize()))
        .map_err(|e| e.to_string())
}

/// An asset that was blinded, with the proof that it is the one that is spent.
#[derive(Debug, PartialEq, Eq)]
pub struct BlindedAsset {
    pub asset: Vec<u8>,
    pub surjection_proof: Vec<u8>,
}

/// Whether a blinded asset is that of some secrets under a blinding factor, with a proof that it
/// is the one that is spent.
pub open spec fn is_blinded_asset(
    blinded: BlindedAsset,
    secrets: SecretsView,
    asset_bf: Seq<u8>,
) -> bool {
    &&& blinded.asset@ == blinded_asset(secrets.asset, asset_bf)
    &&& is_asset(blinded.asset@)
    &&& is_surjection_proof(blinded.surjection_proof@)
    &&& blinded.asset@.len() == 33
    &&& blinded.surjection_proof@.len() == 67
    &&& surjection_proves(
        blinded.surjection_proof@,
        blinded.asset@,
        seq![blinded_asset(secrets.asset, secrets.asset_bf)],
    )
}

/// The factor that blinds what is left of a spent value after the fees, so that the spent
/// output is blinded by as much as the payment, modulo the curve order. The fees are explicit
/// and take no part in it.
pub open spec fn payment_factor(secrets: SecretsView, fees: u64, asset_bf: Seq<u8>) -> Seq<u8> {
    be_digits(
        ((blind_weight(secrets.value, secrets.asset_bf, secrets.value_bf) - (secrets.value - fees)
            * be_value(asset_bf)) % (curve_order() as int)) as nat,
        32,
    )
}

/// What a payment of what is left of a spent value after the fees hides.
pub open spec fn payment_secrets(
    secrets: SecretsView,
    fees: u64,
    asset_bf: Seq<u8>,
) -> SecretsView {
    SecretsView {
        asset: secrets.asset,
        asset_bf,
        value: (secrets.value - fees) as u64,
        value_bf: payment_factor(secrets, fees, asset_bf),
    }
}

/// Whether an output has the sizes of a payment that hides some secrets, and opens to them with
/// the receiver's secret key.
pub open spec fn is_payment_to(
    output: OutputView,
    receiver: Seq<u8>,
    secrets: SecretsView,
) -> bool {
    &&& output.asset.len() == 33
    &&& output.value.len() == 33
    &&& is_confidential_nonce(output.nonce)
    &&& output.surjection_proof matches Some(proof) && proof.len() == 67
    &&& output.rangeproof matches Some(proof) && (secrets.value <= MAX_PROVEN_VALUE ==> proof.len()
        == 4174)
    &&& secrets.value <= MAX_OPENED_VALUE ==> opens_to(output, receiver, secrets)
}

/// Whether what is left of a value after the fees can be blinded: it is more than nothing, and
/// not too large.
pub open spec fn is_payable(value: u64, fees: u64) -> bool {
    fees < value && value - fees <= MAX_BLINDED_VALUE
}

/// The output that pays what is left of a spent value after the fees to an address with a
/// blinding key, where that can be blinded.
pub open spec fn payment_of(
    secrets: SecretsView,
    fees: u64,
    asset_bf: Seq<u8>,
    surjection_proof: Seq<u8>,
    ephemeral: Seq<u8>,
    address: AddressView,
) -> OutputView {
    let blinded = blinded_value(
        (secrets.value - fees) as u64,
        payment_factor(secrets, fees, asset_bf),
        address.blinding_pubkey->0,
        ephemeral,
        address.script_pubkey,
        secrets.asset,
        asset_bf,
    );
    OutputView {
        asset: blinded_asset(secrets.asset, asset_bf),
        value: blinded.0,
        nonce: blinded.1,
        script_pubkey: address.script_pubkey,
        surjection_proof: Some(surjection_proof),
        rangeproof: Some(blinded.2),
    }
}

/// Two numbers that agree modulo `n`, one of them a sum with a term below `n`: the term is the
/// difference modulo `n`.
proof fn lemma_last_term(a: int, r: int, b: int, n: int)
    requires
        n > 0,
        0 <= r < n,
        (a + r) % n == b % n,
    ensures
        r == (b - a) % n,
{
    let q = (a + r) / n;
    let p = b / n;
    vstd::arithmetic::div_mod::lemma_fundamental_div_mod(a + r, n);
    vstd::arithmetic::div_mod::lemma_fundamental_div_mod(b, n);
    assert(n * p - n * q == (p - q) * n) by (nonlinear_arith);
    assert(b - a == (p - q) * n + r);
    vstd::arithmetic::div_mod::lemma_fundamental_div_mod_converse(b - a, n, p - q, r);
}

/// The blinding factor that 32 bytes are, or an [`Error::Blind`] where they are none.
pub fn asset_bf_from(bytes: [u8; 32]) -> (r: Result<[u8; 32], Error>)
    ensures
        match r {
            Ok(asset_bf) => is_blinding_factor(bytes@) && asset_bf@ == bytes@,
            Err(e) => !is_blinding_factor(bytes@) && (e matches Error::Blind(_)),
        },
{
    match check_blinding_factor(&bytes) {
        Ok(_) => Ok(bytes),
        Err(text) => Err(Error::Blind(text)),
    }
}

/// A random blinding factor. Where the bytes that were drawn are none, the number of a random
/// secret key takes their place.
pub fn draw_asset_bf() -> (r: Result<[u8; 32], Error>)
    ensures
        r matches Ok(bytes) && is_blinding_factor(bytes@),
{
    match asset_bf_from(random_asset_bf()) {
        Ok(bytes) => Ok(bytes),
        Err(_) => Ok(random_secret_key()),
    }
}

/// A number is below the next one that its first byte can begin.
proof fn lemma_be_value_bound(bytes: Seq<u8>)
    requires
        bytes.len() > 0,
    ensures
        be_value(bytes) < (bytes[0] + 1) * pow256((bytes.len() - 1) as nat),
    decreases bytes.len(),
{
    let front = bytes.drop_last();
    let first = bytes[0] + 1;
    if bytes.len() == 1 {
        assert(be_value(front) == 0);
        assert(pow256(0) == 1);
        assert(first * 1 == first);
    } else {
        lemma_be_value_bound(front);
        let p = pow256((front.len() - 1) as nat);
        assert(front[0] == bytes[0]);
        assert(pow256((bytes.len() - 1) as nat) == 256 * p);
        assert(256 * (first * p) == first * (256 * p)) by (nonlinear_arith);
        assert(be_value(front) + 1 <= first * p);
    }
}

/// A random blinding factor other than a given one. Where that one was drawn, another first byte
/// takes the place of its own.
pub fn draw_other_bf(given: &[u8; 32]) -> (r: [u8; 32])
    ensures
        is_blinding_factor(r@),
        r@ != given@,
{
    let mut drawn = match draw_asset_bf() {
        Ok(drawn) => drawn,
        Err(_) => random_secret_key(),
    };
    if same_bytes(&drawn, given) {
        let first: u8 = if given[0] == 0 {
            1
        } else {
            0
        };
        drawn[0] = first;
        proof {
            lemma_be_value_bound(drawn@);
            assert(2 * pow256(31) < curve_order()) by {
                reveal_with_fuel(pow256, 32);
            }
            assert((first + 1) * pow256(31) <= 2 * pow256(31)) by (nonlinear_arith)
                requires
                    first <= 1,
            ;
            assert(drawn@[0] != given@[0]);
        }
    }
    drawn
}

/// A random key pair: its secret is a number between zero and the curve order, of which nothing
/// else is known.
pub(crate) fn draw_keypair() -> (r: Keypair)
    ensures
        is_secret_key(r@),
{
    Keypair::from_secret_bytes(random_secret_key()).unwrap()
}

/// Blinds the asset of a spent output under a new blinding factor, or an [`Error::Blind`] where
/// the blinded asset is no other than the spent one, of which there is no proof.
pub fn blind_asset(spent: &OutputSecrets, asset_bf: &[u8; 32]) -> (r: Result<BlindedAsset, Error>)
    requires
        are_secrets(spent@),
        is_blinding_factor(asset_bf@),
    ensures
        match r {
            Ok(blinded) => is_blinded_asset(blinded, spent@, asset_bf@),
            Err(e) => e matches Error::Blind(_),
        },
        r is Ok <==> blinded_asset(spent.asset@, asset_bf@) != blinded_asset(
            spent.asset@,
            spent.asset_bf@,
        ),
        asset_bf@ != spent.asset_bf@ ==> r is Ok,
{
    match outside_blind_asset(&spent.asset, asset_bf, spent) {
        Ok((asset, surjection_proof)) => Ok(BlindedAsset { asset, surjection_proof }),
        Err(text) => Err(Error::Blind(text)),
    }
}

/// The factor that blinds what is left of a spent value after the fees.
fn last_factor(spent: &OutputSecrets, fees: u64, asset_bf: &[u8; 32]) -> (r: [u8; 32])
    requires
        fees <= spent.value,
        are_secrets(spent@),
        is_blinding_factor(asset_bf@),
    ensures
        r@ == payment_factor(spent@, fees, asset_bf@),
        is_blinding_factor(r@),
{
    let value: u64 = spent.value - fees;
    let zero: [u8; 32] = [0u8; 32];
    proof {
        lemma_be_zeros(zero@);
    }
    let inputs: [(u64, [u8; 32], [u8; 32]); 1] = [(spent.value, spent.asset_bf, spent.value_bf)];
    let outputs: [(u64, [u8; 32], [u8; 32]); 1] = [(fees, zero, zero)];
    let factor = last_value_bf(value, asset_bf, &inputs, &outputs);
    proof {
        let weight = blind_weight(spent.value, spent.asset_bf@, spent.value_bf@);
        let a = value * be_value(asset_bf@);
        reveal_with_fuel(blind_sum, 2);
        assert(blind_sum(inputs@) == weight);
        assert(fees * be_value(zero@) == 0) by (nonlinear_arith)
            requires
                be_value(zero@) == 0,
        ;
        assert(blind_sum(outputs@) == 0);
        lemma_last_term(a, be_value(factor@) as int, weight, curve_order() as int);
        lemma_be_digits(factor@);
    }
    factor
}

/// The output that pays what is left of a spent value after the fees to an address: an
/// [`Error::Protocol`] where the address has no blinding key, and an [`Error::Blind`] where
/// nothing is left or what is left is too large to be blinded.
pub fn payment_output(
    spent: &OutputSecrets,
    fees: u64,
    asset_bf: &[u8; 32],
    blinded: BlindedAsset,
    ephemeral: &Keypair,
    address: &Address,
) -> (r: Result<Output, Error>)
    requires
        fees <= spent.value,
        are_secrets(spent@),
        is_blinding_factor(asset_bf@),
        is_blinded_asset(blinded, spent@, asset_bf@),
    ensures
        address.blinding_pubkey is None ==> (r matches Err(Error::Protocol(t)) && t@
            == "No blinding key in tx."@),
        address.blinding_pubkey is Some && !is_payable(spent.value, fees) ==> (r matches Err(
            Error::Blind(_),
        )),
        address.blinding_pubkey is Some && is_payable(spent.value, fees) ==> (r matches Ok(made)
            && made@ == payment_of(
            spent@,
            fees,
            asset_bf@,
            blinded.surjection_proof@,
            ephemeral@,
            address@,
        ) && is_payment_to(
            made@,
            address@.blinding_pubkey->0,
            payment_secrets(spent@, fees, asset_bf@),
        )),
{
    let value: u64 = spent.value - fees;
    let value_bf = last_factor(spent, fees, asset_bf);
    let receiver = match &address.blinding_pubkey {
        Some(key) => key.to_bytes(),
        None => return Err(Error::Protocol("No blinding key in tx.".to_owned())),
    };
    if value == 0 {
        return Err(Error::Blind("a value of zero cannot be blinded".to_owned()));
    }
    let secret = ephemeral.secret_bytes();
    match outside_blind_value(
        value,
        &value_bf,
        &receiver,
        &secret,
        address.script_pubkey.as_slice(),
        &spent.asset,
        asset_bf,
    ) {
        Ok((value, nonce, rangeproof)) => Ok(
            Output::of_parts(
                OutputParts {
                    asset: blinded.asset,
                    value,
                    nonce,
                    script_pubkey: to_vec(address.script_pubkey.as_slice()),
                    surjection_proof: Some(blinded.surjection_proof),
                    rangeproof: Some(rangeproof),
                },
            ),
        ),
        Err(text) => Err(Error::Blind(text)),
    }
}

impl Output {
    /// Whether the range that the output proves ends below the largest number of 64 bits.
    pub fn can_unblind(&self) -> (r: bool)
        ensures
            r == can_open(self@),
    {
        match &self.parts().rangeproof {
            Some(proof) => match read_range_top(proof.as_slice()) {
                Some(top) => top < 0xffff_ffff_ffff_ffff,
                None => true,
            },
            None => true,
        }
    }

    /// What the output hides, or an [`Error::Unblind`] where the key does not open it.
    pub fn unblind(&self, keys: &Keypair) -> (r: Result<OutputSecrets, Error>)
        requires
            can_open(self@),
        ensures
            match unblinded(self@, keys@) {
                Some(secrets) => r matches Ok(found) && found@ == secrets && are_secrets(secrets)
                    && self@.asset == blinded_asset(secrets.asset, secrets.asset_bf),
                None => r matches Err(Error::Unblind(_)),
            },
    {
        let secret = keys.secret_bytes();
        match outside_unblind(&self.to_outside(), &secret) {
            Ok(secrets) => Ok(secrets),
            Err(text) => Err(Error::Unblind(text)),
        }
    }
}

} // verus!
