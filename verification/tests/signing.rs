use elements::confidential::{AssetBlindingFactor, Value, ValueBlindingFactor};
use elements::secp256k1_zkp::{All, Secp256k1};
use liquid_swaps::address::{Address, LiquidChain};
use liquid_swaps::blinding::{blind_asset, BlindedAsset};
use liquid_swaps::boltz::{PartialSig, Preimage, Side, SwapTxKind, SwapType};
use liquid_swaps::chain::{decode_transaction, tx_size, OutPoint, Output, OutputParts, Tx};
use liquid_swaps::error::Error;
use liquid_swaps::keys::Keypair;
use liquid_swaps::musig::{session_randomness, SessionRandomness};
use liquid_swaps::signing::{PartialSigEndpoint, PendingSpend, Signing};
use liquid_swaps::swap_script::LBtcSwapScript;
use liquid_swaps::swap_tx::{LBtcSwapTx, PaymentDraw};

const VALUE: u64 = 100_000;
const FEE: u64 = 250;
const LOCKTIME: u32 = 1_234_567;
const GENESIS: [u8; 32] = [7u8; 32];

fn pair(byte: u8) -> Keypair {
    match Keypair::from_secret_bytes([byte; 32]) {
        Ok(keys) => keys,
        Err(e) => panic!("{:?}", e),
    }
}

fn ours() -> Keypair {
    pair(0x11)
}

fn theirs() -> Keypair {
    pair(0x22)
}

fn preimage() -> Preimage {
    Preimage { bytes: Some([0x55; 32]) }
}

fn script(swap_type: SwapType, side: Option<Side>, we_send: bool) -> LBtcSwapScript {
    let (sender, receiver) = if we_send { (ours(), theirs()) } else { (theirs(), ours()) };
    LBtcSwapScript {
        swap_type,
        side,
        funding_addrs: None,
        hashlock: [9u8; 20],
        receiver_pubkey: receiver.public_key(),
        locktime: LOCKTIME,
        sender_pubkey: sender.public_key(),
        blinding_key: pair(0x33),
    }
}

fn submarine() -> LBtcSwapScript {
    script(SwapType::Submarine, None, true)
}

fn reverse() -> LBtcSwapScript {
    script(SwapType::ReverseSubmarine, None, false)
}

fn address_of(script: &LBtcSwapScript) -> Address {
    script.to_address(LiquidChain::LiquidRegtest).unwrap()
}

fn asset() -> elements::AssetId {
    elements::AssetId::from_byte_array([0xaa; 32])
}

fn secp() -> Secp256k1<All> {
    Secp256k1::new()
}

/// A confidential output of the given value to an address.
fn locked_output(address: &Address, value: u64) -> elements::TxOut {
    let mut rng = bitcoin::key::rand::rngs::OsRng;
    let spent = elements::TxOutSecrets::new(
        asset(),
        AssetBlindingFactor::zero(),
        value,
        ValueBlindingFactor::zero(),
    );
    let address: elements::Address = address.text.parse().unwrap();
    elements::TxOut::new_not_last_confidential(
        &mut rng,
        &secp(),
        value,
        address,
        asset(),
        &[spent],
    )
    .unwrap()
    .0
}

fn plain(output: &elements::TxOut) -> Output {
    let parts = OutputParts {
        asset: elements::encode::serialize(&output.asset),
        value: elements::encode::serialize(&output.value),
        nonce: elements::encode::serialize(&output.nonce),
        script_pubkey: output.script_pubkey.to_bytes(),
        surjection_proof: output.witness.surjection_proof.as_ref().map(|p| p.serialize()),
        rangeproof: output.witness.rangeproof.as_ref().map(|p| p.serialize()),
    };
    Output::from_parts(parts).unwrap()
}

fn outside(tx: &Tx) -> elements::Transaction {
    elements::encode::deserialize(&tx.serialize()).unwrap()
}

fn target() -> Address {
    address_of(&script(SwapType::Chain, None, true))
}

fn funded(kind: SwapTxKind, script: LBtcSwapScript) -> (LBtcSwapTx, elements::TxOut) {
    let utxo = locked_output(&address_of(&script), VALUE);
    let place = OutPoint { txid: [3u8; 32], vout: 5 };
    let text = target().text;
    let made = match kind {
        SwapTxKind::Claim => LBtcSwapTx::new_claim(script, &text, (place, plain(&utxo)), GENESIS),
        SwapTxKind::Refund => {
            LBtcSwapTx::new_refund(script, &text, (place, plain(&utxo)), GENESIS)
        }
    };
    match made {
        Ok(tx) => (tx, utxo),
        Err(e) => panic!("{:?}", e),
    }
}

fn done(r: Result<Signing, Error>) -> Tx {
    match r {
        Ok(Signing::Done(tx)) => tx,
        Ok(Signing::Ask(_, _)) => panic!("the provider is asked"),
        Err(e) => panic!("{:?}", e),
    }
}

fn failure(r: Result<Signing, Error>) -> Error {
    match r {
        Ok(_) => panic!("an error was expected"),
        Err(e) => e,
    }
}

fn protocol(text: &str) -> Error {
    Error::Protocol(text.to_string())
}

/// The payment and the fee, after a look at all that a claim and a refund have in common.
fn check_amounts(tx: &Tx, utxo: &elements::TxOut, payment: usize, fee: usize) {
    let made = outside(tx);
    assert_eq!(made.version, 2);
    assert_eq!(made.input.len(), 1);
    assert_eq!(made.input[0].previous_output.vout, 5);
    assert_eq!(made.output.len(), 2);
    assert_eq!(made.output[fee].value, elements::confidential::Value::Explicit(FEE));
    assert_eq!(made.output[fee].asset, elements::confidential::Asset::Explicit(asset()));
    assert!(made.output[fee].is_fee());
    assert_eq!(made.output[payment].script_pubkey.to_bytes(), target().script_pubkey);
    let key = elements::secp256k1_zkp::SecretKey::from_slice(&[0x33; 32]).unwrap();
    let secrets = made.output[payment].unblind(&secp(), key).unwrap();
    assert_eq!(secrets.value, VALUE - FEE);
    assert_eq!(secrets.asset, asset());
    made.verify_tx_amt_proofs(&secp(), &[utxo.clone()]).unwrap();
}

fn verify(signature: &[u8], message: &[u8; 32], key: &[u8]) {
    secp()
        .verify_schnorr(
            &elements::secp256k1_zkp::schnorr::Signature::from_slice(signature).unwrap(),
            &elements::secp256k1_zkp::Message::from_digest(*message),
            &elements::schnorr::XOnlyPublicKey::from_slice(key).unwrap(),
        )
        .unwrap();
}

fn script_hash(tx: &Tx, utxo: &elements::TxOut, script: &[u8]) -> [u8; 32] {
    let script = elements::Script::from(script.to_vec());
    let version = elements::taproot::LeafVersion::default();
    let leaf = elements::taproot::TapLeafHash::from_script(&script, version);
    let hash = elements::sighash::SighashCache::new(&outside(tx))
        .taproot_script_spend_signature_hash(
            0,
            &elements::sighash::Prevouts::All(&[utxo]),
            leaf,
            elements::SchnorrSighashType::Default,
            elements::hashes::Hash::from_byte_array(GENESIS),
        )
        .unwrap();
    elements::hashes::Hash::to_byte_array(hash)
}

fn key_hash(tx: &Tx, utxo: &elements::TxOut) -> [u8; 32] {
    let hash = elements::sighash::SighashCache::new(&outside(tx))
        .taproot_key_spend_signature_hash(
            0,
            &elements::sighash::Prevouts::All(&[utxo]),
            elements::SchnorrSighashType::Default,
            elements::hashes::Hash::from_byte_array(GENESIS),
        )
        .unwrap();
    elements::hashes::Hash::to_byte_array(hash)
}

fn commits(script_pubkey: &elements::Script, script: &[u8], block: &[u8]) -> bool {
    let output = elements::schnorr::XOnlyPublicKey::from_slice(&script_pubkey.as_bytes()[2..]);
    elements::taproot::ControlBlock::from_slice(block).unwrap().verify_taproot_commitment(
        &secp(),
        &elements::schnorr::TweakedPublicKey::new(output.unwrap()),
        &elements::Script::from(script.to_vec()),
    )
}

#[test]
fn claims_by_the_script() {
    let (tx, utxo) = funded(SwapTxKind::Claim, reverse());
    let signed = done(tx.sign_claim(&ours(), &preimage(), FEE, false));
    check_amounts(&signed, &utxo, 0, 1);
    assert_eq!(signed.lock_time, 0);
    assert_eq!(signed.input[0].sequence, 0);
    let witness = &signed.input[0].witness;
    assert_eq!(witness.len(), 4);
    assert_eq!(witness[0].len(), 64);
    assert_eq!(witness[1], vec![0x55; 32]);
    assert_eq!(witness[2], reverse().claim_script());
    let hash = script_hash(&signed, &utxo, &witness[2]);
    verify(&witness[0], &hash, &ours().public_key().x_only());
    assert!(commits(&utxo.script_pubkey, &witness[2], &witness[3]));
}

#[test]
fn refunds_by_the_script() {
    let (tx, utxo) = funded(SwapTxKind::Refund, submarine());
    let signed = done(tx.sign_refund(&ours(), FEE, false));
    check_amounts(&signed, &utxo, 1, 0);
    assert_eq!(signed.lock_time, LOCKTIME);
    assert_eq!(signed.input[0].sequence, 0);
    let witness = &signed.input[0].witness;
    assert_eq!(witness.len(), 3);
    assert_eq!(witness[0].len(), 64);
    assert_eq!(witness[1], submarine().refund_script());
    let hash = script_hash(&signed, &utxo, &witness[1]);
    verify(&witness[0], &hash, &ours().public_key().x_only());
    assert!(commits(&utxo.script_pubkey, &witness[1], &witness[2]));
}

fn ask(r: Result<Signing, Error>, endpoint: PartialSigEndpoint) -> (String, Tx, PendingSpend) {
    match r {
        Ok(Signing::Ask(request, spend)) => {
            assert_eq!(request.endpoint, endpoint);
            assert_eq!(request.to_sign.index, 0);
            let bytes = hex::decode(&request.to_sign.transaction).unwrap();
            let made: elements::Transaction = elements::encode::deserialize(&bytes).unwrap();
            let (_, output) = decode_transaction(&bytes).unwrap();
            let input = made
                .input
                .iter()
                .map(|i| liquid_swaps::chain::Input {
                    previous_output: OutPoint {
                        txid: elements::hashes::Hash::to_byte_array(i.previous_output.txid),
                        vout: i.previous_output.vout,
                    },
                    script_sig: i.script_sig.to_bytes(),
                    sequence: i.sequence.0,
                    witness: i.witness.script_witness.clone(),
                })
                .collect();
            let lock_time = made.lock_time.to_consensus_u32();
            let tx = Tx { version: made.version, lock_time, input, output };
            assert_eq!(tx.input[0].witness, vec![vec![0u8; 64]]);
            assert_eq!(tx.input[0].sequence, u32::MAX);
            (request.to_sign.pub_nonce, tx, spend)
        }
        Ok(Signing::Done(_)) => panic!("the provider is not asked"),
        Err(e) => panic!("{:?}", e),
    }
}

fn signed(r: Result<Tx, Error>) -> Tx {
    match r {
        Ok(tx) => tx,
        Err(e) => panic!("{:?}", e),
    }
}

#[test]
fn refunds_together_with_the_provider() {
    let (tx, utxo) = funded(SwapTxKind::Refund, submarine());
    let asked = tx.sign_refund(&ours(), FEE, true);
    let (our_nonce, made, spend) = ask(asked, PartialSigEndpoint::Submarine);
    check_amounts(&made, &utxo, 1, 0);
    assert_eq!(made.lock_time, 0);
    let hash = key_hash(&made, &utxo);
    let (part, nonce) = match tx.partial_sign(&theirs(), &our_nonce, &hex::encode(hash)) {
        Ok(part) => part,
        Err(e) => panic!("{:?}", e),
    };
    let reply = PartialSig {
        pub_nonce: hex::encode(nonce),
        partial_signature: hex::encode(part),
    };
    let whole = signed(spend.complete(&reply));
    assert_eq!(whole.output, made.output);
    assert_eq!(whole.lock_time, 0);
    assert_eq!(whole.input[0].witness.len(), 1);
    assert_eq!(whole.input[0].witness[0].len(), 64);
    verify(&whole.input[0].witness[0], &hash, &utxo.script_pubkey.as_bytes()[2..]);
}

/// The provider's part, made with the keys in the given order.
fn provider_part(
    script: &LBtcSwapScript,
    order: [Keypair; 2],
    our_nonce: &str,
    message: &[u8; 32],
) -> PartialSig {
    let key = |keys: &Keypair| {
        secp256k1::PublicKey::from_slice(&keys.public_key().to_bytes()).unwrap()
    };
    let keys = [key(&order[0]), key(&order[1])];
    let mut cache = secp256k1::musig::KeyAggCache::new(&[&keys[0], &keys[1]]);
    let info = script.taproot_spendinfo().unwrap();
    let tweak = elements::hashes::Hash::to_byte_array(info.tap_tweak());
    let tweak = secp256k1::Scalar::from_be_bytes(tweak).unwrap();
    cache.pubkey_xonly_tweak_add(&tweak).unwrap();
    let secret = secp256k1::musig::SessionSecretRand::from_rng(&mut secp256k1::rand::rng());
    let (secret_nonce, nonce) =
        cache.nonce_gen_with_uniform_randomness(secret, key(&theirs()), message, [8u8; 32]);
    let our_nonce: secp256k1::musig::PublicNonce = our_nonce.parse().unwrap();
    let nonces = secp256k1::musig::AggregatedNonce::new(&[&our_nonce, &nonce]);
    let session = secp256k1::musig::Session::new(&cache, nonces, message);
    let secret = secp256k1::SecretKey::from_secret_bytes(theirs().secret_bytes()).unwrap();
    let pair = secp256k1::Keypair::from_secret_key(&secret);
    let part = session.partial_sign(secret_nonce, &pair, &cache);
    PartialSig {
        pub_nonce: hex::encode(nonce.serialize()),
        partial_signature: hex::encode(part.serialize()),
    }
}

#[test]
fn claims_together_with_the_provider() {
    let cases = [
        (reverse(), PartialSigEndpoint::Reverse),
        (script(SwapType::Chain, Some(Side::Claim), false), PartialSigEndpoint::ChainClaim),
    ];
    for (script, endpoint) in cases {
        let (tx, utxo) = funded(SwapTxKind::Claim, script.clone());
        let asked = tx.sign_claim(&ours(), &preimage(), FEE, true);
        let (our_nonce, made, spend) = ask(asked, endpoint);
        check_amounts(&made, &utxo, 0, 1);
        let hash = key_hash(&made, &utxo);
        let reply = provider_part(&script, [theirs(), ours()], &our_nonce, &hash);
        let whole = signed(spend.complete(&reply));
        verify(&whole.input[0].witness[0], &hash, &utxo.script_pubkey.as_bytes()[2..]);
    }
}

#[test]
fn refunds_a_chain_swap_together_with_the_provider() {
    let script = script(SwapType::Chain, Some(Side::Lockup), true);
    let (tx, utxo) = funded(SwapTxKind::Refund, script.clone());
    let asked = tx.sign_refund(&ours(), FEE, true);
    let (our_nonce, made, spend) = ask(asked, PartialSigEndpoint::ChainRefund);
    let hash = key_hash(&made, &utxo);
    let reply = provider_part(&script, [theirs(), ours()], &our_nonce, &hash);
    let whole = signed(spend.complete(&reply));
    verify(&whole.input[0].witness[0], &hash, &utxo.script_pubkey.as_bytes()[2..]);
}

fn pending() -> (String, [u8; 32], PendingSpend) {
    let (tx, utxo) = funded(SwapTxKind::Claim, reverse());
    let asked = tx.sign_claim(&ours(), &preimage(), FEE, true);
    let (our_nonce, made, spend) = ask(asked, PartialSigEndpoint::Reverse);
    (our_nonce, key_hash(&made, &utxo), spend)
}

#[test]
fn refuses_a_part_that_does_not_verify() {
    let (our_nonce, _, spend) = pending();
    let reply = provider_part(&reverse(), [theirs(), ours()], &our_nonce, &[1u8; 32]);
    let e = spend.complete(&reply).unwrap_err();
    assert_eq!(e, Error::Taproot("Unable to verify Partial Signature".to_string()));
}

#[test]
fn refuses_a_reply_that_cannot_be_read() {
    let (our_nonce, hash, spend) = pending();
    let good = provider_part(&reverse(), [theirs(), ours()], &our_nonce, &hash);
    let reply = PartialSig { pub_nonce: "zz".to_string(), ..good.clone() };
    assert!(matches!(spend.complete(&reply), Err(Error::Hex(_))));
    let (_, _, spend) = pending();
    let reply = PartialSig { partial_signature: "00".to_string(), ..good.clone() };
    let text = "Expected 32 bytes, got 1";
    assert_eq!(spend.complete(&reply), Err(protocol(text)));
    let (_, _, spend) = pending();
    let reply = PartialSig { pub_nonce: "00".repeat(66), ..good.clone() };
    assert!(spend.try_complete(&reply).is_none());
    let (_, _, spend) = pending();
    let reply = PartialSig { partial_signature: "ff".repeat(32), ..good.clone() };
    assert!(spend.try_complete(&reply).is_none());
    let (our_nonce, hash, spend) = pending();
    let good = provider_part(&reverse(), [theirs(), ours()], &our_nonce, &hash);
    assert!(matches!(spend.try_complete(&good), Some(Ok(_))));
}

#[test]
fn claims_no_submarine_swap_and_refunds_no_reverse_swap() {
    let utxo = plain(&locked_output(&target(), VALUE));
    let place = OutPoint { txid: [3u8; 32], vout: 5 };
    let text = target().text;
    let r = LBtcSwapTx::new_claim(submarine(), &text, (place, utxo.clone()), GENESIS);
    let e = protocol("Claim transactions cannot be constructed for Submarine swaps.");
    assert!(r.err() == Some(e));
    let r = LBtcSwapTx::new_refund(reverse(), &text, (place, utxo.clone()), GENESIS);
    let e = protocol("Refund Txs cannot be constructed for Reverse Submarine Swaps.");
    assert!(r.err() == Some(e));
    let r = LBtcSwapTx::new_claim(reverse(), "nonsense", (place, utxo.clone()), GENESIS);
    assert!(matches!(r.err(), Some(Error::Address(_))));
    let r = LBtcSwapTx::new_refund(submarine(), "nonsense", (place, utxo), GENESIS);
    assert!(matches!(r.err(), Some(Error::Address(_))));
}

#[test]
fn signs_a_transaction_in_its_own_way_only() {
    let (mut claim, _) = funded(SwapTxKind::Claim, reverse());
    assert_eq!(claim.check_sign_claim(), Ok(()));
    let text = "Refund Tx signing is not applicable for Reverse Submarine Swaps";
    assert_eq!(claim.check_sign_refund(), Err(protocol(text)));
    assert!(claim.try_sign_refund(&ours(), FEE, false).is_none());
    claim.swap_script.swap_type = SwapType::Chain;
    let text = "Cannot sign refund with a claim-type LBtcSwapTx";
    assert_eq!(claim.check_sign_refund(), Err(protocol(text)));
    assert!(claim.try_sign_refund(&ours(), FEE, false).is_none());
    let (mut refund, _) = funded(SwapTxKind::Refund, submarine());
    assert_eq!(refund.check_sign_refund(), Ok(()));
    let text = "Claim Tx signing is not applicable for Submarine Swaps";
    assert_eq!(refund.check_sign_claim(), Err(protocol(text)));
    assert!(refund.try_sign_claim(&ours(), &preimage(), FEE, true).is_none());
    refund.swap_script.swap_type = SwapType::Chain;
    let text = "Cannot sign claim with refund-type LBtcSwapTx";
    assert_eq!(refund.check_sign_claim(), Err(protocol(text)));
    assert!(refund.try_sign_claim(&ours(), &preimage(), FEE, true).is_none());
    let e = failure(claim.sign_claim(&ours(), &Preimage { bytes: None }, FEE, true));
    assert_eq!(e, protocol("No preimage provided"));
}

#[test]
fn needs_a_blinded_target_and_an_output_that_opens() {
    let (mut tx, _) = funded(SwapTxKind::Claim, reverse());
    tx.output_address.blinding_pubkey = None;
    let e = failure(tx.sign_claim(&ours(), &preimage(), FEE, false));
    assert_eq!(e, protocol("No blinding key in tx."));
    let (mut tx, _) = funded(SwapTxKind::Claim, reverse());
    tx.swap_script.blinding_key = pair(0x44);
    let e = failure(tx.sign_claim(&ours(), &preimage(), FEE, false));
    assert!(matches!(e, Error::Unblind(_)));
}

#[test]
fn needs_a_value_that_covers_the_fees() {
    let (tx, _) = funded(SwapTxKind::Claim, reverse());
    assert!(tx.covers_fees(VALUE));
    assert!(!tx.covers_fees(VALUE + 1));
    assert!(tx.try_sign_claim(&ours(), &preimage(), VALUE + 1, false).is_none());
    assert!(tx.try_sign_claim(&ours(), &preimage(), VALUE - 1, true).is_some());
    let e = failure(tx.sign_claim(&ours(), &preimage(), VALUE, false));
    assert!(matches!(e, Error::Blind(_)));
    let (tx, _) = funded(SwapTxKind::Refund, submarine());
    assert!(tx.try_sign_refund(&ours(), VALUE + 1, true).is_none());
    assert!(tx.try_sign_refund(&ours(), FEE, true).is_some());
}

#[test]
fn refunds_only_with_a_lock_time_that_can_be_read() {
    for (locktime, readable) in [(0, true), (1, false), (16, false), (17, true), (1 << 31, false)] {
        let mut script = submarine();
        script.locktime = locktime;
        let (tx, _) = funded(SwapTxKind::Refund, script);
        let r = tx.sign_refund(&ours(), FEE, false);
        if readable {
            assert_eq!(done(r).lock_time, locktime);
        } else {
            let e = protocol("Error getting timelock from refund script");
            assert_eq!(failure(r), e);
        }
    }
}

#[test]
fn compares_the_address_before_it_spends() {
    let (mut tx, _) = funded(SwapTxKind::Claim, reverse());
    tx.swap_script.funding_addrs = Some(target());
    for is_cooperative in [false, true] {
        let e = failure(tx.sign_claim(&ours(), &preimage(), FEE, is_cooperative));
        assert!(matches!(e, Error::Protocol(t) if t.starts_with("Taproot construction Failed.")));
    }
}

#[test]
fn gives_the_first_error_that_is_met() {
    let mut script = submarine();
    script.locktime = 1;
    let (mut tx, _) = funded(SwapTxKind::Refund, script);
    tx.swap_script.funding_addrs = Some(target());
    for is_cooperative in [false, true] {
        let e = failure(tx.sign_refund(&ours(), FEE, is_cooperative));
        assert_eq!(e, protocol("Error getting timelock from refund script"));
        let e = failure(tx.sign_refund(&ours(), VALUE, is_cooperative));
        assert!(matches!(e, Error::Blind(_)));
        assert!(matches!(tx.create_refund(&ours(), VALUE, is_cooperative), Err(Error::Blind(_))));
    }
    tx.output_address.blinding_pubkey = None;
    for is_cooperative in [false, true] {
        let e = failure(tx.sign_refund(&ours(), VALUE, is_cooperative));
        assert_eq!(e, protocol("No blinding key in tx."));
    }
}

#[test]
fn takes_a_secret_that_is_not_all_zero_for_a_session() {
    let mut secret = [0u8; 32];
    let r = session_randomness(secret, [2u8; 32]);
    assert!(matches!(r, Err(Error::Key(_))));
    secret[31] = 1;
    let drawn = session_randomness(secret, [0u8; 32]).ok().unwrap();
    assert_eq!(drawn.session_secret, secret);
    assert_eq!(drawn.extra_rand, [0u8; 32]);
}

#[test]
fn the_size_is_that_of_the_signed_transaction() {
    let (tx, _) = funded(SwapTxKind::Claim, reverse());
    let made = done(tx.sign_claim(&ours(), &preimage(), FEE, false));
    let stub = tx.create_claim(&ours(), &preimage(), FEE, true).unwrap();
    for is_discount_ct in [false, true] {
        let size = tx.size(&ours(), false, is_discount_ct).unwrap();
        assert_eq!(size, tx_size(&made, is_discount_ct));
        let size = tx.size(&ours(), true, is_discount_ct).unwrap();
        assert_eq!(size, tx_size(&stub, is_discount_ct));
    }
    assert_eq!(tx_size(&made, false), outside(&made).vsize());
    assert_eq!(tx_size(&made, true), outside(&made).discount_vsize());
    assert!(tx_size(&made, true) < tx_size(&made, false));
    let by_script = tx.size(&ours(), false, true).unwrap();
    let by_key = tx.size(&ours(), true, true).unwrap();
    assert!(by_key < by_script);
    let (refund, _) = funded(SwapTxKind::Refund, submarine());
    let made = done(refund.sign_refund(&ours(), VALUE - 1, false));
    assert_eq!(refund.try_size(&theirs(), false, true), Some(Ok(tx_size(&made, true))));
}

/// An output to an address that opens with its blinding key, and that proves a range of 64 bits.
fn output_with_full_range(address: &Address) -> Output {
    let secp = secp();
    let (abf, vbf) = (AssetBlindingFactor::zero(), ValueBlindingFactor::zero());
    let generator = elements::secp256k1_zkp::Generator::new_blinded(
        &secp,
        asset().into_tag(),
        abf.into_inner(),
    );
    let commitment = elements::secp256k1_zkp::PedersenCommitment::new(
        &secp,
        VALUE,
        vbf.into_inner(),
        generator,
    );
    let receiver = address.blinding_pubkey.unwrap().to_bytes();
    let (nonce, shared) = elements::confidential::Nonce::with_ephemeral_sk(
        &secp,
        elements::secp256k1_zkp::SecretKey::from_slice(&[0x66; 32]).unwrap(),
        &elements::secp256k1_zkp::PublicKey::from_slice(&receiver).unwrap(),
    );
    let proof = elements::secp256k1_zkp::RangeProof::new(
        &secp,
        0,
        commitment,
        VALUE,
        vbf.into_inner(),
        &elements::RangeProofMessage { asset: asset(), bf: abf }.to_bytes(),
        &address.script_pubkey,
        shared,
        0,
        64,
        generator,
    )
    .unwrap();
    let parts = OutputParts {
        asset: elements::encode::serialize(&elements::confidential::Asset::Confidential(generator)),
        value: elements::encode::serialize(&Value::Confidential(commitment)),
        nonce: elements::encode::serialize(&nonce),
        script_pubkey: address.script_pubkey.clone(),
        surjection_proof: None,
        rangeproof: Some(proof.serialize()),
    };
    Output::from_parts(parts).unwrap()
}

#[test]
fn does_not_try_an_output_whose_range_has_no_end() {
    let (mut tx, _) = funded(SwapTxKind::Claim, reverse());
    assert!(tx.funding_utxo.can_unblind());
    tx.funding_utxo = output_with_full_range(&address_of(&reverse()));
    assert_eq!(tx.funding_utxo.parts().rangeproof.as_ref().unwrap()[..2], [0x40, 0x3f]);
    assert!(!tx.funding_utxo.can_unblind());
    assert!(!tx.covers_fees(0));
    assert!(!tx.fits_signing(SwapTxKind::Claim, FEE, false));
    assert!(tx.try_sign_claim(&ours(), &preimage(), FEE, false).is_none());
    assert!(tx.try_size(&ours(), true, true).is_none());
}

#[test]
fn a_claim_with_the_stub_shows_neither_keys_nor_preimage() {
    let (tx, _) = funded(SwapTxKind::Claim, reverse());
    let secrets = tx.funding_utxo.unblind(&pair(0x33)).ok().unwrap();
    let mut asset_bf = [0u8; 32];
    asset_bf[31] = 2;
    let blinded = blind_asset(&secrets, &asset_bf).unwrap();
    let draw = || PaymentDraw {
        asset_bf,
        blinded: BlindedAsset {
            asset: blinded.asset.clone(),
            surjection_proof: blinded.surjection_proof.clone(),
        },
        ephemeral: pair(0x66),
    };
    let kind = SwapTxKind::Claim;
    let first = tx.create_with(kind, &ours(), &[0x55; 32], &secrets, FEE, true, draw()).unwrap();
    let second = tx.create_with(kind, &theirs(), &[0x56; 32], &secrets, FEE, true, draw()).unwrap();
    assert_eq!(first, second);
    assert_eq!(first.input[0].witness, vec![vec![0u8; 64]]);
    let signed = tx.create_with(kind, &ours(), &[0x55; 32], &secrets, FEE, false, draw()).unwrap();
    assert_ne!(signed, first);
}

#[test]
fn signs_its_part_for_the_provider() {
    let script = submarine();
    let nonce = pending().0;
    let hash = "ab".repeat(32);
    let (_, first) = script.partial_sign(&ours(), &nonce, &hash).unwrap();
    let (_, second) = script.partial_sign(&ours(), &nonce, &hash).unwrap();
    assert_ne!(first, second);
    let (tx, _) = funded(SwapTxKind::Refund, submarine());
    assert!(tx.partial_sign(&ours(), &nonce, &hash).is_ok());
    let e = tx.partial_sign(&ours(), &nonce, "ab").unwrap_err();
    assert_eq!(e, protocol("Expected 32 bytes, got 1"));
    let e = script.partial_sign(&ours(), &nonce, "ab").unwrap_err();
    assert_eq!(e, protocol("Expected 32 bytes, got 1"));
    let e = script.partial_sign(&ours(), "00", &hash).unwrap_err();
    assert_eq!(e, protocol("Expected 66 bytes, got 1"));
    assert!(script.try_partial_sign(&ours(), &"00".repeat(66), &hash).is_none());
    assert!(matches!(script.try_partial_sign(&ours(), &nonce, &hash), Some(Ok(_))));
}

#[test]
fn a_part_is_made_of_what_was_drawn_alone() {
    let script = submarine();
    let nonce = pending().0;
    let hash = "cd".repeat(32);
    let drawn = SessionRandomness { session_secret: [1u8; 32], extra_rand: [2u8; 32] };
    let first = script.partial_sign_with(&ours(), &nonce, &hash, &drawn).unwrap();
    let second = script.partial_sign_with(&ours(), &nonce, &hash, &drawn).unwrap();
    assert_eq!(first, second);
    let other = script.partial_sign_with(&ours(), &nonce, &"ce".repeat(32), &drawn).unwrap();
    assert_ne!(first, other);
    let (part, our_nonce) = first;
    let keys = [theirs(), ours()]
        .map(|keys| secp256k1::PublicKey::from_slice(&keys.public_key().to_bytes()).unwrap());
    let mut cache = secp256k1::musig::KeyAggCache::new(&[&keys[0], &keys[1]]);
    let info = script.taproot_spendinfo().unwrap();
    let tweak = elements::hashes::Hash::to_byte_array(info.tap_tweak());
    cache.pubkey_xonly_tweak_add(&secp256k1::Scalar::from_be_bytes(tweak).unwrap()).unwrap();
    let nonces = [hex::decode(&nonce).unwrap(), our_nonce.to_vec()].map(|bytes| {
        secp256k1::musig::PublicNonce::from_byte_array(&bytes.try_into().unwrap()).unwrap()
    });
    let sum = secp256k1::musig::AggregatedNonce::new(&[&nonces[0], &nonces[1]]);
    let session = secp256k1::musig::Session::new(&cache, sum, &[0xcd; 32]);
    let part = secp256k1::musig::PartialSignature::from_byte_array(&part).unwrap();
    assert!(session.partial_verify(&cache, &part, &nonces[1], keys[1]));
    assert!(!session.partial_verify(&cache, &part, &nonces[0], keys[0]));
}
