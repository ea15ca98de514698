use liquid_swaps::address::{Address, LiquidChain};
use liquid_swaps::boltz::{ChainSwapTransactions, LockTransaction, Side, SwapTxKind, SwapType};
use liquid_swaps::chain::{decode_transaction, OutPoint, Output, OutputParts};
use liquid_swaps::error::Error;
use liquid_swaps::keys::Keypair;
use liquid_swaps::lockup::{found_utxo, LockupSource};
use liquid_swaps::swap_script::LBtcSwapScript;

fn pair(byte: u8) -> Keypair {
    Keypair::from_secret_bytes([byte; 32]).ok().unwrap()
}

fn script(swap_type: SwapType) -> LBtcSwapScript {
    LBtcSwapScript {
        swap_type,
        side: Some(Side::Lockup),
        funding_addrs: None,
        hashlock: [9u8; 20],
        receiver_pubkey: pair(0x22).public_key(),
        locktime: 500,
        sender_pubkey: pair(0x11).public_key(),
        blinding_key: pair(0x33),
    }
}

fn output(script_pubkey: Vec<u8>, amount: u64) -> elements::TxOut {
    let mut output = elements::TxOut::new_fee(amount, elements::AssetId::from_byte_array([1; 32]));
    output.script_pubkey = elements::Script::from(script_pubkey);
    output
}

fn transaction(output: Vec<elements::TxOut>) -> elements::Transaction {
    elements::Transaction {
        version: 2,
        lock_time: elements::LockTime::ZERO,
        input: vec![elements::TxIn::default()],
        output,
    }
}

fn text(tx: &elements::Transaction) -> Option<String> {
    Some(hex::encode(elements::encode::serialize(tx)))
}

#[test]
fn asks_for_the_transaction_of_its_kind() {
    assert_eq!(script(SwapType::Chain).lockup_source(), LockupSource::ChainTransactions);
    let source = script(SwapType::ReverseSubmarine).lockup_source();
    assert_eq!(source, LockupSource::ReverseTransaction);
    assert_eq!(script(SwapType::Submarine).lockup_source(), LockupSource::SubmarineTransaction);
}

#[test]
fn claims_what_the_provider_locked_up_and_refunds_what_we_did() {
    let lock = |text: &str| Some(LockTransaction { hex: Some(text.to_string()) });
    let both = ChainSwapTransactions { user_lock: lock("aa"), server_lock: lock("bb") };
    assert_eq!(both.clone().lock_hex(SwapTxKind::Claim), Ok(Some("bb".to_string())));
    assert_eq!(both.lock_hex(SwapTxKind::Refund), Ok(Some("aa".to_string())));
    let none = ChainSwapTransactions { user_lock: None, server_lock: None };
    let e = "No server_lock transaction for Chain Swap available".to_string();
    assert_eq!(none.clone().lock_hex(SwapTxKind::Claim), Err(Error::Protocol(e)));
    let e = "No user_lock transaction for Chain Swap available".to_string();
    assert_eq!(none.lock_hex(SwapTxKind::Refund), Err(Error::Protocol(e)));
}

#[test]
fn finds_the_first_output_to_its_address() {
    let script = script(SwapType::Submarine);
    let address = script.to_address(LiquidChain::Liquid).unwrap();
    let tx = transaction(vec![
        output(vec![], 1),
        output(address.script_pubkey.clone(), 2),
        output(address.script_pubkey.clone(), 3),
    ]);
    let (place, found) = script.find_lockup_utxo(LiquidChain::Liquid, text(&tx)).unwrap();
    let txid = elements::hashes::Hash::to_byte_array(tx.txid());
    assert_eq!(place, OutPoint { txid, vout: 1 });
    assert_eq!(found.parts().script_pubkey, address.script_pubkey);
    assert_eq!(found.parts().value, vec![1, 0, 0, 0, 0, 0, 0, 0, 2]);
    let (id, outputs) = decode_transaction(&elements::encode::serialize(&tx)).unwrap();
    assert_eq!(id, txid);
    assert_eq!(outputs.len(), 3);
    assert_eq!(outputs[1], found);
}

#[test]
fn tells_why_it_finds_no_output() {
    let script = script(SwapType::Submarine);
    let find = |text: Option<String>| script.find_lockup_utxo(LiquidChain::Liquid, text);
    let e = "No transaction hex found in boltz response".to_string();
    assert_eq!(find(None), Err(Error::Hex(e)));
    assert!(matches!(find(Some("xy".to_string())), Err(Error::Hex(_))));
    assert!(matches!(find(Some("abcd".to_string())), Err(Error::Encode(_))));
    let e = "Boltz could not find a Liquid UTXO for script".to_string();
    let other = transaction(vec![output(vec![], 1)]);
    assert_eq!(find(text(&other)), Err(Error::Protocol(e)));
    let mut script = script.clone();
    let empty = Address { text: String::new(), script_pubkey: vec![], blinding_pubkey: None };
    script.funding_addrs = Some(empty);
    let e = "Script should contain at least one instruction".to_string();
    let r = script.find_lockup_utxo(LiquidChain::Liquid, Some("xy".to_string()));
    assert_eq!(r, Err(Error::Protocol(e)));
}

#[test]
fn falls_back_on_the_provider() {
    let place = OutPoint { txid: [0u8; 32], vout: 0 };
    let output = Output::new_fee(1, &[1u8; 32]);
    let found = Ok(Some((place, output.clone())));
    assert_eq!(found_utxo(found), Some((place, output)));
    assert_eq!(found_utxo(Ok(None)), None);
    assert_eq!(found_utxo(Err(Error::Encode(String::new()))), None);
}

#[test]
fn makes_outputs_of_parts_that_can_be_read_only() {
    let fee = Output::new_fee(0x0102, &[0xaa; 32]);
    let mut asset = vec![1];
    asset.extend_from_slice(&[0xaa; 32]);
    let parts = OutputParts {
        asset,
        value: vec![1, 0, 0, 0, 0, 0, 0, 1, 2],
        nonce: vec![0],
        script_pubkey: vec![],
        surjection_proof: None,
        rangeproof: None,
    };
    assert_eq!(fee.parts(), &parts);
    assert_eq!(Output::from_parts(parts.clone()), Ok(fee));
    let bad = OutputParts { asset: vec![2], ..parts.clone() };
    assert!(matches!(Output::from_parts(bad), Err(Error::Encode(_))));
    let bad = OutputParts { value: vec![1, 2], ..parts.clone() };
    assert!(matches!(Output::from_parts(bad), Err(Error::Encode(_))));
    let bad = OutputParts { nonce: vec![], ..parts.clone() };
    assert!(matches!(Output::from_parts(bad), Err(Error::Encode(_))));
    let bad = OutputParts { rangeproof: Some(vec![0xff; 3]), ..parts.clone() };
    assert!(matches!(Output::from_parts(bad), Err(Error::Encode(_))));
    let bad = OutputParts { surjection_proof: Some(vec![0xff]), ..parts };
    assert!(matches!(Output::from_parts(bad), Err(Error::Encode(_))));
}
