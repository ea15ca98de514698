use liquid_swaps::address::{Address, LiquidChain};
use liquid_swaps::boltz::{
    ChainSwapDetails, CreateReverseResponse, CreateSubmarineResponse, Leaf, Side, SwapTree,
    SwapType,
};
use liquid_swaps::error::Error;
use liquid_swaps::keys::{Keypair, PublicKey};
use liquid_swaps::swap_script::LBtcSwapScript;

const OURS: &str = "1111111111111111111111111111111111111111111111111111111111111111";
const THEIRS: &str = "2222222222222222222222222222222222222222222222222222222222222222";
const BLINDING: &str = "3333333333333333333333333333333333333333333333333333333333333333";
const LOCKTIME: u32 = 1_234_567;

fn key(text: &str) -> PublicKey {
    pair(text).public_key()
}

fn pair(text: &str) -> Keypair {
    match Keypair::from_seckey_str(text) {
        Ok(keys) => keys,
        Err(e) => panic!("{:?}", e),
    }
}

fn hashlock() -> [u8; 20] {
    let mut hash = [0u8; 20];
    for (i, byte) in hash.iter_mut().enumerate() {
        *byte = i as u8 + 1;
    }
    hash
}

fn script(swap_type: SwapType, side: Option<Side>, we_send: bool) -> LBtcSwapScript {
    let (sender, receiver) = if we_send { (OURS, THEIRS) } else { (THEIRS, OURS) };
    LBtcSwapScript {
        swap_type,
        side,
        funding_addrs: None,
        hashlock: hashlock(),
        receiver_pubkey: key(receiver),
        locktime: LOCKTIME,
        sender_pubkey: key(sender),
        blinding_key: pair(BLINDING),
    }
}

fn tree(script: &LBtcSwapScript) -> SwapTree {
    SwapTree {
        claim_leaf: Leaf { output: hex::encode(script.claim_script()) },
        refund_leaf: Leaf { output: hex::encode(script.refund_script()) },
    }
}

fn address(script: &LBtcSwapScript) -> Address {
    match script.to_address(LiquidChain::LiquidRegtest) {
        Ok(address) => address,
        Err(e) => panic!("{:?}", e),
    }
}

fn submarine_answer() -> CreateSubmarineResponse {
    let script = script(SwapType::Submarine, None, true);
    CreateSubmarineResponse {
        address: address(&script).text,
        claim_public_key: key(THEIRS),
        swap_tree: tree(&script),
        blinding_key: Some(BLINDING.to_string()),
    }
}

fn failure(r: Result<LBtcSwapScript, Error>) -> Error {
    match r {
        Ok(_) => panic!("an error was expected"),
        Err(e) => e,
    }
}

#[test]
fn claim_script_of_a_submarine_swap() {
    let script = script(SwapType::Submarine, None, true);
    let mut expected = vec![0xa9, 0x14];
    expected.extend_from_slice(&hashlock());
    expected.extend_from_slice(&[0x88, 0x20]);
    expected.extend_from_slice(&key(THEIRS).x_only());
    expected.push(0xac);
    assert_eq!(script.claim_script(), expected);
}

#[test]
fn claim_script_of_a_reverse_and_a_chain_swap() {
    let mut expected = vec![0x82, 0x01, 0x20, 0x88, 0xa9, 0x14];
    expected.extend_from_slice(&hashlock());
    expected.extend_from_slice(&[0x88, 0x20]);
    expected.extend_from_slice(&key(OURS).x_only());
    expected.push(0xac);
    assert_eq!(script(SwapType::ReverseSubmarine, None, false).claim_script(), expected);
    assert_eq!(script(SwapType::Chain, Some(Side::Claim), false).claim_script(), expected);
}

#[test]
fn refund_script_pushes_the_lock_time() {
    let mut script = script(SwapType::Submarine, None, true);
    let with = |bytes: &[u8]| {
        let mut expected = vec![0x20];
        expected.extend_from_slice(&key(OURS).x_only());
        expected.push(0xad);
        expected.extend_from_slice(bytes);
        expected.push(0xb1);
        expected
    };
    assert_eq!(script.refund_script(), with(&[0x03, 0x87, 0xd6, 0x12]));
    script.locktime = 0;
    assert_eq!(script.refund_script(), with(&[0x00]));
    script.locktime = 16;
    assert_eq!(script.refund_script(), with(&[0x60]));
    script.locktime = 17;
    assert_eq!(script.refund_script(), with(&[0x01, 0x11]));
    script.locktime = 128;
    assert_eq!(script.refund_script(), with(&[0x02, 0x80, 0x00]));
    script.locktime = 0x8000_0000;
    assert_eq!(script.refund_script(), with(&[0x05, 0x00, 0x00, 0x00, 0x80, 0x00]));
}

#[test]
fn reads_a_submarine_swap_back() {
    let made = LBtcSwapScript::submarine_from_swap_resp(&submarine_answer(), key(OURS)).ok();
    let mut expected = script(SwapType::Submarine, None, true);
    expected.funding_addrs = Some(address(&expected));
    assert!(made == Some(expected));
}

#[test]
fn reads_a_reverse_swap_back() {
    let mut expected = script(SwapType::ReverseSubmarine, None, false);
    let answer = CreateReverseResponse {
        lockup_address: address(&expected).text,
        refund_public_key: key(THEIRS),
        swap_tree: tree(&expected),
        blinding_key: Some(BLINDING.to_string()),
    };
    let made = LBtcSwapScript::reverse_from_swap_resp(&answer, key(OURS)).ok();
    expected.funding_addrs = Some(address(&expected));
    assert!(made == Some(expected));
}

#[test]
fn reads_both_sides_of_a_chain_swap_back() {
    for (side, we_send) in [(Side::Lockup, true), (Side::Claim, false)] {
        let mut expected = script(SwapType::Chain, Some(side), we_send);
        let answer = ChainSwapDetails {
            lockup_address: address(&expected).text,
            server_public_key: key(THEIRS),
            swap_tree: tree(&expected),
            blinding_key: Some(BLINDING.to_string()),
        };
        let made = LBtcSwapScript::chain_from_swap_resp(side, answer, key(OURS)).ok();
        expected.funding_addrs = Some(address(&expected));
        assert!(made == Some(expected));
    }
}

#[test]
fn refuses_scripts_that_are_not_hexadecimal() {
    let mut answer = submarine_answer();
    answer.swap_tree.claim_leaf.output = "zz".to_string();
    let e = failure(LBtcSwapScript::submarine_from_swap_resp(&answer, key(OURS)));
    assert!(matches!(e, Error::Hex(_)));
    let mut answer = submarine_answer();
    answer.swap_tree.refund_leaf.output = "abc".to_string();
    let e = failure(LBtcSwapScript::submarine_from_swap_resp(&answer, key(OURS)));
    assert!(matches!(e, Error::Hex(_)));
}

#[test]
fn refuses_scripts_without_a_hash_or_a_lock_time() {
    let mut answer = submarine_answer();
    answer.swap_tree.claim_leaf.output = "a9".to_string();
    let e = failure(LBtcSwapScript::submarine_from_swap_resp(&answer, key(OURS)));
    assert_eq!(e, Error::Protocol("No hashlock provided".to_string()));
    let mut answer = submarine_answer();
    answer.swap_tree.refund_leaf.output = "ad51b1".to_string();
    let e = failure(LBtcSwapScript::submarine_from_swap_resp(&answer, key(OURS)));
    assert_eq!(e, Error::Protocol("No timelock provided".to_string()));
}

#[test]
fn refuses_a_bad_address_and_a_bad_blinding_key() {
    let mut answer = submarine_answer();
    answer.address = "nonsense".to_string();
    let e = failure(LBtcSwapScript::submarine_from_swap_resp(&answer, key(OURS)));
    assert!(matches!(e, Error::Address(_)));
    let mut answer = submarine_answer();
    answer.blinding_key = None;
    let e = failure(LBtcSwapScript::submarine_from_swap_resp(&answer, key(OURS)));
    let text = "No blinding key provided in Create Swap Response";
    assert_eq!(e, Error::Protocol(text.to_string()));
    let mut answer = submarine_answer();
    answer.blinding_key = Some("00".repeat(32));
    let e = failure(LBtcSwapScript::submarine_from_swap_resp(&answer, key(OURS)));
    assert!(matches!(e, Error::Key(_)));
}

#[test]
fn a_chain_swap_names_its_missing_blinding_key_otherwise() {
    let script = script(SwapType::Chain, Some(Side::Claim), false);
    let answer = ChainSwapDetails {
        lockup_address: address(&script).text,
        server_public_key: key(THEIRS),
        swap_tree: tree(&script),
        blinding_key: None,
    };
    let e = failure(LBtcSwapScript::chain_from_swap_resp(Side::Claim, answer, key(OURS)));
    let text = "No blinding key provided in ChainSwapDetails";
    assert_eq!(e, Error::Protocol(text.to_string()));
}

#[test]
fn takes_the_last_hash_and_the_last_lock_time() {
    let mut answer = submarine_answer();
    let first = "14".to_string() + &"aa".repeat(20);
    let second = "14".to_string() + &"bb".repeat(20);
    answer.swap_tree.claim_leaf.output = first + &second + "02cccc" + "4c";
    answer.swap_tree.refund_leaf.output = "021111ad0222220433333333".to_string() + "b1024444";
    let made = LBtcSwapScript::submarine_from_swap_resp(&answer, key(OURS)).ok().unwrap();
    assert_eq!(made.hashlock, [0xbb; 20]);
    assert_eq!(made.locktime, 0x3333_3333);
}

#[test]
fn tells_trees_with_a_lock_time_that_is_too_long() {
    let mut tree = submarine_answer().swap_tree;
    assert!(tree.is_readable());
    tree.refund_leaf.output = "ad050000000080b1".to_string();
    assert!(!tree.is_readable());
    tree.refund_leaf.output = "ad0400000080b1".to_string();
    assert!(tree.is_readable());
    tree.refund_leaf.output = "ad0500000000".to_string();
    assert!(tree.is_readable());
    tree.refund_leaf.output = "not hexadecimal".to_string();
    assert!(tree.is_readable());
}

#[test]
fn the_address_is_confidential_and_of_the_network() {
    let script = script(SwapType::Submarine, None, true);
    for (network, start) in [
        (LiquidChain::Liquid, "lq1p"),
        (LiquidChain::LiquidTestnet, "tlq1p"),
        (LiquidChain::LiquidRegtest, "el1p"),
    ] {
        let address = script.to_address(network).ok().unwrap();
        assert!(address.text.starts_with(start), "{}", address.text);
        assert_eq!(address.blinding_pubkey, Some(key(BLINDING)));
        assert_eq!(address.script_pubkey.len(), 34);
        assert_eq!(address.script_pubkey[..2], [0x51, 0x20]);
        assert_eq!(Address::from_str(&address.text), Ok(address));
    }
}

#[test]
fn the_address_is_that_of_the_aggregated_key_and_the_tree() {
    let script = script(SwapType::ReverseSubmarine, None, false);
    let parse = |key: PublicKey| secp256k1::PublicKey::from_slice(&key.to_bytes()).unwrap();
    let (theirs, ours) = (parse(key(THEIRS)), parse(key(OURS)));
    let internal = secp256k1::musig::KeyAggCache::new(&[&theirs, &ours]).agg_pk().serialize();
    let internal = elements::schnorr::XOnlyPublicKey::from_slice(&internal).unwrap();
    let secp = elements::secp256k1_zkp::Secp256k1::new();
    let info = elements::taproot::TaprootBuilder::new()
        .add_leaf(1, elements::Script::from(script.claim_script()))
        .unwrap()
        .add_leaf(1, elements::Script::from(script.refund_script()))
        .unwrap()
        .finalize(&secp, internal)
        .unwrap();
    let mut expected = vec![0x51, 0x20];
    expected.extend_from_slice(&info.output_key().into_inner().serialize());
    assert_eq!(address(&script).script_pubkey, expected);
}

#[test]
fn the_order_of_the_keys_matters() {
    let reverse = script(SwapType::ReverseSubmarine, None, false);
    let chain = script(SwapType::Chain, Some(Side::Claim), false);
    assert_eq!(address(&reverse).text, address(&chain).text);
    let other = script(SwapType::Chain, None, false);
    assert_eq!(other.claim_script(), chain.claim_script());
    assert_ne!(address(&other).text, address(&chain).text);
}

#[test]
fn validates_its_own_address_only() {
    let script = script(SwapType::Submarine, None, true);
    let own = address(&script).text;
    assert_eq!(script.validate_address(LiquidChain::LiquidRegtest, own.clone()), Ok(()));
    let mismatch = Err(Error::Protocol("Script/LockupAddress Mismatch".to_string()));
    assert_eq!(script.validate_address(LiquidChain::Liquid, own.clone()), mismatch);
    let unconfidential = elements_unconfidential(&own);
    assert_eq!(script.validate_address(LiquidChain::LiquidRegtest, unconfidential), mismatch);
}

fn elements_unconfidential(text: &str) -> String {
    let address: elements::Address = text.parse().unwrap();
    address.to_unconfidential().to_string()
}

fn with_script_pubkey(script_pubkey: Vec<u8>) -> LBtcSwapScript {
    let mut script = script(SwapType::Submarine, None, true);
    let funding = Address { text: String::new(), script_pubkey, blinding_pubkey: None };
    script.funding_addrs = Some(funding);
    script
}

fn address_error(script: &LBtcSwapScript) -> Error {
    let e = script.to_address(LiquidChain::LiquidRegtest).unwrap_err();
    let checked = script.validate_address(LiquidChain::LiquidRegtest, "any".to_string());
    assert_eq!(checked, Err(e.clone()));
    e
}

#[test]
fn compares_the_address_of_the_answer_with_the_output() {
    let own = address(&script(SwapType::Submarine, None, true));
    let fitting = with_script_pubkey(own.script_pubkey.clone());
    assert_eq!(fitting.to_address(LiquidChain::LiquidRegtest), Ok(own.clone()));

    let text = "Script should contain at least one instruction";
    assert_eq!(address_error(&with_script_pubkey(vec![])), Error::Protocol(text.to_string()));
    let text = "Failed to parse script instruction";
    let e = address_error(&with_script_pubkey(vec![0x51, 0x20, 0x00]));
    assert_eq!(e, Error::Protocol(text.to_string()));
    let text = "Expected push bytes instruction for pubkey";
    let e = address_error(&with_script_pubkey(vec![0x51]));
    assert_eq!(e, Error::Protocol(text.to_string()));
    let e = address_error(&with_script_pubkey(vec![0x02, 0xaa, 0xbb]));
    assert_eq!(e, Error::Key("malformed public key".to_string()));
    let mut no_point = vec![0x51, 0x20];
    no_point.extend_from_slice(&[0xff; 32]);
    let e = address_error(&with_script_pubkey(no_point));
    assert_eq!(e, Error::Key("malformed public key".to_string()));
    let mut other = vec![0x51, 0x20];
    other.extend_from_slice(&key(OURS).x_only());
    let text = format!(
        "Taproot construction Failed. Lockup Pubkey: {}, Claim Pubkey {}",
        hex::encode(key(OURS).x_only()),
        hex::encode(&own.script_pubkey[2..]),
    );
    assert_eq!(address_error(&with_script_pubkey(other)), Error::Protocol(text));
}

#[test]
fn reads_keys() {
    assert!(matches!(PublicKey::from_bytes([0u8; 33]), Err(Error::Key(_))));
    let bytes = key(OURS).to_bytes();
    assert_eq!(PublicKey::from_bytes(bytes), Ok(key(OURS)));
    assert!(matches!(Keypair::from_secret_bytes([0u8; 32]), Err(Error::Key(_))));
    assert!(matches!(Keypair::from_secret_bytes([0xff; 32]), Err(Error::Key(_))));
    assert!(Keypair::from_secret_bytes([0x11; 32]) == Ok(pair(OURS)));
    assert_eq!(pair(OURS).secret_bytes(), [0x11; 32]);
    let one = "00".repeat(31) + "01";
    let generator = "0279be667ef9dcbbac55a06295ce870b07029bfcdb2dce28d959f2815b16f81798";
    assert_eq!(hex::encode(key(&one).to_bytes()), generator);
}
