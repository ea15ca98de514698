use liquid_swaps::address::{Address, LiquidChain};
use liquid_swaps::blinding::{
    asset_bf_from, blind_asset, draw_asset_bf, payment_output, BlindedAsset, OutputSecrets,
    MAX_BLINDED_VALUE, MAX_OPENED_VALUE, MAX_PROVEN_VALUE,
};
use liquid_swaps::boltz::SwapType;
use liquid_swaps::chain::{Output, OutputParts};
use liquid_swaps::error::Error;
use liquid_swaps::keys::Keypair;
use liquid_swaps::swap_script::LBtcSwapScript;

fn pair(byte: u8) -> Keypair {
    Keypair::from_secret_bytes([byte; 32]).ok().unwrap()
}

fn target() -> Address {
    let script = LBtcSwapScript {
        swap_type: SwapType::Submarine,
        side: None,
        funding_addrs: None,
        hashlock: [9u8; 20],
        receiver_pubkey: pair(0x22).public_key(),
        locktime: 500,
        sender_pubkey: pair(0x11).public_key(),
        blinding_key: pair(0x33),
    };
    script.to_address(LiquidChain::LiquidRegtest).unwrap()
}

fn number(n: u8) -> [u8; 32] {
    let mut bytes = [0u8; 32];
    bytes[31] = n;
    bytes
}

fn spent(value: u64) -> OutputSecrets {
    OutputSecrets { asset: [0xaa; 32], asset_bf: number(3), value, value_bf: number(5) }
}

fn blinded() -> BlindedAsset {
    blind_asset(&spent(10), &number(2)).unwrap()
}

#[test]
fn the_payment_takes_the_factor_that_balances() {
    let address = target();
    let ephemeral = pair(0x44);
    let blinded = blinded();
    let proof = blinded.surjection_proof.clone();
    let asset = blinded.asset.clone();
    let payment =
        payment_output(&spent(10), 4, &number(2), blinded, &ephemeral, &address).unwrap();
    assert_eq!(payment.parts().asset, asset);
    assert_eq!(payment.parts().nonce, ephemeral.public_key().to_bytes());
    assert_eq!(payment.parts().script_pubkey, address.script_pubkey);
    assert_eq!(payment.parts().surjection_proof, Some(proof));
    let opened = payment.unblind(&pair(0x33)).ok().unwrap();
    assert_eq!(opened.asset, [0xaa; 32]);
    assert_eq!(opened.value, 6);
    assert_eq!(opened.asset_bf, number(2));
    // 10 * 3 + 5 on the one side, 6 * 2 and the factor on the other.
    assert_eq!(opened.value_bf, number(23));
}

#[test]
fn the_asset_is_blinded_as_by_its_factor() {
    let secp = elements::secp256k1_zkp::Secp256k1::new();
    let asset = elements::confidential::Asset::new_confidential(
        &secp,
        elements::AssetId::from_byte_array([0xaa; 32]),
        elements::confidential::AssetBlindingFactor::from_slice(&number(2)).unwrap(),
    );
    assert_eq!(blinded().asset, elements::encode::serialize(&asset));
}

#[test]
fn pays_to_a_confidential_address_and_more_than_nothing_only() {
    let mut address = target();
    let r = payment_output(&spent(10), 10, &number(2), blinded(), &pair(0x44), &address);
    assert!(matches!(r, Err(Error::Blind(_))));
    address.blinding_pubkey = None;
    let r = payment_output(&spent(10), 10, &number(2), blinded(), &pair(0x44), &address);
    assert_eq!(r, Err(Error::Protocol("No blinding key in tx.".to_string())));
}

#[test]
fn opens_with_the_right_key_only() {
    let payment =
        payment_output(&spent(10), 4, &number(2), blinded(), &pair(0x44), &target()).unwrap();
    assert!(matches!(payment.unblind(&pair(0x34)), Err(Error::Unblind(_))));
}

/// A blinded asset under a factor.
fn generator(asset_bf: [u8; 32]) -> elements::secp256k1_zkp::Generator {
    elements::secp256k1_zkp::Generator::new_blinded(
        &elements::secp256k1_zkp::Secp256k1::new(),
        elements::AssetId::from_byte_array([0xaa; 32]).into_tag(),
        elements::secp256k1_zkp::Tweak::from_slice(&asset_bf).unwrap(),
    )
}

#[test]
fn proves_that_the_asset_is_the_spent_one() {
    let secp = elements::secp256k1_zkp::Secp256k1::new();
    let blinded = blinded();
    assert_eq!(blinded.asset.len(), 33);
    assert_eq!(blinded.surjection_proof.len(), 67);
    let proof =
        elements::secp256k1_zkp::SurjectionProof::from_slice(&blinded.surjection_proof).unwrap();
    assert!(proof.verify(&secp, generator(number(2)), &[generator(number(3))]));
    assert!(!proof.verify(&secp, generator(number(2)), &[generator(number(2))]));
    assert!(!proof.verify(&secp, generator(number(2)), &[generator(number(4))]));
}

#[test]
fn payments_have_one_size_up_to_a_value() {
    for value in [1, 6, 1 << 40, MAX_OPENED_VALUE, MAX_PROVEN_VALUE] {
        let blinded = blind_asset(&spent(value + 4), &number(2)).unwrap();
        let spent = spent(value + 4);
        let payment =
            payment_output(&spent, 4, &number(2), blinded, &pair(0x44), &target()).unwrap();
        let parts = payment.parts();
        assert_eq!(parts.value.len(), 33);
        assert_eq!(parts.nonce.len(), 33);
        assert_eq!(parts.rangeproof.as_ref().unwrap().len(), 4174);
        assert!(payment.can_unblind());
        assert_eq!(payment.unblind(&pair(0x33)).ok().unwrap().value, value);
    }
    let spent = spent(MAX_PROVEN_VALUE + 5);
    let blinded = blind_asset(&spent, &number(2)).unwrap();
    let payment = payment_output(&spent, 4, &number(2), blinded, &pair(0x44), &target()).unwrap();
    assert!(payment.parts().rangeproof.as_ref().unwrap().len() > 4174);
}

fn with_range(header: &[u8]) -> Output {
    let mut proof = vec![0u8; 65];
    proof[..header.len()].copy_from_slice(header);
    Output::from_parts(OutputParts {
        asset: vec![0],
        value: vec![0],
        nonce: vec![0],
        script_pubkey: vec![],
        surjection_proof: None,
        rangeproof: Some(proof),
    })
    .unwrap()
}

#[test]
fn tells_a_range_that_ends_with_the_largest_number() {
    // 64 bits, and 63 bits.
    assert!(!with_range(&[0x40, 63]).can_unblind());
    assert!(with_range(&[0x40, 62]).can_unblind());
    // A bit above the largest number but one, and above the one before.
    assert!(!with_range(&[0x60, 0, 255, 255, 255, 255, 255, 255, 255, 254]).can_unblind());
    assert!(with_range(&[0x60, 0, 255, 255, 255, 255, 255, 255, 255, 253]).can_unblind());
    // The largest number alone, and the one before.
    assert!(!with_range(&[0x20, 255, 255, 255, 255, 255, 255, 255, 255]).can_unblind());
    assert!(with_range(&[0x20, 255, 255, 255, 255, 255, 255, 255, 254]).can_unblind());
    // Four bits in steps of a hundred, which reach 1500, above a number that leaves 1500, and 1501.
    assert!(!with_range(&[0x62, 3, 255, 255, 255, 255, 255, 255, 250, 35]).can_unblind());
    assert!(with_range(&[0x62, 3, 255, 255, 255, 255, 255, 255, 250, 34]).can_unblind());
    // Nothing is proven.
    let mut parts = with_range(&[0]).parts().clone();
    assert!(with_range(&[0]).can_unblind());
    parts.rangeproof = None;
    assert!(Output::from_parts(parts).unwrap().can_unblind());
}

#[test]
fn blinds_every_asset_but_into_itself() {
    assert!(matches!(blind_asset(&spent(10), &number(3)), Err(Error::Blind(_))));
    for n in [0, 1, 2, 4, 255] {
        let blinded = blind_asset(&spent(10), &number(n)).unwrap();
        let asset = elements::confidential::Asset::Confidential(generator(number(n)));
        assert_eq!(blinded.asset, elements::encode::serialize(&asset));
    }
}

#[test]
fn takes_factors_below_the_curve_order() {
    assert_eq!(asset_bf_from(number(7)), Ok(number(7)));
    assert_eq!(asset_bf_from([0u8; 32]), Ok([0u8; 32]));
    assert!(matches!(asset_bf_from([0xff; 32]), Err(Error::Blind(_))));
}

#[test]
fn blinds_values_up_to_the_largest() {
    let pay = |value: u64| {
        let spent = spent(value);
        let blinded = blind_asset(&spent, &number(2)).unwrap();
        payment_output(&spent, 0, &number(2), blinded, &pair(0x44), &target())
    };
    for value in [1, 2, MAX_OPENED_VALUE + 1, MAX_PROVEN_VALUE + 1, MAX_BLINDED_VALUE] {
        assert!(pay(value).unwrap().can_unblind());
    }
    assert!(matches!(pay(0), Err(Error::Blind(_))));
    assert!(matches!(pay(MAX_BLINDED_VALUE + 1), Err(Error::Blind(_))));
    assert!(matches!(pay(u64::MAX), Err(Error::Blind(_))));
}

#[test]
fn draws_factors_at_random() {
    assert_ne!(draw_asset_bf().unwrap(), draw_asset_bf().unwrap());
}
