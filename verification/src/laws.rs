//! What holds of the library as a whole.
use crate::address::{p2tr_script, LiquidChain};
use crate::blinding::{
    are_secrets, blind_weight, is_blinding_factor, payment_factor, surjection_proves, unblinded,
    SecretsView,
};
use crate::boltz::{Side, SwapTree, SwapTxKind, SwapType};
use crate::bytes::{be_digits, be_value, lemma_be_value_of_digits, pow256};
use crate::chain::{
    fee_output, key_spend_hash, script_spend_hash, size_of, OutPoint, OutputView, TxView,
};
use crate::error::{same_error, Error};
use crate::hex_text::{hex_encode, law_hex_round_trip};
use crate::keys::{
    curve_order, is_secret_key, is_xonly_key, public_key_of, schnorr_verifies, x_only,
};
use crate::lockup::first_paying;
use crate::musig::{musig_partial_verifies, SessionView};
use crate::script::{
    hashlock_of, instructions, last_op, lemma_read_number, lemma_read_op, lemma_read_push,
    lemma_script_number, push_number, push_of, script_number, short_push_of, timelock_fits,
    timelock_of, Instr, OP_CHECKSIG, OP_CHECKSIGVERIFY, OP_CLTV, OP_EQUALVERIFY, OP_HASH160,
    OP_SIZE,
};
use crate::signing::{same_sizes, unlocked, PartialSigRequest, PendingSpendView};
use crate::swap_script::{is_readable, is_reading, SwapScriptView, TermsView};
use crate::swap_tx::{
    is_new, lemma_creation_is_created, stub_witness, with_witness, PaymentDrawView, SwapTxView,
    SEQUENCE_MAX,
};
use crate::taproot::tap_leaf_hash;
use vstd::prelude::*;

verus! {

/// The instruction that pushes a lock time.
spec fn number_instr(n: u32) -> Instr {
    if n == 0 {
        Instr::PushBytes(seq![])
    } else if n <= 16 {
        Instr::Op((0x50 + n) as u8)
    } else {
        Instr::PushBytes(script_number(n as nat))
    }
}

proof fn lemma_refund_instructions(script: SwapScriptView)
    requires
        script.sender_pubkey.len() == 33,
    ensures
        instructions(script.refund_script()) == seq![
            Instr::PushBytes(x_only(script.sender_pubkey)),
            Instr::Op(OP_CHECKSIGVERIFY),
            number_instr(script.locktime),
            Instr::Op(OP_CLTV),
        ],
{
    let key = x_only(script.sender_pubkey);
    let number = push_number(script.locktime);
    let end = seq![OP_CLTV] + seq![];
    let rest = seq![OP_CHECKSIGVERIFY] + (number + end);
    lemma_read_op(OP_CLTV, seq![]);
    assert(instructions(seq![]) =~= seq![]);
    lemma_read_number(script.locktime, end);
    lemma_read_op(OP_CHECKSIGVERIFY, number + end);
    lemma_read_push(key, rest);
    assert(script.refund_script() =~= push_of(key) + rest);
    assert(instructions(script.refund_script()) =~= seq![
        Instr::PushBytes(key),
        Instr::Op(OP_CHECKSIGVERIFY),
        number_instr(script.locktime),
        Instr::Op(OP_CLTV),
    ]);
}

/// A refund script gives its lock time back, both where the provider's answer is read and where
/// a refund is made, if it is 0 or between 17 and 2^31: the numbers from 1 to 16 are pushed by
/// opcodes, in which none is found, and larger ones take a fifth byte for the sign, which can be
/// no lock time.
pub proof fn law_refund_script_reads_back(script: SwapScriptView)
    requires
        script.sender_pubkey.len() == 33,
    ensures
        timelock_fits(instructions(script.refund_script())) <==> script.locktime < 0x8000_0000,
        script.locktime < 0x8000_0000 ==> timelock_of(instructions(script.refund_script())) == (
        if 1 <= script.locktime <= 16 {
            None
        } else {
            Some(script.locktime)
        }),
        script.refund_lock_time() == (if 1 <= script.locktime <= 16 || script.locktime
            >= 0x8000_0000 {
            None
        } else {
            Some(script.locktime)
        }),
{
    let n = script.locktime;
    let items = instructions(script.refund_script());
    lemma_refund_instructions(script);
    lemma_script_number(n as nat);
    assert(items.take(4) =~= items);
    let i3 = items.drop_last();
    let i2 = i3.drop_last();
    let i1 = i2.drop_last();
    assert(i1 =~= seq![items[0]]);
    assert(i2 =~= seq![items[0], items[1]]);
    assert(i3 =~= seq![items[0], items[1], items[2]]);
    assert(i1.drop_last() =~= seq![]);
    reveal_with_fuel(timelock_fits, 5);
    reveal_with_fuel(timelock_of, 5);
    reveal_with_fuel(last_op, 5);
    assert(last_op(i1) != OP_CHECKSIGVERIFY);
    assert(last_op(i2) == OP_CHECKSIGVERIFY);
    assert(crate::bytes::le_value(Seq::<u8>::empty()) == 0);
    let s1 = items.drop_first();
    let s2 = s1.drop_first();
    let s3 = s2.drop_first();
    assert(s1 =~= seq![items[1], items[2], items[3]]);
    assert(s2 =~= seq![items[2], items[3]]);
    assert(s3 =~= seq![items[3]]);
    assert(s3.drop_first() =~= seq![]);
    reveal_with_fuel(short_push_of, 5);
}

proof fn lemma_unlock_instructions(hashlock: Seq<u8>, key: Seq<u8>)
    requires
        hashlock.len() == 20,
        key.len() == 32,
    ensures
        instructions(
            seq![OP_HASH160] + push_of(hashlock) + seq![OP_EQUALVERIFY] + push_of(key) + seq![
                OP_CHECKSIG,
            ],
        ) == seq![
            Instr::Op(OP_HASH160),
            Instr::PushBytes(hashlock),
            Instr::Op(OP_EQUALVERIFY),
            Instr::PushBytes(key),
            Instr::Op(OP_CHECKSIG),
        ],
{
    let s4 = seq![OP_CHECKSIG] + seq![];
    let s3 = push_of(key) + s4;
    let s2 = seq![OP_EQUALVERIFY] + s3;
    let s1 = push_of(hashlock) + s2;
    let s0 = seq![OP_HASH160] + s1;
    lemma_read_op(OP_CHECKSIG, seq![]);
    assert(instructions(seq![]) =~= seq![]);
    lemma_read_push(key, s4);
    lemma_read_op(OP_EQUALVERIFY, s3);
    lemma_read_push(hashlock, s2);
    lemma_read_op(OP_HASH160, s1);
    assert(s0 =~= seq![OP_HASH160] + push_of(hashlock) + seq![OP_EQUALVERIFY] + push_of(key)
        + seq![OP_CHECKSIG]);
    assert(instructions(s0) =~= seq![
        Instr::Op(OP_HASH160),
        Instr::PushBytes(hashlock),
        Instr::Op(OP_EQUALVERIFY),
        Instr::PushBytes(key),
        Instr::Op(OP_CHECKSIG),
    ]);
}

/// A claim script gives its hash back.
pub proof fn law_claim_script_reads_back(script: SwapScriptView)
    requires
        script.hashlock.len() == 20,
        script.receiver_pubkey.len() == 33,
    ensures
        hashlock_of(instructions(script.claim_script())) == Some(script.hashlock),
{
    let key = x_only(script.receiver_pubkey);
    let unlock = seq![OP_HASH160] + push_of(script.hashlock) + seq![OP_EQUALVERIFY] + push_of(key)
        + seq![OP_CHECKSIG];
    let tail = seq![
        Instr::Op(OP_HASH160),
        Instr::PushBytes(script.hashlock),
        Instr::Op(OP_EQUALVERIFY),
        Instr::PushBytes(key),
        Instr::Op(OP_CHECKSIG),
    ];
    lemma_unlock_instructions(script.hashlock, key);
    let items = instructions(script.claim_script());
    if script.swap_type != SwapType::Submarine {
        let s1 = seq![OP_EQUALVERIFY] + unlock;
        let s0 = push_number(32) + s1;
        lemma_read_op(OP_EQUALVERIFY, unlock);
        lemma_read_number(32, s1);
        lemma_read_op(OP_SIZE, s0);
        assert(script.claim_script() =~= seq![OP_SIZE] + s0);
        assert(items =~= seq![
            Instr::Op(OP_SIZE),
            number_instr(32),
            Instr::Op(OP_EQUALVERIFY),
        ] + tail);
    } else {
        assert(items =~= tail);
    }
    let n = items.len();
    assert(items[n - 1] == Instr::Op(OP_CHECKSIG));
    assert(items[n - 2] == Instr::PushBytes(key));
    assert(items[n - 3] == Instr::Op(OP_EQUALVERIFY));
    assert(items[n - 4] == Instr::PushBytes(script.hashlock));
    reveal_with_fuel(hashlock_of, 5);
}

/// An answer that holds a script's own two scripts can be read, if the lock time is below 2^31.
pub proof fn law_answer_is_readable(script: SwapScriptView, tree: SwapTree)
    requires
        script.sender_pubkey.len() == 33,
        script.locktime < 0x8000_0000,
        tree.claim_leaf.output@ == hex_encode(script.claim_script()),
        tree.refund_leaf.output@ == hex_encode(script.refund_script()),
    ensures
        is_readable(tree),
{
    law_hex_round_trip(script.claim_script());
    law_hex_round_trip(script.refund_script());
    law_refund_script_reads_back(script);
}

/// An answer that holds a script's own two scripts is read back to the hash and the lock time of
/// that script, if the lock time is one that a refund script gives back.
pub proof fn law_answer_reads_back(
    script: SwapScriptView,
    tree: SwapTree,
    address: Seq<char>,
    blinding_key: Option<String>,
    missing: Seq<char>,
    r: Result<TermsView, Error>,
)
    requires
        script.hashlock.len() == 20,
        script.receiver_pubkey.len() == 33,
        script.sender_pubkey.len() == 33,
        script.locktime == 0 || 17 <= script.locktime < 0x8000_0000,
        tree.claim_leaf.output@ == hex_encode(script.claim_script()),
        tree.refund_leaf.output@ == hex_encode(script.refund_script()),
        is_reading(tree, address, blinding_key, missing, r),
    ensures
        r matches Ok(terms) ==> terms.hashlock == script.hashlock && terms.locktime
            == script.locktime,
        r matches Err(e) ==> {
            ||| e matches Error::Address(_)
            ||| e matches Error::Key(_)
            ||| blinding_key is None && crate::swap_script::is_protocol(e, missing)
        },
{
    law_hex_round_trip(script.claim_script());
    law_hex_round_trip(script.refund_script());
    law_refund_script_reads_back(script);
    law_claim_script_reads_back(script);
}

/// A script whose address is the one that it gives itself fits that address.
pub proof fn law_own_address_fits(script: SwapScriptView, network: LiquidChain)
    requires
        script.output_key().len() == 32,
        script.funding_addrs == Some(script.address(network)),
    ensures
        is_xonly_key(script.output_key()) ==> script.is_checked(),
{
    let key = script.output_key();
    lemma_read_push(key, seq![]);
    lemma_read_op(0x51, push_of(key) + seq![]);
    assert(instructions(seq![]) =~= seq![]);
    assert(p2tr_script(key) =~= seq![0x51u8] + (push_of(key) + seq![]));
    assert(instructions(p2tr_script(key)) =~= seq![Instr::Op(0x51), Instr::PushBytes(key)]);
}

/// An address that fits a script, where it pays to an x-only key at all, pays to the same key as
/// the script's own address.
pub proof fn law_fitting_address_pays_the_same(
    script: SwapScriptView,
    key: Seq<u8>,
    network: LiquidChain,
)
    requires
        script.is_checked(),
        script.funding_addrs matches Some(address) && address.script_pubkey == p2tr_script(key),
        key.len() == 32,
    ensures
        script.address(network).script_pubkey == p2tr_script(key),
{
    lemma_read_push(key, seq![]);
    lemma_read_op(0x51, push_of(key) + seq![]);
    assert(instructions(seq![]) =~= seq![]);
    assert(p2tr_script(key) =~= seq![0x51u8] + (push_of(key) + seq![]));
    assert(instructions(p2tr_script(key)) =~= seq![Instr::Op(0x51), Instr::PushBytes(key)]);
}

/// The output that is found in a transaction pays to the script of the address, and none before
/// it does.
pub proof fn law_first_paying(outputs: Seq<OutputView>, script: Seq<u8>, from: int)
    requires
        0 <= from <= outputs.len(),
    ensures
        match first_paying(outputs, script, from) {
            Some(i) => from <= i < outputs.len() && outputs[i].script_pubkey == script && (forall|
                j: int,
            |
                from <= j < i ==> (#[trigger] outputs[j]).script_pubkey != script),
            None => forall|j: int|
                from <= j < outputs.len() ==> (#[trigger] outputs[j]).script_pubkey != script,
        },
    decreases outputs.len() - from,
{
    if from < outputs.len() && outputs[from].script_pubkey != script {
        law_first_paying(outputs, script, from + 1);
    }
}

/// The output in which a swap is found locked up pays to the script of the swap's address.
pub proof fn law_lockup_pays_to_the_address(
    script: SwapScriptView,
    network: LiquidChain,
    hex: Option<Seq<char>>,
    txid: Seq<u8>,
    vout: u32,
    output: OutputView,
)
    requires
        script.is_lockup(hex, Ok((txid, vout, output))),
    ensures
        output.script_pubkey == script.address(network).script_pubkey,
{
    let bytes = crate::hex_text::hex_decode(hex->0)->0;
    let outputs = (crate::chain::decoded_transaction(bytes)->0).1;
    law_first_paying(outputs, p2tr_script(script.output_key()), 0);
}

/// The provider's key, under which its part of a signature has to verify, is the first of the
/// two that are aggregated, in a claim of what the provider locked up and in a refund of what we
/// locked up.
pub proof fn law_provider_key_is_first(tx: SwapTxView, kind: SwapTxKind)
    requires
        match kind {
            SwapTxKind::Claim => tx.swap_script.swap_type == SwapType::ReverseSubmarine || (
            tx.swap_script.swap_type == SwapType::Chain && tx.swap_script.side == Some(
                Side::Claim,
            )),
            SwapTxKind::Refund => tx.swap_script.swap_type == SwapType::Submarine || (
            tx.swap_script.swap_type == SwapType::Chain && tx.swap_script.side == Some(
                Side::Lockup,
            )),
        },
    ensures
        tx.their_key(kind) == tx.swap_script.key_order()[0],
{
}

/// Where we are the sender, our part of a signature is made with the keys in the order in which
/// they are aggregated for the output.
pub proof fn law_sender_signs_in_key_order(script: SwapScriptView)
    requires
        script.swap_type == SwapType::Submarine || (script.swap_type == SwapType::Chain
            && script.side != Some(Side::Claim)),
    ensures
        script.receiver_first() == script.key_order(),
{
}

/// What blinds the payment is what blinds the spent output, modulo the curve order: with the
/// explicit fee, which takes no blinding, the outputs balance the input.
pub proof fn law_payment_balances(secrets: SecretsView, fees: u64, asset_bf: Seq<u8>)
    requires
        fees <= secrets.value,
        are_secrets(secrets),
        is_blinding_factor(asset_bf),
    ensures
        is_blinding_factor(payment_factor(secrets, fees, asset_bf)),
        blind_weight(
            (secrets.value - fees) as u64,
            asset_bf,
            payment_factor(secrets, fees, asset_bf),
        ) % (curve_order() as int) == blind_weight(
            secrets.value,
            secrets.asset_bf,
            secrets.value_bf,
        ) % (curve_order() as int),
{
    let n = curve_order() as int;
    let spent = blind_weight(secrets.value, secrets.asset_bf, secrets.value_bf);
    let a = (secrets.value - fees) * be_value(asset_bf);
    let r = (spent - a) % n;
    assert(0 <= r < n) by {
        vstd::arithmetic::div_mod::lemma_mod_bound(spent - a, n);
    }
    assert(pow256(32) > curve_order()) by {
        reveal_with_fuel(pow256, 33);
    }
    lemma_be_value_of_digits(r as nat, 32);
    vstd::arithmetic::div_mod::lemma_add_mod_noop_right(a, spent - a, n);
}

/// A transaction is signed as a claim or as a refund, never as both.
pub proof fn law_claim_or_refund(tx: SwapTxView)
    ensures
        tx.no_claim() is Some || tx.no_refund() is Some,
{
}

/// What could be made as a claim is one that can be signed, and what could be made as a refund
/// is one that can be signed.
pub proof fn law_new_transaction_can_be_signed(
    kind: SwapTxKind,
    swap_script: SwapScriptView,
    output_address: Seq<char>,
    funding_outpoint: OutPoint,
    funding_utxo: OutputView,
    genesis_hash: Seq<u8>,
    tx: SwapTxView,
)
    requires
        is_new(
            kind,
            swap_script,
            output_address,
            funding_outpoint,
            funding_utxo,
            genesis_hash,
            Ok(tx),
        ),
    ensures
        kind == SwapTxKind::Claim ==> tx.no_claim() is None,
        kind == SwapTxKind::Refund ==> tx.no_refund() is None,
        tx.endpoint(kind) is Some,
{
}

/// A refund by the script carries the lock time of the swap, in an input that is bound to it,
/// and there is none for a lock time that the script does not give back.
pub proof fn law_refund_waits(tx: SwapTxView, secret: Seq<u8>, fees: u64, made: TxView)
    requires
        tx.swap_script.sender_pubkey.len() == 33,
        tx.is_created(SwapTxKind::Refund, secret, seq![], fees, false, made),
    ensures
        made.lock_time == tx.swap_script.locktime,
        made.input.len() == 1 && made.input[0].sequence != SEQUENCE_MAX,
        tx.swap_script.locktime == 0 || 17 <= tx.swap_script.locktime < 0x8000_0000,
{
    law_refund_script_reads_back(tx.swap_script);
}

/// A transaction that was completed with the provider's reply carries, as its only witness, a
/// signature that verifies under the key of the locked output, of the transaction's own hash for
/// spending it by that key.
pub proof fn law_cooperative_spend_verifies(
    tx: SwapTxView,
    kind: SwapTxKind,
    secret: Seq<u8>,
    made: TxView,
    session_secret: Seq<u8>,
    extra_rand: Seq<u8>,
    request: PartialSigRequest,
    spend: PendingSpendView,
    pub_nonce: Seq<char>,
    partial_signature: Seq<char>,
    signed: TxView,
)
    requires
        made.input.len() == 1,
        tx.is_asked(kind, secret, made, session_secret, extra_rand, request, spend),
        spend.is_reply(pub_nonce, partial_signature, Ok(signed)),
    ensures
        signed.input.len() == 1 && signed.input[0].witness.len() == 1,
        schnorr_verifies(
            signed.input[0].witness[0],
            key_spend_hash(signed.without_witness(), 0, seq![tx.funding_utxo], tx.genesis_hash),
            tx.swap_script.output_key(),
        ),
        signed.output == made.output,
        signed.version == made.version && signed.lock_time == made.lock_time,
        signed.without_witness() == made.without_witness(),
{
    assert(signed.without_witness().input =~= made.without_witness().input);
}

/// A transaction by the script carries, as the first item of its witness, a signature of 64 bytes
/// that verifies under our key, of the transaction's own hash for spending by that script.
pub proof fn law_script_spend_verifies(
    tx: SwapTxView,
    kind: SwapTxKind,
    secret: Seq<u8>,
    preimage: Seq<u8>,
    fees: u64,
    made: TxView,
)
    requires
        tx.is_created(kind, secret, preimage, fees, false, made),
    ensures
        made.input.len() == 1 && made.input[0].witness.len() > 0,
        made.input[0].witness[0].len() == 64,
        schnorr_verifies(
            made.input[0].witness[0],
            script_spend_hash(
                made.without_witness(),
                0,
                seq![tx.funding_utxo],
                tap_leaf_hash(
                    if kind == SwapTxKind::Claim {
                        tx.swap_script.claim_script()
                    } else {
                        tx.swap_script.refund_script()
                    },
                ),
                tx.genesis_hash,
            ),
            public_key_of(secret).skip(1),
        ),
{
    let (payment, signature) = choose|payment: OutputView, signature: Seq<u8>|
        tx.is_payment(fees, payment) && #[trigger] tx.is_spend(
            kind,
            secret,
            preimage,
            fees,
            false,
            payment,
            signature,
            made,
        );
    let lock_time = tx.lock_time(kind)->0;
    let fee = fee_output(fees, tx.secrets()->0.asset);
    let unsigned = tx.transaction(kind, lock_time, payment, fee, 0, seq![]);
    assert(made.without_witness().input =~= unsigned.without_witness().input);
}

/// Where a transaction of a kind has its payment.
pub open spec fn payment_place(kind: SwapTxKind) -> int {
    match kind {
        SwapTxKind::Claim => 0,
        SwapTxKind::Refund => 1,
    }
}

/// The payment of a transaction carries a proof that its asset is the one of the locked output.
pub proof fn law_payment_proves_its_asset(
    tx: SwapTxView,
    kind: SwapTxKind,
    secret: Seq<u8>,
    preimage: Seq<u8>,
    fees: u64,
    is_cooperative: bool,
    made: TxView,
)
    requires
        tx.is_created(kind, secret, preimage, fees, is_cooperative, made),
    ensures
        made.output.len() == 2,
        made.output[payment_place(kind)].surjection_proof matches Some(proof) && surjection_proves(
            proof,
            made.output[payment_place(kind)].asset,
            seq![tx.funding_utxo.asset],
        ),
{
}

/// The payment of a transaction opens, with the secret key that belongs to the blinding key of
/// the output address, to the asset of the locked output and to all of its value but the fees.
pub proof fn law_payment_opens(
    tx: SwapTxView,
    kind: SwapTxKind,
    secret: Seq<u8>,
    preimage: Seq<u8>,
    fees: u64,
    is_cooperative: bool,
    made: TxView,
    receiver: Seq<u8>,
)
    requires
        tx.is_created(kind, secret, preimage, fees, is_cooperative, made),
        tx.secrets()->0.value - fees <= 0xc_0000_0000_0000,
        is_secret_key(receiver),
        tx.output_address.blinding_pubkey == Some(public_key_of(receiver)),
    ensures
        made.output.len() == 2,
        made.output[payment_place(kind)].script_pubkey == tx.output_address.script_pubkey,
        unblinded(made.output[payment_place(kind)], receiver) matches Some(found) && found.asset
            == tx.secrets()->0.asset && found.value == tx.secrets()->0.value - fees,
{
    let payment = made.output[payment_place(kind)];
    let drawn = choose|drawn: PaymentDrawView| #[trigger]
        tx.is_drawn_payment(fees, drawn, payment);
    assert(payment == (OutputView { surjection_proof: payment.surjection_proof, ..payment }));
}

/// A transaction with the stub of a signature by both keys depends on neither our keys nor the
/// preimage: with the same draws, whatever one comes to the other comes to as well.
pub proof fn law_cooperative_creation_hides(
    tx: SwapTxView,
    kind: SwapTxKind,
    secret: Seq<u8>,
    other_secret: Seq<u8>,
    preimage: Seq<u8>,
    other_preimage: Seq<u8>,
    fees: u64,
    drawn: PaymentDrawView,
    r: Result<TxView, Error>,
    other: Result<TxView, Error>,
)
    requires
        tx.is_creation(kind, secret, preimage, fees, true, drawn, r),
        tx.is_creation(kind, other_secret, other_preimage, fees, true, drawn, other),
    ensures
        tx.is_creation(kind, other_secret, other_preimage, fees, true, drawn, r),
        r matches Ok(made) ==> other == Ok::<TxView, Error>(made) && made.input.len() == 1
            && made.input[0].witness == stub_witness(),
        r matches Err(e) ==> other matches Err(f) && (same_error(e, f) || (e is Blind
            && f is Blind)),
{
    if r is Ok {
        let payment = tx.drawn_payment(fees, drawn);
        let made = r->Ok_0;
        let signature = choose|signature: Seq<u8>| #[trigger]
            tx.is_spend(kind, secret, preimage, fees, true, payment, signature, made);
        assert(tx.is_spend(
            kind,
            other_secret,
            other_preimage,
            fees,
            true,
            payment,
            signature,
            made,
        ));
        assert(tx.is_signed(kind, other_secret, other_preimage, fees, true, payment, made));
    }
}

/// There is one error to which the comparison of the provider's address can come: that which
/// checking an address gives is the very one that making the address gives.
pub proof fn law_address_error_is_one(script: SwapScriptView, a: Error, b: Error)
    requires
        script.is_check(Err(a)),
        script.is_check(Err(b)),
    ensures
        !script.is_checked(),
        same_error(a, b),
{
}

/// Our part of a signature depends on the swap's script alone, whatever transaction it is signed
/// through: with the same draws it is the same.
pub proof fn law_partial_sign_is_the_scripts(
    a: SwapTxView,
    b: SwapTxView,
    secret: Seq<u8>,
    pub_nonce: Seq<char>,
    transaction_hash: Seq<char>,
    session_secret: Seq<u8>,
    extra_rand: Seq<u8>,
    r: Result<(Seq<u8>, Seq<u8>), Error>,
    s: Result<(Seq<u8>, Seq<u8>), Error>,
)
    requires
        a.swap_script == b.swap_script,
        a.swap_script.is_part(secret, pub_nonce, transaction_hash, session_secret, extra_rand, r),
        b.swap_script.is_part(secret, pub_nonce, transaction_hash, session_secret, extra_rand, s),
    ensures
        r matches Ok(part) ==> s == Ok::<(Seq<u8>, Seq<u8>), Error>(part),
        r matches Err(e) ==> s matches Err(f) && (same_error(e, f) || (e is Hex && f is Hex)),
        a.swap_script.is_drawn_part(secret, pub_nonce, transaction_hash, r)
            == b.swap_script.is_drawn_part(secret, pub_nonce, transaction_hash, r),
{
}

/// Our part of a signature verifies under our key, in the session that its nonce and the
/// provider's make up.
pub proof fn law_our_part_verifies(
    script: SwapScriptView,
    secret: Seq<u8>,
    pub_nonce: Seq<char>,
    transaction_hash: Seq<char>,
    part: Seq<u8>,
    our_nonce: Seq<u8>,
)
    requires
        script.is_drawn_part(secret, pub_nonce, transaction_hash, Ok((part, our_nonce))),
    ensures
        script.request(pub_nonce, transaction_hash) matches Some(request)
            && musig_partial_verifies(
            (SessionView {
                keys: script.receiver_first(),
                tweaks: seq![script.tweak()],
                nonces: seq![request.1, our_nonce],
                message: request.0,
            }),
            part,
            our_nonce,
            public_key_of(secret),
        ),
{
}

proof fn lemma_be_digits_len(n: nat, len: nat)
    ensures
        be_digits(n, len).len() == len,
    decreases len,
{
    if len > 0 {
        lemma_be_digits_len(n / 256, (len - 1) as nat);
    }
}

/// Two transactions that end a swap in one way measure the same, whatever their keys, fees and
/// draws, if their preimages are equally long and the locked value is at most 2^52.
pub proof fn law_transactions_measure_the_same(
    tx: SwapTxView,
    kind: SwapTxKind,
    is_cooperative: bool,
    secret: Seq<u8>,
    preimage: Seq<u8>,
    fees: u64,
    made: TxView,
    other_secret: Seq<u8>,
    other_preimage: Seq<u8>,
    other_fees: u64,
    other: TxView,
)
    requires
        tx.is_created(kind, secret, preimage, fees, is_cooperative, made),
        tx.is_created(kind, other_secret, other_preimage, other_fees, is_cooperative, other),
        preimage.len() == other_preimage.len(),
        tx.secrets()->0.value <= 0x10_0000_0000_0000,
    ensures
        made.sizes() == other.sizes(),
{
    let (p, s) = choose|p: OutputView, s: Seq<u8>|
        tx.is_payment(fees, p) && #[trigger] tx.is_spend(
            kind,
            secret,
            preimage,
            fees,
            is_cooperative,
            p,
            s,
            made,
        );
    let (q, t) = choose|q: OutputView, t: Seq<u8>|
        tx.is_payment(other_fees, q) && #[trigger] tx.is_spend(
            kind,
            other_secret,
            other_preimage,
            other_fees,
            is_cooperative,
            q,
            t,
            other,
        );
    lemma_be_digits_len(fees as nat, 8);
    lemma_be_digits_len(other_fees as nat, 8);
    assert(p.sizes() == q.sizes());
    assert(made.input[0].sizes().witness =~= other.input[0].sizes().witness);
    assert(made.sizes().input =~= other.sizes().input);
    assert(made.sizes().output =~= other.sizes().output);
}

/// The size that is computed for a transaction before it is made, with a fee of 1 and zeros for
/// the preimage, is the size of the transaction, whatever its keys and fees, if the locked value
/// is at most 2^52.
pub proof fn law_size_is_the_transactions(
    tx: SwapTxView,
    is_cooperative: bool,
    is_discount_ct: bool,
    secret: Seq<u8>,
    size: usize,
    other_secret: Seq<u8>,
    preimage: Seq<u8>,
    fees: u64,
    made: TxView,
)
    requires
        tx.is_size(secret, is_cooperative, is_discount_ct, size),
        tx.is_created(tx.kind, other_secret, preimage, fees, is_cooperative, made),
        preimage.len() == tx.size_preimage().len(),
        tx.secrets()->0.value <= 0x10_0000_0000_0000,
    ensures
        size == size_of(made, is_discount_ct),
{
    let stub = choose|stub: TxView|
        #[trigger] tx.is_created(
            tx.kind,
            secret,
            tx.size_preimage(),
            1,
            is_cooperative,
            stub,
        ) && size == size_of(stub, is_discount_ct);
    law_transactions_measure_the_same(
        tx,
        tx.kind,
        is_cooperative,
        secret,
        tx.size_preimage(),
        1,
        stub,
        other_secret,
        preimage,
        fees,
        made,
    );
}

/// Where a transaction with a fee can be made, so can the one by which its size is computed, with
/// any draw that can be used, and the two measure the same, if the locked value is at most 2^52.
pub proof fn law_size_can_be_computed(
    tx: SwapTxView,
    is_cooperative: bool,
    is_discount_ct: bool,
    secret: Seq<u8>,
    drawn: PaymentDrawView,
    r: Result<TxView, Error>,
    other_secret: Seq<u8>,
    preimage: Seq<u8>,
    fees: u64,
    made: TxView,
)
    requires
        tx.is_creation(tx.kind, secret, tx.size_preimage(), 1, is_cooperative, drawn, r),
        tx.is_created(tx.kind, other_secret, preimage, fees, is_cooperative, made),
        fees >= 1,
        preimage.len() == tx.size_preimage().len(),
        tx.secrets()->0.value <= 0x10_0000_0000_0000,
    ensures
        r matches Ok(stub) && size_of(stub, is_discount_ct) == size_of(made, is_discount_ct),
{
    let stub = r->Ok_0;
    assert(r is Ok);
    lemma_creation_is_created(
        tx,
        tx.kind,
        secret,
        tx.size_preimage(),
        1,
        is_cooperative,
        drawn,
        stub,
    );
    law_transactions_measure_the_same(
        tx,
        tx.kind,
        is_cooperative,
        secret,
        tx.size_preimage(),
        1,
        stub,
        other_secret,
        preimage,
        fees,
        made,
    );
}

/// Where a transaction with a fee can be made, no error but one of the drawing is left for
/// computing its size beforehand, and the drawing comes to none, if the locked value is at most
/// 2^63.
pub proof fn law_size_fails_by_the_draw_alone(
    tx: SwapTxView,
    is_cooperative: bool,
    secret: Seq<u8>,
    preimage: Seq<u8>,
    fees: u64,
    made: TxView,
    e: Error,
)
    requires
        tx.is_created(tx.kind, secret, preimage, fees, is_cooperative, made),
        fees >= 1,
        tx.secrets()->0.value <= 0x8000_0000_0000_0000,
    ensures
        tx.can_pay(tx.kind, 1),
        tx.is_creation_error(tx.kind, 1, is_cooperative, e) ==> (e matches Error::Blind(_)),
        !tx.is_creation_error(tx.kind, 1, is_cooperative, e),
{
}

/// A transaction with the stub of a signature by both keys measures what it measures once the
/// lock time is taken away and the signature, which is as long as the stub, is put in its place.
pub proof fn law_completion_keeps_the_size(made: TxView, witness: Seq<Seq<u8>>)
    requires
        made.input.len() == 1,
        made.input[0].witness == stub_witness(),
        same_sizes(witness, stub_witness()),
    ensures
        with_witness(unlocked(made), witness).sizes() == made.sizes(),
{
    let signed = with_witness(unlocked(made), witness);
    assert(signed.input[0].sizes().witness =~= made.input[0].sizes().witness);
    assert(signed.sizes().input =~= made.sizes().input);
}

} // verus!
