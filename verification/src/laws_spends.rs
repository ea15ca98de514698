//! What holds of the transactions that end a swap, in terms of what is spent and what is paid.
use crate::address::parsed_address;
use crate::blinding::{
    are_secrets, blinded_asset, blinded_value, can_open, is_payable, payment_factor, payment_of,
    unblinded, OutputSecrets, SecretsView,
};
use crate::boltz::{Preimage, SwapTxKind, SwapType};
use crate::bytes::{be_digits, be_value, lemma_be_value_of_digits, pow256};
use crate::chain::{
    chain_bytes, chain_discount_vsize, chain_vsize, fee_output, key_spend_hash, size_of, Input,
    OutPoint, OutputParts, OutputView, Tx, TxView,
};
use crate::cosign::{fixed_hex, part_outcome, Part};
use crate::error::Error;
use crate::hex_text::{array_outcome, hex_decode, law_hex_round_trip};
use crate::keys::{curve_order, public_key_of, schnorr_verifies};
use crate::laws::{law_payment_balances, law_refund_script_reads_back};
use crate::musig::{
    is_partial_signature, is_public_nonce, is_session_secret, musig_partial_signature,
    musig_partial_verifies, musig_public_nonce, musig_signature, musig_tweak_fits,
    signature_outcome, NonceView, PendingView, SessionView,
};
use crate::lockup::optional_text;
use crate::range_proof::range_top;
use crate::signing::{
    tx_outcome, unlocked, PartialSigEndpoint, PartialSigRequest, PendingSpendView, Signing,
};
use crate::swap_script::SwapScriptView;
use crate::swap_tx::{
    is_new, lemma_creation_is_created, new_outcome, LBtcSwapTx, PaymentDraw, PaymentDrawView,
    SwapTxView,
};
use crate::taproot::{tap_control_block, tap_merkle_root, tap_tweak_hash};
use vstd::arithmetic::power::pow;
use vstd::arithmetic::power2::pow2;
use vstd::prelude::*;

verus! {

/// A transaction that ends a swap spends the locked output and nothing else. One that waits for a
/// signature by both keys ignores lock times and carries 64 zeros in its place; one by the script
/// is bound to its lock time, which in a claim is none and in a refund that of the swap.
pub proof fn law_spends_the_locked_output(
    tx: SwapTxView,
    kind: SwapTxKind,
    secret: Seq<u8>,
    preimage: Seq<u8>,
    fees: u64,
    is_cooperative: bool,
    made: TxView,
)
    requires
        tx.swap_script.sender_pubkey.len() == 33,
        tx.is_created(kind, secret, preimage, fees, is_cooperative, made),
    ensures
        made.version == 2,
        made.lock_time == (if kind == SwapTxKind::Claim {
            0u32
        } else {
            tx.swap_script.locktime
        }),
        made.input.len() == 1,
        made.input[0].txid == tx.funding_outpoint.txid@,
        made.input[0].vout == tx.funding_outpoint.vout,
        made.input[0].script_sig.len() == 0,
        made.input[0].sequence == (if is_cooperative {
            0xffff_ffffu32
        } else {
            0u32
        }),
        is_cooperative ==> {
            &&& made.input[0].witness.len() == 1
            &&& made.input[0].witness[0].len() == 64
            &&& forall|i: int| 0 <= i < 64 ==> #[trigger] made.input[0].witness[0][i] == 0
        },
{
    law_refund_script_reads_back(tx.swap_script);
}

/// A transaction by the script shows, behind the signature, the preimage in a claim, then the
/// script of its kind, and the proof that the script is one of the two to which the locked output
/// commits.
pub proof fn law_script_spend_shows_its_script(
    tx: SwapTxView,
    kind: SwapTxKind,
    secret: Seq<u8>,
    preimage: Seq<u8>,
    fees: u64,
    made: TxView,
)
    requires
        tx.is_created(kind, secret, preimage, fees, false, made),
    ensures
        tx.swap_script.is_checked(),
        made.input.len() == 1,
        ({
            let script = tx.swap_script;
            let leaves = seq![(1nat, script.claim_script()), (1nat, script.refund_script())];
            let witness = made.input[0].witness;
            match kind {
                SwapTxKind::Claim => {
                    &&& witness.len() == 4
                    &&& witness[1] == preimage
                    &&& witness[2] == script.claim_script()
                    &&& witness[3] == tap_control_block(
                        script.internal_key(),
                        leaves,
                        script.claim_script(),
                    )
                },
                SwapTxKind::Refund => {
                    &&& witness.len() == 3
                    &&& witness[1] == script.refund_script()
                    &&& witness[2] == tap_control_block(
                        script.internal_key(),
                        leaves,
                        script.refund_script(),
                    )
                },
            }
        }),
{
}

/// A transaction pays all that it spends: one output is the fee, explicit in the asset of the
/// locked output and exactly as high as asked for, and the other pays the rest to the output
/// address, blinded by as much as the locked output is. The payment comes first in a claim and
/// last in a refund.
pub proof fn law_pays_all_that_is_spent(
    tx: SwapTxView,
    kind: SwapTxKind,
    secret: Seq<u8>,
    preimage: Seq<u8>,
    fees: u64,
    is_cooperative: bool,
    made: TxView,
)
    requires
        tx.is_created(kind, secret, preimage, fees, is_cooperative, made),
    ensures
        made.output.len() == 2,
        ({
            let spent = unblinded(tx.funding_utxo, tx.swap_script.blinding_key)->0;
            let (payment, fee) = if kind == SwapTxKind::Claim {
                (made.output[0], made.output[1])
            } else {
                (made.output[1], made.output[0])
            };
            let n = curve_order() as int;
            &&& unblinded(tx.funding_utxo, tx.swap_script.blinding_key) is Some
            &&& fees < spent.value
            &&& fee.asset == seq![1u8] + spent.asset
            &&& fee.value.len() == 9
            &&& fee.value[0] == 1
            &&& be_value(fee.value.skip(1)) == fees
            &&& fee.nonce == seq![0u8]
            &&& fee.script_pubkey.len() == 0
            &&& fee.surjection_proof is None
            &&& fee.rangeproof is None
            &&& payment.script_pubkey == tx.output_address.script_pubkey
            &&& tx.output_address.blinding_pubkey is Some
            &&& exists|asset_bf: Seq<u8>, value_bf: Seq<u8>, ephemeral: Seq<u8>|
                {
                    &&& #[trigger] blinded_value(
                        (spent.value - fees) as u64,
                        value_bf,
                        tx.output_address.blinding_pubkey->0,
                        ephemeral,
                        tx.output_address.script_pubkey,
                        spent.asset,
                        asset_bf,
                    ) == (payment.value, payment.nonce, payment.rangeproof->0)
                    &&& payment.asset == blinded_asset(spent.asset, asset_bf)
                    &&& value_bf.len() == 32
                    &&& be_value(value_bf) < n
                    &&& ((spent.value - fees) * be_value(asset_bf) + be_value(value_bf)) % n == (
                    spent.value * be_value(spent.asset_bf) + be_value(spent.value_bf)) % n
                }
            &&& payment.rangeproof is Some
            &&& payment.surjection_proof is Some
        }),
{
    let spent = unblinded(tx.funding_utxo, tx.swap_script.blinding_key)->0;
    let payment = choose|payment: OutputView|
        tx.is_payment(fees, payment) && #[trigger] tx.is_signed(
            kind,
            secret,
            preimage,
            fees,
            is_cooperative,
            payment,
            made,
        );
    let drawn = choose|drawn: PaymentDrawView| #[trigger]
        tx.is_drawn_payment(fees, drawn, payment);
    law_payment_balances(spent, fees, drawn.asset_bf);
    let value_bf = payment_factor(spent, fees, drawn.asset_bf);
    assert(blinded_value(
        (spent.value - fees) as u64,
        value_bf,
        tx.output_address.blinding_pubkey->0,
        drawn.ephemeral,
        tx.output_address.script_pubkey,
        spent.asset,
        drawn.asset_bf,
    ) == (payment.value, payment.nonce, payment.rangeproof->0));
    let fee = fee_output(fees, spent.asset);
    assert(pow256(8) > u64::MAX) by {
        reveal_with_fuel(pow256, 9);
    }
    lemma_be_value_of_digits(fees as nat, 8);
    assert(fee.value.skip(1) =~= be_digits(fees as nat, 8));
}

/// What making a transaction comes to is told by what is spent and where it is to be paid: there
/// is no error where the key opens the locked output, the output address has a blinding key,
/// something is left after the fees that can be blinded, a refund has a lock time that can be
/// read, and, spending by the script, the provider's address fits. Otherwise there is one, which
/// tells the first of these that is missing.
pub proof fn law_making_fails_for_what_is_missing(
    tx: SwapTxView,
    kind: SwapTxKind,
    fees: u64,
    is_cooperative: bool,
    e: Error,
)
    requires
        tx.swap_script.sender_pubkey.len() == 33,
    ensures
        ({
            let spent = unblinded(tx.funding_utxo, tx.swap_script.blinding_key);
            let n = tx.swap_script.locktime;
            tx.is_creation_error(kind, fees, is_cooperative, e) <==> if spent is None {
                e is Unblind
            } else if tx.output_address.blinding_pubkey is None {
                e matches Error::Protocol(t) && t@ == "No blinding key in tx."@
            } else if spent->0.value <= fees || spent->0.value - fees >= 0x8000_0000_0000_0000 {
                e is Blind
            } else if kind == SwapTxKind::Refund && (1 <= n <= 16 || n >= 0x8000_0000) {
                e matches Error::Protocol(t) && t@ == "Error getting timelock from refund script"@
            } else if !is_cooperative && !tx.swap_script.is_checked() {
                tx.swap_script.is_check(Err(e))
            } else {
                false
            }
        }),
{
    law_refund_script_reads_back(tx.swap_script);
}

/// With given draws, what making a transaction comes to is told in the same way, and the payment
/// is made of these draws.
pub proof fn law_making_uses_what_was_drawn(
    tx: SwapTxView,
    kind: SwapTxKind,
    secret: Seq<u8>,
    preimage: Seq<u8>,
    fees: u64,
    is_cooperative: bool,
    drawn: PaymentDrawView,
    r: Result<TxView, Error>,
)
    requires
        tx.swap_script.sender_pubkey.len() == 33,
        tx.is_creation(kind, secret, preimage, fees, is_cooperative, drawn, r),
        unblinded(tx.funding_utxo, tx.swap_script.blinding_key) matches Some(spent) && are_secrets(
            spent,
        ) && tx.funding_utxo.asset == blinded_asset(spent.asset, spent.asset_bf),
    ensures
        ({
            let spent = unblinded(tx.funding_utxo, tx.swap_script.blinding_key)->0;
            let n = tx.swap_script.locktime;
            &&& r is Ok <==> {
                &&& tx.output_address.blinding_pubkey is Some
                &&& fees < spent.value
                &&& spent.value - fees < 0x8000_0000_0000_0000
                &&& kind == SwapTxKind::Refund ==> n == 0 || 17 <= n < 0x8000_0000
                &&& is_cooperative || tx.swap_script.is_checked()
            }
            &&& r matches Err(e) ==> tx.is_creation_error(kind, fees, is_cooperative, e)
            &&& r matches Ok(made) ==> {
                let payment = if kind == SwapTxKind::Claim {
                    made.output[0]
                } else {
                    made.output[1]
                };
                &&& tx.is_created(kind, secret, preimage, fees, is_cooperative, made)
                &&& payment.asset == blinded_asset(spent.asset, drawn.asset_bf)
                &&& payment.surjection_proof == Some(drawn.surjection_proof)
                &&& payment.nonce == blinded_value(
                    (spent.value - fees) as u64,
                    payment_factor(spent, fees, drawn.asset_bf),
                    tx.output_address.blinding_pubkey->0,
                    drawn.ephemeral,
                    tx.output_address.script_pubkey,
                    spent.asset,
                    drawn.asset_bf,
                ).1
            }
        }),
{
    law_refund_script_reads_back(tx.swap_script);
    if r is Ok {
        lemma_creation_is_created(
            tx,
            kind,
            secret,
            preimage,
            fees,
            is_cooperative,
            drawn,
            r->Ok_0,
        );
    }
}

/// Signing goes its way wherever a transaction can be made and the provider's address fits,
/// whatever kind of address is paid to: by the script the transaction is signed, and together with
/// the provider its part is asked for. Otherwise there is the error of making the transaction, or
/// that of the provider's address.
pub proof fn law_signing_goes_its_way(
    tx: SwapTxView,
    kind: SwapTxKind,
    secret: Seq<u8>,
    preimage: Seq<u8>,
    fees: u64,
    is_cooperative: bool,
    r: Result<Signing, Error>,
)
    requires
        tx.swap_script.sender_pubkey.len() == 33,
        tx.is_signing(kind, secret, preimage, fees, is_cooperative, r),
    ensures
        ({
            let spent = unblinded(tx.funding_utxo, tx.swap_script.blinding_key);
            let n = tx.swap_script.locktime;
            let can_be_made = {
                &&& spent is Some
                &&& tx.output_address.blinding_pubkey is Some
                &&& fees < spent->0.value
                &&& spent->0.value - fees < 0x8000_0000_0000_0000
                &&& kind == SwapTxKind::Refund ==> n == 0 || 17 <= n < 0x8000_0000
            };
            &&& r is Ok <==> can_be_made && tx.swap_script.is_checked()
            &&& r is Ok && is_cooperative <==> (r matches Ok(Signing::Ask(_, _)))
            &&& r is Ok && !is_cooperative <==> (r matches Ok(Signing::Done(_)))
            &&& r matches Ok(Signing::Done(made)) ==> tx.is_created(
                kind,
                secret,
                preimage,
                fees,
                false,
                made@,
            )
            &&& r matches Err(e) ==> if can_be_made {
                tx.swap_script.is_check(Err(e))
            } else {
                tx.is_creation_error(kind, fees, is_cooperative, e)
            }
        }),
{
    law_refund_script_reads_back(tx.swap_script);
}

/// A claim is signed with its preimage, without which there is none, and a refund without one.
pub proof fn law_claims_take_the_preimage(
    tx: SwapTxView,
    secret: Seq<u8>,
    preimage: Preimage,
    fees: u64,
    is_cooperative: bool,
    r: Result<Signing, Error>,
)
    ensures
        preimage.bytes matches Some(bytes) ==> tx.is_claim(
            secret,
            preimage,
            fees,
            is_cooperative,
            r,
        ) == tx.is_signing(SwapTxKind::Claim, secret, bytes@, fees, is_cooperative, r),
        preimage.bytes is None && tx.is_claim(secret, preimage, fees, is_cooperative, r) ==> (
        r matches Err(Error::Protocol(t)) && t@ == "No preimage provided"@),
        tx.is_refund(secret, fees, is_cooperative, r) == tx.is_signing(
            SwapTxKind::Refund,
            secret,
            seq![],
            fees,
            is_cooperative,
            r,
        ),
{
}

/// A swap has a claim unless it is a submarine one, and a refund unless it is a reverse one, and
/// a transaction is one of the two. What it is not is told, and where the provider is asked for
/// its part depends on the swap and on which of the two it is.
pub proof fn law_kinds_of_transactions(tx: SwapTxView)
    ensures
        tx.no_claim() == (if tx.swap_script.swap_type == SwapType::Submarine {
            Some("Claim Tx signing is not applicable for Submarine Swaps"@)
        } else if tx.kind == SwapTxKind::Refund {
            Some("Cannot sign claim with refund-type LBtcSwapTx"@)
        } else {
            None
        }),
        tx.no_refund() == (if tx.swap_script.swap_type == SwapType::ReverseSubmarine {
            Some("Refund Tx signing is not applicable for Reverse Submarine Swaps"@)
        } else if tx.kind == SwapTxKind::Claim {
            Some("Cannot sign refund with a claim-type LBtcSwapTx"@)
        } else {
            None
        }),
        tx.endpoint(SwapTxKind::Claim) is None <==> tx.swap_script.swap_type
            == SwapType::Submarine,
        tx.endpoint(SwapTxKind::Refund) is None <==> tx.swap_script.swap_type
            == SwapType::ReverseSubmarine,
        tx.endpoint(SwapTxKind::Claim) == Some(PartialSigEndpoint::ChainClaim)
            <==> tx.swap_script.swap_type == SwapType::Chain,
        tx.endpoint(SwapTxKind::Claim) == Some(PartialSigEndpoint::Reverse)
            <==> tx.swap_script.swap_type == SwapType::ReverseSubmarine,
        tx.endpoint(SwapTxKind::Refund) == Some(PartialSigEndpoint::ChainRefund)
            <==> tx.swap_script.swap_type == SwapType::Chain,
        tx.endpoint(SwapTxKind::Refund) == Some(PartialSigEndpoint::Submarine)
            <==> tx.swap_script.swap_type == SwapType::Submarine,
        tx.their_key(SwapTxKind::Claim) == tx.swap_script.sender_pubkey,
        tx.their_key(SwapTxKind::Refund) == tx.swap_script.receiver_pubkey,
{
}

/// The provider is told what it needs and nothing else: our public nonce, and the transaction that
/// waits for its part, whose only input is signed. We keep that transaction, the provider's key,
/// the key of the locked output, and a nonce that was made for the transaction's own hash, with
/// our key and under the tweaked sum of both keys.
pub proof fn law_asking_shows_nonce_and_transaction(
    tx: SwapTxView,
    kind: SwapTxKind,
    secret: Seq<u8>,
    made: TxView,
    session_secret: Seq<u8>,
    extra_rand: Seq<u8>,
    request: PartialSigRequest,
    spend: PendingSpendView,
)
    requires
        tx.is_asked(kind, secret, made, session_secret, extra_rand, request, spend),
    ensures
        tx.swap_script.is_checked(),
        tx.endpoint(kind) == Some(request.endpoint),
        hex_decode(request.to_sign.pub_nonce@) == Some(musig_public_nonce(spend.pending.nonce)),
        hex_decode(request.to_sign.transaction@) == Some(chain_bytes(spend.tx)),
        request.to_sign.index == 0,
        spend.tx == made,
        kind == SwapTxKind::Claim ==> spend.their_key == tx.swap_script.sender_pubkey,
        kind == SwapTxKind::Refund ==> spend.their_key == tx.swap_script.receiver_pubkey,
        spend.output_key == tx.swap_script.output_key(),
        spend.pending.secret == secret,
        spend.pending.nonce.signer == public_key_of(secret),
        spend.pending.nonce.keys == tx.swap_script.key_order(),
        spend.pending.nonce.tweaks.len() == 1,
        spend.pending.nonce.tweaks[0] == tap_tweak_hash(
            tx.swap_script.internal_key(),
            Some(
                tap_merkle_root(
                    seq![
                        (1nat, tx.swap_script.claim_script()),
                        (1nat, tx.swap_script.refund_script()),
                    ],
                ),
            ),
        ),
        spend.pending.nonce.message == key_spend_hash(
            made.without_witness(),
            0,
            seq![tx.funding_utxo],
            tx.genesis_hash,
        ),
        spend.pending.nonce.session_secret == session_secret,
        spend.pending.nonce.extra_rand == extra_rand,
{
    law_hex_round_trip(musig_public_nonce(spend.pending.nonce));
    law_hex_round_trip(chain_bytes(made));
}

/// What the provider is asked to sign is a transaction that ends the swap, without its lock time.
pub proof fn law_asking_is_for_the_transaction(
    tx: SwapTxView,
    kind: SwapTxKind,
    secret: Seq<u8>,
    preimage: Seq<u8>,
    fees: u64,
    request: PartialSigRequest,
    spend: PendingSpendView,
)
    requires
        tx.is_asking(kind, secret, preimage, fees, request, spend),
    ensures
        spend.tx.lock_time == 0,
        exists|made: TxView| #[trigger]
            tx.is_created(kind, secret, preimage, fees, true, made) && spend.tx.version
                == made.version && spend.tx.input == made.input && spend.tx.output == made.output,
        exists|session_secret: Seq<u8>, extra_rand: Seq<u8>|
            is_session_secret(session_secret) && #[trigger] tx.is_asked(
                kind,
                secret,
                spend.tx,
                session_secret,
                extra_rand,
                request,
                spend,
            ),
{
    let (made, session_secret, extra_rand) = choose|
        made: TxView,
        session_secret: Seq<u8>,
        extra_rand: Seq<u8>,
    |
        tx.is_created(kind, secret, preimage, fees, true, made) && is_session_secret(session_secret)
            && #[trigger] tx.is_asked(
            kind,
            secret,
            unlocked(made),
            session_secret,
            extra_rand,
            request,
            spend,
        );
    assert(spend.tx == unlocked(made));
    assert(tx.is_asked(kind, secret, spend.tx, session_secret, extra_rand, request, spend));
}

/// The signature in which the provider's nonce and part come first and ours second is put into
/// the transaction exactly where the provider's part verifies under its key and the whole under
/// the key of the locked output. A reply that cannot be read is refused for that.
pub proof fn law_reply_completes_the_signature(
    spend: PendingSpendView,
    pub_nonce: Seq<char>,
    partial_signature: Seq<char>,
    r: Result<TxView, Error>,
)
    requires
        spend.tx.input.len() == 1,
        spend.is_reply(pub_nonce, partial_signature, r),
    ensures
        ({
            let nonce = hex_decode(pub_nonce);
            let part = hex_decode(partial_signature);
            let ours = spend.pending.nonce;
            let session = SessionView {
                keys: ours.keys,
                tweaks: ours.tweaks,
                nonces: seq![nonce->0, musig_public_nonce(ours)],
                message: ours.message,
            };
            let signature = musig_signature(
                session,
                seq![part->0, musig_partial_signature(session, ours, spend.pending.secret)],
            );
            let is_nonce = nonce is Some && nonce->0.len() == 66;
            let is_part = part is Some && part->0.len() == 32;
            let verifies = musig_partial_verifies(session, part->0, nonce->0, spend.their_key);
            &&& r is Ok <==> is_nonce && is_part && verifies && schnorr_verifies(
                signature,
                ours.message,
                spend.output_key,
            )
            &&& r matches Ok(signed) ==> {
                &&& signed.version == spend.tx.version
                &&& signed.lock_time == spend.tx.lock_time
                &&& signed.output == spend.tx.output
                &&& signed.input.len() == 1
                &&& signed.input[0].txid == spend.tx.input[0].txid
                &&& signed.input[0].vout == spend.tx.input[0].vout
                &&& signed.input[0].script_sig == spend.tx.input[0].script_sig
                &&& signed.input[0].sequence == spend.tx.input[0].sequence
                &&& signed.input[0].witness == seq![signature]
            }
            &&& r matches Err(e) ==> if !is_nonce {
                if nonce is None {
                    e is Hex
                } else {
                    e is Protocol
                }
            } else if !is_part {
                if part is None {
                    e is Hex
                } else {
                    e is Protocol
                }
            } else if !verifies {
                e matches Error::Taproot(t) && t@ == "Unable to verify Partial Signature"@
            } else {
                e is Signature
            }
        }),
{
}

/// A signature in the making holds to one session and to one part of ours for each nonce of the
/// other signer.
pub proof fn law_session_is_of_both_nonces(pending: PendingView, nonce: Seq<u8>, part: Seq<u8>)
    ensures
        pending.session(nonce) == (SessionView {
            keys: pending.nonce.keys,
            tweaks: pending.nonce.tweaks,
            nonces: seq![nonce, musig_public_nonce(pending.nonce)],
            message: pending.nonce.message,
        }),
        pending.part(nonce) == musig_partial_signature(
            pending.session(nonce),
            pending.nonce,
            pending.secret,
        ),
        pending.signature(nonce, part) == musig_signature(
            pending.session(nonce),
            seq![part, pending.part(nonce)],
        ),
{
}

/// Our part of a signature for the provider is given exactly where the provider's address fits
/// and the hash and the nonce can be read. It is the part of our key for that hash, with a nonce
/// made for it, under the tweaked sum of the receiver's key and the sender's in this order.
pub proof fn law_part_is_for_the_hash(
    script: SwapScriptView,
    secret: Seq<u8>,
    pub_nonce: Seq<char>,
    transaction_hash: Seq<char>,
    session_secret: Seq<u8>,
    extra_rand: Seq<u8>,
    r: Result<(Seq<u8>, Seq<u8>), Error>,
)
    requires
        script.is_part(secret, pub_nonce, transaction_hash, session_secret, extra_rand, r),
    ensures
        ({
            let message = hex_decode(transaction_hash);
            let nonce = hex_decode(pub_nonce);
            let ours = NonceView {
                keys: seq![script.receiver_pubkey, script.sender_pubkey],
                tweaks: seq![script.tweak()],
                session_secret,
                signer: public_key_of(secret),
                message: message->0,
                extra_rand,
            };
            let session = SessionView {
                keys: ours.keys,
                tweaks: ours.tweaks,
                nonces: seq![nonce->0, musig_public_nonce(ours)],
                message: message->0,
            };
            let is_message = message is Some && message->0.len() == 32;
            let is_nonce = nonce is Some && nonce->0.len() == 66;
            &&& r is Ok <==> script.is_checked() && is_message && is_nonce
            &&& r matches Ok((part, our_nonce)) ==> {
                &&& our_nonce == musig_public_nonce(ours)
                &&& part == musig_partial_signature(session, ours, secret)
                &&& musig_partial_verifies(session, part, our_nonce, public_key_of(secret))
            }
            &&& r matches Err(e) ==> if !script.is_checked() {
                script.is_check(Err(e))
            } else if !is_message {
                if message is None {
                    e is Hex
                } else {
                    e is Protocol
                }
            } else if nonce is None {
                e is Hex
            } else {
                e is Protocol
            }
        }),
{
}

/// Whatever is drawn, our part is given under the same condition, and for some draw.
pub proof fn law_part_is_for_some_draw(
    script: SwapScriptView,
    secret: Seq<u8>,
    pub_nonce: Seq<char>,
    transaction_hash: Seq<char>,
    r: Result<(Seq<u8>, Seq<u8>), Error>,
)
    requires
        script.is_drawn_part(secret, pub_nonce, transaction_hash, r),
    ensures
        r is Ok <==> script.is_checked() && (hex_decode(transaction_hash) matches Some(m)
            && m.len() == 32) && (hex_decode(pub_nonce) matches Some(n) && n.len() == 66),
        exists|session_secret: Seq<u8>, extra_rand: Seq<u8>|
            is_session_secret(session_secret) && #[trigger] script.is_part(
                secret,
                pub_nonce,
                transaction_hash,
                session_secret,
                extra_rand,
                r,
            ),
{
}

/// A helper for a claim or a refund is made exactly where the swap has one and the text is an
/// address, and it holds all that it was made of.
pub proof fn law_new_holds_what_was_given(
    kind: SwapTxKind,
    swap_script: SwapScriptView,
    output_address: Seq<char>,
    funding_outpoint: OutPoint,
    funding_utxo: OutputView,
    genesis_hash: Seq<u8>,
    r: Result<SwapTxView, Error>,
)
    requires
        is_new(
            kind,
            swap_script,
            output_address,
            funding_outpoint,
            funding_utxo,
            genesis_hash,
            r,
        ),
    ensures
        ({
            let has_kind = match kind {
                SwapTxKind::Claim => swap_script.swap_type != SwapType::Submarine,
                SwapTxKind::Refund => swap_script.swap_type != SwapType::ReverseSubmarine,
            };
            &&& r is Ok <==> has_kind && parsed_address(output_address) is Some
            &&& r matches Ok(tx) ==> {
                &&& tx.kind == kind
                &&& tx.swap_script == swap_script
                &&& parsed_address(output_address) == Some(
                    (
                        tx.output_address.text,
                        tx.output_address.script_pubkey,
                        tx.output_address.blinding_pubkey,
                    ),
                )
                &&& tx.funding_outpoint == funding_outpoint
                &&& tx.funding_utxo == funding_utxo
                &&& tx.genesis_hash == genesis_hash
            }
            &&& r matches Err(e) ==> if has_kind {
                e is Address
            } else {
                e matches Error::Protocol(t) && t@ == (match kind {
                    SwapTxKind::Claim => {
                        "Claim transactions cannot be constructed for Submarine swaps."@
                    },
                    SwapTxKind::Refund => {
                        "Refund Txs cannot be constructed for Reverse Submarine Swaps."@
                    },
                })
            }
        }),
{
}

/// An output is tried with a key unless its range proof, where it has one, ends with the largest
/// number of 64 bits. That end is the least value of the range and, where the proof has a range,
/// what its mantissa reaches in steps of a power of ten.
pub proof fn law_outputs_that_are_tried(output: OutputView)
    ensures
        output.rangeproof is None ==> can_open(output),
        output.rangeproof matches Some(proof) ==> (can_open(output) <==> range_top(proof) != Some(
            0xffff_ffff_ffff_ffffint,
        )),
        output.rangeproof matches Some(proof) ==> proof.len() >= 65 && proof[0] < 128 ==> {
            let wide = proof[0] / 64 % 2 == 1;
            let least: int = if proof[0] / 32 % 2 == 0 {
                0
            } else if wide {
                be_value(proof.subrange(2, 10)) as int
            } else {
                be_value(proof.subrange(1, 9)) as int
            };
            let width: int = if wide {
                (pow2((proof[1] + 1) as nat) - 1) * pow(10, (proof[0] % 32) as nat)
            } else {
                0
            };
            &&& range_top(proof) matches Some(top) ==> top == least + width
            &&& range_top(proof) is None <==> least + width > 0xffff_ffff_ffff_ffff || wide && (
            proof[0] % 32 > 18 || proof[1] > 63)
        },
        output.rangeproof matches Some(proof) ==> (proof.len() < 65 || proof[0] >= 128)
            ==> range_top(proof) is None,
{
}

/// Making a transaction is tried unless the locked output cannot be, or its value does not cover
/// the fees. Signing it together with the provider takes keys that take the tweak, where it comes
/// to that.
pub proof fn law_what_is_tried(tx: SwapTxView, kind: SwapTxKind, fees: u64, is_cooperative: bool)
    requires
        tx.swap_script.sender_pubkey.len() == 33,
    ensures
        tx.covers(fees) <==> can_open(tx.funding_utxo) && (unblinded(
            tx.funding_utxo,
            tx.swap_script.blinding_key,
        ) matches Some(spent) ==> fees <= spent.value),
        tx.secrets() == unblinded(tx.funding_utxo, tx.swap_script.blinding_key),
        ({
            let spent = unblinded(tx.funding_utxo, tx.swap_script.blinding_key);
            let n = tx.swap_script.locktime;
            let can_be_made = {
                &&& spent is Some
                &&& tx.output_address.blinding_pubkey is Some
                &&& fees < spent->0.value
                &&& spent->0.value - fees < 0x8000_0000_0000_0000
                &&& kind == SwapTxKind::Refund ==> n == 0 || 17 <= n < 0x8000_0000
            };
            &&& tx.can_pay(kind, fees) <==> can_be_made
            &&& tx.fits_signing(kind, fees, is_cooperative) <==> tx.covers(fees) && (
            is_cooperative && can_be_made && tx.swap_script.is_checked() ==> musig_tweak_fits(
                tx.swap_script.key_order(),
                seq![],
                tx.swap_script.tweak(),
            ))
        }),
{
    law_refund_script_reads_back(tx.swap_script);
}

/// A request for our part is tried unless the keys do not take the tweak or the nonce is none,
/// and a reply unless its nonce or its part is none, where it comes to that.
pub proof fn law_what_is_tried_of_the_provider(
    script: SwapScriptView,
    spend: PendingSpendView,
    pub_nonce: Seq<char>,
    text: Seq<char>,
)
    ensures
        script.fits_request(pub_nonce, text) <==> (script.is_checked() ==> musig_tweak_fits(
            seq![script.receiver_pubkey, script.sender_pubkey],
            seq![],
            script.tweak(),
        ) && (fixed_hex(text, 32) is Some && fixed_hex(pub_nonce, 66) is Some ==> is_public_nonce(
            fixed_hex(pub_nonce, 66)->0,
        ))),
        spend.fits_reply(pub_nonce, text) <==> (fixed_hex(pub_nonce, 66) is Some
            ==> is_public_nonce(fixed_hex(pub_nonce, 66)->0) && (fixed_hex(text, 32) is Some
            ==> is_partial_signature(fixed_hex(text, 32)->0))),
{
}

/// A transaction pays for its size with or without the discount, as asked for, and its size is
/// computed with zeros for the preimage.
pub proof fn law_size_is_with_or_without_the_discount(tx: SwapTxView, made: TxView)
    ensures
        size_of(made, true) == chain_discount_vsize(made.sizes()),
        size_of(made, false) == chain_vsize(made.sizes()),
        tx.kind == SwapTxKind::Claim ==> tx.size_preimage() == Seq::new(32, |i: int| 0u8),
        tx.kind == SwapTxKind::Refund ==> tx.size_preimage().len() == 0,
{
}

/// The payment of what is left after the fees goes to the address, in the spent asset, and is
/// blinded with the receiver's key and with what was drawn. Something has to be left, and less
/// than 2^63.
pub proof fn law_payment_is_made_of_what_is_left(
    secrets: SecretsView,
    fees: u64,
    asset_bf: Seq<u8>,
    surjection_proof: Seq<u8>,
    ephemeral: Seq<u8>,
    address: crate::address::AddressView,
)
    ensures
        is_payable(secrets.value, fees) <==> fees < secrets.value && secrets.value - fees
            < 0x8000_0000_0000_0000,
        ({
            let payment = payment_of(
                secrets,
                fees,
                asset_bf,
                surjection_proof,
                ephemeral,
                address,
            );
            &&& payment.asset == blinded_asset(secrets.asset, asset_bf)
            &&& payment.script_pubkey == address.script_pubkey
            &&& payment.surjection_proof == Some(surjection_proof)
            &&& payment.rangeproof is Some
            &&& (payment.value, payment.nonce, payment.rangeproof->0) == blinded_value(
                (secrets.value - fees) as u64,
                payment_factor(secrets, fees, asset_bf),
                address.blinding_pubkey->0,
                ephemeral,
                address.script_pubkey,
                secrets.asset,
                asset_bf,
            )
        }),
{
}

/// An outcome is taken by what it holds: a success by its value and an error as it is.
pub proof fn law_outcomes_are_taken_by_what_they_hold(
    made: Result<LBtcSwapTx, Error>,
    signed: Result<Tx, Error>,
    signature: Result<[u8; 64], Error>,
    part: Result<Part, Error>,
    bytes: Result<[u8; 32], Error>,
    text: Option<String>,
)
    ensures
        made matches Ok(tx) ==> new_outcome(made) == Ok::<SwapTxView, Error>(tx@),
        made matches Err(e) ==> new_outcome(made) == Err::<SwapTxView, Error>(e),
        signed matches Ok(tx) ==> tx_outcome(signed) == Ok::<TxView, Error>(tx@),
        signed matches Err(e) ==> tx_outcome(signed) == Err::<TxView, Error>(e),
        signature matches Ok(s) ==> signature_outcome(signature) == Ok::<Seq<u8>, Error>(s@),
        signature matches Err(e) ==> signature_outcome(signature) == Err::<Seq<u8>, Error>(e),
        part matches Ok(p) ==> part_outcome(part) == Ok::<(Seq<u8>, Seq<u8>), Error>((p.0@, p.1@)),
        part matches Err(e) ==> part_outcome(part) == Err::<(Seq<u8>, Seq<u8>), Error>(e),
        bytes matches Ok(b) ==> array_outcome(bytes) == Ok::<Seq<u8>, Error>(b@),
        bytes matches Err(e) ==> array_outcome(bytes) == Err::<Seq<u8>, Error>(e),
        text matches Some(t) ==> optional_text(text) == Some(t@),
        text is None ==> optional_text(text) is None,
{
}

/// The parts of a transaction are taken by what they hold.
pub proof fn law_transactions_are_taken_by_what_they_hold(
    tx: LBtcSwapTx,
    made: Tx,
    input: Input,
    parts: OutputParts,
    secrets: OutputSecrets,
    drawn: PaymentDraw,
)
    ensures
        tx@.kind == tx.kind,
        tx@.swap_script == tx.swap_script@,
        tx@.output_address == tx.output_address@,
        tx@.funding_outpoint == tx.funding_outpoint,
        tx@.funding_utxo == tx.funding_utxo@,
        tx@.genesis_hash == tx.genesis_hash@,
        made@.version == made.version,
        made@.lock_time == made.lock_time,
        made@.input.len() == made.input@.len(),
        forall|i: int| 0 <= i < made.input@.len() ==> #[trigger] made@.input[i] == made.input@[i]@,
        made@.output.len() == made.output@.len(),
        forall|i: int|
            0 <= i < made.output@.len() ==> #[trigger] made@.output[i] == made.output@[i]@,
        input@.txid == input.previous_output.txid@,
        input@.vout == input.previous_output.vout,
        input@.script_sig == input.script_sig@,
        input@.sequence == input.sequence,
        input@.witness.len() == input.witness@.len(),
        forall|i: int|
            0 <= i < input.witness@.len() ==> #[trigger] input@.witness[i] == input.witness@[i]@,
        parts@.asset == parts.asset@,
        parts@.value == parts.value@,
        parts@.nonce == parts.nonce@,
        parts@.script_pubkey == parts.script_pubkey@,
        parts.surjection_proof is None <==> parts@.surjection_proof is None,
        parts.surjection_proof matches Some(proof) ==> parts@.surjection_proof == Some(proof@),
        parts.rangeproof is None <==> parts@.rangeproof is None,
        parts.rangeproof matches Some(proof) ==> parts@.rangeproof == Some(proof@),
        secrets@.asset == secrets.asset@,
        secrets@.asset_bf == secrets.asset_bf@,
        secrets@.value == secrets.value,
        secrets@.value_bf == secrets.value_bf@,
        drawn@.asset_bf == drawn.asset_bf@,
        drawn@.surjection_proof == drawn.blinded.surjection_proof@,
        drawn@.ephemeral == drawn.ephemeral@,
{
}

} // verus!
