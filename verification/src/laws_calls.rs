//! What holds of every call of the library's functions, in terms of what goes in and what comes
//! out.
use crate::address::{parsed_address, Address, LiquidChain};
use crate::blinding::{blinded_asset, unblinded, OutputSecrets};
use crate::boltz::{
    ChainSwapDetails, ChainSwapTransactions, CreateReverseResponse, CreateSubmarineResponse,
    LockTransaction, PartialSig, Preimage, Side, SwapTree, SwapTxKind, SwapType,
};
use crate::bytes::{be_value, le_value};
use crate::chain::{
    chain_discount_vsize, chain_vsize, decode_transaction, decoded_transaction, tx_size, OutPoint,
    Output, Tx, TxView,
};
use crate::cosign::Part;
use crate::error::{same_error, Error};
use crate::hex_text::{hex_decode, hex_to_bytes32, hex_to_bytes66};
use crate::keys::{curve_order, is_public_key, schnorr_verifies, Keypair, PublicKey};
use crate::laws::{
    law_address_error_is_one, law_refund_script_reads_back, law_script_spend_verifies,
    law_size_is_the_transactions,
};
use crate::laws_scripts::{
    law_claim_script_asks_for_the_preimage, law_lockup_is_where_it_is_said_to_be,
    law_reading_gives_what_the_answer_spells, law_refund_script_asks_for_the_lock_time,
};
use crate::laws_spends::{
    law_making_fails_for_what_is_missing, law_new_holds_what_was_given,
    law_pays_all_that_is_spent, law_reply_completes_the_signature,
    law_script_spend_shows_its_script, law_signing_goes_its_way, law_spends_the_locked_output,
};
use crate::lockup::{found_utxo, LockupSource};
use crate::script::{
    bytes_to_u32_little_endian, hashlock_of, instructions, lemma_script_number, push_number,
    script_number, timelock_of,
};
use crate::signing::{PendingSpend, Signing};
use crate::swap_script::LBtcSwapScript;
use crate::swap_tx::LBtcSwapTx;
use vstd::prelude::*;

verus! {

/// Whether an answer of the provider can be turned into a script: its two scripts are hexadecimal
/// and have a hash and a lock time, its address is one, and its blinding key spells a secret key.
pub open spec fn is_whole_answer(
    tree: SwapTree,
    address: Seq<char>,
    blinding_key: Option<String>,
) -> bool {
    &&& hex_decode(tree.claim_leaf.output@) matches Some(claim) && hashlock_of(
        instructions(claim),
    ) is Some
    &&& hex_decode(tree.refund_leaf.output@) matches Some(refund) && timelock_of(
        instructions(refund),
    ) is Some
    &&& parsed_address(address) is Some
    &&& blinding_key matches Some(text) && hex_decode(text@) matches Some(secret) && secret.len()
        == 32 && 0 < be_value(secret) < curve_order()
}

/// Whether a script holds what an answer of the provider spells: the hash of the claim script, the
/// lock time of the refund script, the address, and the secret key of the blinding key.
pub open spec fn holds_answer(
    tree: SwapTree,
    address: Seq<char>,
    blinding_key: Option<String>,
    script: LBtcSwapScript,
) -> bool {
    &&& hashlock_of(instructions(hex_decode(tree.claim_leaf.output@)->0)) == Some(script.hashlock@)
    &&& timelock_of(instructions(hex_decode(tree.refund_leaf.output@)->0)) == Some(script.locktime)
    &&& script.funding_addrs matches Some(held) && parsed_address(address) == Some(
        (held.text@, held.script_pubkey@, held@.blinding_pubkey),
    )
    &&& hex_decode(blinding_key->0@) == Some(script.blinding_key@)
}

/// The script of a submarine swap is made of the answer wherever that is whole. The provider is
/// the receiver, and we are the sender.
pub proof fn law_submarine_answer(
    answer: CreateSubmarineResponse,
    ours: PublicKey,
    r: Result<LBtcSwapScript, Error>,
)
    requires
        call_ensures(LBtcSwapScript::submarine_from_swap_resp, (&answer, ours), r),
    ensures
        r is Ok <==> is_whole_answer(answer.swap_tree, answer.address@, answer.blinding_key),
        r matches Ok(script) ==> {
            &&& holds_answer(answer.swap_tree, answer.address@, answer.blinding_key, script)
            &&& script.swap_type == SwapType::Submarine
            &&& script.side is None
            &&& script.receiver_pubkey == answer.claim_public_key
            &&& script.sender_pubkey == ours
        },
{
    law_reading_gives_what_the_answer_spells(
        answer.swap_tree,
        answer.address@,
        answer.blinding_key,
        "No blinding key provided in Create Swap Response"@,
        match r {
            Ok(script) => Ok(script@.terms()),
            Err(e) => Err(e),
        },
    );
}

/// The script of a reverse swap is made of the answer wherever that is whole. The provider is the
/// sender, and we are the receiver.
pub proof fn law_reverse_answer(
    answer: CreateReverseResponse,
    ours: PublicKey,
    r: Result<LBtcSwapScript, Error>,
)
    requires
        call_ensures(LBtcSwapScript::reverse_from_swap_resp, (&answer, ours), r),
    ensures
        r is Ok <==> is_whole_answer(answer.swap_tree, answer.lockup_address@, answer.blinding_key),
        r matches Ok(script) ==> {
            &&& holds_answer(answer.swap_tree, answer.lockup_address@, answer.blinding_key, script)
            &&& script.swap_type == SwapType::ReverseSubmarine
            &&& script.side is None
            &&& script.receiver_pubkey == ours
            &&& script.sender_pubkey == answer.refund_public_key
        },
{
    law_reading_gives_what_the_answer_spells(
        answer.swap_tree,
        answer.lockup_address@,
        answer.blinding_key,
        "No blinding key provided in Create Swap Response"@,
        match r {
            Ok(script) => Ok(script@.terms()),
            Err(e) => Err(e),
        },
    );
}

/// The script of one side of a chain swap is made of the answer wherever that is whole. Where we
/// lock up we are the sender and the provider is the receiver, and where we claim it is the other
/// way round.
pub proof fn law_chain_answer(
    side: Side,
    answer: ChainSwapDetails,
    ours: PublicKey,
    r: Result<LBtcSwapScript, Error>,
)
    requires
        call_ensures(LBtcSwapScript::chain_from_swap_resp, (side, answer, ours), r),
    ensures
        r is Ok <==> is_whole_answer(answer.swap_tree, answer.lockup_address@, answer.blinding_key),
        r matches Ok(script) ==> {
            &&& holds_answer(answer.swap_tree, answer.lockup_address@, answer.blinding_key, script)
            &&& script.swap_type == SwapType::Chain
            &&& script.side == Some(side)
            &&& side == Side::Lockup ==> script.sender_pubkey == ours && script.receiver_pubkey
                == answer.server_public_key
            &&& side == Side::Claim ==> script.receiver_pubkey == ours && script.sender_pubkey
                == answer.server_public_key
        },
{
    law_reading_gives_what_the_answer_spells(
        answer.swap_tree,
        answer.lockup_address@,
        answer.blinding_key,
        "No blinding key provided in ChainSwapDetails"@,
        match r {
            Ok(script) => Ok(script@.terms()),
            Err(e) => Err(e),
        },
    );
}

/// The claim script that is written begins, unless the swap is a submarine one, with the check of
/// the preimage's size, and goes on with the hash and the receiver's key.
pub proof fn law_claim_script_is_written(script: LBtcSwapScript, r: Vec<u8>)
    requires
        script.receiver_pubkey@.len() == 33,
        call_ensures(LBtcSwapScript::claim_script, (&script,), r),
    ensures
        r@ == (if script.swap_type == SwapType::Submarine {
            seq![]
        } else {
            seq![0x82u8, 1u8, 32u8, 0x88u8]
        }) + seq![0xa9u8, 20u8] + script.hashlock@ + seq![0x88u8, 32u8]
            + script.receiver_pubkey@.subrange(1, 33) + seq![0xacu8],
{
    law_claim_script_asks_for_the_preimage(script@);
    assert(r@ =~= (if script.swap_type == SwapType::Submarine {
        seq![]
    } else {
        seq![0x82u8, 1u8, 32u8, 0x88u8]
    }) + seq![0xa9u8, 20u8] + script.hashlock@ + seq![0x88u8, 32u8]
        + script.receiver_pubkey@.subrange(1, 33) + seq![0xacu8]);
}

/// An address is accepted exactly where it is, to the letter, the text of the address that the
/// script gives. Where the script gives none, the very same error comes.
pub proof fn law_only_the_own_address_is_valid(
    script: LBtcSwapScript,
    network: LiquidChain,
    text: String,
    own: Result<Address, Error>,
    r: Result<(), Error>,
)
    requires
        call_ensures(LBtcSwapScript::to_address, (&script, network), own),
        call_ensures(LBtcSwapScript::validate_address, (&script, network, text), r),
    ensures
        own is Ok <==> script@.is_checked(),
        own matches Ok(address) ==> {
            &&& address@ == script@.address(network)
            &&& address.blinding_pubkey is Some
            &&& r is Ok <==> text@ == address.text@
            &&& r matches Err(e) ==> (e matches Error::Protocol(t) && t@
                == "Script/LockupAddress Mismatch"@)
        },
        own matches Err(e) ==> (r matches Err(f) && same_error(e, f)),
{
    if own is Err {
        assert(!script@.is_checked());
        if r is Err {
            law_address_error_is_one(script@, own->Err_0, r->Err_0);
        }
    }
}

/// The output that locks a swap up stands in the provider's transaction at the place that is
/// given, pays to the address that the script gives, and is the first that does.
pub proof fn law_lockup_is_found(
    script: LBtcSwapScript,
    network: LiquidChain,
    hex: Option<String>,
    r: Result<(OutPoint, Output), Error>,
)
    requires
        call_ensures(LBtcSwapScript::find_lockup_utxo, (&script, network, hex), r),
    ensures
        ({
            let bytes = hex_decode(hex->0@);
            let tx = decoded_transaction(bytes->0);
            let outputs = (tx->0).1;
            let own = script@.address(network).script_pubkey;
            &&& r is Ok <==> hex is Some && script@.is_checked() && bytes is Some && tx is Some
                && exists|i: int|
                0 <= i < outputs.len() && (#[trigger] outputs[i]).script_pubkey == own
            &&& r matches Ok((place, output)) ==> {
                &&& place.txid@ == (tx->0).0
                &&& place.vout < outputs.len()
                &&& output@ == outputs[place.vout as int]
                &&& output@.script_pubkey == own
                &&& forall|j: int|
                    0 <= j < place.vout ==> (#[trigger] outputs[j]).script_pubkey != own
            }
        }),
{
    law_lockup_is_where_it_is_said_to_be(
        script@,
        network,
        match hex {
            Some(text) => Some(text@),
            None => None,
        },
        match r {
            Ok((place, output)) => Ok((place.txid@, place.vout, output@)),
            Err(e) => Err(e),
        },
    );
}

/// The provider is asked for the transaction of the kind of swap; of a chain swap's two, the
/// provider's is claimed and ours refunded; and an output that was found on the chain is taken.
pub proof fn law_where_the_lockup_is_looked_for(
    script: LBtcSwapScript,
    source: LockupSource,
    ours: Option<LockTransaction>,
    theirs: Option<LockTransaction>,
    claimed: Result<Option<String>, Error>,
    refunded: Result<Option<String>, Error>,
    found: Result<Option<(OutPoint, Output)>, Error>,
    taken: Option<(OutPoint, Output)>,
)
    requires
        call_ensures(LBtcSwapScript::lockup_source, (&script,), source),
        call_ensures(
            ChainSwapTransactions::lock_hex,
            ((ChainSwapTransactions { user_lock: ours, server_lock: theirs }), SwapTxKind::Claim),
            claimed,
        ),
        call_ensures(
            ChainSwapTransactions::lock_hex,
            ((ChainSwapTransactions { user_lock: ours, server_lock: theirs }), SwapTxKind::Refund),
            refunded,
        ),
        call_ensures(found_utxo, (found,), taken),
    ensures
        source == LockupSource::ChainTransactions <==> script.swap_type == SwapType::Chain,
        source == LockupSource::ReverseTransaction <==> script.swap_type
            == SwapType::ReverseSubmarine,
        source == LockupSource::SubmarineTransaction <==> script.swap_type == SwapType::Submarine,
        claimed is Ok <==> theirs is Some,
        claimed matches Ok(hex) ==> hex == theirs->0.hex,
        claimed matches Err(e) ==> (e matches Error::Protocol(t) && t@
            == "No server_lock transaction for Chain Swap available"@),
        refunded is Ok <==> ours is Some,
        refunded matches Ok(hex) ==> hex == ours->0.hex,
        refunded matches Err(e) ==> (e matches Error::Protocol(t) && t@
            == "No user_lock transaction for Chain Swap available"@),
        taken is Some <==> (found matches Ok(utxo) && utxo is Some),
        found matches Ok(utxo) ==> taken == utxo,
{
}

/// A helper for a claim is made for every swap but a submarine one, and a helper for a refund for
/// every swap but a reverse one, if the text is an address. It holds what it was made of.
pub proof fn law_helpers_are_made(
    script: LBtcSwapScript,
    text: &str,
    funding: (OutPoint, Output),
    genesis: [u8; 32],
    claim: Result<LBtcSwapTx, Error>,
    refund: Result<LBtcSwapTx, Error>,
    has_claim: Result<(), Error>,
    target: Result<Address, Error>,
)
    requires
        call_ensures(LBtcSwapTx::new_claim, (script, text, funding, genesis), claim),
        call_ensures(LBtcSwapTx::new_refund, (script, text, funding, genesis), refund),
        call_ensures(LBtcSwapTx::check_claim, (&script,), has_claim),
        call_ensures(LBtcSwapTx::refund_target, (&script, text), target),
    ensures
        has_claim is Ok <==> script.swap_type != SwapType::Submarine,
        claim is Ok <==> has_claim is Ok && parsed_address(text@) is Some,
        target is Ok <==> script.swap_type != SwapType::ReverseSubmarine && parsed_address(
            text@,
        ) is Some,
        refund is Ok <==> target is Ok,
        claim matches Ok(tx) ==> tx.kind == SwapTxKind::Claim,
        refund matches Ok(tx) ==> tx.kind == SwapTxKind::Refund && tx@.output_address
            == target->Ok_0@,
        forall|tx: LBtcSwapTx|
            #![trigger tx.kind]
            claim == Ok::<LBtcSwapTx, Error>(tx) || refund == Ok::<LBtcSwapTx, Error>(tx) ==> {
                &&& tx@.swap_script == script@
                &&& parsed_address(text@) == Some(
                    (
                        tx@.output_address.text,
                        tx@.output_address.script_pubkey,
                        tx@.output_address.blinding_pubkey,
                    ),
                )
                &&& tx.funding_outpoint == funding.0
                &&& tx@.funding_utxo == funding.1@
                &&& tx.genesis_hash@ == genesis@
            },
{
    law_new_holds_what_was_given(
        SwapTxKind::Claim,
        script@,
        text@,
        funding.0,
        funding.1@,
        genesis@,
        match claim {
            Ok(tx) => Ok(tx@),
            Err(e) => Err(e),
        },
    );
    law_new_holds_what_was_given(
        SwapTxKind::Refund,
        script@,
        text@,
        funding.0,
        funding.1@,
        genesis@,
        match refund {
            Ok(tx) => Ok(tx@),
            Err(e) => Err(e),
        },
    );
}

/// Whether a transaction can be made of what is spent: the key opens the locked output, the
/// output address has a blinding key, something below 2^63 is left after the fees, and a refund
/// has a lock time that its script gives back.
pub open spec fn can_be_made(tx: LBtcSwapTx, kind: SwapTxKind, fees: u64) -> bool {
    &&& unblinded(tx.funding_utxo@, tx.swap_script.blinding_key@) matches Some(spent) && fees
        < spent.value && spent.value - fees < 0x8000_0000_0000_0000
    &&& tx.output_address.blinding_pubkey is Some
    &&& kind == SwapTxKind::Refund ==> tx.swap_script.locktime == 0 || 17
        <= tx.swap_script.locktime < 0x8000_0000
}

/// Whether a transaction spends a locked output and nothing else, and pays all of it: one explicit
/// output, to no script, holds the fees in the spent asset, and the other goes to the output
/// address.
pub open spec fn spends_and_pays(
    tx: LBtcSwapTx,
    kind: SwapTxKind,
    fees: u64,
    made: TxView,
) -> bool {
    let (payment, fee) = if kind == SwapTxKind::Claim {
        (made.output[0], made.output[1])
    } else {
        (made.output[1], made.output[0])
    };
    &&& made.version == 2
    &&& made.input.len() == 1
    &&& made.input[0].txid == tx.funding_outpoint.txid@
    &&& made.input[0].vout == tx.funding_outpoint.vout
    &&& made.output.len() == 2
    &&& fee.asset == seq![1u8] + unblinded(
        tx.funding_utxo@,
        tx.swap_script.blinding_key@,
    )->0.asset
    &&& fee.value.len() == 9 && fee.value[0] == 1 && be_value(fee.value.skip(1)) == fees
    &&& fee.script_pubkey.len() == 0
    &&& payment.script_pubkey == tx.output_address.script_pubkey@
}

/// A claim is made exactly where there is a preimage, where it can be made, and where, spending by
/// the script, the provider's address fits. It spends what was locked up and pays all of it, and
/// by the script it shows the preimage behind a signature of ours.
pub proof fn law_claim_is_made(
    tx: LBtcSwapTx,
    keys: Keypair,
    preimage: Preimage,
    fees: u64,
    is_cooperative: bool,
    r: Result<Tx, Error>,
)
    requires
        tx.swap_script.sender_pubkey@.len() == 33,
        call_ensures(LBtcSwapTx::create_claim, (&tx, &keys, &preimage, fees, is_cooperative), r),
    ensures
        r is Ok <==> preimage.bytes is Some && can_be_made(tx, SwapTxKind::Claim, fees) && (
        is_cooperative || tx.swap_script@.is_checked()),
        r matches Ok(made) ==> {
            &&& spends_and_pays(tx, SwapTxKind::Claim, fees, made@)
            &&& made.lock_time == 0
            &&& is_cooperative ==> made@.input[0].witness.len() == 1
                && made@.input[0].witness[0].len() == 64
            &&& !is_cooperative ==> made@.input[0].witness.len() == 4
                && made@.input[0].witness[0].len() == 64 && made@.input[0].witness[1]
                == preimage.bytes->0@ && made@.input[0].witness[2]
                == tx.swap_script@.claim_script()
        },
        r matches Err(e) ==> (preimage.bytes is None ==> (e matches Error::Protocol(t) && t@
            == "No preimage provided"@)),
{
    let kind = SwapTxKind::Claim;
    if preimage.bytes is Some {
        let bytes = preimage.bytes->0@;
        if r is Ok {
            let made = r->Ok_0@;
            law_spends_the_locked_output(tx@, kind, keys@, bytes, fees, is_cooperative, made);
            law_pays_all_that_is_spent(tx@, kind, keys@, bytes, fees, is_cooperative, made);
            if !is_cooperative {
                law_script_spend_shows_its_script(tx@, kind, keys@, bytes, fees, made);
                law_script_spend_verifies(tx@, kind, keys@, bytes, fees, made);
            }
        } else {
            law_making_fails_for_what_is_missing(tx@, kind, fees, is_cooperative, r->Err_0);
        }
    }
}

/// A refund is made exactly where it can be, and where, spending by the script, the provider's
/// address fits. It spends what was locked up, pays all of it, and waits for the lock time of the
/// swap.
pub proof fn law_refund_is_made(
    tx: LBtcSwapTx,
    keys: Keypair,
    fees: u64,
    is_cooperative: bool,
    r: Result<Tx, Error>,
)
    requires
        tx.swap_script.sender_pubkey@.len() == 33,
        call_ensures(LBtcSwapTx::create_refund, (&tx, &keys, fees, is_cooperative), r),
    ensures
        r is Ok <==> can_be_made(tx, SwapTxKind::Refund, fees) && (is_cooperative
            || tx.swap_script@.is_checked()),
        r matches Ok(made) ==> {
            &&& spends_and_pays(tx, SwapTxKind::Refund, fees, made@)
            &&& made.lock_time == tx.swap_script.locktime
            &&& is_cooperative ==> made@.input[0].witness.len() == 1
                && made@.input[0].witness[0].len() == 64
            &&& !is_cooperative ==> made@.input[0].sequence == 0 && made@.input[0].witness.len()
                == 3 && made@.input[0].witness[0].len() == 64 && made@.input[0].witness[1]
                == tx.swap_script@.refund_script()
        },
{
    let kind = SwapTxKind::Refund;
    law_refund_script_reads_back(tx.swap_script@);
    if r is Ok {
        let made = r->Ok_0@;
        law_spends_the_locked_output(tx@, kind, keys@, seq![], fees, is_cooperative, made);
        law_pays_all_that_is_spent(tx@, kind, keys@, seq![], fees, is_cooperative, made);
        if !is_cooperative {
            law_script_spend_shows_its_script(tx@, kind, keys@, seq![], fees, made);
            law_script_spend_verifies(tx@, kind, keys@, seq![], fees, made);
        }
    } else {
        law_making_fails_for_what_is_missing(tx@, kind, fees, is_cooperative, r->Err_0);
    }
}

/// A claim or a refund is signed wherever it can be made and the provider's address fits, to
/// whatever kind of address it pays. Together with the provider that means that the provider is
/// asked for its part.
pub proof fn law_transactions_are_signed(
    tx: LBtcSwapTx,
    keys: Keypair,
    preimage: Preimage,
    fees: u64,
    is_cooperative: bool,
    claim: Result<Signing, Error>,
    refund: Result<Signing, Error>,
)
    requires
        tx.swap_script.sender_pubkey@.len() == 33,
        call_ensures(
            LBtcSwapTx::sign_claim,
            (&tx, &keys, &preimage, fees, is_cooperative),
            claim,
        ),
        call_ensures(LBtcSwapTx::sign_refund, (&tx, &keys, fees, is_cooperative), refund),
    ensures
        claim is Ok <==> preimage.bytes is Some && can_be_made(tx, SwapTxKind::Claim, fees)
            && tx.swap_script@.is_checked(),
        refund is Ok <==> can_be_made(tx, SwapTxKind::Refund, fees)
            && tx.swap_script@.is_checked(),
        claim is Ok ==> (is_cooperative <==> (claim matches Ok(Signing::Ask(_, _)))),
        refund is Ok ==> (is_cooperative <==> (refund matches Ok(Signing::Ask(_, _)))),
        claim matches Ok(Signing::Done(made)) ==> spends_and_pays(
            tx,
            SwapTxKind::Claim,
            fees,
            made@,
        ),
        refund matches Ok(Signing::Done(made)) ==> spends_and_pays(
            tx,
            SwapTxKind::Refund,
            fees,
            made@,
        ),
        claim matches Ok(Signing::Ask(request, spend)) ==> spends_and_pays(
            tx,
            SwapTxKind::Claim,
            fees,
            spend@.tx,
        ) && spend@.tx.lock_time == 0 && spend@.their_key == tx.swap_script.sender_pubkey@
            && request.to_sign.index == 0,
        refund matches Ok(Signing::Ask(request, spend)) ==> spends_and_pays(
            tx,
            SwapTxKind::Refund,
            fees,
            spend@.tx,
        ) && spend@.tx.lock_time == 0 && spend@.their_key == tx.swap_script.receiver_pubkey@
            && request.to_sign.index == 0,
{
    if preimage.bytes is Some {
        lemma_signed(
            tx,
            SwapTxKind::Claim,
            keys@,
            preimage.bytes->0@,
            fees,
            is_cooperative,
            claim,
        );
    }
    lemma_signed(tx, SwapTxKind::Refund, keys@, seq![], fees, is_cooperative, refund);
}

proof fn lemma_signed(
    tx: LBtcSwapTx,
    kind: SwapTxKind,
    secret: Seq<u8>,
    preimage: Seq<u8>,
    fees: u64,
    is_cooperative: bool,
    r: Result<Signing, Error>,
)
    requires
        tx.swap_script.sender_pubkey@.len() == 33,
        tx@.is_signing(kind, secret, preimage, fees, is_cooperative, r),
    ensures
        r is Ok <==> can_be_made(tx, kind, fees) && tx.swap_script@.is_checked(),
        r is Ok ==> (is_cooperative <==> (r matches Ok(Signing::Ask(_, _)))),
        r matches Ok(Signing::Done(made)) ==> spends_and_pays(tx, kind, fees, made@),
        r matches Ok(Signing::Ask(request, spend)) ==> spends_and_pays(tx, kind, fees, spend@.tx)
            && spend@.tx.lock_time == 0 && request.to_sign.index == 0 && spend@.their_key == (
        if kind == SwapTxKind::Claim {
            tx.swap_script.sender_pubkey@
        } else {
            tx.swap_script.receiver_pubkey@
        }),
{
    law_signing_goes_its_way(tx@, kind, secret, preimage, fees, is_cooperative, r);
    match r {
        Ok(Signing::Done(made)) => {
            law_spends_the_locked_output(tx@, kind, secret, preimage, fees, false, made@);
            law_pays_all_that_is_spent(tx@, kind, secret, preimage, fees, false, made@);
        },
        Ok(Signing::Ask(request, spend)) => {
            crate::laws_spends::law_asking_is_for_the_transaction(
                tx@,
                kind,
                secret,
                preimage,
                fees,
                request,
                spend@,
            );
            let made = choose|made: TxView| #[trigger]
                tx@.is_created(kind, secret, preimage, fees, true, made) && spend@.tx.version
                    == made.version && spend@.tx.input == made.input && spend@.tx.output
                    == made.output;
            law_spends_the_locked_output(tx@, kind, secret, preimage, fees, true, made);
            law_pays_all_that_is_spent(tx@, kind, secret, preimage, fees, true, made);
        },
        Err(_) => {},
    }
}

/// The size that is computed beforehand is what the transaction with its real fees, keys and
/// preimage measures, with the discount or without, if the locked value is at most 2^52. With the
/// discount it is never more than without.
pub proof fn law_size_is_known_beforehand(
    tx: LBtcSwapTx,
    keys: Keypair,
    preimage: Preimage,
    fees: u64,
    is_cooperative: bool,
    is_discount_ct: bool,
    claim: Tx,
    refund: Tx,
    size: usize,
    measured: usize,
    full: usize,
)
    requires
        unblinded(tx.funding_utxo@, tx.swap_script.blinding_key@)->0.value <= 0x10_0000_0000_0000,
        call_ensures(LBtcSwapTx::size, (&tx, &keys, is_cooperative, is_discount_ct), Ok(size)),
        call_ensures(
            LBtcSwapTx::create_claim,
            (&tx, &keys, &preimage, fees, is_cooperative),
            Ok(claim),
        ),
        call_ensures(
            LBtcSwapTx::create_refund,
            (&tx, &keys, fees, is_cooperative),
            Ok(refund),
        ),
        tx.kind == SwapTxKind::Claim ==> call_ensures(
            tx_size,
            (&claim, is_discount_ct),
            measured,
        ) && call_ensures(tx_size, (&claim, false), full),
        tx.kind == SwapTxKind::Refund ==> call_ensures(
            tx_size,
            (&refund, is_discount_ct),
            measured,
        ) && call_ensures(tx_size, (&refund, false), full),
    ensures
        size == measured,
        size <= full,
{
    let (made, bytes) = if tx.kind == SwapTxKind::Claim {
        (claim@, preimage.bytes->0@)
    } else {
        (refund@, seq![])
    };
    law_size_is_the_transactions(
        tx@,
        is_cooperative,
        is_discount_ct,
        keys@,
        size,
        keys@,
        bytes,
        fees,
        made,
    );
}

/// A transaction measures what the chain counts, with the discount where that is asked for.
pub proof fn law_transactions_are_measured(tx: Tx, with: usize, without: usize)
    requires
        call_ensures(tx_size, (&tx, true), with),
        call_ensures(tx_size, (&tx, false), without),
    ensures
        with == chain_discount_vsize(tx@.sizes()),
        without == chain_vsize(tx@.sizes()),
        with <= without,
{
}

/// What a transaction is not is told before it is signed.
pub proof fn law_kinds_are_checked(
    tx: LBtcSwapTx,
    claim: Result<(), Error>,
    refund: Result<(), Error>,
)
    requires
        call_ensures(LBtcSwapTx::check_sign_claim, (&tx,), claim),
        call_ensures(LBtcSwapTx::check_sign_refund, (&tx,), refund),
    ensures
        claim is Ok <==> tx.kind == SwapTxKind::Claim && tx.swap_script.swap_type
            != SwapType::Submarine,
        refund is Ok <==> tx.kind == SwapTxKind::Refund && tx.swap_script.swap_type
            != SwapType::ReverseSubmarine,
{
}

/// Our part of a signature is given under the same condition through a transaction as through its
/// script: where the provider's address fits, the hash spells 32 bytes and the nonce 66.
pub proof fn law_parts_are_given(
    tx: LBtcSwapTx,
    keys: Keypair,
    pub_nonce: &str,
    transaction_hash: &str,
    r: Result<Part, Error>,
    s: Result<Part, Error>,
)
    requires
        call_ensures(LBtcSwapTx::partial_sign, (&tx, &keys, pub_nonce, transaction_hash), r),
        call_ensures(
            LBtcSwapScript::partial_sign,
            (&tx.swap_script, &keys, pub_nonce, transaction_hash),
            s,
        ),
    ensures
        r is Ok <==> tx.swap_script@.is_checked() && (hex_decode(transaction_hash@) matches Some(m)
            && m.len() == 32) && (hex_decode(pub_nonce@) matches Some(n) && n.len() == 66),
        s is Ok <==> r is Ok,
{
    crate::laws_spends::law_part_is_for_some_draw(
        tx.swap_script@,
        keys@,
        pub_nonce@,
        transaction_hash@,
        crate::cosign::part_outcome(r),
    );
    crate::laws_spends::law_part_is_for_some_draw(
        tx.swap_script@,
        keys@,
        pub_nonce@,
        transaction_hash@,
        crate::cosign::part_outcome(s),
    );
}

/// The refund script that is written asks for the sender's signature and ends with the check of the
/// lock time: a push of a number that spells it, or from 0 to 16 its opcode.
pub proof fn law_refund_script_is_written(script: LBtcSwapScript, r: Vec<u8>)
    requires
        script.sender_pubkey@.len() == 33,
        call_ensures(LBtcSwapScript::refund_script, (&script,), r),
    ensures
        r@.len() >= 36,
        r@.subrange(0, 34) == seq![32u8] + script.sender_pubkey@.subrange(1, 33) + seq![0xadu8],
        r@.last() == 0xb1,
        script.locktime == 0 ==> r@.subrange(34, r@.len() - 1) == seq![0u8],
        1 <= script.locktime <= 16 ==> r@.subrange(34, r@.len() - 1) == seq![
            (0x50 + script.locktime) as u8,
        ],
        script.locktime > 16 ==> r@[34] == r@.len() - 36 && le_value(
            r@.subrange(35, r@.len() - 1),
        ) == script.locktime,
{
    law_refund_script_asks_for_the_lock_time(script@);
    let key = script.sender_pubkey@.subrange(1, 33);
    assert(key =~= script.sender_pubkey@.skip(1));
    lemma_script_number(script.locktime as nat);
    let n = push_number(script.locktime);
    let all = seq![32u8] + key + seq![0xadu8] + n + seq![0xb1u8];
    assert(r@ =~= all);
    assert(r@.subrange(0, 34) =~= seq![32u8] + key + seq![0xadu8]);
    assert(r@.subrange(34, r@.len() - 1) =~= n);
    if script.locktime > 16 {
        assert(r@.subrange(35, r@.len() - 1) =~= script_number(script.locktime as nat));
    }
}

/// What the provider replies puts one signature of 64 bytes into the transaction that waits for
/// it, in the only input, and changes nothing else. The signature verifies under the key of the
/// locked output, and the provider's part under its key.
pub proof fn law_reply_is_put_in(
    spend: PendingSpend,
    reply: PartialSig,
    r: Result<Tx, Error>,
)
    requires
        spend@.tx.input.len() == 1,
        call_ensures(PendingSpend::complete, (spend, &reply), r),
    ensures
        r matches Ok(signed) ==> {
            let before = spend@.tx;
            let after = signed@;
            &&& after.version == before.version && after.lock_time == before.lock_time
            &&& after.output == before.output
            &&& after.input.len() == 1
            &&& after.input[0].txid == before.input[0].txid
            &&& after.input[0].vout == before.input[0].vout
            &&& after.input[0].sequence == before.input[0].sequence
            &&& after.input[0].witness.len() == 1
            &&& after.input[0].witness[0].len() == 64
            &&& schnorr_verifies(
                after.input[0].witness[0],
                spend@.pending.nonce.message,
                spend@.output_key,
            )
        },
        r is Ok ==> hex_decode(reply.pub_nonce@) is Some && hex_decode(
            reply.partial_signature@,
        ) is Some,
{
    law_reply_completes_the_signature(
        spend@,
        reply.pub_nonce@,
        reply.partial_signature@,
        match r {
            Ok(tx) => Ok(tx@),
            Err(e) => Err(e),
        },
    );
}

/// Signing and measuring are tried wherever the locked output can be tried with the key, covers
/// the fees, and, together with the provider, the keys take the tweak; what is tried comes to
/// what it comes to without the trial.
pub proof fn law_trials_are_made(
    tx: LBtcSwapTx,
    keys: Keypair,
    fees: u64,
    is_cooperative: bool,
    is_discount_ct: bool,
    covers: bool,
    size: Option<Result<usize, Error>>,
    refund: Option<Result<Signing, Error>>,
    can_unblind: bool,
)
    requires
        call_ensures(LBtcSwapTx::covers_fees, (&tx, 1), covers),
        call_ensures(LBtcSwapTx::try_size, (&tx, &keys, is_cooperative, is_discount_ct), size),
        call_ensures(LBtcSwapTx::try_sign_refund, (&tx, &keys, fees, is_cooperative), refund),
        call_ensures(Output::can_unblind, (&tx.funding_utxo,), can_unblind),
    ensures
        covers <==> can_unblind && (unblinded(
            tx.funding_utxo@,
            tx.swap_script.blinding_key@,
        ) matches Some(spent) ==> 1 <= spent.value),
        size is Some <==> covers,
        refund is Some ==> can_unblind && tx.kind == SwapTxKind::Refund && tx.swap_script.swap_type
            != SwapType::ReverseSubmarine,
        refund is None && tx.kind == SwapTxKind::Refund && tx.swap_script.swap_type
            != SwapType::ReverseSubmarine && can_unblind && !is_cooperative ==> (unblinded(
            tx.funding_utxo@,
            tx.swap_script.blinding_key@,
        ) matches Some(spent) && spent.value < fees),
        refund matches Some(r) ==> tx@.is_signing(
            SwapTxKind::Refund,
            keys@,
            seq![],
            fees,
            is_cooperative,
            r,
        ),
{
}

/// A claim is tried in the same way, and without a preimage there is none.
pub proof fn law_claim_is_tried(
    tx: LBtcSwapTx,
    keys: Keypair,
    preimage: Preimage,
    fees: u64,
    is_cooperative: bool,
    claim: Option<Result<Signing, Error>>,
    can_unblind: bool,
)
    requires
        call_ensures(
            LBtcSwapTx::try_sign_claim,
            (&tx, &keys, &preimage, fees, is_cooperative),
            claim,
        ),
        call_ensures(Output::can_unblind, (&tx.funding_utxo,), can_unblind),
    ensures
        claim is Some ==> tx.kind == SwapTxKind::Claim && tx.swap_script.swap_type
            != SwapType::Submarine,
        claim is None && tx.kind == SwapTxKind::Claim && tx.swap_script.swap_type
            != SwapType::Submarine ==> preimage.bytes is Some && (!can_unblind || is_cooperative
            || (unblinded(tx.funding_utxo@, tx.swap_script.blinding_key@) matches Some(spent)
            && spent.value < fees)),
        claim matches Some(r) ==> match preimage.bytes {
            None => r matches Err(Error::Protocol(t)) && t@ == "No preimage provided"@,
            Some(bytes) => tx@.is_signing(
                SwapTxKind::Claim,
                keys@,
                bytes@,
                fees,
                is_cooperative,
                r,
            ),
        },
{
}

/// Hexadecimal texts of 32 and 66 bytes are read exactly where they spell that many, whichever
/// function reads them, and small numbers are read from the least significant byte on.
pub proof fn law_texts_and_numbers_are_read(
    text: &str,
    short: Result<[u8; 32], Error>,
    other: Result<[u8; 32], Error>,
    long: Result<[u8; 66], Error>,
    bytes: &[u8],
    n: u32,
)
    requires
        call_ensures(hex_to_bytes32, (text,), short),
        call_ensures(crate::util::hex_to_bytes32, (text,), other),
        call_ensures(hex_to_bytes66, (text,), long),
        bytes@.len() <= 4,
        call_ensures(bytes_to_u32_little_endian, (bytes,), n),
    ensures
        short is Ok <==> (hex_decode(text@) matches Some(b) && b.len() == 32),
        short matches Ok(b) ==> hex_decode(text@) == Some(b@),
        other is Ok <==> short is Ok,
        other matches Ok(b) ==> hex_decode(text@) == Some(b@),
        long is Ok <==> (hex_decode(text@) matches Some(b) && b.len() == 66),
        long matches Ok(b) ==> hex_decode(text@) == Some(b@),
        n == (if bytes@.len() > 0 {
            bytes@[0] as int
        } else {
            0
        }) + (if bytes@.len() > 1 {
            0x100 * bytes@[1]
        } else {
            0
        }) + (if bytes@.len() > 2 {
            0x1_0000 * bytes@[2]
        } else {
            0
        }) + (if bytes@.len() > 3 {
            0x100_0000 * bytes@[3]
        } else {
            0
        }),
{
    reveal_with_fuel(le_value, 5);
}

/// Keys, addresses and outputs are made of what they are read from, and of nothing else: a key
/// pair of the secret key that a text spells, a public key of its bytes, an address of its text,
/// and what an output hides of what the key opens.
pub proof fn law_values_are_what_they_are_read_from(
    text: &str,
    pair: Result<Keypair, Error>,
    address: Result<Address, Error>,
    point: [u8; 33],
    key: Result<PublicKey, Error>,
    output: Output,
    keys: Keypair,
    secrets: Result<OutputSecrets, Error>,
    bytes: &[u8],
    decoded: Result<([u8; 32], Vec<Output>), Error>,
)
    requires
        call_ensures(Keypair::from_seckey_str, (text,), pair),
        call_ensures(Address::from_str, (text,), address),
        call_ensures(PublicKey::from_bytes, (point,), key),
        call_ensures(Output::unblind, (&output, &keys), secrets),
        call_ensures(decode_transaction, (bytes,), decoded),
    ensures
        pair is Ok <==> (hex_decode(text@) matches Some(b) && b.len() == 32 && 0 < be_value(b)
            < curve_order()),
        pair matches Ok(held) ==> hex_decode(text@) == Some(held@),
        address is Ok <==> parsed_address(text@) is Some,
        address matches Ok(held) ==> parsed_address(text@) == Some(
            (held.text@, held.script_pubkey@, held@.blinding_pubkey),
        ),
        key is Ok <==> is_public_key(point@),
        key matches Ok(held) ==> held@ == point@,
        secrets is Ok <==> unblinded(output@, keys@) is Some,
        secrets matches Ok(found) ==> unblinded(output@, keys@) == Some(found@) && output@.asset
            == blinded_asset(found.asset@, found.asset_bf@),
        decoded is Ok <==> decoded_transaction(bytes@) is Some,
        decoded matches Ok(tx) ==> {
            let read = decoded_transaction(bytes@)->0;
            &&& tx.0@ == read.0
            &&& tx.1@.len() == read.1.len()
            &&& forall|i: int| 0 <= i < tx.1@.len() ==> (#[trigger] tx.1@[i])@ == read.1[i]
        },
{
    if decoded is Ok {
        let tx = decoded->Ok_0;
        let read = decoded_transaction(bytes@)->0;
        assert forall|i: int| 0 <= i < tx.1@.len() implies (#[trigger] tx.1@[i])@ == read.1[i] by {
            assert(tx.1@.map_values(|o: Output| o@)[i] == tx.1@[i]@);
        }
    }
}

} // verus!
