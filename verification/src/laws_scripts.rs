//! What holds of a swap's scripts, of its address, and of what is read from the provider.
use crate::address::{p2tr_text, parsed_address, Address, LiquidChain};
use crate::boltz::{Side, SwapTree, SwapType};
use crate::bytes::{be_value, le_value};
use crate::chain::{decoded_transaction, OutputView};
use crate::cosign::fixed_hex;
use crate::error::Error;
use crate::hex_text::{decimal, hex_decode, hex_encode, is_fixed_hex};
use crate::keys::{curve_order, is_xonly_key, public_key_of};
use crate::laws::law_first_paying;
use crate::musig::musig_key;
use crate::script::{
    hashlock_of, instructions, last_op, lemma_read_number, lemma_read_op, lemma_read_push,
    lemma_script_number, push_number, push_of, script_number, short_push_of, timelock_fits,
    timelock_of, Instr, Instruction,
};
use crate::swap_script::{is_readable, is_reading, LBtcSwapScript, SwapScriptView, TermsView};
use crate::taproot::{tap_merkle_root, tap_output_key, tap_tweak_hash};
use vstd::prelude::*;

verus! {

/// The claim script asks, in a reverse swap and on either side of a chain swap, for a preimage of
/// 32 bytes, then in every swap for a preimage of the hash and for a signature of the receiver.
pub proof fn law_claim_script_asks_for_the_preimage(script: SwapScriptView)
    requires
        script.hashlock.len() == 20,
        script.receiver_pubkey.len() == 33,
    ensures
        script.swap_type == SwapType::Submarine ==> instructions(script.claim_script()) == seq![
            Instr::Op(0xa9),
            Instr::PushBytes(script.hashlock),
            Instr::Op(0x88),
            Instr::PushBytes(script.receiver_pubkey.subrange(1, 33)),
            Instr::Op(0xac),
        ],
        script.swap_type != SwapType::Submarine ==> instructions(script.claim_script()) == seq![
            Instr::Op(0x82),
            Instr::PushBytes(seq![32u8]),
            Instr::Op(0x88),
            Instr::Op(0xa9),
            Instr::PushBytes(script.hashlock),
            Instr::Op(0x88),
            Instr::PushBytes(script.receiver_pubkey.subrange(1, 33)),
            Instr::Op(0xac),
        ],
        script.swap_type == SwapType::Submarine ==> script.claim_script() == seq![0xa9u8, 20u8]
            + script.hashlock + seq![0x88u8, 32u8] + script.receiver_pubkey.subrange(1, 33)
            + seq![0xacu8],
        script.swap_type != SwapType::Submarine ==> script.claim_script() == seq![
            0x82u8,
            1u8,
            32u8,
            0x88u8,
            0xa9u8,
            20u8,
        ] + script.hashlock + seq![0x88u8, 32u8] + script.receiver_pubkey.subrange(1, 33)
            + seq![0xacu8],
{
    let key = script.receiver_pubkey.subrange(1, 33);
    let s4 = seq![0xacu8] + seq![];
    let s3 = push_of(key) + s4;
    let s2 = seq![0x88u8] + s3;
    let s1 = push_of(script.hashlock) + s2;
    let unlock = seq![0xa9u8] + s1;
    lemma_read_op(0xac, seq![]);
    assert(instructions(seq![]) =~= seq![]);
    lemma_read_push(key, s4);
    lemma_read_op(0x88, s3);
    lemma_read_push(script.hashlock, s2);
    lemma_read_op(0xa9, s1);
    let tail = seq![
        Instr::Op(0xa9),
        Instr::PushBytes(script.hashlock),
        Instr::Op(0x88),
        Instr::PushBytes(key),
        Instr::Op(0xac),
    ];
    assert(instructions(unlock) =~= tail);
    assert(key =~= script.receiver_pubkey.skip(1));
    if script.swap_type == SwapType::Submarine {
        assert(script.claim_script() =~= unlock);
        assert(script.claim_script() =~= seq![0xa9u8, 20u8] + script.hashlock + seq![0x88u8, 32u8]
            + key + seq![0xacu8]);
    } else {
        let t1 = seq![0x88u8] + unlock;
        let t0 = push_number(32) + t1;
        reveal_with_fuel(script_number, 2);
        assert(script_number(32) =~= seq![32u8]);
        assert(push_number(32) =~= seq![1u8, 32u8]);
        lemma_read_op(0x88, unlock);
        lemma_read_number(32, t1);
        lemma_read_op(0x82, t0);
        assert(script.claim_script() =~= seq![0x82u8] + t0);
        assert(instructions(script.claim_script()) =~= seq![
            Instr::Op(0x82),
            Instr::PushBytes(seq![32u8]),
            Instr::Op(0x88),
        ] + tail);
        assert(script.claim_script() =~= seq![0x82u8, 1u8, 32u8, 0x88u8, 0xa9u8, 20u8]
            + script.hashlock + seq![0x88u8, 32u8] + key + seq![0xacu8]);
    }
}

/// The refund script asks for a signature of the sender and then for the lock time: a number
/// that spells it, in as few bytes as it takes, or from 1 to 16 the opcode of the number.
pub proof fn law_refund_script_asks_for_the_lock_time(script: SwapScriptView)
    requires
        script.sender_pubkey.len() == 33,
    ensures
        ({
            let items = instructions(script.refund_script());
            let n = script.locktime;
            &&& items.len() == 4
            &&& items[0] == Instr::PushBytes(script.sender_pubkey.subrange(1, 33))
            &&& items[1] == Instr::Op(0xad)
            &&& items[3] == Instr::Op(0xb1)
            &&& n == 0 ==> items[2] == Instr::PushBytes(seq![])
            &&& 1 <= n <= 16 ==> items[2] == Instr::Op((0x50 + n) as u8)
            &&& n > 16 ==> (items[2] matches Instr::PushBytes(bytes) && le_value(bytes) == n
                && bytes.len() == (if n < 0x80 {
                1int
            } else if n < 0x8000 {
                2
            } else if n < 0x80_0000 {
                3
            } else if n < 0x8000_0000 {
                4
            } else {
                5
            }) && script.refund_script().len() == 36 + bytes.len())
            &&& n <= 16 ==> script.refund_script().len() == 36
        }),
{
    let key = script.sender_pubkey.subrange(1, 33);
    let n = script.locktime;
    let end = seq![0xb1u8] + seq![];
    let rest = seq![0xadu8] + (push_number(n) + end);
    lemma_read_op(0xb1, seq![]);
    assert(instructions(seq![]) =~= seq![]);
    lemma_read_number(n, end);
    lemma_read_op(0xad, push_number(n) + end);
    lemma_read_push(key, rest);
    assert(key =~= script.sender_pubkey.skip(1));
    assert(script.refund_script() =~= push_of(key) + rest);
    lemma_script_number(n as nat);
    reveal_with_fuel(script_number, 5);
}

/// The two keys are aggregated with the provider's first: that of the sender in a reverse swap
/// and where we claim in a chain swap, and that of the receiver elsewhere.
pub proof fn law_keys_are_aggregated_in_order(script: SwapScriptView)
    ensures
        script.key_order().len() == 2,
        match (script.swap_type, script.side) {
            (SwapType::Submarine, _) => script.key_order()[0] == script.receiver_pubkey
                && script.key_order()[1] == script.sender_pubkey,
            (SwapType::ReverseSubmarine, _) => script.key_order()[0] == script.sender_pubkey
                && script.key_order()[1] == script.receiver_pubkey,
            (SwapType::Chain, Some(Side::Claim)) => script.key_order()[0] == script.sender_pubkey
                && script.key_order()[1] == script.receiver_pubkey,
            (SwapType::Chain, _) => script.key_order()[0] == script.receiver_pubkey
                && script.key_order()[1] == script.sender_pubkey,
        },
{
}

/// The address is the confidential one of the aggregated keys and of the tree in which the two
/// scripts stand side by side: it pays to the key that commits to both, and is blinded with the
/// swap's blinding key.
pub proof fn law_address_commits_to_the_swap(script: SwapScriptView, network: LiquidChain)
    ensures
        ({
            let key = musig_key(script.key_order(), seq![]);
            let leaves = seq![(1nat, script.claim_script()), (1nat, script.refund_script())];
            let root = Some(tap_merkle_root(leaves));
            let address = script.address(network);
            &&& script.internal_key() == key
            &&& script.leaves() == leaves
            &&& Some(script.merkle_root()) == root
            &&& script.output_key() == tap_output_key(key, root)
            &&& script.tweak() == tap_tweak_hash(key, root)
            &&& address.text == p2tr_text(
                key,
                root,
                Some(public_key_of(script.blinding_key)),
                network,
            )
            &&& address.script_pubkey == seq![0x51u8, 0x20u8] + tap_output_key(key, root)
            &&& address.blinding_pubkey == Some(public_key_of(script.blinding_key))
        }),
{
}

/// The provider's address fits exactly where its script ends with a push of the key to which the
/// swap's own address pays, and what is wrong with any other is told.
pub proof fn law_address_fits_by_its_last_push(script: SwapScriptView, e: Error)
    ensures
        script.funding_addrs is None ==> script.is_checked() && !script.is_check(Err(e)),
        script.funding_addrs matches Some(address) ==> {
            let items = instructions(address.script_pubkey);
            let own = script.output_key();
            &&& script.is_checked() <==> items.len() > 0 && items[items.len() - 1]
                == Instr::PushBytes(own) && is_xonly_key(own)
            &&& script.is_check(Err(e)) ==> !script.is_checked()
            &&& items.len() == 0 ==> (script.is_check(Err(e)) <==> (e matches Error::Protocol(t)
                && t@ == "Script should contain at least one instruction"@))
            &&& items.len() > 0 ==> match items[items.len() - 1] {
                Instr::Truncated => script.is_check(Err(e)) <==> (e matches Error::Protocol(t)
                    && t@ == "Failed to parse script instruction"@),
                Instr::Op(_) => script.is_check(Err(e)) <==> (e matches Error::Protocol(t) && t@
                    == "Expected push bytes instruction for pubkey"@),
                Instr::PushBytes(key) => if !is_xonly_key(key) {
                    script.is_check(Err(e)) <==> (e matches Error::Key(t) && t@
                        == "malformed public key"@)
                } else if key != own {
                    script.is_check(Err(e)) <==> (e matches Error::Protocol(t) && t@
                        == "Taproot construction Failed. Lockup Pubkey: "@ + hex_encode(key)
                        + ", Claim Pubkey "@ + hex_encode(own))
                } else {
                    !script.is_check(Err(e))
                },
            }
        },
{
}

/// A hash is the last push of 20 bytes, and there is none only where nothing pushes 20 bytes.
pub proof fn law_hash_is_the_last_of_its_size(items: Seq<Instr>)
    ensures
        match hashlock_of(items) {
            Some(hash) => hash.len() == 20 && exists|i: int|
                0 <= i < items.len() && #[trigger] items[i] == Instr::PushBytes(hash) && forall|
                    j: int,
                |
                    i < j < items.len() ==> !((#[trigger] items[j]) matches Instr::PushBytes(b)
                        && b.len() == 20),
            None => forall|j: int|
                0 <= j < items.len() ==> !((#[trigger] items[j]) matches Instr::PushBytes(b)
                    && b.len() == 20),
        },
    decreases items.len(),
{
    if items.len() > 0 {
        let front = items.drop_last();
        law_hash_is_the_last_of_its_size(front);
        assert forall|j: int| 0 <= j < front.len() implies front[j] == items[j] by {}
        if hashlock_of(items) is Some {
            let hash = hashlock_of(items)->0;
            if items.last() == Instr::PushBytes(hash) {
                let i = items.len() - 1;
                assert(items[i] == Instr::PushBytes(hash));
            } else {
                let i = choose|i: int|
                    0 <= i < front.len() && #[trigger] front[i] == Instr::PushBytes(hash) && forall|
                        j: int,
                    |
                        i < j < front.len() ==> !((#[trigger] front[j]) matches Instr::PushBytes(b)
                            && b.len() == 20);
                assert(items[i] == Instr::PushBytes(hash));
                assert forall|j: int| i < j < items.len() implies !((
                #[trigger] items[j]) matches Instr::PushBytes(b) && b.len() == 20) by {
                    if j < front.len() {
                        assert(front[j] == items[j]);
                    }
                }
            }
        } else {
            assert forall|j: int| 0 <= j < items.len() implies !((
            #[trigger] items[j]) matches Instr::PushBytes(b) && b.len() == 20) by {
                if j < front.len() {
                    assert(front[j] == items[j]);
                }
            }
        }
    }
}

/// Whether the nearest opcode before a place of a script is a given one.
pub open spec fn follows_op(items: Seq<Instr>, at: int, op: u8) -> bool {
    exists|k: int|
        0 <= k < at && #[trigger] items[k] == Instr::Op(op) && forall|m: int|
            k < m < at ==> !(#[trigger] items[m] is Op)
}

/// Whether a push stands behind an `OP_CHECKSIGVERIFY`, with no other opcode in between.
pub open spec fn is_lock_push(items: Seq<Instr>, at: int) -> bool {
    items[at] is PushBytes && follows_op(items, at, 0xad)
}

proof fn lemma_follows_in_front(items: Seq<Instr>, at: int, op: u8)
    requires
        0 <= at < items.len(),
    ensures
        follows_op(items.drop_last(), at, op) == follows_op(items, at, op),
{
    let front = items.drop_last();
    assert forall|j: int| 0 <= j < front.len() implies front[j] == items[j] by {}
    if follows_op(front, at, op) {
        let k = choose|k: int|
            0 <= k < at && #[trigger] front[k] == Instr::Op(op) && forall|m: int|
                k < m < at ==> !(#[trigger] front[m] is Op);
        assert(items[k] == Instr::Op(op));
        assert forall|m: int| k < m < at implies !(#[trigger] items[m] is Op) by {
            assert(front[m] == items[m]);
        }
    }
    if follows_op(items, at, op) {
        let k = choose|k: int|
            0 <= k < at && #[trigger] items[k] == Instr::Op(op) && forall|m: int|
                k < m < at ==> !(#[trigger] items[m] is Op);
        assert(front[k] == Instr::Op(op));
        assert forall|m: int| k < m < at implies !(#[trigger] front[m] is Op) by {
            assert(front[m] == items[m]);
        }
    }
}

proof fn lemma_last_op(items: Seq<Instr>, op: u8)
    requires
        op != 0x92,
    ensures
        last_op(items) == op <==> follows_op(items, items.len() as int, op),
    decreases items.len(),
{
    if items.len() > 0 {
        let front = items.drop_last();
        let end = items.len() - 1;
        lemma_last_op(front, op);
        assert(items.last() == items[end]);
        if items[end] is Op {
            if items[end] == Instr::Op(op) {
                assert(follows_op(items, items.len() as int, op));
            }
        } else {
            lemma_follows_in_front(items, end, op);
            if follows_op(items, end, op) {
                let k = choose|k: int|
                    0 <= k < end && #[trigger] items[k] == Instr::Op(op) && forall|m: int|
                        k < m < end ==> !(#[trigger] items[m] is Op);
                assert(items[k] == Instr::Op(op));
            }
            if follows_op(items, items.len() as int, op) {
                let k = choose|k: int|
                    0 <= k < items.len() && #[trigger] items[k] == Instr::Op(op) && forall|m: int|
                        k < m < items.len() ==> !(#[trigger] items[m] is Op);
                assert(items[k] == Instr::Op(op));
                assert(k < end);
            }
        }
    }
}

/// The lock time of an answer is the number in the last push that stands behind an
/// `OP_CHECKSIGVERIFY`, and there is none only where nothing is pushed there. It can be read where
/// every such push has at most four bytes.
pub proof fn law_lock_time_is_the_last_of_its_place(items: Seq<Instr>)
    ensures
        match timelock_of(items) {
            Some(n) => exists|i: int|
                0 <= i < items.len() && #[trigger] is_lock_push(items, i) && n == le_value(
                    items[i]->PushBytes_0,
                ) as u32 && forall|j: int|
                    i < j < items.len() ==> !(#[trigger] is_lock_push(items, j)),
            None => forall|j: int| 0 <= j < items.len() ==> !(#[trigger] is_lock_push(items, j)),
        },
        timelock_fits(items) <==> forall|j: int|
            0 <= j < items.len() && #[trigger] is_lock_push(items, j)
                ==> items[j]->PushBytes_0.len() <= 4,
    decreases items.len(),
{
    if items.len() > 0 {
        let front = items.drop_last();
        let end = items.len() - 1;
        law_lock_time_is_the_last_of_its_place(front);
        lemma_last_op(front, 0xad);
        lemma_follows_in_front(items, end, 0xad);
        assert(items.last() == items[end]);
        assert(is_lock_push(items, end) == (items[end] is PushBytes && last_op(front) == 0xad));
        assert forall|j: int| 0 <= j < end implies #[trigger] is_lock_push(items, j)
            == is_lock_push(front, j) by {
            lemma_follows_in_front(items, j, 0xad);
            assert(front[j] == items[j]);
        }
        assert(timelock_fits(items) <==> timelock_fits(front) && (is_lock_push(items, end)
            ==> items[end]->PushBytes_0.len() <= 4));
        if timelock_fits(items) {
            assert forall|j: int| 0 <= j < items.len() && #[trigger] is_lock_push(items, j) implies
                items[j]->PushBytes_0.len() <= 4 by {
                if j < end {
                    assert(is_lock_push(front, j));
                    assert(front[j] == items[j]);
                }
            }
        } else if is_lock_push(items, end) && items[end]->PushBytes_0.len() > 4 {
        } else {
            assert(exists|j: int|
                0 <= j < front.len() && #[trigger] is_lock_push(front, j)
                    && front[j]->PushBytes_0.len() > 4);
            let j = choose|j: int|
                0 <= j < front.len() && #[trigger] is_lock_push(front, j)
                    && front[j]->PushBytes_0.len() > 4;
            assert(is_lock_push(items, j));
            assert(front[j] == items[j]);
        }
        if is_lock_push(items, end) {
        } else {
            assert(timelock_of(items) == timelock_of(front));
            if timelock_of(front) is Some {
                let n = timelock_of(front)->0;
                let i = choose|i: int|
                    0 <= i < front.len() && #[trigger] is_lock_push(front, i) && n == le_value(
                        front[i]->PushBytes_0,
                    ) as u32 && forall|j: int|
                        i < j < front.len() ==> !(#[trigger] is_lock_push(front, j));
                assert(is_lock_push(items, i));
                assert(front[i] == items[i]);
                assert forall|j: int| i < j < items.len() implies !(#[trigger] is_lock_push(
                    items,
                    j,
                )) by {
                    if j < end {
                        assert(!is_lock_push(front, j));
                    }
                }
            } else {
                assert forall|j: int| 0 <= j < items.len() implies !(#[trigger] is_lock_push(
                    items,
                    j,
                )) by {
                    if j < end {
                        assert(!is_lock_push(front, j));
                    }
                }
            }
        }
    }
}

/// The lock time of a refund is the number in the first push of fewer than five bytes, and there
/// is none only where nothing as short is pushed.
pub proof fn law_refund_lock_time_is_the_first_short_push(items: Seq<Instr>)
    ensures
        match short_push_of(items) {
            Some(n) => exists|i: int|
                0 <= i < items.len() && ((#[trigger] items[i]) matches Instr::PushBytes(b)
                    && b.len() < 5 && n == le_value(b) as u32) && forall|j: int|
                    0 <= j < i ==> !((#[trigger] items[j]) matches Instr::PushBytes(b) && b.len()
                        < 5),
            None => forall|j: int|
                0 <= j < items.len() ==> !((#[trigger] items[j]) matches Instr::PushBytes(b)
                    && b.len() < 5),
        },
    decreases items.len(),
{
    if items.len() > 0 {
        let rest = items.drop_first();
        law_refund_lock_time_is_the_first_short_push(rest);
        assert forall|j: int| 0 <= j < rest.len() implies rest[j] == items[j + 1] by {}
        assert(items.first() == items[0]);
        if items[0] matches Instr::PushBytes(b) && b.len() < 5 {
        } else {
            assert(short_push_of(items) == short_push_of(rest));
            if short_push_of(rest) is Some {
                let n = short_push_of(rest)->0;
                let i = choose|i: int|
                    0 <= i < rest.len() && ((#[trigger] rest[i]) matches Instr::PushBytes(b)
                        && b.len() < 5 && n == le_value(b) as u32) && forall|j: int|
                        0 <= j < i ==> !((#[trigger] rest[j]) matches Instr::PushBytes(b)
                            && b.len() < 5);
                assert(items[i + 1] == rest[i]);
                assert forall|j: int| 0 <= j < i + 1 implies !((
                #[trigger] items[j]) matches Instr::PushBytes(b) && b.len() < 5) by {
                    if j > 0 {
                        assert(rest[j - 1] == items[j]);
                    }
                }
            } else {
                assert forall|j: int| 0 <= j < items.len() implies !((
                #[trigger] items[j]) matches Instr::PushBytes(b) && b.len() < 5) by {
                    if j > 0 {
                        assert(rest[j - 1] == items[j]);
                    }
                }
            }
        }
    }
}

/// An answer is read exactly where its scripts are hexadecimal and have a hash and a lock time,
/// its address is one and its blinding key spells a secret key. What is read are these: the hash,
/// the lock time, the address, and the very secret key that the text spells.
pub proof fn law_reading_gives_what_the_answer_spells(
    tree: SwapTree,
    address: Seq<char>,
    blinding_key: Option<String>,
    missing: Seq<char>,
    r: Result<TermsView, Error>,
)
    requires
        is_reading(tree, address, blinding_key, missing, r),
    ensures
        ({
            let claim = hex_decode(tree.claim_leaf.output@);
            let refund = hex_decode(tree.refund_leaf.output@);
            let hash = hashlock_of(instructions(claim->0));
            let lock_time = timelock_of(instructions(refund->0));
            let secret = hex_decode(blinding_key->0@);
            let is_secret = secret is Some && secret->0.len() == 32 && 0 < be_value(secret->0)
                < curve_order();
            let is_hex = claim is Some && refund is Some;
            &&& r is Ok <==> is_hex && hash is Some && lock_time is Some && parsed_address(
                address,
            ) is Some && blinding_key is Some && is_secret
            &&& r matches Ok(terms) ==> {
                &&& hash == Some(terms.hashlock)
                &&& lock_time == Some(terms.locktime)
                &&& secret == Some(terms.blinding_key)
                &&& parsed_address(address) == Some(
                    (
                        terms.funding_addrs.text,
                        terms.funding_addrs.script_pubkey,
                        terms.funding_addrs.blinding_pubkey,
                    ),
                )
            }
            &&& r matches Err(e) ==> if !is_hex {
                e is Hex
            } else if hash is None {
                e matches Error::Protocol(t) && t@ == "No hashlock provided"@
            } else if lock_time is None {
                e matches Error::Protocol(t) && t@ == "No timelock provided"@
            } else if parsed_address(address) is None {
                e is Address
            } else if blinding_key is None {
                e matches Error::Protocol(t) && t@ == missing
            } else {
                e is Key
            }
        }),
{
}

/// An answer can be read where its scripts are not both hexadecimal, which is told, or where
/// every push that may be a lock time has at most four bytes.
pub proof fn law_readable_answers(tree: SwapTree)
    ensures
        is_readable(tree) <==> (hex_decode(tree.claim_leaf.output@) is None || hex_decode(
            tree.refund_leaf.output@,
        ) is None || {
            let items = instructions(hex_decode(tree.refund_leaf.output@)->0);
            forall|j: int|
                0 <= j < items.len() && #[trigger] is_lock_push(items, j)
                    ==> items[j]->PushBytes_0.len() <= 4
        }),
{
    if hex_decode(tree.refund_leaf.output@) is Some {
        law_lock_time_is_the_last_of_its_place(
            instructions(hex_decode(tree.refund_leaf.output@)->0),
        );
    }
}

/// Bytes spell a number by their places: each weighs 256 times the one before it in the one
/// order, and the one behind it in the other.
pub proof fn law_bytes_spell_by_their_places(bytes: Seq<u8>, byte: u8)
    ensures
        le_value(seq![]) == 0,
        be_value(seq![]) == 0,
        le_value(seq![byte] + bytes) == byte + 256 * le_value(bytes),
        be_value(bytes.push(byte)) == 256 * be_value(bytes) + byte,
        le_value(bytes) == be_value(bytes.reverse()),
    decreases bytes.len(),
{
    assert((seq![byte] + bytes).drop_first() =~= bytes);
    assert(bytes.push(byte).drop_last() =~= bytes);
    if bytes.len() > 0 {
        let rest = bytes.drop_first();
        law_bytes_spell_by_their_places(rest, bytes[0]);
        assert(bytes.reverse().drop_last() =~= rest.reverse());
        assert(bytes.reverse().last() == bytes[0]);
    } else {
        assert(bytes =~= seq![]);
        assert(bytes.reverse() =~= seq![]);
    }
}

/// What a script took from an answer is what it holds.
pub proof fn law_terms_are_held(script: SwapScriptView)
    ensures
        script.terms().hashlock == script.hashlock,
        script.terms().locktime == script.locktime,
        script.terms().blinding_key == script.blinding_key,
        script.funding_addrs matches Some(address) ==> script.terms().funding_addrs == address,
{
}

/// A script, an address and an instruction are taken by what they hold.
pub proof fn law_scripts_are_taken_by_what_they_hold(
    script: LBtcSwapScript,
    address: Address,
    instruction: Instruction,
)
    ensures
        script@.swap_type == script.swap_type,
        script@.side == script.side,
        script@.hashlock == script.hashlock@,
        script@.receiver_pubkey == script.receiver_pubkey@,
        script@.locktime == script.locktime,
        script@.sender_pubkey == script.sender_pubkey@,
        script@.blinding_key == script.blinding_key@,
        script.funding_addrs is None <==> script@.funding_addrs is None,
        script.funding_addrs matches Some(held) ==> script@.funding_addrs == Some(held@),
        address@.text == address.text@,
        address@.script_pubkey == address.script_pubkey@,
        address.blinding_pubkey is None <==> address@.blinding_pubkey is None,
        address.blinding_pubkey matches Some(key) ==> address@.blinding_pubkey == Some(key@),
        instruction matches Instruction::PushBytes(b) ==> instruction@ == Instr::PushBytes(b@),
        instruction matches Instruction::Op(op) ==> instruction@ == Instr::Op(op),
        instruction is Truncated <==> instruction@ is Truncated,
{
}

/// The output that locks a swap up is found exactly where there is a transaction with one, and it
/// is the first that pays to the swap's address, told by the id of the transaction and its place
/// in it.
pub proof fn law_lockup_is_where_it_is_said_to_be(
    script: SwapScriptView,
    network: LiquidChain,
    hex: Option<Seq<char>>,
    r: Result<(Seq<u8>, u32, OutputView), Error>,
)
    requires
        script.is_lockup(hex, r),
    ensures
        ({
            let bytes = hex_decode(hex->0);
            let tx = decoded_transaction(bytes->0);
            let outputs = (tx->0).1;
            let own = script.address(network).script_pubkey;
            let is_tx = hex is Some && script.is_checked() && bytes is Some && tx is Some;
            &&& r matches Ok((txid, vout, output)) ==> {
                &&& is_tx
                &&& txid == (tx->0).0
                &&& vout < outputs.len()
                &&& outputs[vout as int] == output
                &&& output.script_pubkey == own
                &&& forall|j: int|
                    0 <= j < vout ==> (#[trigger] outputs[j]).script_pubkey != own
            }
            &&& r is Ok <==> is_tx && exists|i: int|
                0 <= i < outputs.len() && (#[trigger] outputs[i]).script_pubkey == own
            &&& r matches Err(e) ==> if hex is None {
                e matches Error::Hex(t) && t@ == "No transaction hex found in boltz response"@
            } else if !script.is_checked() {
                script.is_check(Err(e))
            } else if bytes is None {
                e is Hex
            } else if tx is None {
                e is Encode
            } else {
                e matches Error::Protocol(t) && t@
                    == "Boltz could not find a Liquid UTXO for script"@
            }
        }),
{
    let outputs = (decoded_transaction(hex_decode(hex->0)->0)->0).1;
    law_first_paying(outputs, script.address(network).script_pubkey, 0);
}

/// A hexadecimal text of a fixed size is read exactly where it spells that many bytes, and gives
/// these; what is wrong with any other is told.
pub proof fn law_fixed_hex_gives_what_it_spells(
    text: Seq<char>,
    n: nat,
    r: Result<Seq<u8>, Error>,
)
    requires
        is_fixed_hex(text, n, r),
    ensures
        r is Ok <==> hex_decode(text) is Some && hex_decode(text)->0.len() == n,
        r matches Ok(bytes) ==> hex_decode(text) == Some(bytes),
        r matches Err(e) ==> match hex_decode(text) {
            None => e is Hex,
            Some(bytes) => e matches Error::Protocol(t) && t@ == "Expected "@ + decimal(n)
                + " bytes, got "@ + decimal(bytes.len()),
        },
        fixed_hex(text, n) == (match r {
            Ok(bytes) => Some(bytes),
            Err(_) => None,
        }),
{
}

} // verus!
