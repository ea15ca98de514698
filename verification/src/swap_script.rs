//! The script of a swap on the Liquid network: how it is read from the provider's answers, the
//! output that it makes, and the address to which the coins are locked.
use crate::address::{p2tr_script, p2tr_text, Address, AddressView, LiquidChain};
use crate::boltz::{
    ChainSwapDetails, CreateReverseResponse, CreateSubmarineResponse, Side, SwapTree, SwapType,
};
use crate::bytes::same_bytes;
use crate::error::Error;
use crate::hex_text::{hex_decode, hex_encode, script_from_hex, to_lower_hex};
use crate::keys::{
    check_xonly_key, is_xonly_key, public_key_of, secret_key_of, x_only, Keypair, PublicKey,
};
use crate::musig::{agg_pk, cache_keys, cache_tweaks, key_agg_cache, musig_key, viewed_arrays};
use crate::script::{
    find_hashlock, find_timelock, has_readable_timelock, hashlock_of, instructions, into_script,
    push_int, push_number, push_of, push_opcode, push_slice, script_builder, script_instructions,
    timelock_fits, timelock_of, Instr, Instruction, OP_CHECKSIG, OP_CHECKSIGVERIFY, OP_CLTV,
    OP_EQUALVERIFY, OP_HASH160, OP_SIZE,
};
use crate::taproot::{
    add_leaf, finalize, internal_key, merkle_root, output_key, spend_key, spend_leaves,
    tap_merkle_root, tap_output_key, tap_tweak_hash, taproot_builder, two_leaves,
};
use vstd::prelude::*;
use vstd::string::StringExecFns;

verus! {

/// The script of a swap.
#[derive(Clone, PartialEq, Eq)]
pub struct LBtcSwapScript {
    pub swap_type: SwapType,
    pub side: Option<Side>,
    pub funding_addrs: Option<Address>,
    pub hashlock: [u8; 20],
    pub receiver_pubkey: PublicKey,
    pub locktime: u32,
    pub sender_pubkey: PublicKey,
    pub blinding_key: Keypair,
}

/// What an [`LBtcSwapScript`] holds.
#[verifier::ext_equal]
pub struct SwapScriptView {
    pub swap_type: SwapType,
    pub side: Option<Side>,
    pub funding_addrs: Option<AddressView>,
    pub hashlock: Seq<u8>,
    pub receiver_pubkey: Seq<u8>,
    pub locktime: u32,
    pub sender_pubkey: Seq<u8>,
    pub blinding_key: Seq<u8>,
}

impl View for LBtcSwapScript {
    type V = SwapScriptView;

    open spec fn view(&self) -> SwapScriptView {
        SwapScriptView {
            swap_type: self.swap_type,
            side: self.side,
            funding_addrs: match self.funding_addrs {
                Some(address) => Some(address@),
                None => None,
            },
            hashlock: self.hashlock@,
            receiver_pubkey: self.receiver_pubkey@,
            locktime: self.locktime,
            sender_pubkey: self.sender_pubkey@,
            blinding_key: self.blinding_key@,
        }
    }
}

/// Whether an error is that a rule of the protocol is broken, with the given text.
pub open spec fn is_protocol(e: Error, text: Seq<char>) -> bool {
    e matches Error::Protocol(t) && t@ == text
}

/// What the provider's answers have in common: the hash and the lock time in the scripts, the
/// address, and the blinding key.
#[verifier::ext_equal]
pub struct TermsView {
    pub hashlock: Seq<u8>,
    pub locktime: u32,
    pub funding_addrs: AddressView,
    pub blinding_key: Seq<u8>,
}

/// Whether the lock times in the refund script of a tree can be read, where it comes to that.
pub open spec fn is_readable(tree: SwapTree) -> bool {
    match (hex_decode(tree.claim_leaf.output@), hex_decode(tree.refund_leaf.output@)) {
        (Some(_), Some(refund)) => timelock_fits(instructions(refund)),
        _ => true,
    }
}

/// What reading an answer of the provider comes to. Of the errors the first of these counts:
/// [`Error::Hex`] for a script that is not hexadecimal, [`Error::Protocol`] for a claim script
/// without a hash and for a refund script without a lock time, [`Error::Address`] for a text
/// that is no address, [`Error::Protocol`] for a missing blinding key, and [`Error::Key`] for
/// one that is no key.
pub open spec fn is_reading(
    tree: SwapTree,
    address: Seq<char>,
    blinding_key: Option<String>,
    missing: Seq<char>,
    r: Result<TermsView, Error>,
) -> bool {
    match (hex_decode(tree.claim_leaf.output@), hex_decode(tree.refund_leaf.output@)) {
        (Some(claim), Some(refund)) => match hashlock_of(instructions(claim)) {
            None => r matches Err(e) && is_protocol(e, "No hashlock provided"@),
            Some(hashlock) => match timelock_of(instructions(refund)) {
                None => r matches Err(e) && is_protocol(e, "No timelock provided"@),
                Some(locktime) => match crate::address::parsed_address(address) {
                    None => r matches Err(Error::Address(_)),
                    Some(parts) => match blinding_key {
                        None => r matches Err(e) && is_protocol(e, missing),
                        Some(text) => match secret_key_of(text@) {
                            None => r matches Err(Error::Key(_)),
                            Some(secret) => r == Ok::<TermsView, Error>(
                                TermsView {
                                    hashlock,
                                    locktime,
                                    funding_addrs: AddressView {
                                        text: parts.0,
                                        script_pubkey: parts.1,
                                        blinding_pubkey: parts.2,
                                    },
                                    blinding_key: secret,
                                },
                            ),
                        },
                    },
                },
            },
        },
        _ => r matches Err(Error::Hex(_)),
    }
}

/// What the provider's answers have in common.
struct Terms {
    hashlock: [u8; 20],
    locktime: u32,
    funding_addrs: Address,
    blinding_key: Keypair,
}

impl Terms {
    spec fn terms(self) -> TermsView {
        TermsView {
            hashlock: self.hashlock@,
            locktime: self.locktime,
            funding_addrs: self.funding_addrs@,
            blinding_key: self.blinding_key@,
        }
    }

    /// Reads an answer of the provider.
    fn read(tree: &SwapTree, address: &str, blinding_key: &Option<String>, missing: &str) -> (r:
        Result<Terms, Error>)
        requires
            is_readable(*tree),
        ensures
            is_reading(
                *tree,
                address@,
                *blinding_key,
                missing@,
                match r {
                    Ok(terms) => Ok(terms.terms()),
                    Err(e) => Err(e),
                },
            ),
    {
        let claim_script = match script_from_hex(tree.claim_leaf.output.as_str()) {
            Ok(script) => script,
            Err(text) => return Err(Error::Hex(text)),
        };
        let refund_script = match script_from_hex(tree.refund_leaf.output.as_str()) {
            Ok(script) => script,
            Err(text) => return Err(Error::Hex(text)),
        };
        let claim_instructions = script_instructions(claim_script.as_slice());
        let refund_instructions = script_instructions(refund_script.as_slice());
        let hashlock = match find_hashlock(&claim_instructions) {
            Some(hashlock) => hashlock,
            None => return Err(Error::Protocol("No hashlock provided".to_owned())),
        };
        let locktime: u32 = match find_timelock(&refund_instructions) {
            Some(locktime) => locktime,
            None => return Err(Error::Protocol("No timelock provided".to_owned())),
        };
        let funding_addrs = match Address::from_str(address) {
            Ok(address) => address,
            Err(e) => return Err(e),
        };
        let blinding_str = match blinding_key {
            Some(text) => text,
            None => return Err(Error::Protocol(missing.to_owned())),
        };
        let blinding_key = match Keypair::from_seckey_str(blinding_str.as_str()) {
            Ok(key) => key,
            Err(e) => return Err(e),
        };
        Ok(Terms { hashlock, locktime, funding_addrs, blinding_key })
    }
}

impl SwapTree {
    /// Whether the lock times in the refund script can be read: each takes at most four bytes.
    /// A tree whose scripts are not both hexadecimal does not get that far.
    pub fn is_readable(&self) -> (r: bool)
        ensures
            r == is_readable(*self),
    {
        let claim = script_from_hex(self.claim_leaf.output.as_str());
        let refund = script_from_hex(self.refund_leaf.output.as_str());
        match (claim, refund) {
            (Ok(_), Ok(refund)) => has_readable_timelock(&script_instructions(refund.as_slice())),
            _ => true,
        }
    }
}

impl SwapScriptView {
    /// What the script took from an answer of the provider.
    pub open spec fn terms(self) -> TermsView {
        TermsView {
            hashlock: self.hashlock,
            locktime: self.locktime,
            funding_addrs: self.funding_addrs->0,
            blinding_key: self.blinding_key,
        }
    }

    /// The script by which the receiver claims the coins with the preimage of the hash. Where we
    /// are the receiver the preimage has to be 32 bytes long.
    pub open spec fn claim_script(self) -> Seq<u8> {
        let unlock = seq![OP_HASH160] + push_of(self.hashlock) + seq![OP_EQUALVERIFY] + push_of(
            x_only(self.receiver_pubkey),
        ) + seq![OP_CHECKSIG];
        if self.swap_type == SwapType::Submarine {
            unlock
        } else {
            seq![OP_SIZE] + push_number(32) + seq![OP_EQUALVERIFY] + unlock
        }
    }

    /// The script by which the sender gets the coins back once the lock time is over.
    pub open spec fn refund_script(self) -> Seq<u8> {
        push_of(x_only(self.sender_pubkey)) + seq![OP_CHECKSIGVERIFY] + push_number(self.locktime)
            + seq![OP_CLTV]
    }

    /// The two keys in the order in which they are aggregated.
    pub open spec fn key_order(self) -> Seq<Seq<u8>> {
        if self.swap_type == SwapType::ReverseSubmarine || (self.swap_type == SwapType::Chain
            && self.side == Some(Side::Claim)) {
            seq![self.sender_pubkey, self.receiver_pubkey]
        } else {
            seq![self.receiver_pubkey, self.sender_pubkey]
        }
    }

    /// The tree of the two scripts.
    pub open spec fn leaves(self) -> Seq<(nat, Seq<u8>)> {
        two_leaves(self.claim_script(), self.refund_script())
    }

    /// The key that the two parties hold together.
    pub open spec fn internal_key(self) -> Seq<u8> {
        musig_key(self.key_order(), seq![])
    }

    /// The root of the tree.
    pub open spec fn merkle_root(self) -> Seq<u8> {
        tap_merkle_root(self.leaves())
    }

    /// The key to which the coins are locked.
    pub open spec fn output_key(self) -> Seq<u8> {
        tap_output_key(self.internal_key(), Some(self.merkle_root()))
    }

    /// The tweak between the two keys.
    pub open spec fn tweak(self) -> Seq<u8> {
        tap_tweak_hash(self.internal_key(), Some(self.merkle_root()))
    }

    /// The address to which the coins are locked.
    pub open spec fn address(self, network: LiquidChain) -> AddressView {
        AddressView {
            text: p2tr_text(
                self.internal_key(),
                Some(self.merkle_root()),
                Some(public_key_of(self.blinding_key)),
                network,
            ),
            script_pubkey: p2tr_script(self.output_key()),
            blinding_pubkey: Some(public_key_of(self.blinding_key)),
        }
    }

    /// What comparing the provider's address with the output key comes to: the last instruction
    /// of its script has to push that key. A script without an address has nothing to compare.
    pub open spec fn is_check(self, r: Result<(), Error>) -> bool {
        match self.funding_addrs {
            None => r is Ok,
            Some(address) => {
                let items = instructions(address.script_pubkey);
                if items.len() == 0 {
                    r matches Err(e) && is_protocol(
                        e,
                        "Script should contain at least one instruction"@,
                    )
                } else {
                    match items.last() {
                        Instr::Truncated => r matches Err(e) && is_protocol(
                            e,
                            "Failed to parse script instruction"@,
                        ),
                        Instr::Op(_) => r matches Err(e) && is_protocol(
                            e,
                            "Expected push bytes instruction for pubkey"@,
                        ),
                        Instr::PushBytes(key) => if !is_xonly_key(key) {
                            r matches Err(Error::Key(t)) && t@ == "malformed public key"@
                        } else if key != self.output_key() {
                            r matches Err(e) && is_protocol(
                                e,
                                mismatch_text(key, self.output_key()),
                            )
                        } else {
                            r is Ok
                        },
                    }
                }
            },
        }
    }

    /// Whether the provider's address, where there is one, pays to the output key.
    pub open spec fn is_checked(self) -> bool {
        self.is_check(Ok(()))
    }
}

/// The text that tells which key an address pays to and which key it should pay to.
pub open spec fn mismatch_text(lockup: Seq<u8>, claim: Seq<u8>) -> Seq<char> {
    "Taproot construction Failed. Lockup Pubkey: "@ + hex_encode(lockup) + ", Claim Pubkey "@
        + hex_encode(claim)
}

fn mismatch(lockup: &[u8], claim: &[u8]) -> (r: Error)
    ensures
        is_protocol(r, mismatch_text(lockup@, claim@)),
{
    let mut text = "Taproot construction Failed. Lockup Pubkey: ".to_owned();
    text.append(to_lower_hex(lockup).as_str());
    text.append(", Claim Pubkey ");
    text.append(to_lower_hex(claim).as_str());
    Error::Protocol(text)
}

impl LBtcSwapScript {
    /// The script of a submarine swap, from the provider's answer to its creation: we are the
    /// sender.
    pub fn submarine_from_swap_resp(
        create_swap_response: &CreateSubmarineResponse,
        our_pubkey: PublicKey,
    ) -> (r: Result<LBtcSwapScript, Error>)
        requires
            is_readable(create_swap_response.swap_tree),
        ensures
            is_reading(
                create_swap_response.swap_tree,
                create_swap_response.address@,
                create_swap_response.blinding_key,
                "No blinding key provided in Create Swap Response"@,
                match r {
                    Ok(script) => Ok(script@.terms()),
                    Err(e) => Err(e),
                },
            ),
            r matches Ok(script) ==> {
                &&& script.swap_type == SwapType::Submarine
                &&& script.side is None
                &&& script.funding_addrs is Some
                &&& script.receiver_pubkey == create_swap_response.claim_public_key
                &&& script.sender_pubkey == our_pubkey
                &&& script@.key_order() == seq![
                    create_swap_response.claim_public_key@,
                    our_pubkey@,
                ]
            },
    {
        match Terms::read(
            &create_swap_response.swap_tree,
            create_swap_response.address.as_str(),
            &create_swap_response.blinding_key,
            "No blinding key provided in Create Swap Response",
        ) {
            Ok(terms) => Ok(
                LBtcSwapScript {
                    swap_type: SwapType::Submarine,
                    side: None,
                    funding_addrs: Some(terms.funding_addrs),
                    hashlock: terms.hashlock,
                    receiver_pubkey: create_swap_response.claim_public_key,
                    locktime: terms.locktime,
                    sender_pubkey: our_pubkey,
                    blinding_key: terms.blinding_key,
                },
            ),
            Err(e) => Err(e),
        }
    }

    /// The script of a reverse swap, from the provider's answer to its creation: we are the
    /// receiver.
    pub fn reverse_from_swap_resp(
        reverse_response: &CreateReverseResponse,
        our_pubkey: PublicKey,
    ) -> (r: Result<LBtcSwapScript, Error>)
        requires
            is_readable(reverse_response.swap_tree),
        ensures
            is_reading(
                reverse_response.swap_tree,
                reverse_response.lockup_address@,
                reverse_response.blinding_key,
                "No blinding key provided in Create Swap Response"@,
                match r {
                    Ok(script) => Ok(script@.terms()),
                    Err(e) => Err(e),
                },
            ),
            r matches Ok(script) ==> {
                &&& script.swap_type == SwapType::ReverseSubmarine
                &&& script.side is None
                &&& script.funding_addrs is Some
                &&& script.receiver_pubkey == our_pubkey
                &&& script.sender_pubkey == reverse_response.refund_public_key
                &&& script@.key_order() == seq![reverse_response.refund_public_key@, our_pubkey@]
            },
    {
        match Terms::read(
            &reverse_response.swap_tree,
            reverse_response.lockup_address.as_str(),
            &reverse_response.blinding_key,
            "No blinding key provided in Create Swap Response",
        ) {
            Ok(terms) => Ok(
                LBtcSwapScript {
                    swap_type: SwapType::ReverseSubmarine,
                    side: None,
                    funding_addrs: Some(terms.funding_addrs),
                    hashlock: terms.hashlock,
                    receiver_pubkey: our_pubkey,
                    locktime: terms.locktime,
                    sender_pubkey: reverse_response.refund_public_key,
                    blinding_key: terms.blinding_key,
                },
            ),
            Err(e) => Err(e),
        }
    }

    /// The script of one side of a chain swap, from the provider's answer to its creation: we
    /// are the sender where we lock up, and the receiver where we claim.
    pub fn chain_from_swap_resp(
        side: Side,
        chain_swap_details: ChainSwapDetails,
        our_pubkey: PublicKey,
    ) -> (r: Result<LBtcSwapScript, Error>)
        requires
            is_readable(chain_swap_details.swap_tree),
        ensures
            is_reading(
                chain_swap_details.swap_tree,
                chain_swap_details.lockup_address@,
                chain_swap_details.blinding_key,
                "No blinding key provided in ChainSwapDetails"@,
                match r {
                    Ok(script) => Ok(script@.terms()),
                    Err(e) => Err(e),
                },
            ),
            r matches Ok(script) ==> {
                &&& script.swap_type == SwapType::Chain
                &&& script.side == Some(side)
                &&& script.funding_addrs is Some
                &&& side == Side::Lockup ==> script.sender_pubkey == our_pubkey
                    && script.receiver_pubkey == chain_swap_details.server_public_key
                &&& side == Side::Claim ==> script.sender_pubkey
                    == chain_swap_details.server_public_key && script.receiver_pubkey == our_pubkey
                &&& script@.key_order() == seq![chain_swap_details.server_public_key@, our_pubkey@]
            },
    {
        let (sender_pubkey, receiver_pubkey) = match side {
            Side::Lockup => (our_pubkey, chain_swap_details.server_public_key),
            Side::Claim => (chain_swap_details.server_public_key, our_pubkey),
        };
        match Terms::read(
            &chain_swap_details.swap_tree,
            chain_swap_details.lockup_address.as_str(),
            &chain_swap_details.blinding_key,
            "No blinding key provided in ChainSwapDetails",
        ) {
            Ok(terms) => Ok(
                LBtcSwapScript {
                    swap_type: SwapType::Chain,
                    side: Some(side),
                    funding_addrs: Some(terms.funding_addrs),
                    hashlock: terms.hashlock,
                    receiver_pubkey,
                    locktime: terms.locktime,
                    sender_pubkey,
                    blinding_key: terms.blinding_key,
                },
            ),
            Err(e) => Err(e),
        }
    }

    /// The kind of the swap.
    pub fn swap_type(&self) -> (r: SwapType)
        ensures
            r == self.swap_type,
    {
        self.swap_type
    }

    /// The script by which the receiver claims the coins.
    pub fn claim_script(&self) -> (r: Vec<u8>)
        ensures
            r@ == self@.claim_script(),
    {
        let receiver = self.receiver_pubkey.x_only();
        let builder = script_builder();
        let builder = if self.swap_type == SwapType::Submarine {
            builder
        } else {
            push_opcode(push_int(push_opcode(builder, OP_SIZE), 32), OP_EQUALVERIFY)
        };
        let builder = push_opcode(builder, OP_HASH160);
        let builder = push_slice(builder, &self.hashlock);
        let builder = push_opcode(builder, OP_EQUALVERIFY);
        let builder = push_slice(builder, &receiver);
        let builder = push_opcode(builder, OP_CHECKSIG);
        let script = into_script(builder);
        assert(script@ =~= self@.claim_script());
        script
    }

    /// The script by which the sender gets the coins back, the same for all kinds of swap.
    pub fn refund_script(&self) -> (r: Vec<u8>)
        ensures
            r@ == self@.refund_script(),
    {
        let sender = self.sender_pubkey.x_only();
        let builder = push_slice(script_builder(), &sender);
        let builder = push_opcode(builder, OP_CHECKSIGVERIFY);
        let builder = push_int(builder, self.locktime);
        let builder = push_opcode(builder, OP_CLTV);
        let script = into_script(builder);
        assert(script@ =~= self@.refund_script());
        script
    }

    /// The aggregation of the two keys.
    pub fn musig_keyagg_cache(&self) -> (r: secp256k1::musig::KeyAggCache)
        ensures
            cache_keys(r) == self@.key_order(),
            cache_tweaks(r) == Seq::<Seq<u8>>::empty(),
    {
        let sender = self.sender_pubkey.to_bytes();
        let receiver = self.receiver_pubkey.to_bytes();
        let keys: [[u8; 33]; 2] = match (self.swap_type, self.side) {
            (SwapType::ReverseSubmarine, _) | (SwapType::Chain, Some(Side::Claim)) => [
                sender,
                receiver,
            ],
            (SwapType::Submarine, _) | (SwapType::Chain, _) => [receiver, sender],
        };
        assert(viewed_arrays(keys@) =~= self@.key_order());
        key_agg_cache(&keys)
    }

    /// Compares the provider's address, where there is one, with the output key.
    fn check_lockup(&self, claim_key: &[u8; 32]) -> (r: Result<(), Error>)
        requires
            claim_key@ == self@.output_key(),
        ensures
            self@.is_check(r),
    {
        match &self.funding_addrs {
            None => Ok(()),
            Some(address) => {
                let items = script_instructions(address.script_pubkey.as_slice());
                let ghost viewed = instructions(address.script_pubkey@);
                if items.len() == 0 {
                    assert(viewed.len() == 0);
                    return Err(
                        Error::Protocol(
                            "Script should contain at least one instruction".to_owned(),
                        ),
                    );
                }
                assert(viewed.last() == items@.last()@);
                match &items[items.len() - 1] {
                    Instruction::Truncated => Err(
                        Error::Protocol("Failed to parse script instruction".to_owned()),
                    ),
                    Instruction::Op(_) => Err(
                        Error::Protocol("Expected push bytes instruction for pubkey".to_owned()),
                    ),
                    Instruction::PushBytes(key) => match check_xonly_key(key.as_slice()) {
                        Err(text) => Err(Error::Key(text)),
                        Ok(_) => if same_bytes(key.as_slice(), claim_key) {
                            Ok(())
                        } else {
                            Err(mismatch(key.as_slice(), claim_key))
                        },
                    },
                }
            },
        }
    }

    /// How the output can be spent, once the provider's address was compared with it.
    pub fn taproot_spendinfo(&self) -> (r: Result<elements::taproot::TaprootSpendInfo, Error>)
        ensures
            self@.is_check(
                match r {
                    Ok(_) => Ok(()),
                    Err(e) => Err(e),
                },
            ),
            r matches Ok(info) ==> spend_key(info) == self@.internal_key() && spend_leaves(info)
                == self@.leaves(),
    {
        let internal_key = agg_pk(&self.musig_keyagg_cache());
        let claim_script = self.claim_script();
        let refund_script = self.refund_script();
        let builder = match add_leaf(taproot_builder(), 1, claim_script.as_slice()) {
            Ok(builder) => builder,
            Err(text) => return Err(Error::Taproot(text)),
        };
        let builder = match add_leaf(builder, 1, refund_script.as_slice()) {
            Ok(builder) => builder,
            Err(text) => return Err(Error::Taproot(text)),
        };
        let info = match finalize(builder, &internal_key) {
            Ok(info) => info,
            Err(text) => return Err(Error::Taproot(text)),
        };
        assert(spend_leaves(info) =~= self@.leaves());
        match self.check_lockup(&output_key(&info)) {
            Ok(_) => Ok(info),
            Err(e) => Err(e),
        }
    }

    /// The address to which the coins are locked, which is always confidential.
    pub fn to_address(&self, network: LiquidChain) -> (r: Result<Address, Error>)
        ensures
            self@.is_check(
                match r {
                    Ok(_) => Ok(()),
                    Err(e) => Err(e),
                },
            ),
            r matches Ok(address) ==> address@ == self@.address(network)
                && address.blinding_pubkey is Some,
    {
        let info = match self.taproot_spendinfo() {
            Ok(info) => info,
            Err(e) => return Err(e),
        };
        Ok(
            Address::taproot(
                &internal_key(&info),
                &merkle_root(&info),
                self.blinding_key.public_key(),
                network,
            ),
        )
    }

    /// Whether an address is the one to which the coins are locked, to the letter.
    pub fn validate_address(&self, chain: LiquidChain, address: String) -> (r: Result<(), Error>)
        ensures
            !self@.is_checked() ==> self@.is_check(r),
            self@.is_checked() && address@ == self@.address(chain).text ==> r is Ok,
            self@.is_checked() && address@ != self@.address(chain).text ==> (r matches Err(e)
                && is_protocol(e, "Script/LockupAddress Mismatch"@)),
    {
        let to_address = match self.to_address(chain) {
            Ok(address) => address,
            Err(e) => return Err(e),
        };
        if to_address.text == address {
            Ok(())
        } else {
            Err(Error::Protocol("Script/LockupAddress Mismatch".to_owned()))
        }
    }
}

} // verus!
