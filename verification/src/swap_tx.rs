//! The transactions that end a swap on the Liquid network: a claim, or a refund.
use crate::address::{Address, AddressView};
use crate::blinding::{
    are_secrets, blind_asset, blinded_asset, can_open, draw_keypair, draw_other_bf,
    is_blinded_asset, is_blinding_factor, is_payable, is_payment_to, payment_of, payment_output,
    payment_secrets, surjection_proves, unblinded, BlindedAsset, OutputSecrets, SecretsView,
};
use crate::boltz::{Preimage, SwapTxKind, SwapType};
use crate::bytes::to_vec;
use crate::chain::{
    fee_output, script_spend_hash, size_of, tx_size, viewed_items, Input, InputView, OutPoint,
    Output, OutputView, Tx, TxView,
};
use crate::error::Error;
use crate::keys::{public_key_of, schnorr_verifies, x_only, Keypair};
use crate::script::{find_short_push, instructions, script_instructions, short_push_of};
use crate::swap_script::{is_protocol, LBtcSwapScript, SwapScriptView};
use crate::taproot::{control_block, has_leaf, leaf_hash, tap_control_block, tap_leaf_hash};
use vstd::prelude::*;

verus! {

/// The sequence number of an input that ignores lock times.
pub const SEQUENCE_MAX: u32 = 0xffff_ffff;

/// A transaction that ends a swap, before it is signed: what it spends and where it pays.
#[derive(Clone)]
pub struct LBtcSwapTx {
    pub kind: SwapTxKind,
    pub swap_script: LBtcSwapScript,
    pub output_address: Address,
    pub funding_outpoint: OutPoint,
    pub funding_utxo: Output,
    pub genesis_hash: [u8; 32],
}

/// What an [`LBtcSwapTx`] holds.
#[verifier::ext_equal]
pub struct SwapTxView {
    pub kind: SwapTxKind,
    pub swap_script: SwapScriptView,
    pub output_address: AddressView,
    pub funding_outpoint: OutPoint,
    pub funding_utxo: OutputView,
    pub genesis_hash: Seq<u8>,
}

impl View for LBtcSwapTx {
    type V = SwapTxView;

    open spec fn view(&self) -> SwapTxView {
        SwapTxView {
            kind: self.kind,
            swap_script: self.swap_script@,
            output_address: self.output_address@,
            funding_outpoint: self.funding_outpoint,
            funding_utxo: self.funding_utxo@,
            genesis_hash: self.genesis_hash@,
        }
    }
}

/// What a payment needs of chance: a blinding factor for the asset, the asset blinded with it,
/// and an ephemeral key.
pub struct PaymentDraw {
    pub asset_bf: [u8; 32],
    pub blinded: BlindedAsset,
    pub ephemeral: Keypair,
}

/// What a [`PaymentDraw`] holds.
#[verifier::ext_equal]
pub struct PaymentDrawView {
    pub asset_bf: Seq<u8>,
    pub surjection_proof: Seq<u8>,
    pub ephemeral: Seq<u8>,
}

impl View for PaymentDraw {
    type V = PaymentDrawView;

    open spec fn view(&self) -> PaymentDrawView {
        PaymentDrawView {
            asset_bf: self.asset_bf@,
            surjection_proof: self.blinded.surjection_proof@,
            ephemeral: self.ephemeral@,
        }
    }
}

/// The witness that has the size of a signature by both keys.
pub open spec fn stub_witness() -> Seq<Seq<u8>> {
    seq![Seq::new(64, |i: int| 0u8)]
}

impl SwapScriptView {
    /// The script that a transaction of a kind spends by.
    pub open spec fn script_for(self, kind: SwapTxKind) -> Seq<u8> {
        match kind {
            SwapTxKind::Claim => self.claim_script(),
            SwapTxKind::Refund => self.refund_script(),
        }
    }

    /// The lock time of a refund, as it is found in the refund script.
    pub open spec fn refund_lock_time(self) -> Option<u32> {
        short_push_of(instructions(self.refund_script()))
    }
}

impl SwapTxView {
    /// What the spent output hides.
    pub open spec fn secrets(self) -> Option<SecretsView> {
        unblinded(self.funding_utxo, self.swap_script.blinding_key)
    }

    /// Whether the spent output can be tried with the key and, where the key opens it, its value
    /// covers the fees.
    pub open spec fn covers(self, fees: u64) -> bool {
        &&& can_open(self.funding_utxo)
        &&& self.secrets() matches Some(secrets) ==> fees <= secrets.value
    }

    /// The transaction of a kind, with one input, and the payment and the fee in the order that
    /// the kind asks for.
    pub open spec fn transaction(
        self,
        kind: SwapTxKind,
        lock_time: u32,
        payment: OutputView,
        fee: OutputView,
        sequence: u32,
        witness: Seq<Seq<u8>>,
    ) -> TxView {
        TxView {
            version: 2,
            lock_time,
            input: seq![
                InputView {
                    txid: self.funding_outpoint.txid@,
                    vout: self.funding_outpoint.vout,
                    script_sig: seq![],
                    sequence,
                    witness,
                },
            ],
            output: match kind {
                SwapTxKind::Claim => seq![payment, fee],
                SwapTxKind::Refund => seq![fee, payment],
            },
        }
    }

    /// Whether an output pays what is left of the spent value after the fees, with what was
    /// drawn: it carries the proof that its asset is the spent one, and opens with the
    /// receiver's key.
    pub open spec fn is_drawn_payment(
        self,
        fees: u64,
        drawn: PaymentDrawView,
        payment: OutputView,
    ) -> bool {
        let secrets = self.secrets()->0;
        &&& is_blinding_factor(drawn.asset_bf)
        &&& surjection_proves(
            drawn.surjection_proof,
            payment.asset,
            seq![blinded_asset(secrets.asset, secrets.asset_bf)],
        )
        &&& self.drawn_payment(fees, drawn) == payment
        &&& is_payment_to(
            payment,
            self.output_address.blinding_pubkey->0,
            payment_secrets(secrets, fees, drawn.asset_bf),
        )
    }

    /// Whether an output pays what is left of the spent value after the fees, for some blinding
    /// factor, surjection proof and ephemeral key.
    pub open spec fn is_payment(self, fees: u64, payment: OutputView) -> bool {
        &&& self.secrets() matches Some(secrets) && are_secrets(secrets) && is_payable(
            secrets.value,
            fees,
        ) && self.funding_utxo.asset == blinded_asset(secrets.asset, secrets.asset_bf)
        &&& self.output_address.blinding_pubkey is Some
        &&& exists|drawn: PaymentDrawView| #[trigger] self.is_drawn_payment(fees, drawn, payment)
    }

    /// The lock time of a transaction of a kind.
    pub open spec fn lock_time(self, kind: SwapTxKind) -> Option<u32> {
        match kind {
            SwapTxKind::Claim => Some(0u32),
            SwapTxKind::Refund => self.swap_script.refund_lock_time(),
        }
    }

    /// What a signature for spending by a script signs: the transaction without its witness.
    pub open spec fn script_hash(
        self,
        kind: SwapTxKind,
        lock_time: u32,
        payment: OutputView,
        fee: OutputView,
    ) -> Seq<u8> {
        script_spend_hash(
            self.transaction(kind, lock_time, payment, fee, 0, seq![]).without_witness(),
            0,
            seq![self.funding_utxo],
            tap_leaf_hash(self.swap_script.script_for(kind)),
            self.genesis_hash,
        )
    }

    /// The witness for spending by a script: a signature, for a claim the preimage, the script,
    /// and the proof that it is one of the two.
    pub open spec fn script_witness(
        self,
        kind: SwapTxKind,
        signature: Seq<u8>,
        preimage: Seq<u8>,
    ) -> Seq<Seq<u8>> {
        let script = self.swap_script.script_for(kind);
        let block = tap_control_block(
            self.swap_script.internal_key(),
            self.swap_script.leaves(),
            script,
        );
        match kind {
            SwapTxKind::Claim => seq![signature, preimage, script, block],
            SwapTxKind::Refund => seq![signature, script, block],
        }
    }

    /// Whether a transaction is one that ends the swap: it spends the locked output alone, pays
    /// all of its value but the fees to the output address, and carries the stub of a signature
    /// by both keys or, spending by the script, a signature by our key that verifies.
    pub open spec fn is_created(
        self,
        kind: SwapTxKind,
        secret: Seq<u8>,
        preimage: Seq<u8>,
        fees: u64,
        is_cooperative: bool,
        tx: TxView,
    ) -> bool {
        exists|payment: OutputView|
            self.is_payment(fees, payment) && #[trigger] self.is_signed(
                kind,
                secret,
                preimage,
                fees,
                is_cooperative,
                payment,
                tx,
            )
    }

    /// Whether a transaction carries a payment and, spending by the script, a signature.
    pub open spec fn is_spend(
        self,
        kind: SwapTxKind,
        secret: Seq<u8>,
        preimage: Seq<u8>,
        fees: u64,
        is_cooperative: bool,
        payment: OutputView,
        signature: Seq<u8>,
        tx: TxView,
    ) -> bool {
        let fee = fee_output(fees, self.secrets()->0.asset);
        &&& self.lock_time(kind) matches Some(lock_time) && if is_cooperative {
            tx == self.transaction(kind, lock_time, payment, fee, SEQUENCE_MAX, stub_witness())
        } else {
            &&& self.swap_script.is_checked()
            &&& signature.len() == 64
            &&& schnorr_verifies(
                signature,
                self.script_hash(kind, lock_time, payment, fee),
                x_only(public_key_of(secret)),
            )
            &&& tx == self.transaction(
                kind,
                lock_time,
                payment,
                fee,
                0,
                self.script_witness(kind, signature, preimage),
            )
        }
    }

    /// What making a transaction of a kind comes to, for what was drawn. Of the errors the first
    /// of these counts: [`Error::Protocol`] where the output address has no blinding key,
    /// [`Error::Blind`] where what is left to pay cannot be blinded, [`Error::Protocol`] where the
    /// refund script has no lock time that can be read, and, spending by the script, the errors of
    /// the provider's address.
    pub open spec fn is_creation(
        self,
        kind: SwapTxKind,
        secret: Seq<u8>,
        preimage: Seq<u8>,
        fees: u64,
        is_cooperative: bool,
        drawn: PaymentDrawView,
        r: Result<TxView, Error>,
    ) -> bool {
        if self.output_address.blinding_pubkey is None {
            r matches Err(e) && is_protocol(e, "No blinding key in tx."@)
        } else if !is_payable(self.secrets()->0.value, fees) {
            r matches Err(Error::Blind(_))
        } else if self.lock_time(kind) is None {
            r matches Err(e) && is_protocol(e, "Error getting timelock from refund script"@)
        } else if !is_cooperative && !self.swap_script.is_checked() {
            r matches Err(e) && self.swap_script.is_check(Err(e))
        } else {
            let payment = self.drawn_payment(fees, drawn);
            &&& r matches Ok(tx)
            &&& self.is_drawn_payment(fees, drawn, payment)
            &&& self.is_signed(kind, secret, preimage, fees, is_cooperative, payment, tx)
        }
    }

    /// [`Self::is_spend`] for some signature.
    pub open spec fn is_signed(
        self,
        kind: SwapTxKind,
        secret: Seq<u8>,
        preimage: Seq<u8>,
        fees: u64,
        is_cooperative: bool,
        payment: OutputView,
        tx: TxView,
    ) -> bool {
        exists|signature: Seq<u8>|
            #[trigger] self.is_spend(
                kind,
                secret,
                preimage,
                fees,
                is_cooperative,
                payment,
                signature,
                tx,
            )
    }

    /// The payment that is made with what was drawn.
    pub open spec fn drawn_payment(self, fees: u64, drawn: PaymentDrawView) -> OutputView {
        payment_of(
            self.secrets()->0,
            fees,
            drawn.asset_bf,
            drawn.surjection_proof,
            drawn.ephemeral,
            self.output_address,
        )
    }

    /// Whether a transaction of a kind with these fees can be made, whatever its signature: the
    /// key opens the spent output, the output address has a blinding key, what is left to pay can
    /// be blinded, and a refund has a lock time that can be read.
    pub open spec fn can_pay(self, kind: SwapTxKind, fees: u64) -> bool {
        &&& self.secrets() matches Some(secrets) && is_payable(secrets.value, fees)
        &&& self.output_address.blinding_pubkey is Some
        &&& self.lock_time(kind) is Some
    }

    /// Whether an error is the one that making a transaction comes to. The first of these counts:
    /// [`Error::Unblind`] where the key does not open the spent output, [`Error::Protocol`] where
    /// the output address has no blinding key, [`Error::Blind`] where what is left to pay cannot
    /// be blinded, [`Error::Protocol`] where the refund script has no lock time that can be read,
    /// and, spending by the script, the errors of the provider's address.
    pub open spec fn is_creation_error(
        self,
        kind: SwapTxKind,
        fees: u64,
        is_cooperative: bool,
        e: Error,
    ) -> bool {
        if self.secrets() is None {
            e matches Error::Unblind(_)
        } else if self.output_address.blinding_pubkey is None {
            is_protocol(e, "No blinding key in tx."@)
        } else if !is_payable(self.secrets()->0.value, fees) {
            e matches Error::Blind(_)
        } else if self.lock_time(kind) is None {
            is_protocol(e, "Error getting timelock from refund script"@)
        } else {
            !is_cooperative && !self.swap_script.is_checked() && self.swap_script.is_check(Err(e))
        }
    }
}

impl LBtcSwapTx {
    /// A claim, for reverse and chain swaps: an [`Error::Protocol`] for a submarine swap, and
    /// an [`Error::Address`] where the text is no address.
    pub fn new_claim(
        swap_script: LBtcSwapScript,
        output_address: &str,
        funding: (OutPoint, Output),
        genesis_hash: [u8; 32],
    ) -> (r: Result<LBtcSwapTx, Error>)
        ensures
            is_new(
                SwapTxKind::Claim,
                swap_script@,
                output_address@,
                funding.0,
                funding.1@,
                genesis_hash@,
                new_outcome(r),
            ),
    {
        if let Err(e) = Self::check_claim(&swap_script) {
            return Err(e);
        }
        let (funding_outpoint, funding_utxo) = funding;
        match Address::from_str(output_address) {
            Ok(output_address) => Ok(
                LBtcSwapTx {
                    kind: SwapTxKind::Claim,
                    swap_script,
                    output_address,
                    funding_outpoint,
                    funding_utxo,
                    genesis_hash,
                },
            ),
            Err(e) => Err(e),
        }
    }

    /// A refund, for submarine and chain swaps: an [`Error::Protocol`] for a reverse swap, and
    /// an [`Error::Address`] where the text is no address.
    pub fn new_refund(
        swap_script: LBtcSwapScript,
        output_address: &str,
        funding: (OutPoint, Output),
        genesis_hash: [u8; 32],
    ) -> (r: Result<LBtcSwapTx, Error>)
        ensures
            is_new(
                SwapTxKind::Refund,
                swap_script@,
                output_address@,
                funding.0,
                funding.1@,
                genesis_hash@,
                new_outcome(r),
            ),
    {
        let output_address = match Self::refund_target(&swap_script, output_address) {
            Ok(address) => address,
            Err(e) => return Err(e),
        };
        let (funding_outpoint, funding_utxo) = funding;
        Ok(
            LBtcSwapTx {
                kind: SwapTxKind::Refund,
                swap_script,
                output_address,
                funding_outpoint,
                funding_utxo,
                genesis_hash,
            },
        )
    }

    /// Whether a swap can be claimed at all.
    pub fn check_claim(swap_script: &LBtcSwapScript) -> (r: Result<(), Error>)
        ensures
            swap_script.swap_type != SwapType::Submarine ==> r is Ok,
            swap_script.swap_type == SwapType::Submarine ==> (r matches Err(e) && is_protocol(
                e,
                "Claim transactions cannot be constructed for Submarine swaps."@,
            )),
    {
        if swap_script.swap_type == SwapType::Submarine {
            return Err(
                Error::Protocol(
                    "Claim transactions cannot be constructed for Submarine swaps.".to_owned(),
                ),
            );
        }
        Ok(())
    }

    /// The address of a refund, where the swap can be refunded at all.
    pub fn refund_target(swap_script: &LBtcSwapScript, output_address: &str) -> (r: Result<
        Address,
        Error,
    >)
        ensures
            swap_script.swap_type == SwapType::ReverseSubmarine ==> (r matches Err(e)
                && is_protocol(
                e,
                "Refund Txs cannot be constructed for Reverse Submarine Swaps."@,
            )),
            swap_script.swap_type != SwapType::ReverseSubmarine ==> match
                crate::address::parsed_address(output_address@) {
                Some(parts) => r matches Ok(address) && address@ == (AddressView {
                    text: parts.0,
                    script_pubkey: parts.1,
                    blinding_pubkey: parts.2,
                }),
                None => r matches Err(Error::Address(_)),
            },
    {
        if swap_script.swap_type == SwapType::ReverseSubmarine {
            return Err(
                Error::Protocol(
                    "Refund Txs cannot be constructed for Reverse Submarine Swaps.".to_owned(),
                ),
            );
        }
        Address::from_str(output_address)
    }
}

/// The outcome of making a transaction helper, taken by what it holds.
pub open spec fn new_outcome(r: Result<LBtcSwapTx, Error>) -> Result<SwapTxView, Error> {
    match r {
        Ok(tx) => Ok(tx@),
        Err(e) => Err(e),
    }
}

/// What making a transaction of a kind comes to: an [`Error::Protocol`] where the swap has no
/// such transaction, an [`Error::Address`] where the text is no address, and all that was given
/// otherwise.
pub open spec fn is_new(
    kind: SwapTxKind,
    swap_script: SwapScriptView,
    output_address: Seq<char>,
    funding_outpoint: OutPoint,
    funding_utxo: OutputView,
    genesis_hash: Seq<u8>,
    r: Result<SwapTxView, Error>,
) -> bool {
    if kind == SwapTxKind::Claim && swap_script.swap_type == SwapType::Submarine {
        r matches Err(e) && is_protocol(
            e,
            "Claim transactions cannot be constructed for Submarine swaps."@,
        )
    } else if kind == SwapTxKind::Refund && swap_script.swap_type == SwapType::ReverseSubmarine {
        r matches Err(e) && is_protocol(
            e,
            "Refund Txs cannot be constructed for Reverse Submarine Swaps."@,
        )
    } else {
        match crate::address::parsed_address(output_address) {
            None => r matches Err(Error::Address(_)),
            Some(parts) => r == Ok::<SwapTxView, Error>(
                SwapTxView {
                    kind,
                    swap_script,
                    output_address: AddressView {
                        text: parts.0,
                        script_pubkey: parts.1,
                        blinding_pubkey: parts.2,
                    },
                    funding_outpoint,
                    funding_utxo,
                    genesis_hash,
                },
            ),
        }
    }
}

/// The witness that stands in for a signature by both keys, so that the size of a transaction
/// is right before it is signed.
fn stubbed_cooperative_witness() -> (r: Vec<Vec<u8>>)
    ensures
        viewed_items(r@) == stub_witness(),
{
    let zeros: [u8; 64] = [0u8; 64];
    let stub = to_vec(&zeros);
    assert(stub@ =~= Seq::new(64, |i: int| 0u8));
    let mut witness: Vec<Vec<u8>> = Vec::new();
    witness.push(stub);
    assert(viewed_items(witness@) =~= stub_witness());
    witness
}

impl LBtcSwapTx {
    /// The transaction of a kind, without a witness.
    fn unsigned(
        &self,
        kind: SwapTxKind,
        lock_time: u32,
        payment: Output,
        fee: Output,
        sequence: u32,
    ) -> (r: Tx)
        ensures
            r@ == self@.transaction(kind, lock_time, payment@, fee@, sequence, seq![]),
            r.input@.len() == 1,
    {
        let mut input: Vec<Input> = Vec::new();
        input.push(
            Input {
                previous_output: self.funding_outpoint,
                script_sig: Vec::new(),
                sequence,
                witness: Vec::new(),
            },
        );
        let ghost p = payment@;
        let ghost f = fee@;
        let mut output: Vec<Output> = Vec::new();
        match kind {
            SwapTxKind::Claim => {
                output.push(payment);
                output.push(fee);
            },
            SwapTxKind::Refund => {
                output.push(fee);
                output.push(payment);
            },
        }
        let tx = Tx { version: 2, lock_time, input, output };
        let ghost expected = self@.transaction(kind, lock_time, p, f, sequence, seq![]);
        assert(tx.input@[0]@ =~= expected.input[0]) by {
            assert(viewed_items(tx.input@[0].witness@) =~= seq![]);
            assert(tx.input@[0].script_sig@ =~= seq![]);
        }
        assert(tx@.input =~= expected.input);
        assert(tx@.output =~= expected.output);
        tx
    }

    /// Puts a witness into the only input of a transaction.
    pub(crate) fn set_witness(tx: &mut Tx, witness: Vec<Vec<u8>>)
        requires
            old(tx).input@.len() == 1,
        ensures
            final(tx)@ == with_witness(old(tx)@, viewed_items(witness@)),
            final(tx).input@.len() == 1,
    {
        let ghost before = *tx;
        let ghost wit = viewed_items(witness@);
        let mut input: Vec<Input> = Vec::new();
        input.push(
            Input {
                previous_output: tx.input[0].previous_output,
                script_sig: to_vec(tx.input[0].script_sig.as_slice()),
                sequence: tx.input[0].sequence,
                witness,
            },
        );
        tx.input = input;
        assert(tx@.input =~= with_witness(before@, wit).input);
    }
}

/// A transaction with another witness in its first input.
pub open spec fn with_witness(tx: TxView, witness: Seq<Seq<u8>>) -> TxView {
    TxView {
        input: tx.input.update(0, InputView { witness, ..tx.input[0] }),
        ..tx
    }
}

/// What was made with a draw is one of the transactions that end the swap.
pub(crate) proof fn lemma_creation_is_created(
    this: SwapTxView,
    kind: SwapTxKind,
    secret: Seq<u8>,
    preimage: Seq<u8>,
    fees: u64,
    is_cooperative: bool,
    drawn: PaymentDrawView,
    tx: TxView,
)
    requires
        this.secrets() matches Some(secrets) && are_secrets(secrets) && this.funding_utxo.asset
            == blinded_asset(secrets.asset, secrets.asset_bf),
        this.is_creation(kind, secret, preimage, fees, is_cooperative, drawn, Ok(tx)),
    ensures
        this.is_created(kind, secret, preimage, fees, is_cooperative, tx),
{
    let payment = this.drawn_payment(fees, drawn);
    assert(this.is_drawn_payment(fees, drawn, payment));
    assert(this.is_payment(fees, payment));
    assert(this.is_signed(kind, secret, preimage, fees, is_cooperative, payment, tx));
}

impl LBtcSwapTx {
    /// Signs a transaction of a kind for spending by the script.
    fn sign_script_path(
        &self,
        kind: SwapTxKind,
        keys: &Keypair,
        preimage: &[u8],
        lock_time: u32,
        payment: Output,
        fee: Output,
    ) -> (r: Result<Tx, Error>)
        ensures
            match r {
                Ok(tx) => self@.swap_script.is_checked() && exists|signature: Seq<u8>|
                    signature.len() == 64 && schnorr_verifies(
                        signature,
                        self@.script_hash(kind, lock_time, payment@, fee@),
                        x_only(public_key_of(keys@)),
                    ) && tx@ == #[trigger] self@.transaction(
                        kind,
                        lock_time,
                        payment@,
                        fee@,
                        0,
                        self@.script_witness(kind, signature, preimage@),
                    ),
                Err(e) => !self@.swap_script.is_checked() && self@.swap_script.is_check(Err(e)),
            },
    {
        let ghost p = payment@;
        let ghost f = fee@;
        let mut tx = self.unsigned(kind, lock_time, payment, fee, 0);
        let script = match kind {
            SwapTxKind::Claim => self.swap_script.claim_script(),
            SwapTxKind::Refund => self.swap_script.refund_script(),
        };
        let leaf = leaf_hash(script.as_slice());
        let sighash = match tx.script_spend_hash(&self.funding_utxo, &leaf, &self.genesis_hash) {
            Ok(hash) => hash,
            Err(e) => return Err(e),
        };
        let signature = keys.sign_schnorr(&sighash);
        let info = match self.swap_script.taproot_spendinfo() {
            Ok(info) => info,
            Err(e) => return Err(e),
        };
        proof {
            let leaves = self@.swap_script.leaves();
            assert(leaves[0].1 == self@.swap_script.claim_script());
            assert(leaves[1].1 == self@.swap_script.refund_script());
            assert(has_leaf(leaves, script@));
        }
        let block = match control_block(&info, script.as_slice()) {
            Some(block) => block,
            None => return Err(Error::Taproot("Could not create control block".to_owned())),
        };
        let mut witness: Vec<Vec<u8>> = Vec::new();
        witness.push(to_vec(&signature));
        match kind {
            SwapTxKind::Claim => witness.push(to_vec(preimage)),
            SwapTxKind::Refund => {},
        }
        witness.push(script);
        witness.push(block);
        proof {
            let expected = self@.script_witness(kind, signature@, preimage@);
            assert(viewed_items(witness@) =~= expected);
            let unsigned = self@.transaction(kind, lock_time, p, f, 0, seq![]);
            let signed = self@.transaction(kind, lock_time, p, f, 0, expected);
            assert(with_witness(unsigned, expected).input =~= signed.input);
        }
        Self::set_witness(&mut tx, witness);
        Ok(tx)
    }

    /// The transaction of a kind that pays the given fees, from what the spent output hides and
    /// what was drawn to blind the payment: with the stub of a signature by both keys, or signed
    /// for spending by the script.
    pub fn create_with(
        &self,
        kind: SwapTxKind,
        keys: &Keypair,
        preimage: &[u8],
        secrets: &OutputSecrets,
        fees: u64,
        is_cooperative: bool,
        drawn: PaymentDraw,
    ) -> (r: Result<Tx, Error>)
        requires
            self@.secrets() == Some(secrets@),
            are_secrets(secrets@),
            fees <= secrets.value,
            is_blinding_factor(drawn.asset_bf@),
            is_blinded_asset(drawn.blinded, secrets@, drawn.asset_bf@),
        ensures
            self@.is_creation(
                kind,
                keys@,
                preimage@,
                fees,
                is_cooperative,
                drawn@,
                match r {
                    Ok(tx) => Ok(tx@),
                    Err(e) => Err(e),
                },
            ),
            r matches Ok(tx) ==> tx.input@.len() == 1,
    {
        let ghost view = drawn@;
        let PaymentDraw { asset_bf, blinded, ephemeral } = drawn;
        let payment = match payment_output(
            secrets,
            fees,
            &asset_bf,
            blinded,
            &ephemeral,
            &self.output_address,
        ) {
            Ok(payment) => payment,
            Err(e) => return Err(e),
        };
        assert(self@.drawn_payment(fees, view) == payment@);
        let fee = Output::new_fee(fees, &secrets.asset);
        let ghost p = payment@;
        let ghost f = fee@;
        let lock_time: u32 = match kind {
            SwapTxKind::Claim => 0,
            SwapTxKind::Refund => {
                let script = self.swap_script.refund_script();
                match find_short_push(&script_instructions(script.as_slice())) {
                    Some(lock_time) => lock_time,
                    None => return Err(
                        Error::Protocol("Error getting timelock from refund script".to_owned()),
                    ),
                }
            },
        };
        if is_cooperative {
            let mut tx = self.unsigned(kind, lock_time, payment, fee, SEQUENCE_MAX);
            Self::set_witness(&mut tx, stubbed_cooperative_witness());
            proof {
                let none = self@.transaction(kind, lock_time, p, f, SEQUENCE_MAX, seq![]);
                let stub = self@.transaction(kind, lock_time, p, f, SEQUENCE_MAX, stub_witness());
                assert(with_witness(none, stub_witness()).input =~= stub.input);
                assert(self@.is_spend(kind, keys@, preimage@, fees, true, p, seq![], tx@));
                assert(self@.is_signed(kind, keys@, preimage@, fees, true, p, tx@));
            }
            Ok(tx)
        } else {
            match self.sign_script_path(kind, keys, preimage, lock_time, payment, fee) {
                Ok(tx) => {
                    proof {
                        let signature = choose|signature: Seq<u8>|
                            signature.len() == 64 && schnorr_verifies(
                                signature,
                                self@.script_hash(kind, lock_time, p, f),
                                x_only(public_key_of(keys@)),
                            ) && tx@ == #[trigger] self@.transaction(
                                kind,
                                lock_time,
                                p,
                                f,
                                0,
                                self@.script_witness(kind, signature, preimage@),
                            );
                        assert(self@.is_spend(
                            kind,
                            keys@,
                            preimage@,
                            fees,
                            false,
                            p,
                            signature,
                            tx@,
                        ));
                        assert(self@.is_signed(kind, keys@, preimage@, fees, false, p, tx@));
                        assert(tx@.input.len() == 1);
                    }
                    Ok(tx)
                },
                Err(e) => Err(e),
            }
        }
    }

    /// The transaction of a kind that pays the given fees, with what it needs of chance drawn.
    fn create(
        &self,
        kind: SwapTxKind,
        keys: &Keypair,
        preimage: &[u8],
        fees: u64,
        is_cooperative: bool,
    ) -> (r: Result<Tx, Error>)
        requires
            self@.covers(fees),
        ensures
            match r {
                Ok(tx) => self@.is_created(
                    kind,
                    keys@,
                    preimage@,
                    fees,
                    is_cooperative,
                    tx@,
                ) && tx.input@.len() == 1,
                Err(e) => self@.is_creation_error(kind, fees, is_cooperative, e),
            },
    {
        let secrets = match self.funding_utxo.unblind(&self.swap_script.blinding_key) {
            Ok(secrets) => secrets,
            Err(e) => return Err(e),
        };
        let asset_bf = draw_other_bf(&secrets.asset_bf);
        let blinded = match blind_asset(&secrets, &asset_bf) {
            Ok(blinded) => blinded,
            Err(e) => return Err(e),
        };
        let drawn = PaymentDraw { asset_bf, blinded, ephemeral: draw_keypair() };
        let ghost view = drawn@;
        let r = self.create_with(kind, keys, preimage, &secrets, fees, is_cooperative, drawn);
        proof {
            if r is Ok {
                lemma_creation_is_created(
                    self@,
                    kind,
                    keys@,
                    preimage@,
                    fees,
                    is_cooperative,
                    view,
                    r->Ok_0@,
                );
            }
        }
        r
    }

    /// A claim that pays the given fees, with the stub of a signature by both keys or signed
    /// for spending by the claim script: an [`Error::Protocol`] without a preimage.
    pub fn create_claim(
        &self,
        keys: &Keypair,
        preimage: &Preimage,
        absolute_fees: u64,
        is_cooperative: bool,
    ) -> (r: Result<Tx, Error>)
        requires
            preimage.bytes is Some ==> self@.covers(absolute_fees),
        ensures
            match preimage.bytes {
                None => r matches Err(e) && is_protocol(e, "No preimage provided"@),
                Some(bytes) => match r {
                    Ok(tx) => self@.is_created(
                        SwapTxKind::Claim,
                        keys@,
                        bytes@,
                        absolute_fees,
                        is_cooperative,
                        tx@,
                    ) && tx.input@.len() == 1,
                    Err(e) => self@.is_creation_error(
                        SwapTxKind::Claim,
                        absolute_fees,
                        is_cooperative,
                        e,
                    ),
                },
            },
    {
        match &preimage.bytes {
            Some(bytes) => self.create(
                SwapTxKind::Claim,
                keys,
                bytes,
                absolute_fees,
                is_cooperative,
            ),
            None => Err(Error::Protocol("No preimage provided".to_owned())),
        }
    }

    /// A refund that pays the given fees, with the stub of a signature by both keys or signed
    /// for spending by the refund script.
    pub fn create_refund(&self, keys: &Keypair, absolute_fees: u64, is_cooperative: bool) -> (r:
        Result<Tx, Error>)
        requires
            self@.covers(absolute_fees),
        ensures
            match r {
                Ok(tx) => self@.is_created(
                    SwapTxKind::Refund,
                    keys@,
                    seq![],
                    absolute_fees,
                    is_cooperative,
                    tx@,
                ) && tx.input@.len() == 1,
                Err(e) => self@.is_creation_error(
                    SwapTxKind::Refund,
                    absolute_fees,
                    is_cooperative,
                    e,
                ),
            },
    {
        let none: [u8; 0] = [];
        assert(none@ =~= seq![]);
        self.create(SwapTxKind::Refund, keys, &none, absolute_fees, is_cooperative)
    }

    /// Whether the spent output can be tried with the key and, where the key opens it, its value
    /// covers the fees.
    pub fn covers_fees(&self, fees: u64) -> (r: bool)
        ensures
            r == self@.covers(fees),
    {
        if !self.funding_utxo.can_unblind() {
            return false;
        }
        match self.funding_utxo.unblind(&self.swap_script.blinding_key) {
            Ok(secrets) => fees <= secrets.value,
            Err(_) => true,
        }
    }

    /// The size of the transaction once it is signed, by which a rate of fees is multiplied to
    /// get the fees: that of one that pays a fee of 1.
    pub fn size(&self, keys: &Keypair, is_cooperative: bool, is_discount_ct: bool) -> (r: Result<
        usize,
        Error,
    >)
        requires
            self@.covers(1),
        ensures
            match r {
                Ok(size) => self@.is_size(keys@, is_cooperative, is_discount_ct, size),
                Err(e) => self@.is_creation_error(self.kind, 1, is_cooperative, e),
            },
    {
        let created = match self.kind {
            SwapTxKind::Claim => {
                let zeros: [u8; 32] = [0u8; 32];
                assert(zeros@ =~= Seq::new(32, |i: int| 0u8));
                let preimage = Preimage { bytes: Some(zeros) };
                self.create_claim(keys, &preimage, 1, is_cooperative)
            },
            SwapTxKind::Refund => self.create_refund(keys, 1, is_cooperative),
        };
        match created {
            Ok(tx) => {
                let ghost preimage = self@.size_preimage();
                assert(self@.is_created(self.kind, keys@, preimage, 1, is_cooperative, tx@));
                Ok(tx_size(&tx, is_discount_ct))
            },
            Err(e) => Err(e),
        }
    }

    /// The size of the transaction once it is signed, or `None` where the spent output cannot be
    /// tried with the key or its value does not even cover a fee of 1.
    pub fn try_size(&self, keys: &Keypair, is_cooperative: bool, is_discount_ct: bool) -> (r:
        Option<Result<usize, Error>>)
        ensures
            r is Some <==> self@.covers(1),
            r matches Some(Ok(size)) ==> self@.is_size(
                keys@,
                is_cooperative,
                is_discount_ct,
                size,
            ),
            r matches Some(Err(e)) ==> self@.is_creation_error(self.kind, 1, is_cooperative, e),
    {
        if self.covers_fees(1) {
            Some(self.size(keys, is_cooperative, is_discount_ct))
        } else {
            None
        }
    }
}

impl SwapTxView {
    /// The preimage with which the size of a transaction is computed: zeros for a claim.
    pub open spec fn size_preimage(self) -> Seq<u8> {
        match self.kind {
            SwapTxKind::Claim => Seq::new(32, |i: int| 0u8),
            SwapTxKind::Refund => seq![],
        }
    }

    /// Whether a size is that of the transaction, with a fee of 1 and that preimage.
    pub open spec fn is_size(
        self,
        secret: Seq<u8>,
        is_cooperative: bool,
        is_discount_ct: bool,
        size: usize,
    ) -> bool {
        exists|tx: TxView|
            #[trigger] self.is_created(
                self.kind,
                secret,
                self.size_preimage(),
                1,
                is_cooperative,
                tx,
            ) && size == size_of(tx, is_discount_ct)
    }
}

} // verus!
