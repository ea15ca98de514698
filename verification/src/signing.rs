//! Signing a claim or a refund: by the script alone, or together with the provider, who is asked
//! for a part of the signature in between.
use crate::blinding::MAX_BLINDED_VALUE;
use crate::boltz::{PartialSig, Preimage, SwapTxKind, SwapType, ToSign};
use crate::bytes::to_vec;
use crate::chain::{chain_bytes, key_spend_hash, viewed_items, Tx, TxView};
use crate::cosign::{fixed_hex, part_outcome, Part};
use crate::error::Error;
use crate::hex_text::{hex_encode, hex_to_bytes32, hex_to_bytes66, is_fixed_hex, to_lower_hex};
use crate::keys::{is_xonly_key, Keypair, PublicKey};
use crate::musig::{
    check_partial_signature, check_public_nonce, draw_session_randomness, is_completed,
    is_partial_signature, is_public_nonce, is_session_secret, musig_public_nonce,
    musig_tweak_fits, with_tweak, PendingSignature, PendingView, SessionRandomness,
};
use crate::script::{find_short_push, script_instructions};
use crate::swap_script::is_protocol;
use crate::swap_tx::{stub_witness, with_witness, LBtcSwapTx, SwapTxView};
use crate::taproot::{output_key, tap_tweak};
use vstd::prelude::*;

verus! {

/// Where the provider is asked for a part of a signature.
#[derive(Debug, Clone, Copy, PartialEq, Eq, Structural)]
pub enum PartialSigEndpoint {
    /// For the claim of a chain swap, against the preimage and our part for the provider.
    ChainClaim,
    /// For the claim of a reverse swap, against the preimage.
    Reverse,
    /// For the refund of a chain swap.
    ChainRefund,
    /// For the refund of a submarine swap.
    Submarine,
}

/// What the provider is asked for, and where.
#[derive(Debug, PartialEq, Eq)]
pub struct PartialSigRequest {
    pub endpoint: PartialSigEndpoint,
    pub to_sign: ToSign,
}

/// A transaction that waits for the provider's part of its signature.
pub struct PendingSpend {
    tx: Tx,
    pending: PendingSignature,
    their_key: PublicKey,
    output_key: [u8; 32],
}

/// What a [`PendingSpend`] holds.
#[verifier::ext_equal]
pub struct PendingSpendView {
    pub tx: TxView,
    pub pending: PendingView,
    pub their_key: Seq<u8>,
    pub output_key: Seq<u8>,
}

impl View for PendingSpend {
    type V = PendingSpendView;

    closed spec fn view(&self) -> PendingSpendView {
        PendingSpendView {
            tx: self.tx@,
            pending: self.pending@,
            their_key: self.their_key@,
            output_key: self.output_key@,
        }
    }
}

/// How far a signature has come.
pub enum Signing {
    /// The transaction is signed.
    Done(Tx),
    /// The provider has to be asked for its part.
    Ask(PartialSigRequest, PendingSpend),
}

/// The outcome of completing a transaction, taken by what it holds.
pub open spec fn tx_outcome(r: Result<Tx, Error>) -> Result<TxView, Error> {
    match r {
        Ok(tx) => Ok(tx@),
        Err(e) => Err(e),
    }
}

/// Whether the items of two lists have the same sizes.
pub open spec fn same_sizes(a: Seq<Seq<u8>>, b: Seq<Seq<u8>>) -> bool {
    a.len() == b.len() && forall|i: int| 0 <= i < a.len() ==> (#[trigger] a[i]).len() == b[i].len()
}

/// A transaction without its lock time.
pub open spec fn unlocked(tx: TxView) -> TxView {
    TxView { lock_time: 0, ..tx }
}

impl PendingSpendView {
    /// Whether the provider's nonce and part are ones, where it comes to that.
    pub open spec fn fits_reply(self, pub_nonce: Seq<char>, partial_signature: Seq<char>) -> bool {
        fixed_hex(pub_nonce, 66) matches Some(nonce) ==> {
            &&& is_public_nonce(nonce)
            &&& fixed_hex(partial_signature, 32) matches Some(part) ==> is_partial_signature(part)
        }
    }

    /// What the provider's reply comes to: the errors of its two texts, an [`Error::Taproot`]
    /// where its part does not verify under its key, an [`Error::Signature`] where the whole
    /// does not verify under the key of the output, and the transaction with the signature as
    /// its only witness otherwise.
    pub open spec fn is_reply(
        self,
        pub_nonce: Seq<char>,
        partial_signature: Seq<char>,
        r: Result<TxView, Error>,
    ) -> bool {
        match (fixed_hex(pub_nonce, 66), fixed_hex(partial_signature, 32)) {
            (None, _) => r matches Err(e) && is_fixed_hex(pub_nonce, 66, Err(e)),
            (Some(_), None) => r matches Err(e) && is_fixed_hex(partial_signature, 32, Err(e)),
            (Some(nonce), Some(part)) => match r {
                Err(e) => is_completed(
                    self.pending,
                    nonce,
                    part,
                    self.their_key,
                    self.output_key,
                    Err(e),
                ),
                Ok(tx) => {
                    let signature = self.pending.signature(nonce, part);
                    &&& is_completed(
                        self.pending,
                        nonce,
                        part,
                        self.their_key,
                        self.output_key,
                        Ok(signature),
                    )
                    &&& tx == with_witness(self.tx, seq![signature])
                },
            },
        }
    }
}

impl PendingSpend {
    #[verifier::type_invariant]
    spec fn well_formed(self) -> bool {
        self.tx.input@.len() == 1 && is_xonly_key(self.output_key@)
    }

    /// The signed transaction, from the provider's reply.
    pub fn complete(self, reply: &PartialSig) -> (r: Result<Tx, Error>)
        requires
            self@.fits_reply(reply.pub_nonce@, reply.partial_signature@),
        ensures
            self@.is_reply(reply.pub_nonce@, reply.partial_signature@, tx_outcome(r)),
            r matches Ok(tx) ==> same_sizes(tx@.input[0].witness, stub_witness()),
    {
        proof {
            use_type_invariant(&self);
        }
        let ghost view = self@;
        let nonce = match hex_to_bytes66(reply.pub_nonce.as_str()) {
            Ok(nonce) => nonce,
            Err(e) => return Err(e),
        };
        let part = match hex_to_bytes32(reply.partial_signature.as_str()) {
            Ok(part) => part,
            Err(e) => return Err(e),
        };
        let mut tx = self.tx;
        match self.pending.complete(&nonce, &part, &self.their_key, &self.output_key) {
            Ok(signature) => {
                let mut witness: Vec<Vec<u8>> = Vec::new();
                witness.push(to_vec(&signature));
                assert(viewed_items(witness@) =~= seq![signature@]);
                LBtcSwapTx::set_witness(&mut tx, witness);
                Ok(tx)
            },
            Err(e) => Err(e),
        }
    }

    /// The signed transaction, from the provider's reply, or `None` where the nonce or the part
    /// in it is none.
    pub fn try_complete(self, reply: &PartialSig) -> (r: Option<Result<Tx, Error>>)
        ensures
            r is Some <==> self@.fits_reply(reply.pub_nonce@, reply.partial_signature@),
            r matches Some(outcome) ==> self@.is_reply(
                reply.pub_nonce@,
                reply.partial_signature@,
                tx_outcome(outcome),
            ),
            r matches Some(Ok(tx)) ==> same_sizes(tx@.input[0].witness, stub_witness()),
    {
        let fits = match hex_to_bytes66(reply.pub_nonce.as_str()) {
            Ok(nonce) => check_public_nonce(&nonce) && match hex_to_bytes32(
                reply.partial_signature.as_str(),
            ) {
                Ok(part) => check_partial_signature(&part),
                Err(_) => true,
            },
            Err(_) => true,
        };
        if fits {
            Some(self.complete(reply))
        } else {
            None
        }
    }
}

impl SwapTxView {
    /// Where the provider is asked for its part of a transaction of a kind.
    pub open spec fn endpoint(self, kind: SwapTxKind) -> Option<PartialSigEndpoint> {
        match (kind, self.swap_script.swap_type) {
            (SwapTxKind::Claim, SwapType::Chain) => Some(PartialSigEndpoint::ChainClaim),
            (SwapTxKind::Claim, SwapType::ReverseSubmarine) => Some(PartialSigEndpoint::Reverse),
            (SwapTxKind::Claim, SwapType::Submarine) => None,
            (SwapTxKind::Refund, SwapType::Chain) => Some(PartialSigEndpoint::ChainRefund),
            (SwapTxKind::Refund, SwapType::ReverseSubmarine) => None,
            (SwapTxKind::Refund, SwapType::Submarine) => Some(PartialSigEndpoint::Submarine),
        }
    }

    /// The provider's key: the sender's in a claim, and the receiver's in a refund.
    pub open spec fn their_key(self, kind: SwapTxKind) -> Seq<u8> {
        match kind {
            SwapTxKind::Claim => self.swap_script.sender_pubkey,
            SwapTxKind::Refund => self.swap_script.receiver_pubkey,
        }
    }

    /// Whether the keys take the tweak of the output, where the provider's address fits it.
    pub open spec fn takes_tweak(self) -> bool {
        self.swap_script.is_checked() ==> musig_tweak_fits(
            self.swap_script.key_order(),
            seq![],
            self.swap_script.tweak(),
        )
    }

    /// Whether a request and a transaction that waits for its reply are those of a transaction,
    /// for the randomness that was drawn: the provider gets our nonce and the transaction, and
    /// what is signed is the hash for spending by the key of the output.
    pub open spec fn is_asked(
        self,
        kind: SwapTxKind,
        secret: Seq<u8>,
        tx: TxView,
        session_secret: Seq<u8>,
        extra_rand: Seq<u8>,
        request: PartialSigRequest,
        spend: PendingSpendView,
    ) -> bool {
        let message = key_spend_hash(
            tx.without_witness(),
            0,
            seq![self.funding_utxo],
            self.genesis_hash,
        );
        let pending = self.swap_script.pending(
            self.swap_script.key_order(),
            secret,
            message,
            session_secret,
            extra_rand,
        );
        &&& self.swap_script.is_checked()
        &&& self.endpoint(kind) == Some(request.endpoint)
        &&& request.to_sign.pub_nonce@ == hex_encode(musig_public_nonce(pending.nonce))
        &&& request.to_sign.transaction@ == hex_encode(chain_bytes(tx))
        &&& request.to_sign.index == 0
        &&& spend == (PendingSpendView {
            tx,
            pending,
            their_key: self.their_key(kind),
            output_key: self.swap_script.output_key(),
        })
    }

    /// [`Self::is_asked`] for some transaction with the stub of a signature by both keys, of
    /// which the lock time is taken away, and for some randomness.
    pub open spec fn is_asking(
        self,
        kind: SwapTxKind,
        secret: Seq<u8>,
        preimage: Seq<u8>,
        fees: u64,
        request: PartialSigRequest,
        spend: PendingSpendView,
    ) -> bool {
        exists|tx: TxView, session_secret: Seq<u8>, extra_rand: Seq<u8>|
            self.is_created(kind, secret, preimage, fees, true, tx) && is_session_secret(
                session_secret,
            ) && #[trigger] self.is_asked(
                kind,
                secret,
                unlocked(tx),
                session_secret,
                extra_rand,
                request,
                spend,
            )
    }

    /// Whether signing a transaction of a kind can go its way: the spent output can be tried with
    /// the key, its value covers the fees, and, where the provider is to be asked, the keys take
    /// the tweak.
    pub open spec fn fits_signing(
        self,
        kind: SwapTxKind,
        fees: u64,
        is_cooperative: bool,
    ) -> bool {
        &&& self.covers(fees)
        &&& is_cooperative && self.can_pay(kind, fees) ==> self.takes_tweak()
    }

    /// What signing a transaction of a kind comes to, whatever is drawn: one that is signed for
    /// spending by the script, one that waits for the provider's part and has no lock time, or
    /// an error.
    pub open spec fn is_signing(
        self,
        kind: SwapTxKind,
        secret: Seq<u8>,
        preimage: Seq<u8>,
        fees: u64,
        is_cooperative: bool,
        r: Result<Signing, Error>,
    ) -> bool {
        match r {
            Ok(Signing::Done(tx)) => !is_cooperative && self.is_created(
                kind,
                secret,
                preimage,
                fees,
                false,
                tx@,
            ),
            Ok(Signing::Ask(request, spend)) => is_cooperative && self.is_asking(
                kind,
                secret,
                preimage,
                fees,
                request,
                spend@,
            ),
            Err(e) => {
                ||| self.is_creation_error(kind, fees, is_cooperative, e)
                ||| is_cooperative && self.can_pay(kind, fees) && !self.swap_script.is_checked()
                    && self.swap_script.is_check(Err(e))
            },
        }
    }
}

impl LBtcSwapTx {
    /// Asks the provider for its part of the signature of a transaction, with the given
    /// randomness: an [`Error::Sighash`] for a transaction that has not one input, the errors of
    /// the provider's address, and an [`Error::Protocol`] where the swap has no transaction of
    /// the kind.
    pub fn ask_partial_sig(
        &self,
        kind: SwapTxKind,
        keys: &Keypair,
        tx: Tx,
        drawn: &SessionRandomness,
    ) -> (r: Result<(PartialSigRequest, PendingSpend), Error>)
        requires
            self@.takes_tweak(),
            is_session_secret(drawn.session_secret@),
        ensures
            if tx@.input.len() != 1 {
                r matches Err(Error::Sighash(_))
            } else if !self@.swap_script.is_checked() {
                r matches Err(e) && self@.swap_script.is_check(Err(e))
            } else if self@.endpoint(kind) is None {
                r matches Err(e) && is_protocol(
                    e,
                    match kind {
                        SwapTxKind::Claim => "Cannot get partial sig for Submarine Swap"@,
                        SwapTxKind::Refund => "Cannot get partial sig for ReverseSubmarine Swap"@,
                    },
                )
            } else {
                r matches Ok((request, spend)) && self@.is_asked(
                    kind,
                    keys@,
                    tx@,
                    drawn.session_secret@,
                    drawn.extra_rand@,
                    request,
                    spend@,
                )
            },
    {
        let message = match tx.key_spend_hash(&self.funding_utxo, &self.genesis_hash) {
            Ok(message) => message,
            Err(e) => return Err(e),
        };
        let info = match self.swap_script.taproot_spendinfo() {
            Ok(info) => info,
            Err(e) => return Err(e),
        };
        let cache = self.swap_script.musig_keyagg_cache();
        let cache = with_tweak(cache, &tap_tweak(&info)).unwrap();
        let pending = PendingSignature::start(cache, keys, &message, drawn);
        let endpoint = match (kind, self.swap_script.swap_type) {
            (SwapTxKind::Claim, SwapType::Chain) => PartialSigEndpoint::ChainClaim,
            (SwapTxKind::Claim, SwapType::ReverseSubmarine) => PartialSigEndpoint::Reverse,
            (SwapTxKind::Claim, SwapType::Submarine) => return Err(
                Error::Protocol("Cannot get partial sig for Submarine Swap".to_owned()),
            ),
            (SwapTxKind::Refund, SwapType::Chain) => PartialSigEndpoint::ChainRefund,
            (SwapTxKind::Refund, SwapType::ReverseSubmarine) => return Err(
                Error::Protocol("Cannot get partial sig for ReverseSubmarine Swap".to_owned()),
            ),
            (SwapTxKind::Refund, SwapType::Submarine) => PartialSigEndpoint::Submarine,
        };
        let to_sign = ToSign {
            pub_nonce: to_lower_hex(&pending.public_nonce()),
            transaction: to_lower_hex(tx.serialize().as_slice()),
            index: 0,
        };
        let their_key = match kind {
            SwapTxKind::Claim => self.swap_script.sender_pubkey,
            SwapTxKind::Refund => self.swap_script.receiver_pubkey,
        };
        let output_key = output_key(&info);
        let spend = PendingSpend { tx, pending, their_key, output_key };
        Ok((PartialSigRequest { endpoint, to_sign }, spend))
    }

    /// Signs a transaction that was made, or asks the provider for its part.
    fn sign(
        &self,
        kind: SwapTxKind,
        keys: &Keypair,
        preimage: Ghost<Seq<u8>>,
        fees: u64,
        is_cooperative: bool,
        tx: Tx,
    ) -> (r: Result<Signing, Error>)
        requires
            self@.fits_signing(kind, fees, is_cooperative),
            self@.endpoint(kind) is Some,
            self@.is_created(kind, keys@, preimage@, fees, is_cooperative, tx@),
            tx.input@.len() == 1,
        ensures
            self@.is_signing(kind, keys@, preimage@, fees, is_cooperative, r),
    {
        if !is_cooperative {
            return Ok(Signing::Done(tx));
        }
        let mut tx = tx;
        let ghost stub = tx@;
        tx.lock_time = 0;
        assert(tx@ == unlocked(stub));
        let drawn = match draw_session_randomness() {
            Ok(drawn) => drawn,
            Err(e) => return Err(e),
        };
        match self.ask_partial_sig(kind, keys, tx, &drawn) {
            Ok((request, spend)) => {
                assert(self@.is_asked(
                    kind,
                    keys@,
                    unlocked(stub),
                    drawn.session_secret@,
                    drawn.extra_rand@,
                    request,
                    spend@,
                ));
                assert(self@.is_asking(kind, keys@, preimage@, fees, request, spend@));
                Ok(Signing::Ask(request, spend))
            },
            Err(e) => Err(e),
        }
    }
}

impl SwapTxView {
    /// Why the transaction is no claim, if it is none: a submarine swap has none, and a refund
    /// is none.
    pub open spec fn no_claim(self) -> Option<Seq<char>> {
        if self.swap_script.swap_type == SwapType::Submarine {
            Some("Claim Tx signing is not applicable for Submarine Swaps"@)
        } else if self.kind == SwapTxKind::Refund {
            Some("Cannot sign claim with refund-type LBtcSwapTx"@)
        } else {
            None
        }
    }

    /// Why the transaction is no refund, if it is none: a reverse swap has none, and a claim is
    /// none.
    pub open spec fn no_refund(self) -> Option<Seq<char>> {
        if self.swap_script.swap_type == SwapType::ReverseSubmarine {
            Some("Refund Tx signing is not applicable for Reverse Submarine Swaps"@)
        } else if self.kind == SwapTxKind::Claim {
            Some("Cannot sign refund with a claim-type LBtcSwapTx"@)
        } else {
            None
        }
    }

    /// What signing a claim comes to: without the preimage there is none.
    pub open spec fn is_claim(
        self,
        secret: Seq<u8>,
        preimage: Preimage,
        fees: u64,
        is_cooperative: bool,
        r: Result<Signing, Error>,
    ) -> bool {
        match preimage.bytes {
            None => r matches Err(e) && is_protocol(e, "No preimage provided"@),
            Some(bytes) => self.is_signing(
                SwapTxKind::Claim,
                secret,
                bytes@,
                fees,
                is_cooperative,
                r,
            ),
        }
    }

    /// What signing a refund comes to.
    pub open spec fn is_refund(
        self,
        secret: Seq<u8>,
        fees: u64,
        is_cooperative: bool,
        r: Result<Signing, Error>,
    ) -> bool {
        self.is_signing(SwapTxKind::Refund, secret, seq![], fees, is_cooperative, r)
    }
}

impl LBtcSwapTx {
    /// Whether the transaction is a claim, of a swap that has one.
    pub fn check_sign_claim(&self) -> (r: Result<(), Error>)
        ensures
            match self@.no_claim() {
                Some(text) => r matches Err(e) && is_protocol(e, text),
                None => r is Ok,
            },
    {
        if self.swap_script.swap_type == SwapType::Submarine {
            return Err(
                Error::Protocol(
                    "Claim Tx signing is not applicable for Submarine Swaps".to_owned(),
                ),
            );
        }
        if self.kind == SwapTxKind::Refund {
            return Err(
                Error::Protocol("Cannot sign claim with refund-type LBtcSwapTx".to_owned()),
            );
        }
        Ok(())
    }

    /// Whether the transaction is a refund, of a swap that has one.
    pub fn check_sign_refund(&self) -> (r: Result<(), Error>)
        ensures
            match self@.no_refund() {
                Some(text) => r matches Err(e) && is_protocol(e, text),
                None => r is Ok,
            },
    {
        if self.swap_script.swap_type == SwapType::ReverseSubmarine {
            return Err(
                Error::Protocol(
                    "Refund Tx signing is not applicable for Reverse Submarine Swaps".to_owned(),
                ),
            );
        }
        if self.kind == SwapTxKind::Claim {
            return Err(
                Error::Protocol("Cannot sign refund with a claim-type LBtcSwapTx".to_owned()),
            );
        }
        Ok(())
    }

    /// Signs a claim of a reverse or a chain swap, which [`Self::check_sign_claim`] tells.
    /// Spending by the claim script it is done with that; together with the provider, the
    /// provider's part is asked for.
    pub fn sign_claim(
        &self,
        keys: &Keypair,
        preimage: &Preimage,
        absolute_fees: u64,
        is_cooperative: bool,
    ) -> (r: Result<Signing, Error>)
        requires
            self@.no_claim() is None,
            preimage.bytes is Some ==> self@.fits_signing(
                SwapTxKind::Claim,
                absolute_fees,
                is_cooperative,
            ),
        ensures
            self@.is_claim(keys@, *preimage, absolute_fees, is_cooperative, r),
    {
        let tx = match self.create_claim(keys, preimage, absolute_fees, is_cooperative) {
            Ok(tx) => tx,
            Err(e) => return Err(e),
        };
        let ghost bytes = preimage.bytes->0@;
        self.sign(SwapTxKind::Claim, keys, Ghost(bytes), absolute_fees, is_cooperative, tx)
    }

    /// Signs a refund of a submarine or a chain swap, which [`Self::check_sign_refund`] tells.
    /// Spending by the refund script it is done with that; together with the provider, the
    /// provider's part is asked for.
    pub fn sign_refund(&self, keys: &Keypair, absolute_fees: u64, is_cooperative: bool) -> (r:
        Result<Signing, Error>)
        requires
            self@.no_refund() is None,
            self@.fits_signing(SwapTxKind::Refund, absolute_fees, is_cooperative),
        ensures
            self@.is_refund(keys@, absolute_fees, is_cooperative, r),
    {
        let tx = match self.create_refund(keys, absolute_fees, is_cooperative) {
            Ok(tx) => tx,
            Err(e) => return Err(e),
        };
        let ghost none = Seq::<u8>::empty();
        self.sign(SwapTxKind::Refund, keys, Ghost(none), absolute_fees, is_cooperative, tx)
    }

    /// Whether signing a transaction of a kind can go its way.
    pub fn fits_signing(&self, kind: SwapTxKind, fees: u64, is_cooperative: bool) -> (r: bool)
        ensures
            r == self@.fits_signing(kind, fees, is_cooperative),
    {
        if !self.funding_utxo.can_unblind() {
            return false;
        }
        let secrets = match self.funding_utxo.unblind(&self.swap_script.blinding_key) {
            Ok(secrets) => secrets,
            Err(_) => return true,
        };
        if secrets.value < fees {
            return false;
        }
        let has_lock_time = match kind {
            SwapTxKind::Claim => true,
            SwapTxKind::Refund => {
                let script = self.swap_script.refund_script();
                find_short_push(&script_instructions(script.as_slice())).is_some()
            },
        };
        let is_payable = secrets.value != fees && secrets.value - fees <= MAX_BLINDED_VALUE;
        let has_target = self.output_address.blinding_pubkey.is_some();
        if !is_cooperative || !has_target || !is_payable || !has_lock_time {
            return true;
        }
        match self.swap_script.taproot_spendinfo() {
            Ok(info) => {
                let cache = self.swap_script.musig_keyagg_cache();
                with_tweak(cache, &tap_tweak(&info)).is_some()
            },
            Err(_) => true,
        }
    }

    /// Signs a claim, or gives `None` where the transaction is none or where signing it cannot go
    /// its way.
    pub fn try_sign_claim(
        &self,
        keys: &Keypair,
        preimage: &Preimage,
        absolute_fees: u64,
        is_cooperative: bool,
    ) -> (r: Option<Result<Signing, Error>>)
        ensures
            r is Some <==> self@.no_claim() is None && (preimage.bytes is Some
                ==> self@.fits_signing(SwapTxKind::Claim, absolute_fees, is_cooperative)),
            r matches Some(outcome) ==> self@.is_claim(
                keys@,
                *preimage,
                absolute_fees,
                is_cooperative,
                outcome,
            ),
    {
        if self.check_sign_claim().is_err() {
            return None;
        }
        if preimage.bytes.is_none() || self.fits_signing(
            SwapTxKind::Claim,
            absolute_fees,
            is_cooperative,
        ) {
            Some(self.sign_claim(keys, preimage, absolute_fees, is_cooperative))
        } else {
            None
        }
    }

    /// Signs a refund, or gives `None` where the transaction is none or where signing it cannot
    /// go its way.
    pub fn try_sign_refund(&self, keys: &Keypair, absolute_fees: u64, is_cooperative: bool) -> (r:
        Option<Result<Signing, Error>>)
        ensures
            r is Some <==> self@.no_refund() is None && self@.fits_signing(
                SwapTxKind::Refund,
                absolute_fees,
                is_cooperative,
            ),
            r matches Some(outcome) ==> self@.is_refund(
                keys@,
                absolute_fees,
                is_cooperative,
                outcome,
            ),
    {
        if self.check_sign_refund().is_err() {
            return None;
        }
        if self.fits_signing(SwapTxKind::Refund, absolute_fees, is_cooperative) {
            Some(self.sign_refund(keys, absolute_fees, is_cooperative))
        } else {
            None
        }
    }

    /// Our part of the signature that the provider asks for, as the swap's script gives it.
    pub fn partial_sign(&self, keys: &Keypair, pub_nonce: &str, transaction_hash: &str) -> (r:
        Result<Part, Error>)
        requires
            self@.swap_script.fits_request(pub_nonce@, transaction_hash@),
        ensures
            self@.swap_script.is_drawn_part(
                keys@,
                pub_nonce@,
                transaction_hash@,
                part_outcome(r),
            ),
    {
        self.swap_script.partial_sign(keys, pub_nonce, transaction_hash)
    }

    /// Our part of the signature that the provider asks for, or `None` where the keys do not
    /// take the tweak of the output or the provider's nonce is none.
    pub fn try_partial_sign(&self, keys: &Keypair, pub_nonce: &str, transaction_hash: &str) -> (r:
        Option<Result<Part, Error>>)
        ensures
            r is Some <==> self@.swap_script.fits_request(pub_nonce@, transaction_hash@),
            r matches Some(outcome) ==> self@.swap_script.is_drawn_part(
                keys@,
                pub_nonce@,
                transaction_hash@,
                part_outcome(outcome),
            ),
    {
        if self.swap_script.can_partial_sign(pub_nonce, transaction_hash) {
            Some(self.partial_sign(keys, pub_nonce, transaction_hash))
        } else {
            None
        }
    }
}

} // verus!
