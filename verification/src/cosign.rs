//! Our part of a signature that the provider asks for, to end a swap together.
use crate::error::Error;
use crate::hex_text::{hex_decode, hex_to_bytes32, hex_to_bytes66, is_fixed_hex};
use crate::keys::{public_key_of, Keypair};
use crate::musig::{
    cache_keys, cache_tweaks, check_public_nonce, draw_session_randomness, is_public_nonce,
    is_session_secret, key_agg_cache, musig_public_nonce, musig_tweak_fits, viewed_arrays,
    with_tweak, NonceView, PendingSignature, PendingView, SessionRandomness,
};
use crate::swap_script::{LBtcSwapScript, SwapScriptView};
use crate::taproot::tap_tweak;
use vstd::prelude::*;

verus! {

/// The bytes that a hexadecimal text of a fixed length stands for.
pub open spec fn fixed_hex(text: Seq<char>, n: nat) -> Option<Seq<u8>> {
    match hex_decode(text) {
        Some(bytes) if bytes.len() == n => Some(bytes),
        _ => None,
    }
}

/// A partial signature and the public nonce that belongs to it.
pub type Part = ([u8; 32], [u8; 66]);

/// The outcome of signing a part, its arrays taken as sequences.
pub open spec fn part_outcome(r: Result<Part, Error>) -> Result<(Seq<u8>, Seq<u8>), Error> {
    match r {
        Ok(part) => Ok((part.0@, part.1@)),
        Err(e) => Err(e),
    }
}

impl SwapScriptView {
    /// The two keys, the receiver's first.
    pub open spec fn receiver_first(self) -> Seq<Seq<u8>> {
        seq![self.receiver_pubkey, self.sender_pubkey]
    }

    /// What is to be signed and the provider's nonce, where the provider's address fits and
    /// both texts can be read.
    pub open spec fn request(self, pub_nonce: Seq<char>, transaction_hash: Seq<char>) -> Option<
        (Seq<u8>, Seq<u8>),
    > {
        match (fixed_hex(transaction_hash, 32), fixed_hex(pub_nonce, 66)) {
            (Some(message), Some(nonce)) if self.is_checked() => Some((message, nonce)),
            _ => None,
        }
    }

    /// Whether an error is the first that is met on the way to what [`Self::request`] gives:
    /// that of the provider's address, of the hash, or of the nonce.
    pub open spec fn is_request_error(
        self,
        pub_nonce: Seq<char>,
        transaction_hash: Seq<char>,
        e: Error,
    ) -> bool {
        if !self.is_checked() {
            self.is_check(Err(e))
        } else if fixed_hex(transaction_hash, 32) is None {
            is_fixed_hex(transaction_hash, 32, Err(e))
        } else {
            is_fixed_hex(pub_nonce, 66, Err(e))
        }
    }

    /// Whether the keys take the tweak of the output, and the provider's nonce is one, where it
    /// comes to that.
    pub open spec fn fits_request(
        self,
        pub_nonce: Seq<char>,
        transaction_hash: Seq<char>,
    ) -> bool {
        self.is_checked() ==> {
            &&& musig_tweak_fits(self.receiver_first(), seq![], self.tweak())
            &&& self.request(pub_nonce, transaction_hash) matches Some(request) ==> is_public_nonce(
                request.1,
            )
        }
    }

    /// Our signature of a message in the making, with the keys in the given order.
    pub open spec fn pending(
        self,
        keys: Seq<Seq<u8>>,
        secret: Seq<u8>,
        message: Seq<u8>,
        session_secret: Seq<u8>,
        extra_rand: Seq<u8>,
    ) -> PendingView {
        PendingView {
            nonce: NonceView {
                keys,
                tweaks: seq![self.tweak()],
                session_secret,
                signer: public_key_of(secret),
                message,
                extra_rand,
            },
            secret,
        }
    }

    /// What signing our part comes to, for the randomness that was drawn: the part, which
    /// verifies under our key, and our nonce, or the error on the way to what is to be signed.
    pub open spec fn is_part(
        self,
        secret: Seq<u8>,
        pub_nonce: Seq<char>,
        transaction_hash: Seq<char>,
        session_secret: Seq<u8>,
        extra_rand: Seq<u8>,
        r: Result<(Seq<u8>, Seq<u8>), Error>,
    ) -> bool {
        match self.request(pub_nonce, transaction_hash) {
            None => r matches Err(e) && self.is_request_error(pub_nonce, transaction_hash, e),
            Some((message, nonce)) => {
                let pending = self.pending(
                    self.receiver_first(),
                    secret,
                    message,
                    session_secret,
                    extra_rand,
                );
                pending.part_verifies(nonce) && r == Ok::<(Seq<u8>, Seq<u8>), Error>(
                    (pending.part(nonce), musig_public_nonce(pending.nonce)),
                )
            },
        }
    }

    /// What signing our part comes to, whatever is drawn.
    pub open spec fn is_drawn_part(
        self,
        secret: Seq<u8>,
        pub_nonce: Seq<char>,
        transaction_hash: Seq<char>,
        r: Result<(Seq<u8>, Seq<u8>), Error>,
    ) -> bool {
        exists|session_secret: Seq<u8>, extra_rand: Seq<u8>|
            is_session_secret(session_secret) && #[trigger] self.is_part(
                secret,
                pub_nonce,
                transaction_hash,
                session_secret,
                extra_rand,
                r,
            )
    }
}

/// The keys, what is to be signed, and the provider's nonce.
struct Prepared {
    cache: secp256k1::musig::KeyAggCache,
    message: [u8; 32],
    nonce: [u8; 66],
}

impl LBtcSwapScript {
    /// Reads what is to be signed, or `None` where it does not fit.
    fn prepare(&self, pub_nonce: &str, transaction_hash: &str) -> (r: Option<
        Result<Prepared, Error>,
    >)
        ensures
            r is Some <==> self@.fits_request(pub_nonce@, transaction_hash@),
            r matches Some(Err(e)) ==> self@.request(pub_nonce@, transaction_hash@) is None
                && self@.is_request_error(pub_nonce@, transaction_hash@, e),
            r matches Some(Ok(p)) ==> self@.request(pub_nonce@, transaction_hash@) == Some(
                (p.message@, p.nonce@),
            ) && is_public_nonce(p.nonce@) && cache_keys(p.cache) == self@.receiver_first()
                && cache_tweaks(p.cache) == seq![self@.tweak()],
    {
        let info = match self.taproot_spendinfo() {
            Ok(info) => info,
            Err(e) => return Some(Err(e)),
        };
        let keys: [[u8; 33]; 2] = [self.receiver_pubkey.to_bytes(), self.sender_pubkey.to_bytes()];
        assert(viewed_arrays(keys@) =~= self@.receiver_first());
        let cache = match with_tweak(key_agg_cache(&keys), &tap_tweak(&info)) {
            Some(cache) => cache,
            None => return None,
        };
        let message = match hex_to_bytes32(transaction_hash) {
            Ok(message) => message,
            Err(e) => return Some(Err(e)),
        };
        let nonce = match hex_to_bytes66(pub_nonce) {
            Ok(nonce) => nonce,
            Err(e) => return Some(Err(e)),
        };
        if check_public_nonce(&nonce) {
            Some(Ok(Prepared { cache, message, nonce }))
        } else {
            None
        }
    }

    /// Our part of the signature that the provider asks for, with the given randomness.
    pub fn partial_sign_with(
        &self,
        keys: &Keypair,
        pub_nonce: &str,
        transaction_hash: &str,
        drawn: &SessionRandomness,
    ) -> (r: Result<Part, Error>)
        requires
            self@.fits_request(pub_nonce@, transaction_hash@),
            is_session_secret(drawn.session_secret@),
        ensures
            self@.is_part(
                keys@,
                pub_nonce@,
                transaction_hash@,
                drawn.session_secret@,
                drawn.extra_rand@,
                part_outcome(r),
            ),
    {
        match self.prepare(pub_nonce, transaction_hash).unwrap() {
            Ok(p) => {
                let pending = PendingSignature::start(p.cache, keys, &p.message, drawn);
                let our_nonce = pending.public_nonce();
                Ok((pending.sign_part(&p.nonce), our_nonce))
            },
            Err(e) => Err(e),
        }
    }

    /// Our part of the signature that the provider asks for, to end a submarine or a chain swap
    /// together.
    pub fn partial_sign(&self, keys: &Keypair, pub_nonce: &str, transaction_hash: &str) -> (r:
        Result<Part, Error>)
        requires
            self@.fits_request(pub_nonce@, transaction_hash@),
        ensures
            self@.is_drawn_part(keys@, pub_nonce@, transaction_hash@, part_outcome(r)),
    {
        if let Err(e) = self.prepare(pub_nonce, transaction_hash).unwrap() {
            proof {
                let any = Seq::new(32, |i: int| 1u8);
                assert(any[0] == 1u8);
                let r = part_outcome(Err(e));
                assert(self@.is_part(keys@, pub_nonce@, transaction_hash@, any, any, r));
            }
            return Err(e);
        }
        match draw_session_randomness() {
            Ok(drawn) => {
                let r = self.partial_sign_with(keys, pub_nonce, transaction_hash, &drawn);
                assert(self@.is_part(
                    keys@,
                    pub_nonce@,
                    transaction_hash@,
                    drawn.session_secret@,
                    drawn.extra_rand@,
                    part_outcome(r),
                ));
                r
            },
            Err(e) => Err(e),
        }
    }

    /// Our part of the signature that the provider asks for, or `None` where the keys do not
    /// take the tweak of the output or the provider's nonce is none.
    pub fn try_partial_sign(&self, keys: &Keypair, pub_nonce: &str, transaction_hash: &str) -> (r:
        Option<Result<Part, Error>>)
        ensures
            r is Some <==> self@.fits_request(pub_nonce@, transaction_hash@),
            r matches Some(outcome) ==> self@.is_drawn_part(
                keys@,
                pub_nonce@,
                transaction_hash@,
                part_outcome(outcome),
            ),
    {
        if self.can_partial_sign(pub_nonce, transaction_hash) {
            Some(self.partial_sign(keys, pub_nonce, transaction_hash))
        } else {
            None
        }
    }

    /// Whether the keys take the tweak of the output, and the provider's nonce is one, where it
    /// comes to that.
    pub fn can_partial_sign(&self, pub_nonce: &str, transaction_hash: &str) -> (r: bool)
        ensures
            r == self@.fits_request(pub_nonce@, transaction_hash@),
    {
        self.prepare(pub_nonce, transaction_hash).is_some()
    }
}

} // verus!
