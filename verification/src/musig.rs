//! Signatures that two parties make together, each with its own key.
use crate::blinding::draw_keypair;
use crate::bytes::{be_value, lemma_be_zeros, same_bytes};
use crate::error::Error;
use crate::keys::{
    curve_order, is_public_key, is_secret_key, is_xonly_key, public_key_of, schnorr_verifies,
    verify_schnorr, Keypair, PublicKey,
};
use vstd::prelude::*;

verus! {

/// `secp256k1::musig::KeyAggCache`, which holds keys in an order and the tweaks of their sum.
#[verifier::external_type_specification]
#[verifier::external_body]
pub struct ExKeyAggCache(secp256k1::musig::KeyAggCache);

/// `secp256k1::musig::SecretNonce`, which holds what a nonce was made of.
#[verifier::external_type_specification]
#[verifier::external_body]
pub struct ExSecretNonce(secp256k1::musig::SecretNonce);

/// `secp256k1::musig::AggregatedNonce`, which holds the nonces of all signers.
#[verifier::external_type_specification]
#[verifier::external_body]
pub struct ExAggregatedNonce(secp256k1::musig::AggregatedNonce);

/// `secp256k1::musig::Session`, which holds keys, nonces and the message that is signed.
#[verifier::external_type_specification]
#[verifier::external_body]
pub struct ExSession(secp256k1::musig::Session);

/// What a nonce is made of: the keys that sign together with the tweaks of their sum, the
/// secret of the session, the signer's key, the message, and randomness on top.
#[verifier::ext_equal]
pub struct NonceView {
    pub keys: Seq<Seq<u8>>,
    pub tweaks: Seq<Seq<u8>>,
    pub session_secret: Seq<u8>,
    pub signer: Seq<u8>,
    pub message: Seq<u8>,
    pub extra_rand: Seq<u8>,
}

/// What a signing session is made of: the keys that sign together with the tweaks of their sum,
/// the nonces of all signers, and the message.
#[verifier::ext_equal]
pub struct SessionView {
    pub keys: Seq<Seq<u8>>,
    pub tweaks: Seq<Seq<u8>>,
    pub nonces: Seq<Seq<u8>>,
    pub message: Seq<u8>,
}

/// The keys that a cache holds, in their order.
pub uninterp spec fn cache_keys(cache: secp256k1::musig::KeyAggCache) -> Seq<Seq<u8>>;

/// The tweaks that were added to the keys that a cache holds, in their order.
pub uninterp spec fn cache_tweaks(cache: secp256k1::musig::KeyAggCache) -> Seq<Seq<u8>>;

/// What a secret nonce was made of.
pub uninterp spec fn nonce_inputs(nonce: secp256k1::musig::SecretNonce) -> NonceView;

/// The nonces that were aggregated, in their order.
pub uninterp spec fn aggregated_nonces(nonce: secp256k1::musig::AggregatedNonce) -> Seq<Seq<u8>>;

/// What a session was made of.
pub uninterp spec fn session_inputs(session: secp256k1::musig::Session) -> SessionView;

/// The x-only key that `secp256k1::musig::KeyAggCache::agg_pk` gives for keys and tweaks.
pub uninterp spec fn musig_key(keys: Seq<Seq<u8>>, tweaks: Seq<Seq<u8>>) -> Seq<u8>;

/// Whether `secp256k1::musig::KeyAggCache::pubkey_xonly_tweak_add` accepts one more tweak after
/// the given keys and tweaks.
pub uninterp spec fn musig_tweak_fits(
    keys: Seq<Seq<u8>>,
    tweaks: Seq<Seq<u8>>,
    tweak: Seq<u8>,
) -> bool;

/// Whether `secp256k1::musig::PublicNonce::from_byte_array` reads a nonce in 66 bytes.
pub uninterp spec fn is_public_nonce(bytes: Seq<u8>) -> bool;

/// The public nonce that `secp256k1::musig::KeyAggCache::nonce_gen_with_uniform_randomness`
/// makes.
pub uninterp spec fn musig_public_nonce(inputs: NonceView) -> Seq<u8>;

/// Whether `secp256k1::musig::Session::partial_verify` accepts a partial signature of the
/// signer with the given nonce and key.
pub uninterp spec fn musig_partial_verifies(
    session: SessionView,
    signature: Seq<u8>,
    nonce: Seq<u8>,
    key: Seq<u8>,
) -> bool;

/// The partial signature that `secp256k1::musig::Session::partial_sign` makes with a nonce and
/// a secret key.
pub uninterp spec fn musig_partial_signature(
    session: SessionView,
    nonce: NonceView,
    secret: Seq<u8>,
) -> Seq<u8>;

/// The signature that `secp256k1::musig::Session::partial_sig_agg` makes of partial signatures.
pub uninterp spec fn musig_signature(session: SessionView, partial: Seq<Seq<u8>>) -> Seq<u8>;

/// A list of byte arrays, as sequences.
pub open spec fn viewed_arrays<const N: usize>(items: Seq<[u8; N]>) -> Seq<Seq<u8>> {
    items.map_values(|item: [u8; N]| item@)
}

/// Whether 32 bytes are a partial signature: a number below the curve order.
pub open spec fn is_partial_signature(bytes: Seq<u8>) -> bool {
    bytes.len() == 32 && be_value(bytes) < curve_order()
}

/// Whether some bytes are the secret of a session: 32 of them, not all zero.
pub open spec fn is_session_secret(bytes: Seq<u8>) -> bool {
    bytes.len() == 32 && bytes != Seq::new(32, |i: int| 0u8)
}

/// `secp256k1::musig::KeyAggCache::new`: the keys, in the order given, without a tweak. The
/// call panics on no keys.
#[verifier::external_body]
pub(crate) fn key_agg_cache(keys: &[[u8; 33]]) -> (r: secp256k1::musig::KeyAggCache)
    requires
        keys@.len() > 0,
        forall|i: int| 0 <= i < keys@.len() ==> is_public_key((#[trigger] keys@[i])@),
    ensures
        cache_keys(r) == viewed_arrays(keys@),
        cache_tweaks(r) == Seq::<Seq<u8>>::empty(),
{
    let keys: Vec<secp256k1::PublicKey> = keys
        .iter()
        .map(|key| secp256k1::PublicKey::from_slice(key).unwrap())
        .collect();
    let keys: Vec<&secp256k1::PublicKey> = keys.iter().collect();
    secp256k1::musig::KeyAggCache::new(&keys)
}

/// `secp256k1::musig::KeyAggCache::agg_pk`: the sum of the keys with the tweaks, a point.
#[verifier::external_body]
pub(crate) fn agg_pk(cache: &secp256k1::musig::KeyAggCache) -> (r: [u8; 32])
    ensures
        r@ == musig_key(cache_keys(*cache), cache_tweaks(*cache)),
        is_xonly_key(r@),
{
    cache.agg_pk().serialize()
}

/// `secp256k1::musig::KeyAggCache::pubkey_xonly_tweak_add`, of a tweak below the curve order:
/// one tweak more, or none where the sum would be no point.
#[verifier::external_body]
fn tweak_add(cache: &mut secp256k1::musig::KeyAggCache, tweak: &[u8; 32]) -> (r: Result<
    (),
    String,
>)
    requires
        be_value(tweak@) < curve_order(),
    ensures
        r is Ok <==> musig_tweak_fits(cache_keys(*old(cache)), cache_tweaks(*old(cache)), tweak@),
        cache_keys(*final(cache)) == cache_keys(*old(cache)),
        r is Ok ==> cache_tweaks(*final(cache)) == cache_tweaks(*old(cache)).push(tweak@),
{
    let tweak = secp256k1::Scalar::from_be_bytes(*tweak).unwrap();
    cache.pubkey_xonly_tweak_add(&tweak).map(|_| ()).map_err(|e| e.to_string())
}

/// `secp256k1::musig::SessionSecretRand::from_rng`: 32 random bytes, of which nothing else is
/// known.
#[verifier::external_body]
fn random_session_secret() -> [u8; 32] {
    let mut rng = secp256k1::rand::rng();
    secp256k1::musig::SessionSecretRand::from_rng(&mut rng).to_secret_bytes()
}

/// `fill_bytes` of the system's random numbers: 32 random bytes, of which nothing else is
/// known.
#[verifier::external_body]
fn random_bytes() -> [u8; 32] {
    let mut bytes = [0u8; 32];
    bitcoin::key::rand::RngCore::fill_bytes(&mut bitcoin::key::rand::rngs::OsRng, &mut bytes);
    bytes
}

/// `secp256k1::musig::KeyAggCache::nonce_gen_with_uniform_randomness`: a pair of nonces, which
/// is made of the cache and the arguments alone. The call panics on a secret that is all zero.
#[verifier::external_body]
fn nonce_gen(
    cache: &secp256k1::musig::KeyAggCache,
    session_secret: &[u8; 32],
    signer: &[u8; 33],
    message: &[u8; 32],
    extra_rand: &[u8; 32],
) -> (r: (secp256k1::musig::SecretNonce, [u8; 66]))
    requires
        is_session_secret(session_secret@),
        is_public_key(signer@),
    ensures
        nonce_inputs(r.0) == (NonceView {
            keys: cache_keys(*cache),
            tweaks: cache_tweaks(*cache),
            session_secret: session_secret@,
            signer: signer@,
            message: message@,
            extra_rand: extra_rand@,
        }),
        r.1@ == musig_public_nonce(nonce_inputs(r.0)),
        is_public_nonce(r.1@),
{
    let secret = secp256k1::musig::SessionSecretRand::assume_uniformly_random(*session_secret);
    let signer = secp256k1::PublicKey::from_slice(signer).unwrap();
    let (secret_nonce, public_nonce) = cache
        .nonce_gen_with_uniform_randomness(secret, signer, message, *extra_rand);
    (secret_nonce, public_nonce.serialize())
}

/// `secp256k1::musig::PublicNonce::from_byte_array`, the outcome alone.
#[verifier::external_body]
pub(crate) fn check_public_nonce(bytes: &[u8; 66]) -> (r: bool)
    ensures
        r == is_public_nonce(bytes@),
{
    secp256k1::musig::PublicNonce::from_byte_array(bytes).is_ok()
}

/// `secp256k1::musig::PartialSignature::from_byte_array`, the outcome alone: whether the bytes
/// are a number below the curve order.
#[verifier::external_body]
pub(crate) fn check_partial_signature(bytes: &[u8; 32]) -> (r: bool)
    ensures
        r == is_partial_signature(bytes@),
{
    secp256k1::musig::PartialSignature::from_byte_array(bytes).is_ok()
}

/// `secp256k1::musig::AggregatedNonce::new`: the nonces, in the order given. The call panics on
/// no nonces.
#[verifier::external_body]
fn aggregate_nonces(nonces: &[[u8; 66]]) -> (r: secp256k1::musig::AggregatedNonce)
    requires
        nonces@.len() > 0,
        forall|i: int| 0 <= i < nonces@.len() ==> is_public_nonce((#[trigger] nonces@[i])@),
    ensures
        aggregated_nonces(r) == viewed_arrays(nonces@),
{
    let nonces: Vec<secp256k1::musig::PublicNonce> = nonces
        .iter()
        .map(|nonce| secp256k1::musig::PublicNonce::from_byte_array(nonce).unwrap())
        .collect();
    let nonces: Vec<&secp256k1::musig::PublicNonce> = nonces.iter().collect();
    secp256k1::musig::AggregatedNonce::new(&nonces)
}

/// `secp256k1::musig::Session::new`: a session of the keys, the nonces and the message.
#[verifier::external_body]
fn new_session(
    cache: &secp256k1::musig::KeyAggCache,
    nonce: secp256k1::musig::AggregatedNonce,
    message: &[u8; 32],
) -> (r: secp256k1::musig::Session)
    ensures
        session_inputs(r) == (SessionView {
            keys: cache_keys(*cache),
            tweaks: cache_tweaks(*cache),
            nonces: aggregated_nonces(nonce),
            message: message@,
        }),
{
    secp256k1::musig::Session::new(cache, nonce, message)
}

/// `secp256k1::musig::Session::partial_verify`, with the cache that the session was made of:
/// whether the partial signature is one of the signer with the given nonce and key.
#[verifier::external_body]
fn partial_verify(
    session: &secp256k1::musig::Session,
    cache: &secp256k1::musig::KeyAggCache,
    signature: &[u8; 32],
    nonce: &[u8; 66],
    key: &[u8; 33],
) -> (r: bool)
    requires
        session_inputs(*session).keys == cache_keys(*cache),
        session_inputs(*session).tweaks == cache_tweaks(*cache),
        is_partial_signature(signature@),
        is_public_nonce(nonce@),
        is_public_key(key@),
    ensures
        r == musig_partial_verifies(session_inputs(*session), signature@, nonce@, key@),
{
    let signature = secp256k1::musig::PartialSignature::from_byte_array(signature).unwrap();
    let nonce = secp256k1::musig::PublicNonce::from_byte_array(nonce).unwrap();
    let key = secp256k1::PublicKey::from_slice(key).unwrap();
    session.partial_verify(cache, &signature, &nonce, key)
}

/// `secp256k1::musig::Session::partial_sign`, with the cache that the session was made of: the
/// partial signature of the secret key and the nonce, a number below the curve order, which
/// `partial_verify` accepts for the nonce and the key. The call panics where the nonce was made
/// for another key.
#[verifier::external_body]
fn partial_sign(
    session: &secp256k1::musig::Session,
    nonce: secp256k1::musig::SecretNonce,
    secret: &[u8; 32],
    cache: &secp256k1::musig::KeyAggCache,
) -> (r: [u8; 32])
    requires
        session_inputs(*session).keys == cache_keys(*cache),
        session_inputs(*session).tweaks == cache_tweaks(*cache),
        is_secret_key(secret@),
        nonce_inputs(nonce).signer == public_key_of(secret@),
    ensures
        r@ == musig_partial_signature(session_inputs(*session), nonce_inputs(nonce), secret@),
        is_partial_signature(r@),
        musig_partial_verifies(
            session_inputs(*session),
            r@,
            musig_public_nonce(nonce_inputs(nonce)),
            public_key_of(secret@),
        ),
{
    let secret = secp256k1::SecretKey::from_secret_bytes(*secret).unwrap();
    let keys = secp256k1::Keypair::from_secret_key(&secret);
    session.partial_sign(nonce, &keys, cache).serialize()
}

/// `secp256k1::musig::Session::partial_sig_agg`: the signature that the partial signatures make
/// up, whether it verifies or not. The call panics on no partial signatures.
#[verifier::external_body]
fn aggregate_signatures(session: &secp256k1::musig::Session, partial: &[[u8; 32]]) -> (r: [u8; 64])
    requires
        partial@.len() > 0,
        forall|i: int| 0 <= i < partial@.len() ==> is_partial_signature((#[trigger] partial@[i])@),
    ensures
        r@ == musig_signature(session_inputs(*session), viewed_arrays(partial@)),
{
    let partial: Vec<secp256k1::musig::PartialSignature> = partial
        .iter()
        .map(|part| secp256k1::musig::PartialSignature::from_byte_array(part).unwrap())
        .collect();
    let partial: Vec<&secp256k1::musig::PartialSignature> = partial.iter().collect();
    session.partial_sig_agg(&partial).assume_valid().to_byte_array()
}

/// Keys without a tweak, with one added, or `None` where they do not take it.
pub(crate) fn with_tweak(cache: secp256k1::musig::KeyAggCache, tweak: &[u8; 32]) -> (r: Option<
    secp256k1::musig::KeyAggCache,
>)
    requires
        be_value(tweak@) < curve_order(),
        cache_tweaks(cache) == Seq::<Seq<u8>>::empty(),
    ensures
        match r {
            Some(tweaked) => musig_tweak_fits(cache_keys(cache), seq![], tweak@) && cache_keys(
                tweaked,
            ) == cache_keys(cache) && cache_tweaks(tweaked) == seq![tweak@],
            None => !musig_tweak_fits(cache_keys(cache), seq![], tweak@),
        },
{
    let mut cache = cache;
    match tweak_add(&mut cache, tweak) {
        Ok(_) => {
            assert(cache_tweaks(cache) =~= seq![tweak@]);
            Some(cache)
        },
        Err(_) => None,
    }
}

/// What a signing session needs of chance: the secret of the session, and randomness on top.
#[derive(Clone, Copy)]
pub struct SessionRandomness {
    pub session_secret: [u8; 32],
    pub extra_rand: [u8; 32],
}

/// What a signing session needs of chance, from what was drawn, or an [`Error::Key`] where the
/// secret is all zero.
pub fn session_randomness(session_secret: [u8; 32], extra_rand: [u8; 32]) -> (r: Result<
    SessionRandomness,
    Error,
>)
    ensures
        match r {
            Ok(drawn) => is_session_secret(session_secret@) && drawn.session_secret@
                == session_secret@ && drawn.extra_rand@ == extra_rand@,
            Err(e) => !is_session_secret(session_secret@) && (e matches Error::Key(_)),
        },
{
    let zero: [u8; 32] = [0u8; 32];
    assert(zero@ =~= Seq::new(32, |i: int| 0u8));
    if same_bytes(&session_secret, &zero) {
        return Err(Error::Key("the secret of a session may not be all zero".to_owned()));
    }
    Ok(SessionRandomness { session_secret, extra_rand })
}

/// Draws what a signing session needs of chance. Where the secret that was drawn is all zero, a
/// random secret key, which never is, takes its place.
pub fn draw_session_randomness() -> (r: Result<SessionRandomness, Error>)
    ensures
        r matches Ok(drawn) && is_session_secret(drawn.session_secret@),
{
    match session_randomness(random_session_secret(), random_bytes()) {
        Ok(drawn) => Ok(drawn),
        Err(_) => {
            let secret = draw_keypair().secret_bytes();
            proof {
                if secret@ == Seq::new(32, |i: int| 0u8) {
                    lemma_be_zeros(secret@);
                }
            }
            session_randomness(secret, random_bytes())
        },
    }
}

/// A signature in the making: our nonce is drawn, and the other signer's part is missing.
pub struct PendingSignature {
    cache: secp256k1::musig::KeyAggCache,
    secret_nonce: secp256k1::musig::SecretNonce,
    public_nonce: [u8; 66],
    message: [u8; 32],
    signer: Keypair,
}

/// What a [`PendingSignature`] holds: what our nonce was made of, and our secret key.
#[verifier::ext_equal]
pub struct PendingView {
    pub nonce: NonceView,
    pub secret: Seq<u8>,
}

impl View for PendingSignature {
    type V = PendingView;

    closed spec fn view(&self) -> PendingView {
        PendingView { nonce: nonce_inputs(self.secret_nonce), secret: self.signer@ }
    }
}

impl PendingView {
    /// The session in which the other signer's nonce comes first and ours second.
    pub open spec fn session(self, their_nonce: Seq<u8>) -> SessionView {
        SessionView {
            keys: self.nonce.keys,
            tweaks: self.nonce.tweaks,
            nonces: seq![their_nonce, musig_public_nonce(self.nonce)],
            message: self.nonce.message,
        }
    }

    /// Our partial signature.
    pub open spec fn part(self, their_nonce: Seq<u8>) -> Seq<u8> {
        musig_partial_signature(self.session(their_nonce), self.nonce, self.secret)
    }

    /// Whether our partial signature verifies under our key.
    pub open spec fn part_verifies(self, their_nonce: Seq<u8>) -> bool {
        musig_partial_verifies(
            self.session(their_nonce),
            self.part(their_nonce),
            musig_public_nonce(self.nonce),
            public_key_of(self.secret),
        )
    }

    /// The signature that the other signer's part and ours make up.
    pub open spec fn signature(self, their_nonce: Seq<u8>, their_part: Seq<u8>) -> Seq<u8> {
        musig_signature(self.session(their_nonce), seq![their_part, self.part(their_nonce)])
    }
}

/// Whether a signature comes to what it should: an [`Error::Taproot`] where the other signer's
/// part does not verify, an [`Error::Signature`] where the whole does not, and the signature
/// where both do.
pub open spec fn is_completed(
    pending: PendingView,
    their_nonce: Seq<u8>,
    their_part: Seq<u8>,
    their_key: Seq<u8>,
    output_key: Seq<u8>,
    r: Result<Seq<u8>, Error>,
) -> bool {
    let signature = pending.signature(their_nonce, their_part);
    if !musig_partial_verifies(
        pending.session(their_nonce),
        their_part,
        their_nonce,
        their_key,
    ) {
        r matches Err(Error::Taproot(t)) && t@ == "Unable to verify Partial Signature"@
    } else if !schnorr_verifies(signature, pending.nonce.message, output_key) {
        r matches Err(Error::Signature(_))
    } else {
        r == Ok::<Seq<u8>, Error>(signature)
    }
}

/// The outcome of a signing, its signature taken as a sequence.
pub open spec fn signature_outcome(r: Result<[u8; 64], Error>) -> Result<Seq<u8>, Error> {
    match r {
        Ok(signature) => Ok(signature@),
        Err(e) => Err(e),
    }
}

impl PendingSignature {
    #[verifier::type_invariant]
    spec fn well_formed(self) -> bool {
        let nonce = nonce_inputs(self.secret_nonce);
        &&& nonce.keys == cache_keys(self.cache)
        &&& nonce.tweaks == cache_tweaks(self.cache)
        &&& nonce.signer == public_key_of(self.signer@)
        &&& nonce.message == self.message@
        &&& self.public_nonce@ == musig_public_nonce(nonce)
        &&& is_public_nonce(self.public_nonce@)
    }

    /// Starts a signature of a message, with the keys that a cache holds.
    pub(crate) fn start(
        cache: secp256k1::musig::KeyAggCache,
        signer: &Keypair,
        message: &[u8; 32],
        drawn: &SessionRandomness,
    ) -> (r: PendingSignature)
        requires
            is_session_secret(drawn.session_secret@),
        ensures
            r@ == (PendingView {
                nonce: NonceView {
                    keys: cache_keys(cache),
                    tweaks: cache_tweaks(cache),
                    session_secret: drawn.session_secret@,
                    signer: public_key_of(signer@),
                    message: message@,
                    extra_rand: drawn.extra_rand@,
                },
                secret: signer@,
            }),
    {
        let public_key = signer.public_key().to_bytes();
        let (secret_nonce, public_nonce) = nonce_gen(
            &cache,
            &drawn.session_secret,
            &public_key,
            message,
            &drawn.extra_rand,
        );
        PendingSignature { cache, secret_nonce, public_nonce, message: *message, signer: *signer }
    }

    /// Our public nonce.
    pub fn public_nonce(&self) -> (r: [u8; 66])
        ensures
            r@ == musig_public_nonce(self@.nonce),
            is_public_nonce(r@),
    {
        proof {
            use_type_invariant(self);
        }
        self.public_nonce
    }

    /// Our partial signature, for a session with the other signer's nonce: it verifies under our
    /// key.
    pub(crate) fn sign_part(self, their_nonce: &[u8; 66]) -> (r: [u8; 32])
        requires
            is_public_nonce(their_nonce@),
        ensures
            r@ == self@.part(their_nonce@),
            is_partial_signature(r@),
            self@.part_verifies(their_nonce@),
    {
        proof {
            use_type_invariant(&self);
        }
        let nonces: [[u8; 66]; 2] = [*their_nonce, self.public_nonce];
        let session = new_session(&self.cache, aggregate_nonces(&nonces), &self.message);
        assert(session_inputs(session) =~~= self@.session(their_nonce@));
        let secret = self.signer.secret_bytes();
        partial_sign(&session, self.secret_nonce, &secret, &self.cache)
    }

    /// The signature, from the other signer's nonce and part: both the part, under the other
    /// signer's key, and the whole, under the key of the output, have to verify.
    pub fn complete(
        self,
        their_nonce: &[u8; 66],
        their_part: &[u8; 32],
        their_key: &PublicKey,
        output_key: &[u8; 32],
    ) -> (r: Result<[u8; 64], Error>)
        requires
            is_public_nonce(their_nonce@),
            is_partial_signature(their_part@),
            is_xonly_key(output_key@),
        ensures
            is_completed(
                self@,
                their_nonce@,
                their_part@,
                their_key@,
                output_key@,
                signature_outcome(r),
            ),
    {
        proof {
            use_type_invariant(&self);
        }
        let message = self.message;
        let ghost pending = self@;
        let nonces: [[u8; 66]; 2] = [*their_nonce, self.public_nonce];
        let session = new_session(&self.cache, aggregate_nonces(&nonces), &message);
        assert(session_inputs(session) =~~= pending.session(their_nonce@));
        let key = their_key.to_bytes();
        if !partial_verify(&session, &self.cache, their_part, their_nonce, &key) {
            return Err(Error::Taproot("Unable to verify Partial Signature".to_owned()));
        }
        let secret = self.signer.secret_bytes();
        let part = partial_sign(&session, self.secret_nonce, &secret, &self.cache);
        let parts: [[u8; 32]; 2] = [*their_part, part];
        let signature = aggregate_signatures(&session, &parts);
        assert(viewed_arrays(parts@) =~= seq![their_part@, part@]);
        match verify_schnorr(&signature, &message, output_key) {
            Ok(_) => Ok(signature),
            Err(text) => Err(Error::Signature(text)),
        }
    }
}

} // verus!
