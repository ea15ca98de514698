//! Transactions of the Liquid network, held as plain values, and what the `elements` crate
//! computes from them.
use crate::bytes::{be_digits, to_vec};
use crate::error::Error;
use elements::encode::deserialize;
use elements::secp256k1_zkp::{RangeProof, SurjectionProof};
use vstd::prelude::*;

verus! {

/// An output of a transaction, by the transaction's id and the output's place in it.
#[derive(Debug, Clone, Copy, PartialEq, Eq)]
pub struct OutPoint {
    pub txid: [u8; 32],
    pub vout: u32,
}

/// An input without an issuance and without a peg-in.
#[derive(Debug, Clone, PartialEq, Eq)]
pub struct Input {
    pub previous_output: OutPoint,
    pub script_sig: Vec<u8>,
    pub sequence: u32,
    pub witness: Vec<Vec<u8>>,
}

/// The parts of an output. Asset, value and nonce are in the form in which a transaction
/// carries them: a byte that says whether they are null, explicit or confidential, and what
/// belongs to it.
#[derive(Debug, PartialEq, Eq)]
pub struct OutputParts {
    pub asset: Vec<u8>,
    pub value: Vec<u8>,
    pub nonce: Vec<u8>,
    pub script_pubkey: Vec<u8>,
    pub surjection_proof: Option<Vec<u8>>,
    pub rangeproof: Option<Vec<u8>>,
}

/// An output whose parts are well formed.
#[derive(Debug, PartialEq, Eq)]
pub struct Output {
    parts: OutputParts,
}

/// A transaction.
#[derive(Debug, Clone, PartialEq, Eq)]
pub struct Tx {
    pub version: u32,
    pub lock_time: u32,
    pub input: Vec<Input>,
    pub output: Vec<Output>,
}

/// What a [`Input`] holds.
#[verifier::ext_equal]
pub struct InputView {
    pub txid: Seq<u8>,
    pub vout: u32,
    pub script_sig: Seq<u8>,
    pub sequence: u32,
    pub witness: Seq<Seq<u8>>,
}

/// What a [`Output`] holds.
#[verifier::ext_equal]
pub struct OutputView {
    pub asset: Seq<u8>,
    pub value: Seq<u8>,
    pub nonce: Seq<u8>,
    pub script_pubkey: Seq<u8>,
    pub surjection_proof: Option<Seq<u8>>,
    pub rangeproof: Option<Seq<u8>>,
}

/// What a [`Tx`] holds.
#[verifier::ext_equal]
pub struct TxView {
    pub version: u32,
    pub lock_time: u32,
    pub input: Seq<InputView>,
    pub output: Seq<OutputView>,
}

/// The sizes of what an input holds, by which a transaction with it is measured.
#[verifier::ext_equal]
pub struct InputSizes {
    pub script_sig: nat,
    pub witness: Seq<nat>,
}

/// The sizes of what an output holds, by which a transaction with it is measured. A confidential
/// nonce is as long as an explicit one, and has a discount of its own.
#[verifier::ext_equal]
pub struct OutputSizes {
    pub asset: nat,
    pub value: nat,
    pub nonce: nat,
    pub has_confidential_nonce: bool,
    pub script_pubkey: nat,
    pub surjection_proof: Option<nat>,
    pub rangeproof: Option<nat>,
}

/// The sizes of what a transaction holds, by which it is measured.
#[verifier::ext_equal]
pub struct TxSizes {
    pub input: Seq<InputSizes>,
    pub output: Seq<OutputSizes>,
}

/// The size of bytes that may be missing.
pub open spec fn optional_size(bytes: Option<Seq<u8>>) -> Option<nat> {
    match bytes {
        Some(bytes) => Some(bytes.len()),
        None => None,
    }
}

/// Whether a nonce is confidential: a public key in compressed form.
pub open spec fn is_confidential_nonce(nonce: Seq<u8>) -> bool {
    nonce.len() == 33 && (nonce[0] == 2 || nonce[0] == 3)
}

impl InputView {
    /// The sizes of what the input holds.
    pub open spec fn sizes(self) -> InputSizes {
        InputSizes {
            script_sig: self.script_sig.len(),
            witness: self.witness.map_values(|item: Seq<u8>| item.len()),
        }
    }
}

impl OutputView {
    /// The sizes of what the output holds.
    pub open spec fn sizes(self) -> OutputSizes {
        OutputSizes {
            asset: self.asset.len(),
            value: self.value.len(),
            nonce: self.nonce.len(),
            has_confidential_nonce: is_confidential_nonce(self.nonce),
            script_pubkey: self.script_pubkey.len(),
            surjection_proof: optional_size(self.surjection_proof),
            rangeproof: optional_size(self.rangeproof),
        }
    }
}

impl TxView {
    /// The sizes of what the transaction holds.
    pub open spec fn sizes(self) -> TxSizes {
        TxSizes {
            input: self.input.map_values(|i: InputView| i.sizes()),
            output: self.output.map_values(|o: OutputView| o.sizes()),
        }
    }

    /// The transaction without the witnesses of its inputs, which no signature covers.
    pub open spec fn without_witness(self) -> TxView {
        TxView {
            input: self.input.map_values(|i: InputView| InputView { witness: seq![], ..i }),
            ..self
        }
    }
}

/// A list of byte strings, as sequences.
pub open spec fn viewed_items(items: Seq<Vec<u8>>) -> Seq<Seq<u8>> {
    items.map_values(|item: Vec<u8>| item@)
}

/// Bytes that may be missing, as a sequence.
pub open spec fn optional_vec(bytes: Option<Vec<u8>>) -> Option<Seq<u8>> {
    match bytes {
        Some(bytes) => Some(bytes@),
        None => None,
    }
}

impl View for Input {
    type V = InputView;

    open spec fn view(&self) -> InputView {
        InputView {
            txid: self.previous_output.txid@,
            vout: self.previous_output.vout,
            script_sig: self.script_sig@,
            sequence: self.sequence,
            witness: viewed_items(self.witness@),
        }
    }
}

impl View for OutputParts {
    type V = OutputView;

    open spec fn view(&self) -> OutputView {
        OutputView {
            asset: self.asset@,
            value: self.value@,
            nonce: self.nonce@,
            script_pubkey: self.script_pubkey@,
            surjection_proof: optional_vec(self.surjection_proof),
            rangeproof: optional_vec(self.rangeproof),
        }
    }
}

impl View for Output {
    type V = OutputView;

    closed spec fn view(&self) -> OutputView {
        self.parts@
    }
}

fn copy_optional(bytes: &Option<Vec<u8>>) -> (r: Option<Vec<u8>>)
    ensures
        optional_vec(r) == optional_vec(*bytes),
{
    match bytes {
        Some(bytes) => Some(to_vec(bytes.as_slice())),
        None => None,
    }
}

impl Clone for OutputParts {
    fn clone(&self) -> (r: Self)
        ensures
            r@ == self@,
    {
        OutputParts {
            asset: to_vec(self.asset.as_slice()),
            value: to_vec(self.value.as_slice()),
            nonce: to_vec(self.nonce.as_slice()),
            script_pubkey: to_vec(self.script_pubkey.as_slice()),
            surjection_proof: copy_optional(&self.surjection_proof),
            rangeproof: copy_optional(&self.rangeproof),
        }
    }
}

impl Clone for Output {
    fn clone(&self) -> (r: Self)
        ensures
            r@ == self@,
    {
        proof {
            use_type_invariant(self);
        }
        Output { parts: self.parts.clone() }
    }
}

impl View for Tx {
    type V = TxView;

    open spec fn view(&self) -> TxView {
        TxView {
            version: self.version,
            lock_time: self.lock_time,
            input: self.input@.map_values(|i: Input| i@),
            output: self.output@.map_values(|o: Output| o@),
        }
    }
}

/// Whether `elements::encode::deserialize` reads an asset in some bytes.
pub uninterp spec fn is_asset(bytes: Seq<u8>) -> bool;

/// Whether `elements::encode::deserialize` reads a value in some bytes.
pub uninterp spec fn is_value(bytes: Seq<u8>) -> bool;

/// Whether `elements::encode::deserialize` reads a nonce in some bytes.
pub uninterp spec fn is_nonce(bytes: Seq<u8>) -> bool;

/// Whether `secp256k1_zkp::SurjectionProof::from_slice` reads a proof in some bytes.
pub uninterp spec fn is_surjection_proof(bytes: Seq<u8>) -> bool;

/// Whether `secp256k1_zkp::RangeProof::from_slice` reads a proof in some bytes.
pub uninterp spec fn is_rangeproof(bytes: Seq<u8>) -> bool;

/// Whether every part of an output can be read.
pub open spec fn is_output(output: OutputView) -> bool {
    &&& is_asset(output.asset)
    &&& is_value(output.value)
    &&& is_nonce(output.nonce)
    &&& output.surjection_proof matches Some(proof) ==> is_surjection_proof(proof)
    &&& output.rangeproof matches Some(proof) ==> is_rangeproof(proof)
}

/// `elements::TxOut`, an output as the outside crate holds it.
#[verifier::external_type_specification]
#[verifier::external_body]
pub struct ExTxOut(elements::TxOut);

/// `elements::Transaction`, a transaction as the outside crate holds it.
#[verifier::external_type_specification]
#[verifier::external_body]
pub struct ExTransaction(elements::Transaction);

/// The parts that an `elements::TxOut` holds.
pub uninterp spec fn output_parts(output: elements::TxOut) -> OutputView;

/// The inputs that an `elements::Transaction` holds.
pub uninterp spec fn chain_inputs(tx: elements::Transaction) -> Seq<InputView>;

/// The outputs that an `elements::Transaction` holds.
pub uninterp spec fn chain_outputs(tx: elements::Transaction) -> Seq<OutputView>;

/// The version and the lock time that an `elements::Transaction` holds.
pub uninterp spec fn chain_header(tx: elements::Transaction) -> (u32, u32);

/// What an `elements::Transaction` holds.
pub open spec fn chain_view(tx: elements::Transaction) -> TxView {
    TxView {
        version: chain_header(tx).0,
        lock_time: chain_header(tx).1,
        input: chain_inputs(tx),
        output: chain_outputs(tx),
    }
}

/// The hash that `elements::sighash::SighashCache::taproot_key_spend_signature_hash` gives for
/// a transaction without witnesses, an input, the outputs that are spent and a genesis hash.
pub uninterp spec fn key_spend_hash(
    tx: TxView,
    index: nat,
    spent: Seq<OutputView>,
    genesis: Seq<u8>,
) -> Seq<u8>;

/// The hash that `elements::sighash::SighashCache::taproot_script_spend_signature_hash` gives
/// for a transaction without witnesses, an input, the outputs that are spent, a leaf hash and a
/// genesis hash.
pub uninterp spec fn script_spend_hash(
    tx: TxView,
    index: nat,
    spent: Seq<OutputView>,
    leaf_hash: Seq<u8>,
    genesis: Seq<u8>,
) -> Seq<u8>;

/// The size that `elements::Transaction::vsize` gives for a transaction that holds things of
/// these sizes.
pub uninterp spec fn chain_vsize(sizes: TxSizes) -> usize;

/// The size that `elements::Transaction::discount_vsize` gives for a transaction that holds
/// things of these sizes.
pub uninterp spec fn chain_discount_vsize(sizes: TxSizes) -> usize;

/// The bytes that `elements::encode::serialize` gives for a transaction.
pub uninterp spec fn chain_bytes(tx: TxView) -> Seq<u8>;

/// What `elements::encode::deserialize` reads in the bytes of a transaction: its id and its
/// outputs.
pub uninterp spec fn decoded_transaction(bytes: Seq<u8>) -> Option<(Seq<u8>, Seq<OutputView>)>;

/// `elements::encode::deserialize` on the asset, the value and the nonce, and `from_slice` of
/// the two proofs: the output that the parts make up, where each can be read.
#[verifier::external_body]
fn parse_output(parts: &OutputParts) -> (r: Result<elements::TxOut, String>)
    ensures
        r is Ok <==> is_output(parts@),
        r matches Ok(output) ==> output_parts(output) == parts@,
{
    let build = || -> Result<elements::TxOut, Box<dyn std::error::Error>> {
        let surjection = parts.surjection_proof.as_deref().map(SurjectionProof::from_slice);
        let range = parts.rangeproof.as_deref().map(RangeProof::from_slice);
        let witness = elements::TxOutWitness {
            surjection_proof: surjection.transpose()?.map(Box::new),
            rangeproof: range.transpose()?.map(Box::new),
        };
        let asset = deserialize(&parts.asset)?;
        let value = deserialize(&parts.value)?;
        let nonce = deserialize(&parts.nonce)?;
        let script_pubkey = elements::Script::from(parts.script_pubkey.clone());
        Ok(elements::TxOut { asset, value, nonce, script_pubkey, witness })
    };
    build().map_err(|e| e.to_string())
}

/// The parts of an `elements::TxOut`, each written by `elements::encode::serialize` or by its
/// own `serialize`: they can be read again.
#[verifier::external_body]
fn split_output(output: &elements::TxOut) -> (r: OutputParts)
    ensures
        r@ == output_parts(*output),
        is_output(r@),
{
    OutputParts {
        asset: elements::encode::serialize(&output.asset),
        value: elements::encode::serialize(&output.value),
        nonce: elements::encode::serialize(&output.nonce),
        script_pubkey: output.script_pubkey.to_bytes(),
        surjection_proof: output.witness.surjection_proof.as_ref().map(|p| p.serialize()),
        rangeproof: output.witness.rangeproof.as_ref().map(|p| p.serialize()),
    }
}

/// An `elements::Transaction` without inputs and outputs.
#[verifier::external_body]
fn empty_transaction(version: u32, lock_time: u32) -> (r: elements::Transaction)
    ensures
        chain_header(r) == (version, lock_time),
        chain_inputs(r) == Seq::<InputView>::empty(),
        chain_outputs(r) == Seq::<OutputView>::empty(),
{
    let lock_time = elements::LockTime::from_consensus(lock_time);
    elements::Transaction { version, lock_time, input: vec![], output: vec![] }
}

/// One input more in an `elements::Transaction`, without issuance and peg-in.
#[verifier::external_body]
fn push_input(tx: &mut elements::Transaction, input: &Input)
    ensures
        chain_header(*final(tx)) == chain_header(*old(tx)),
        chain_inputs(*final(tx)) == chain_inputs(*old(tx)).push(input@),
        chain_outputs(*final(tx)) == chain_outputs(*old(tx)),
{
    let txid = elements::hashes::Hash::from_byte_array(input.previous_output.txid);
    let witness = elements::TxInWitness {
        script_witness: input.witness.clone(),
        ..Default::default()
    };
    tx.input.push(elements::TxIn {
        previous_output: elements::OutPoint::new(txid, input.previous_output.vout),
        is_pegin: false,
        script_sig: elements::Script::from(input.script_sig.clone()),
        sequence: elements::Sequence(input.sequence),
        asset_issuance: Default::default(),
        witness,
    });
}

/// One output more in an `elements::Transaction`.
#[verifier::external_body]
fn push_output(tx: &mut elements::Transaction, output: elements::TxOut)
    ensures
        chain_header(*final(tx)) == chain_header(*old(tx)),
        chain_inputs(*final(tx)) == chain_inputs(*old(tx)),
        chain_outputs(*final(tx)) == chain_outputs(*old(tx)).push(output_parts(output)),
{
    tx.output.push(output);
}

/// `elements::TxOut::new_fee`: an explicit amount of an explicit asset, to the empty script.
#[verifier::external_body]
fn outside_fee(amount: u64, asset: &[u8; 32]) -> (r: elements::TxOut)
    ensures
        output_parts(r) == fee_output(amount, asset@),
{
    elements::TxOut::new_fee(amount, elements::AssetId::from_byte_array(*asset))
}

/// `elements::sighash::SighashCache::taproot_key_spend_signature_hash`, with the default hash
/// type and one spent output: it gives a hash for a transaction with one input and refuses any
/// other. The hash does not cover the witness of the input.
#[verifier::external_body]
fn outside_key_spend_hash(
    tx: &elements::Transaction,
    index: usize,
    spent: &elements::TxOut,
    genesis: &[u8; 32],
) -> (r: Result<[u8; 32], String>)
    ensures
        r is Ok <==> chain_inputs(*tx).len() == 1,
        r matches Ok(hash) ==> hash@ == key_spend_hash(
            chain_view(*tx).without_witness(),
            index as nat,
            seq![output_parts(*spent)],
            genesis@,
        ),
{
    elements::sighash::SighashCache::new(tx)
        .taproot_key_spend_signature_hash(
            index,
            &elements::sighash::Prevouts::All(&[spent]),
            elements::SchnorrSighashType::Default,
            elements::hashes::Hash::from_byte_array(*genesis),
        )
        .map(|hash| elements::hashes::Hash::to_byte_array(hash))
        .map_err(|e| e.to_string())
}

/// `elements::sighash::SighashCache::taproot_script_spend_signature_hash`, with the default
/// hash type and one spent output: it gives a hash for a transaction with one input and refuses
/// any other. The hash does not cover the witness of the input.
#[verifier::external_body]
fn outside_script_spend_hash(
    tx: &elements::Transaction,
    index: usize,
    spent: &elements::TxOut,
    leaf_hash: &[u8; 32],
    genesis: &[u8; 32],
) -> (r: Result<[u8; 32], String>)
    ensures
        r is Ok <==> chain_inputs(*tx).len() == 1,
        r matches Ok(hash) ==> hash@ == script_spend_hash(
            chain_view(*tx).without_witness(),
            index as nat,
            seq![output_parts(*spent)],
            leaf_hash@,
            genesis@,
        ),
{
    let leaf: elements::taproot::TapLeafHash = elements::hashes::Hash::from_byte_array(*leaf_hash);
    elements::sighash::SighashCache::new(tx)
        .taproot_script_spend_signature_hash(
            index,
            &elements::sighash::Prevouts::All(&[spent]),
            leaf,
            elements::SchnorrSighashType::Default,
            elements::hashes::Hash::from_byte_array(*genesis),
        )
        .map(|hash| elements::hashes::Hash::to_byte_array(hash))
        .map_err(|e| e.to_string())
}

/// `elements::Transaction::vsize`, which counts what the transaction holds by its sizes alone.
#[verifier::external_body]
fn outside_vsize(tx: &elements::Transaction) -> (r: usize)
    ensures
        r == chain_vsize(chain_view(*tx).sizes()),
{
    tx.vsize()
}

/// `elements::Transaction::discount_vsize`, which counts what the transaction holds by its sizes
/// alone, and takes a discount for confidential outputs off what `vsize` counts.
#[verifier::external_body]
fn outside_discount_vsize(tx: &elements::Transaction) -> (r: usize)
    ensures
        r == chain_discount_vsize(chain_view(*tx).sizes()),
        r <= chain_vsize(chain_view(*tx).sizes()),
{
    tx.discount_vsize()
}

/// `elements::encode::serialize` on a transaction.
#[verifier::external_body]
fn outside_bytes(tx: &elements::Transaction) -> (r: Vec<u8>)
    ensures
        r@ == chain_bytes(chain_view(*tx)),
{
    elements::encode::serialize(tx)
}

/// `elements::encode::deserialize` on the bytes of a transaction, which is taken by its `txid`
/// and its outputs. It reads no list of more than a few million bytes.
#[verifier::external_body]
fn outside_decode(bytes: &[u8]) -> (r: Result<([u8; 32], Vec<elements::TxOut>), String>)
    ensures
        r is Ok <==> decoded_transaction(bytes@) is Some,
        r matches Ok(tx) ==> decoded_transaction(bytes@) == Some(
            (tx.0@, tx.1@.map_values(|o: elements::TxOut| output_parts(o))),
        ),
        r matches Ok(tx) ==> tx.1@.len() <= u32::MAX,
{
    elements::encode::deserialize::<elements::Transaction>(bytes)
        .map(|tx| (elements::hashes::Hash::to_byte_array(tx.txid()), tx.output))
        .map_err(|e| e.to_string())
}

/// The output that pays a fee: an explicit amount of an explicit asset, to the empty script.
pub open spec fn fee_output(amount: u64, asset: Seq<u8>) -> OutputView {
    OutputView {
        asset: seq![1u8] + asset,
        value: seq![1u8] + be_digits(amount as nat, 8),
        nonce: seq![0u8],
        script_pubkey: seq![],
        surjection_proof: None,
        rangeproof: None,
    }
}

impl Output {
    #[verifier::type_invariant]
    spec fn well_formed(self) -> bool {
        is_output(self.parts@)
    }

    /// The output that the parts make up, or an [`Error::Encode`] where one of them cannot be
    /// read.
    pub fn from_parts(parts: OutputParts) -> (r: Result<Output, Error>)
        ensures
            is_output(parts@) ==> (r matches Ok(output) && output@ == parts@),
            !is_output(parts@) ==> (r matches Err(Error::Encode(_))),
    {
        match parse_output(&parts) {
            Ok(_) => Ok(Output { parts }),
            Err(text) => Err(Error::Encode(text)),
        }
    }

    /// The output of parts that are known to be well formed.
    pub(crate) fn of_parts(parts: OutputParts) -> (r: Output)
        requires
            is_output(parts@),
        ensures
            r@ == parts@,
    {
        Output { parts }
    }

    /// The parts.
    pub fn parts(&self) -> (r: &OutputParts)
        ensures
            r@ == self@,
            is_output(r@),
    {
        proof {
            use_type_invariant(self);
        }
        &self.parts
    }

    /// The output that pays a fee.
    pub fn new_fee(amount: u64, asset: &[u8; 32]) -> (r: Output)
        ensures
            r@ == fee_output(amount, asset@),
    {
        Output { parts: split_output(&outside_fee(amount, asset)) }
    }

    /// The output as the outside crate holds it.
    pub(crate) fn to_outside(&self) -> (r: elements::TxOut)
        ensures
            output_parts(r) == self@,
    {
        proof {
            use_type_invariant(self);
        }
        parse_output(&self.parts).unwrap()
    }
}

impl Tx {
    fn to_outside(&self) -> (r: elements::Transaction)
        ensures
            chain_view(r) == self@,
    {
        let mut tx = empty_transaction(self.version, self.lock_time);
        let mut i: usize = 0;
        while i < self.input.len()
            invariant
                i <= self.input@.len(),
                chain_header(tx) == (self.version, self.lock_time),
                chain_inputs(tx) == self@.input.take(i as int),
                chain_outputs(tx) == Seq::<OutputView>::empty(),
            decreases self.input@.len() - i,
        {
            push_input(&mut tx, &self.input[i]);
            i = i + 1;
            assert(chain_inputs(tx) =~= self@.input.take(i as int));
        }
        assert(self@.input.take(i as int) =~= self@.input);
        let mut i: usize = 0;
        while i < self.output.len()
            invariant
                i <= self.output@.len(),
                chain_header(tx) == (self.version, self.lock_time),
                chain_inputs(tx) == self@.input,
                chain_outputs(tx) == self@.output.take(i as int),
            decreases self.output@.len() - i,
        {
            push_output(&mut tx, self.output[i].to_outside());
            i = i + 1;
            assert(chain_outputs(tx) =~= self@.output.take(i as int));
        }
        assert(self@.output.take(i as int) =~= self@.output);
        tx
    }

    /// The hash that a signature for spending an output by its key signs, or an
    /// [`Error::Sighash`] where the transaction has not one input.
    pub fn key_spend_hash(&self, spent: &Output, genesis: &[u8; 32]) -> (r: Result<
        [u8; 32],
        Error,
    >)
        ensures
            self@.input.len() == 1 ==> (r matches Ok(hash) && hash@ == key_spend_hash(
                self@.without_witness(),
                0,
                seq![spent@],
                genesis@,
            )),
            self@.input.len() != 1 ==> (r matches Err(Error::Sighash(_))),
    {
        match outside_key_spend_hash(&self.to_outside(), 0, &spent.to_outside(), genesis) {
            Ok(hash) => Ok(hash),
            Err(text) => Err(Error::Sighash(text)),
        }
    }

    /// The hash that a signature for spending an output by a script signs, or an
    /// [`Error::Sighash`] where the transaction has not one input.
    pub fn script_spend_hash(
        &self,
        spent: &Output,
        leaf_hash: &[u8; 32],
        genesis: &[u8; 32],
    ) -> (r: Result<[u8; 32], Error>)
        ensures
            self@.input.len() == 1 ==> (r matches Ok(hash) && hash@ == script_spend_hash(
                self@.without_witness(),
                0,
                seq![spent@],
                leaf_hash@,
                genesis@,
            )),
            self@.input.len() != 1 ==> (r matches Err(Error::Sighash(_))),
    {
        let spent = spent.to_outside();
        match outside_script_spend_hash(&self.to_outside(), 0, &spent, leaf_hash, genesis) {
            Ok(hash) => Ok(hash),
            Err(text) => Err(Error::Sighash(text)),
        }
    }

    /// The bytes of the transaction.
    pub fn serialize(&self) -> (r: Vec<u8>)
        ensures
            r@ == chain_bytes(self@),
    {
        outside_bytes(&self.to_outside())
    }
}

/// The size for which a transaction pays: with the discount for confidential outputs, or
/// without.
pub open spec fn size_of(tx: TxView, is_discount_ct: bool) -> usize {
    if is_discount_ct {
        chain_discount_vsize(tx.sizes())
    } else {
        chain_vsize(tx.sizes())
    }
}

/// The size for which a transaction pays, which with the discount is never above that without.
pub fn tx_size(tx: &Tx, is_discount_ct: bool) -> (r: usize)
    ensures
        r == size_of(tx@, is_discount_ct),
        r <= size_of(tx@, false),
{
    let tx = tx.to_outside();
    if is_discount_ct {
        outside_discount_vsize(&tx)
    } else {
        outside_vsize(&tx)
    }
}

/// The id and the outputs of the transaction that some bytes hold, or an [`Error::Encode`]
/// where they hold none.
pub fn decode_transaction(bytes: &[u8]) -> (r: Result<([u8; 32], Vec<Output>), Error>)
    ensures
        match decoded_transaction(bytes@) {
            Some(tx) => r matches Ok(found) && found.0@ == tx.0 && found.1@.map_values(
                |o: Output| o@,
            ) == tx.1 && found.1@.len() <= u32::MAX,
            None => r matches Err(Error::Encode(_)),
        },
{
    match outside_decode(bytes) {
        Ok((txid, outside)) => {
            let mut outputs: Vec<Output> = Vec::new();
            let ghost parts = outside@.map_values(|o: elements::TxOut| output_parts(o));
            let mut i: usize = 0;
            while i < outside.len()
                invariant
                    i <= outside@.len(),
                    parts == outside@.map_values(|o: elements::TxOut| output_parts(o)),
                    outputs@.map_values(|o: Output| o@) == parts.take(i as int),
                decreases outside@.len() - i,
            {
                let ghost before = outputs@.map_values(|o: Output| o@);
                outputs.push(Output { parts: split_output(&outside[i]) });
                i = i + 1;
                assert(outputs@.map_values(|o: Output| o@) =~= before.push(parts[i - 1]));
                assert(before.push(parts[i - 1]) =~= parts.take(i as int));
            }
            assert(parts.take(i as int) =~= parts);
            Ok((txid, outputs))
        },
        Err(text) => Err(Error::Encode(text)),
    }
}

} // verus!
