//! Taproot trees: the scripts by which an output can be spent, and the keys and hashes that
//! commit to them.
use crate::bytes::{be_value, optional_bytes};
use crate::keys::{curve_order, is_xonly_key};
use vstd::prelude::*;

verus! {

/// `elements::taproot::TaprootBuilder`, which holds the leaves that were added so far.
#[verifier::external_type_specification]
#[verifier::external_body]
pub struct ExTaprootBuilder(elements::taproot::TaprootBuilder);

/// `elements::taproot::TaprootSpendInfo`, which holds an internal key and the leaves of a tree.
#[verifier::external_type_specification]
#[verifier::external_body]
pub struct ExTaprootSpendInfo(elements::taproot::TaprootSpendInfo);

/// The leaves that a builder holds, each with its depth, in the order in which they came.
pub uninterp spec fn builder_leaves(builder: elements::taproot::TaprootBuilder) -> Seq<
    (nat, Seq<u8>),
>;

/// The leaves of the tree that a spend info was made of.
pub uninterp spec fn spend_leaves(info: elements::taproot::TaprootSpendInfo) -> Seq<
    (nat, Seq<u8>),
>;

/// The internal key that a spend info was made of.
pub uninterp spec fn spend_key(info: elements::taproot::TaprootSpendInfo) -> Seq<u8>;

/// The merkle root that `elements::taproot::TaprootSpendInfo::merkle_root` gives for a tree.
pub uninterp spec fn tap_merkle_root(leaves: Seq<(nat, Seq<u8>)>) -> Seq<u8>;

/// The output key that `elements::taproot::TaprootSpendInfo::output_key` gives for an internal
/// key and a merkle root.
pub uninterp spec fn tap_output_key(key: Seq<u8>, root: Option<Seq<u8>>) -> Seq<u8>;

/// The hash that `elements::taproot::TaprootSpendInfo::tap_tweak` gives for an internal key and
/// a merkle root.
pub uninterp spec fn tap_tweak_hash(key: Seq<u8>, root: Option<Seq<u8>>) -> Seq<u8>;

/// The bytes of the control block that `elements::taproot::TaprootSpendInfo::control_block`
/// gives for an internal key, a tree and one of its scripts.
pub uninterp spec fn tap_control_block(
    key: Seq<u8>,
    leaves: Seq<(nat, Seq<u8>)>,
    script: Seq<u8>,
) -> Seq<u8>;

/// The hash that `elements::taproot::TapLeafHash::from_script` gives for a script.
pub uninterp spec fn tap_leaf_hash(script: Seq<u8>) -> Seq<u8>;

/// The tree of two scripts side by side.
pub open spec fn two_leaves(first: Seq<u8>, second: Seq<u8>) -> Seq<(nat, Seq<u8>)> {
    seq![(1nat, first), (1nat, second)]
}

/// Whether a script is among the leaves of a tree.
pub open spec fn has_leaf(leaves: Seq<(nat, Seq<u8>)>, script: Seq<u8>) -> bool {
    exists|i: int| 0 <= i < leaves.len() && (#[trigger] leaves[i]).1 == script
}

/// `elements::taproot::TaprootBuilder::new`: a builder without leaves.
#[verifier::external_body]
pub(crate) fn taproot_builder() -> (r: elements::taproot::TaprootBuilder)
    ensures
        builder_leaves(r) == Seq::<(nat, Seq<u8>)>::empty(),
{
    elements::taproot::TaprootBuilder::new()
}

/// `elements::taproot::TaprootBuilder::add_leaf_with_ver`, with the default leaf version: the
/// leaf joins the others. A first leaf is taken at any depth up to 128, and a second one at the
/// depth of the first, the root excepted.
#[verifier::external_body]
pub(crate) fn add_leaf(
    builder: elements::taproot::TaprootBuilder,
    depth: usize,
    script: &[u8],
) -> (r: Result<elements::taproot::TaprootBuilder, String>)
    ensures
        r matches Ok(next) ==> builder_leaves(next) == builder_leaves(builder).push(
            (depth as nat, script@),
        ),
        builder_leaves(builder).len() == 0 && depth <= 128 ==> r is Ok,
        builder_leaves(builder).len() == 1 && builder_leaves(builder)[0].0 == depth && 1 <= depth
            <= 128 ==> r is Ok,
{
    let script = elements::Script::from(script.to_vec());
    builder
        .add_leaf_with_ver(depth, script, elements::taproot::LeafVersion::default())
        .map_err(|e| e.to_string())
}

/// `elements::taproot::TaprootBuilder::finalize`: the spend info of the key and the leaves,
/// which two leaves below the root always give. The call panics where the hash of the key and
/// the root exceeds the curve order or the tweaked key is no point; no input for either is
/// known, and neither shows before the call.
#[verifier::external_body]
pub(crate) fn finalize(builder: elements::taproot::TaprootBuilder, key: &[u8; 32]) -> (r: Result<
    elements::taproot::TaprootSpendInfo,
    String,
>)
    requires
        is_xonly_key(key@),
    ensures
        r matches Ok(info) ==> spend_key(info) == key@ && spend_leaves(info) == builder_leaves(
            builder,
        ),
        builder_leaves(builder).len() == 2 && builder_leaves(builder)[0].0 == 1
            && builder_leaves(builder)[1].0 == 1 ==> r is Ok,
{
    let key = elements::schnorr::XOnlyPublicKey::from_slice(key).unwrap();
    builder
        .finalize(&elements::secp256k1_zkp::Secp256k1::new(), key)
        .map_err(|e| e.to_string())
}

/// `elements::taproot::TaprootSpendInfo::internal_key`: the key that it was made of.
#[verifier::external_body]
pub(crate) fn internal_key(info: &elements::taproot::TaprootSpendInfo) -> (r: [u8; 32])
    ensures
        r@ == spend_key(*info),
        is_xonly_key(r@),
{
    info.internal_key().serialize()
}

/// `elements::taproot::TaprootSpendInfo::merkle_root`: the root of the tree that it was made
/// of.
#[verifier::external_body]
pub(crate) fn merkle_root(info: &elements::taproot::TaprootSpendInfo) -> (r: Option<[u8; 32]>)
    requires
        spend_leaves(*info).len() > 0,
    ensures
        optional_bytes(r) == Some(tap_merkle_root(spend_leaves(*info))),
{
    info.merkle_root().map(|root| elements::hashes::Hash::to_byte_array(root))
}

/// `elements::taproot::TaprootSpendInfo::output_key`: the internal key, tweaked with the root
/// of the tree, which is a point.
#[verifier::external_body]
pub(crate) fn output_key(info: &elements::taproot::TaprootSpendInfo) -> (r: [u8; 32])
    requires
        spend_leaves(*info).len() > 0,
    ensures
        r@ == tap_output_key(spend_key(*info), Some(tap_merkle_root(spend_leaves(*info)))),
        is_xonly_key(r@),
{
    info.output_key().into_inner().serialize()
}

/// `elements::taproot::TaprootSpendInfo::tap_tweak`: the hash of the internal key and the root
/// of the tree. It is below the curve order, because the output key could be computed from it.
#[verifier::external_body]
pub(crate) fn tap_tweak(info: &elements::taproot::TaprootSpendInfo) -> (r: [u8; 32])
    requires
        spend_leaves(*info).len() > 0,
    ensures
        r@ == tap_tweak_hash(spend_key(*info), Some(tap_merkle_root(spend_leaves(*info)))),
        be_value(r@) < curve_order(),
{
    elements::hashes::Hash::to_byte_array(info.tap_tweak())
}

/// `elements::taproot::TaprootSpendInfo::control_block`, with the default leaf version, the
/// block taken by its bytes: there is one for each script of the tree and for no other.
#[verifier::external_body]
pub(crate) fn control_block(info: &elements::taproot::TaprootSpendInfo, script: &[u8]) -> (r:
    Option<Vec<u8>>)
    ensures
        r is Some <==> has_leaf(spend_leaves(*info), script@),
        r matches Some(block) ==> block@ == tap_control_block(
            spend_key(*info),
            spend_leaves(*info),
            script@,
        ),
{
    let script = elements::Script::from(script.to_vec());
    info.control_block(&(script, elements::taproot::LeafVersion::default()))
        .map(|block| block.serialize())
}

/// `elements::taproot::TapLeafHash::from_script`, with the default leaf version.
#[verifier::external_body]
pub(crate) fn leaf_hash(script: &[u8]) -> (r: [u8; 32])
    ensures
        r@ == tap_leaf_hash(script@),
{
    let script = elements::Script::from(script.to_vec());
    elements::hashes::Hash::to_byte_array(
        elements::taproot::TapLeafHash::from_script(
            &script,
            elements::taproot::LeafVersion::default(),
        ),
    )
}

} // verus!
