//! What is said to and heard from the swap provider.
use crate::keys::PublicKey;
use vstd::prelude::*;

verus! {

/// The kinds of swap. A submarine swap pays an invoice with coins on the chain, a reverse one
/// pays for coins on the chain with an invoice, and a chain swap trades between two chains.
#[derive(Debug, Clone, Copy, PartialEq, Eq, Structural)]
pub enum SwapType {
    Submarine,
    ReverseSubmarine,
    Chain,
}

/// The two sides of a chain swap: the one on which we lock our coins up, and the one on which
/// we claim the provider's.
#[derive(Debug, Clone, Copy, PartialEq, Eq, Structural)]
pub enum Side {
    Lockup,
    Claim,
}

/// The transactions by which a swap ends.
#[derive(Debug, Clone, Copy, PartialEq, Eq, Structural)]
pub enum SwapTxKind {
    Claim,
    Refund,
}

/// A script of a swap, in hexadecimal.
#[derive(Debug, Clone, PartialEq, Eq)]
pub struct Leaf {
    pub output: String,
}

/// The two scripts of a swap.
#[derive(Debug, Clone, PartialEq, Eq)]
pub struct SwapTree {
    pub claim_leaf: Leaf,
    pub refund_leaf: Leaf,
}

/// The provider's answer to the creation of a submarine swap.
#[derive(Debug, Clone, PartialEq, Eq)]
pub struct CreateSubmarineResponse {
    pub address: String,
    pub claim_public_key: PublicKey,
    pub swap_tree: SwapTree,
    pub blinding_key: Option<String>,
}

/// The provider's answer to the creation of a reverse swap.
#[derive(Debug, Clone, PartialEq, Eq)]
pub struct CreateReverseResponse {
    pub lockup_address: String,
    pub refund_public_key: PublicKey,
    pub swap_tree: SwapTree,
    pub blinding_key: Option<String>,
}

/// The provider's answer to the creation of a chain swap, for one of its sides.
#[derive(Debug, Clone, PartialEq, Eq)]
pub struct ChainSwapDetails {
    pub lockup_address: String,
    pub server_public_key: PublicKey,
    pub swap_tree: SwapTree,
    pub blinding_key: Option<String>,
}

/// The transaction that locks coins up, in hexadecimal where the provider has it.
#[derive(Debug, Clone, PartialEq, Eq)]
pub struct LockTransaction {
    pub hex: Option<String>,
}

/// The transactions that lock coins up in a chain swap, ours and the provider's.
#[derive(Debug, Clone, PartialEq, Eq)]
pub struct ChainSwapTransactions {
    pub user_lock: Option<LockTransaction>,
    pub server_lock: Option<LockTransaction>,
}

/// What the provider is asked to sign: our public nonce and the transaction, in hexadecimal,
/// and the place of the input.
#[derive(Debug, Clone, PartialEq, Eq)]
pub struct ToSign {
    pub pub_nonce: String,
    pub transaction: String,
    pub index: u32,
}

/// The provider's nonce and partial signature, in hexadecimal.
#[derive(Debug, Clone, PartialEq, Eq)]
pub struct PartialSig {
    pub pub_nonce: String,
    pub partial_signature: String,
}

/// The secret that opens a swap, where it is known.
#[derive(Clone, Copy, PartialEq, Eq)]
pub struct Preimage {
    pub bytes: Option<[u8; 32]>,
}

} // verus!
