//! The output that locks the coins of a swap up: where the provider is asked for it, and how it
//! is found in the provider's answer.
use crate::address::{p2tr_script, LiquidChain};
use crate::boltz::{ChainSwapTransactions, SwapTxKind, SwapType};
use crate::bytes::same_bytes;
use crate::chain::{decode_transaction, decoded_transaction, OutPoint, Output, OutputView};
use crate::error::Error;
use crate::hex_text::{decode, hex_decode};
use crate::swap_script::{is_protocol, LBtcSwapScript, SwapScriptView};
use vstd::prelude::*;

verus! {

/// Where the provider is asked for the transaction that locks the coins up.
#[derive(Debug, Clone, Copy, PartialEq, Eq, Structural)]
pub enum LockupSource {
    /// The transactions of a chain swap.
    ChainTransactions,
    /// The transaction of a reverse swap.
    ReverseTransaction,
    /// The transaction of a submarine swap.
    SubmarineTransaction,
}

/// The first output from a place on that pays to a script.
pub open spec fn first_paying(outputs: Seq<OutputView>, script: Seq<u8>, from: int) -> Option<int>
    decreases outputs.len() - from,
{
    if from < 0 || from >= outputs.len() {
        None
    } else if outputs[from].script_pubkey == script {
        Some(from)
    } else {
        first_paying(outputs, script, from + 1)
    }
}

/// The hexadecimal text of a transaction, taken as a sequence, where there is one.
pub open spec fn optional_text(text: Option<String>) -> Option<Seq<char>> {
    match text {
        Some(text) => Some(text@),
        None => None,
    }
}

impl SwapScriptView {
    /// What looking for the output in a transaction comes to: the first output that pays to the
    /// script's address, with its place. Of the errors the first of these counts:
    /// [`Error::Hex`] where there is no transaction, the errors of the address, [`Error::Hex`]
    /// for a text that is not hexadecimal, [`Error::Encode`] for bytes that are no transaction,
    /// and [`Error::Protocol`] where no output pays to the address.
    pub open spec fn is_lockup(
        self,
        hex: Option<Seq<char>>,
        r: Result<(Seq<u8>, u32, OutputView), Error>,
    ) -> bool {
        match hex {
            None => r matches Err(Error::Hex(t)) && t@
                == "No transaction hex found in boltz response"@,
            Some(text) => if !self.is_checked() {
                r matches Err(e) && self.is_check(Err(e))
            } else {
                match hex_decode(text) {
                    None => r matches Err(Error::Hex(_)),
                    Some(bytes) => match decoded_transaction(bytes) {
                        None => r matches Err(Error::Encode(_)),
                        Some(tx) => match first_paying(
                            tx.1,
                            p2tr_script(self.output_key()),
                            0,
                        ) {
                            None => r matches Err(e) && is_protocol(
                                e,
                                "Boltz could not find a Liquid UTXO for script"@,
                            ),
                            Some(i) => 0 <= i <= u32::MAX && r == Ok::<
                                (Seq<u8>, u32, OutputView),
                                Error,
                            >((tx.0, i as u32, tx.1[i])),
                        },
                    },
                }
            },
        }
    }
}

impl ChainSwapTransactions {
    /// The transaction that is claimed, the provider's, or refunded, ours.
    pub fn lock_hex(self, tx_kind: SwapTxKind) -> (r: Result<Option<String>, Error>)
        ensures
            match (tx_kind, self.server_lock, self.user_lock) {
                (SwapTxKind::Claim, Some(lock), _) => r == Ok::<Option<String>, Error>(lock.hex),
                (SwapTxKind::Claim, None, _) => r matches Err(e) && is_protocol(
                    e,
                    "No server_lock transaction for Chain Swap available"@,
                ),
                (SwapTxKind::Refund, _, Some(lock)) => r == Ok::<Option<String>, Error>(lock.hex),
                (SwapTxKind::Refund, _, None) => r matches Err(e) && is_protocol(
                    e,
                    "No user_lock transaction for Chain Swap available"@,
                ),
            },
    {
        match tx_kind {
            SwapTxKind::Claim => match self.server_lock {
                Some(lock) => Ok(lock.hex),
                None => Err(
                    Error::Protocol(
                        "No server_lock transaction for Chain Swap available".to_owned(),
                    ),
                ),
            },
            SwapTxKind::Refund => match self.user_lock {
                Some(lock) => Ok(lock.hex),
                None => Err(
                    Error::Protocol("No user_lock transaction for Chain Swap available".to_owned()),
                ),
            },
        }
    }
}

/// The output that was found on the chain, or `None` where the provider is to be asked for it:
/// where none was found, and where looking for it failed.
pub fn found_utxo(found: Result<Option<(OutPoint, Output)>, Error>) -> (r: Option<
    (OutPoint, Output),
>)
    ensures
        r == (match found {
            Ok(utxo) => utxo,
            Err(_) => None,
        }),
{
    match found {
        Ok(utxo) => utxo,
        Err(_) => None,
    }
}

/// The first output that pays to a script.
fn find_paying(outputs: &Vec<Output>, script: &[u8]) -> (r: Option<usize>)
    ensures
        match first_paying(outputs@.map_values(|o: Output| o@), script@, 0) {
            Some(i) => r == Some(i as usize) && 0 <= i < outputs@.len(),
            None => r is None,
        },
{
    let ghost views = outputs@.map_values(|o: Output| o@);
    let mut i: usize = 0;
    while i < outputs.len()
        invariant
            i <= outputs@.len(),
            views == outputs@.map_values(|o: Output| o@),
            first_paying(views, script@, i as int) == first_paying(views, script@, 0),
        decreases outputs@.len() - i,
    {
        let pays = same_bytes(outputs[i].parts().script_pubkey.as_slice(), script);
        assert(views[i as int] == outputs@[i as int]@);
        if pays {
            return Some(i);
        }
        i = i + 1;
    }
    None
}

impl LBtcSwapScript {
    /// Where the provider is asked for the transaction that locks the coins up.
    pub fn lockup_source(&self) -> (r: LockupSource)
        ensures
            r == (match self.swap_type {
                SwapType::Chain => LockupSource::ChainTransactions,
                SwapType::ReverseSubmarine => LockupSource::ReverseTransaction,
                SwapType::Submarine => LockupSource::SubmarineTransaction,
            }),
    {
        match self.swap_type {
            SwapType::Chain => LockupSource::ChainTransactions,
            SwapType::ReverseSubmarine => LockupSource::ReverseTransaction,
            SwapType::Submarine => LockupSource::SubmarineTransaction,
        }
    }

    /// The output that locks the coins up, in the transaction that the provider answered with.
    pub fn find_lockup_utxo(&self, network: LiquidChain, hex: Option<String>) -> (r: Result<
        (OutPoint, Output),
        Error,
    >)
        ensures
            self@.is_lockup(
                optional_text(hex),
                match r {
                    Ok((place, output)) => Ok((place.txid@, place.vout, output@)),
                    Err(e) => Err(e),
                },
            ),
    {
        let text = match hex {
            Some(text) => text,
            None => return Err(
                Error::Hex("No transaction hex found in boltz response".to_owned()),
            ),
        };
        let address = match self.to_address(network) {
            Ok(address) => address,
            Err(e) => return Err(e),
        };
        let bytes = match decode(text.as_str()) {
            Ok(bytes) => bytes,
            Err(text) => return Err(Error::Hex(text)),
        };
        let (txid, outputs) = match decode_transaction(bytes.as_slice()) {
            Ok(tx) => tx,
            Err(e) => return Err(e),
        };
        match find_paying(&outputs, address.script_pubkey.as_slice()) {
            Some(vout) => Ok(
                (OutPoint { txid, vout: vout as u32 }, outputs[vout].clone()),
            ),
            None => Err(
                Error::Protocol("Boltz could not find a Liquid UTXO for script".to_owned()),
            ),
        }
    }
}

} // verus!
