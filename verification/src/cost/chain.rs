//! Amounts, scripts, outputs and where to find them.

use crate::bytes;
use vstd::prelude::*;

verus! {

/// An amount, in satoshis.
#[derive(Debug, Clone, Copy, PartialEq, Eq, PartialOrd, Ord, Hash, Structural)]
pub struct Amount {
    /// How many satoshis.
    pub sat: u64,
}

/// An amount that may be owed, in satoshis.
#[derive(Debug, Clone, Copy, PartialEq, Eq, PartialOrd, Ord, Hash, Structural)]
pub struct SignedAmount {
    /// How many satoshis.
    pub sat: i64,
}

/// A price of blockspace, in satoshis per thousand weight units.
#[derive(Debug, Clone, Copy, PartialEq, Eq, PartialOrd, Ord, Hash, Structural)]
pub struct FeeRate {
    /// How many satoshis per thousand weight units.
    pub sat_per_kwu: u64,
}

/// An amount of blockspace, in weight units.
#[derive(Debug, Clone, Copy, PartialEq, Eq, PartialOrd, Ord, Hash, Structural)]
pub struct Weight {
    /// How many weight units.
    pub wu: u64,
}

/// What an output has to be paid to.
#[derive(Debug, PartialEq, Eq)]
pub struct ScriptBuf {
    /// The script as it stands in the output.
    pub bytes: Vec<u8>,
}

/// The name of a transaction.
#[derive(Debug, Clone, Copy, PartialEq, Eq, Hash)]
pub struct Txid {
    /// The transaction's hash.
    pub hash: [u8; 32],
}

/// Where an output sits: the transaction that made it, and its place in there.
#[derive(Debug, Clone, Copy, PartialEq, Eq, Hash)]
pub struct OutPoint {
    /// The transaction that made the output.
    pub txid: Txid,
    /// The place among that transaction's outputs.
    pub vout: u32,
}

/// An output: an amount and what it has been paid to.
#[derive(Debug, PartialEq, Eq)]
pub struct TxOut {
    /// How much the output carries.
    pub value: Amount,
    /// What it has been paid to.
    pub script_pubkey: ScriptBuf,
}

/// Where an output sits, by value.
pub struct OutPointView {
    /// The transaction that made the output.
    pub txid: Seq<u8>,
    /// The place among that transaction's outputs.
    pub vout: u32,
}

/// An output, by value.
pub struct TxOutView {
    /// How many satoshis the output carries.
    pub sat: u64,
    /// What it has been paid to.
    pub script: Seq<u8>,
}

impl View for OutPoint {
    type V = OutPointView;

    open spec fn view(&self) -> OutPointView {
        OutPointView { txid: self.txid.hash@, vout: self.vout }
    }
}

impl View for TxOut {
    type V = TxOutView;

    open spec fn view(&self) -> TxOutView {
        TxOutView { sat: self.value.sat, script: self.script_pubkey.bytes@ }
    }
}

impl Clone for ScriptBuf {
    fn clone(&self) -> (script: Self)
        ensures
            script.bytes@ == self.bytes@,
    {
        Self { bytes: self.bytes.clone() }
    }
}

impl Clone for TxOut {
    fn clone(&self) -> (output: Self)
        ensures
            output@ == self@,
            output.value == self.value,
            output.script_pubkey.bytes@ == self.script_pubkey.bytes@,
    {
        Self { value: self.value, script_pubkey: self.script_pubkey.clone() }
    }
}

impl OutPoint {
    /// Whether two outputs sit at the same place.
    pub fn same(&self, other: &OutPoint) -> (same: bool)
        ensures
            same == (self@ == other@),
            same == (self.vout == other.vout && self.txid.hash@ == other.txid.hash@),
    {
        self.vout == other.vout && bytes::same(
            self.txid.hash.as_slice(),
            other.txid.hash.as_slice(),
        )
    }
}

/// A place is shown whole: by its transaction and its place in there.
pub proof fn a_place_is_shown_whole(place: OutPoint, other: OutPoint)
    ensures
        place@.txid == place.txid.hash@,
        place@.vout == place.vout,
        place@ == other@ <==> place.txid.hash@ == other.txid.hash@ && place.vout == other.vout,
{
}

/// An output is shown whole: by its amount and its script.
pub proof fn an_output_is_shown_whole(output: TxOut)
    ensures
        output@.sat == output.value.sat,
        output@.script == output.script_pubkey.bytes@,
{
}

} // verus!
