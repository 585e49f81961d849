//! What the wallet owns, and what it has been asked to do.

use crate::cost::chain::{OutPoint, OutPointView, TxOut, TxOutView};
use crate::cost::queue::Queue;
use vstd::prelude::*;

verus! {

/// A coin the wallet can spend.
#[derive(Debug, PartialEq, Eq)]
pub struct Utxo {
    /// Where the coin sits.
    pub outpoint: OutPoint,
    /// The output that it is.
    pub prev_out: TxOut,
}

/// A coin, by value.
pub struct UtxoView {
    /// Where the coin sits.
    pub outpoint: OutPointView,
    /// The output that it is.
    pub output: TxOutView,
}

impl View for Utxo {
    type V = UtxoView;

    open spec fn view(&self) -> UtxoView {
        UtxoView { outpoint: self.outpoint@, output: self.prev_out@ }
    }
}

impl Clone for Utxo {
    fn clone(&self) -> (coin: Self)
        ensures
            coin@ == self@,
    {
        Self { outpoint: self.outpoint, prev_out: self.prev_out.clone() }
    }
}

/// Coins, by value.
pub open spec fn views(coins: Seq<Utxo>) -> Seq<UtxoView> {
    coins.map_values(|coin: Utxo| coin@)
}

/// What the wallet owns and what it has been asked to do.
///
/// Time and feerate are left out: those are observations of the outside world, supplied
/// alongside rather than baked in.
#[derive(Debug, PartialEq, Eq)]
pub struct WalletState<Q: Queue> {
    utxos: Vec<Utxo>,
    queue: Q,
}

impl<Q: Queue> WalletState<Q> {
    /// The coins available to spend.
    pub closed spec fn coins(self) -> Seq<UtxoView> {
        views(self.utxos@)
    }

    /// The intents the wallet has yet to satisfy.
    pub closed spec fn owed(self) -> Q {
        self.queue
    }

    /// The coins the wallet holds, together with the intents it has yet to satisfy.
    pub fn new(utxos: Vec<Utxo>, queue: Q) -> (state: Self)
        ensures
            state.coins() == views(utxos@),
            state.owed() == queue,
    {
        WalletState { utxos, queue }
    }

    /// The coins available to spend.
    pub fn utxos(&self) -> (utxos: &[Utxo])
        ensures
            views(utxos@) == self.coins(),
    {
        self.utxos.as_slice()
    }

    /// The intents the wallet has yet to satisfy.
    pub fn queue(&self) -> (queue: &Q)
        ensures
            *queue == self.owed(),
    {
        &self.queue
    }
}

/// Copies of coins, in order.
pub fn copies(coins: &[Utxo]) -> (same: Vec<Utxo>)
    ensures
        views(same@) == views(coins@),
{
    let mut same: Vec<Utxo> = Vec::new();
    let mut i: usize = 0;
    while i < coins.len()
        invariant
            i <= coins@.len(),
            views(same@) == views(coins@).take(i as int),
        decreases coins@.len() - i,
    {
        let ghost before = same@;
        same.push(coins[i].clone());
        assert(views(same@) =~= views(before).push(coins@[i as int]@));
        assert(views(coins@).take(i + 1) =~= views(coins@).take(i as int).push(coins@[i as int]@));
        i = i + 1;
    }
    assert(views(coins@).take(coins@.len() as int) =~= views(coins@));
    same
}

impl<Q: Queue + Clone> Clone for WalletState<Q> {
    fn clone(&self) -> (state: Self)
        ensures
            state.coins() == self.coins(),
            cloned(self.owed(), state.owed()),
    {
        WalletState { utxos: copies(self.utxos.as_slice()), queue: self.queue.clone() }
    }
}

/// Coins are shown whole, one for one and in order.
pub proof fn coins_are_shown_whole(coins: Seq<Utxo>)
    ensures
        views(coins).len() == coins.len(),
        forall|i: int|
            0 <= i < coins.len() ==> {
                &&& (#[trigger] views(coins)[i]).outpoint.txid == coins[i].outpoint.txid.hash@
                &&& views(coins)[i].outpoint.vout == coins[i].outpoint.vout
                &&& views(coins)[i].output.sat == coins[i].prev_out.value.sat
                &&& views(coins)[i].output.script == coins[i].prev_out.script_pubkey.bytes@
            },
{
}

} // verus!
