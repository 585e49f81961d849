//! The wallet state that would be left behind if the wallet decided on a specific plan.

use crate::cost::chain::{OutPoint, OutPointView, TxOut, TxOutView, Txid};
use crate::cost::intent::{ActionView, IntentView};
use crate::cost::queue::{InMemoryQueue, Queue};
use crate::cost::selection::{
    self, CoinSelector, Funding, FundingRequest, FundingRequestView, SelectionParams,
};
use crate::cost::wallet::{self, Utxo, UtxoView, WalletState};
use vstd::prelude::*;

verus! {

/// Draws 32 random bytes with `rand::random`.
///
/// Nothing is claimed of them: every value can come.
#[verifier::external_body]
fn random_bytes() -> [u8; 32] {
    rand::random()
}

/// These bytes may be drawn.
pub closed spec fn may_be_drawn(bytes: [u8; 32]) -> bool {
    call_ensures(random_bytes, (), bytes)
}

/// A name for a transaction that will never be made: bytes that were drawn.
fn random_txid() -> (txid: Txid)
    ensures
        may_be_drawn(txid.hash),
{
    let hash = random_bytes();
    Txid { hash }
}

/// One of `coins` sits at `place`.
pub open spec fn sits_at(coins: Seq<UtxoView>, place: OutPointView) -> bool {
    exists|i: int| 0 <= i < coins.len() && (#[trigger] coins[i]).outpoint == place
}

/// The coins of `coins`, in order, that sit where none of `spent` does.
pub open spec fn without(coins: Seq<UtxoView>, spent: Seq<UtxoView>) -> Seq<UtxoView> {
    coins.filter(|coin: UtxoView| !sits_at(spent, coin.outpoint))
}

/// The outputs that pay for the intents which `ids` name, in order. An id that names
/// nothing any more asks for no output.
pub open spec fn payments<Id>(held: Map<Id, IntentView>, ids: Seq<Id>) -> Seq<TxOutView>
    decreases ids.len(),
{
    if ids.len() == 0 {
        Seq::empty()
    } else {
        let earlier = payments(held, ids.drop_last());
        if held.contains_key(ids.last()) {
            earlier + held[ids.last()].action.outputs()
        } else {
            earlier
        }
    }
}

/// The coin that change comes back as: appended after the payments, so its place is
/// however many there were.
pub open spec fn credited(
    txid: Seq<u8>,
    payments: nat,
    change: Option<TxOutView>,
) -> Seq<UtxoView> {
    match change {
        None => Seq::empty(),
        Some(output) => seq![
            UtxoView {
                outpoint: OutPointView { txid, vout: payments as usize as u32 },
                output,
            },
        ],
    }
}

/// Change, by value.
pub open spec fn change_view(change: Option<TxOut>) -> Option<TxOutView> {
    match change {
        None => None,
        Some(output) => Some(output@),
    }
}

/// Whether one of `coins` sits at `place`.
fn is_among(coins: &[Utxo], place: &OutPoint) -> (among: bool)
    ensures
        among == sits_at(wallet::views(coins@), place@),
{
    let mut i: usize = 0;
    while i < coins.len()
        invariant
            i <= coins@.len(),
            forall|j: int| 0 <= j < i ==> (#[trigger] coins@[j]).outpoint@ != place@,
        decreases coins@.len() - i,
    {
        if coins[i].outpoint.same(place) {
            assert(wallet::views(coins@)[i as int].outpoint == place@);
            return true;
        }
        i = i + 1;
    }
    assert forall|j: int| 0 <= j < wallet::views(coins@).len() implies (#[trigger] wallet::views(
        coins@,
    )[j]).outpoint != place@ by {
        assert(coins@[j].outpoint@ != place@);
    }
    false
}

/// Copies of the coins of `coins`, in order, that sit where none of `spent` does.
fn remaining(coins: &[Utxo], spent: &[Utxo]) -> (kept: Vec<Utxo>)
    ensures
        wallet::views(kept@) == without(wallet::views(coins@), wallet::views(spent@)),
{
    let ghost all = wallet::views(coins@);
    let ghost keep = |coin: UtxoView| !sits_at(wallet::views(spent@), coin.outpoint);
    let mut kept: Vec<Utxo> = Vec::new();
    let mut i: usize = 0;
    assert(all.take(0).filter(keep) =~= Seq::empty()) by {
        reveal(Seq::filter);
    }
    while i < coins.len()
        invariant
            i <= coins@.len(),
            all == wallet::views(coins@),
            keep == (|coin: UtxoView| !sits_at(wallet::views(spent@), coin.outpoint)),
            wallet::views(kept@) == all.take(i as int).filter(keep),
        decreases coins@.len() - i,
    {
        let ghost before = kept@;
        let spent_here = is_among(spent, &coins[i].outpoint);
        if !spent_here {
            kept.push(coins[i].clone());
            assert(wallet::views(kept@) =~= wallet::views(before).push(coins@[i as int]@));
        }
        proof {
            reveal(Seq::filter);
            assert(all.take(i + 1).drop_last() =~= all.take(i as int));
            assert(all.take(i + 1).last() == coins@[i as int]@);
        }
        i = i + 1;
    }
    assert(all.take(coins@.len() as int) =~= all);
    kept
}

impl<Q: Queue + Clone> WalletState<Q> {
    /// What the coin selector is asked for: to fund the payments for `realizing`, out of
    /// the coins that are not required anyway.
    pub open spec fn request(
        self,
        required: Seq<UtxoView>,
        realizing: Seq<Q::Id>,
        params: SelectionParams,
    ) -> FundingRequestView {
        FundingRequestView {
            required,
            available: without(self.coins(), required),
            outputs: payments(self.owed().held(), realizing),
            params,
        }
    }

    /// `after` is what is left of this state once `spent` is spent, `payments` outputs
    /// are paid, the intents named `realized` are realized, and `change` comes back as an
    /// output of the transaction named `txid`.
    pub open spec fn becomes(
        self,
        after: Self,
        txid: Seq<u8>,
        spent: Seq<UtxoView>,
        payments: nat,
        realized: Seq<Q::Id>,
        change: Option<TxOutView>,
    ) -> bool {
        &&& after.coins() == without(self.coins(), spent) + credited(txid, payments, change)
        &&& self.discharges(realized, after.owed())
    }

    /// `queue` is a copy of this state's queue with the intents named `realized` taken
    /// out of it.
    pub open spec fn discharges(self, realized: Seq<Q::Id>, queue: Q) -> bool {
        exists|copy: Q| #[trigger]
            cloned(self.owed(), copy) && queue.held() == copy.held().remove_keys(
                realized.to_set(),
            )
    }

    /// Realizing comes to `result` once the coin selector has given `answer`: to its
    /// failure, or to what is left once the required and the selected coins are spent by
    /// a transaction named `txid`.
    pub open spec fn comes_to<E>(
        self,
        required: Seq<UtxoView>,
        realizing: Seq<Q::Id>,
        answer: Result<Funding, E>,
        txid: Seq<u8>,
        result: Result<Self, E>,
    ) -> bool {
        match answer {
            Err(error) => result == Err::<Self, E>(error),
            Ok(funding) => result matches Ok(after) && self.becomes(
                after,
                txid,
                required + wallet::views(funding.inputs@),
                payments(self.owed().held(), realizing).len(),
                realizing,
                change_view(funding.change),
            ),
        }
    }

    /// The queue with the intents this transaction realizes taken out of it.
    fn discharged(&self, realized: &[Q::Id]) -> (queue: Q)
        ensures
            self.discharges(realized@, queue),
    {
        let mut queue = self.queue().clone();
        let ghost copy = queue;
        assert(cloned(self.owed(), copy));
        let mut i: usize = 0;
        assert(copy.held().remove_keys(realized@.take(0).to_set()) =~= copy.held());
        while i < realized.len()
            invariant
                i <= realized@.len(),
                queue.held() == copy.held().remove_keys(realized@.take(i as int).to_set()),
            decreases realized@.len() - i,
        {
            queue.remove(realized[i]);
            proof {
                let ids = realized@.take(i as int);
                let more = realized@.take(i + 1);
                assert(more =~= ids.push(realized@[i as int]));
                assert forall|id: Q::Id| more.to_set().contains(id) == (ids.to_set().contains(id)
                    || id == realized@[i as int]) by {
                    if ids.contains(id) {
                        let j = choose|j: int| 0 <= j < ids.len() && ids[j] == id;
                        assert(more[j] == id);
                    }
                    if id == realized@[i as int] {
                        assert(more[i as int] == id);
                    }
                }
                assert(queue.held() =~= copy.held().remove_keys(more.to_set()));
            }
            i = i + 1;
        }
        assert(realized@.take(realized@.len() as int) =~= realized@);
        queue
    }

    /// Drop the coins the transaction consumes, credit the change it pays back, in a
    /// transaction of the given name.
    ///
    /// Only change returns to the wallet. Every other output pays someone else, which is
    /// what makes it a payment.
    pub fn spend_as(
        &self,
        txid: Txid,
        spent: &[Utxo],
        outputs: &[TxOut],
        realized: &[Q::Id],
        change: Option<TxOut>,
    ) -> (after: WalletState<Q>)
        ensures
            self.becomes(
                after,
                txid.hash@,
                wallet::views(spent@),
                outputs@.len(),
                realized@,
                change_view(change),
            ),
    {
        let mut utxos = remaining(self.utxos(), spent);
        let ghost surviving = utxos@;
        match change {
            None => {},
            Some(prev_out) => {
                let vout: u32 = #[verifier::truncate]
                (outputs.len() as u32);
                utxos.push(Utxo { outpoint: OutPoint { txid, vout }, prev_out });
            },
        }
        assert(wallet::views(utxos@) =~= wallet::views(surviving) + credited(
            txid.hash@,
            outputs@.len(),
            change_view(change),
        ));
        let queue = self.discharged(realized);
        WalletState::new(utxos, queue)
    }

    /// Drop the coins the transaction consumes, credit the change it pays back.
    ///
    /// For simulations the name of the transaction does not matter: a random one is used.
    pub fn spend(
        &self,
        spent: &[Utxo],
        outputs: &[TxOut],
        realized: &[Q::Id],
        change: Option<TxOut>,
    ) -> (after: WalletState<Q>)
        ensures
            exists|name: [u8; 32]| #[trigger]
                may_be_drawn(name) && self.becomes(
                    after,
                    name@,
                    wallet::views(spent@),
                    outputs@.len(),
                    realized@,
                    change_view(change),
                ),
    {
        let txid = random_txid();
        self.spend_as(txid, spent, outputs, realized, change)
    }

    /// The outputs that pay for the intents which `realizing` names.
    fn payments(&self, realizing: &[Q::Id]) -> (outputs: Vec<TxOut>)
        ensures
            selection::views(outputs@) == payments(self.owed().held(), realizing@),
    {
        let mut outputs: Vec<TxOut> = Vec::new();
        let mut i: usize = 0;
        while i < realizing.len()
            invariant
                i <= realizing@.len(),
                selection::views(outputs@) == payments(
                    self.owed().held(),
                    realizing@.take(i as int),
                ),
            decreases realizing@.len() - i,
        {
            let ghost before = outputs@;
            let ghost ids = realizing@.take(i + 1);
            assert(ids.drop_last() =~= realizing@.take(i as int));
            match self.queue().get(realizing[i]) {
                None => {},
                Some(intent) => {
                    let mut asked = intent.action().outputs();
                    let ghost added = asked@;
                    outputs.append(&mut asked);
                    assert(selection::views(outputs@) =~= selection::views(before)
                        + selection::views(added));
                    assert(selection::views(added) =~= intent@.action.outputs());
                },
            }
            i = i + 1;
        }
        assert(realizing@.take(realizing@.len() as int) =~= realizing@);
        outputs
    }

    /// The state the wallet would be in having funded the payments for `realizing` and
    /// broadcast the result.
    pub fn realize<S: CoinSelector>(
        &self,
        required: &[Utxo],
        realizing: &[Q::Id],
        params: &SelectionParams,
        selector: &S,
    ) -> (result: Result<WalletState<Q>, S::Error>)
        requires
            selector.selectable(self.request(wallet::views(required@), realizing@, *params)),
        ensures
            exists|answer: Result<Funding, S::Error>, name: [u8; 32]|
                {
                    &&& #[trigger] selector.selects(
                        self.request(wallet::views(required@), realizing@, *params),
                        answer,
                    )
                    &&& answer is Ok ==> may_be_drawn(name)
                    &&& #[trigger] self.comes_to(
                        wallet::views(required@),
                        realizing@,
                        answer,
                        name@,
                        result,
                    )
                },
    {
        let outputs = self.payments(realizing);
        let available = remaining(self.utxos(), required);
        let request = FundingRequest {
            required,
            available: available.as_slice(),
            outputs: outputs.as_slice(),
            params,
        };
        assert(request@ == self.request(wallet::views(required@), realizing@, *params));
        let answer = selector.select(request);
        assert(selector.selects(
            self.request(wallet::views(required@), realizing@, *params),
            answer,
        ));
        let ghost answered = answer;
        let ghost mut drawn: [u8; 32] = vstd::pervasive::arbitrary();
        let result = match answer {
            Err(error) => Err(error),
            Ok(funding) => {
                let mut spent = wallet::copies(required);
                let mut inputs = wallet::copies(funding.inputs.as_slice());
                let ghost (first, second) = (spent@, inputs@);
                spent.append(&mut inputs);
                assert(wallet::views(spent@) =~= wallet::views(first) + wallet::views(second));
                assert(outputs@.len() == selection::views(outputs@).len());
                let after = self.spend(
                    spent.as_slice(),
                    outputs.as_slice(),
                    realizing,
                    funding.change,
                );
                proof {
                    drawn = choose|name: [u8; 32]| #[trigger]
                        may_be_drawn(name) && self.becomes(
                            after,
                            name@,
                            wallet::views(spent@),
                            outputs@.len(),
                            realizing@,
                            change_view(funding.change),
                        );
                }
                Ok(after)
            },
        };
        assert(self.comes_to(wallet::views(required@), realizing@, answered, drawn@, result));
        result
    }
}

/// Dropping spent coins leaves exactly those that sit where no spent one does.
pub proof fn only_spent_coins_are_dropped(
    coins: Seq<UtxoView>,
    spent: Seq<UtxoView>,
    coin: UtxoView,
)
    ensures
        without(coins, spent).contains(coin) <==> coins.contains(coin) && !sits_at(
            spent,
            coin.outpoint,
        ),
    decreases coins.len(),
{
    reveal(Seq::filter);
    if coins.len() > 0 {
        let (earlier, last) = (coins.drop_last(), coins.last());
        let kept = without(earlier, spent);
        only_spent_coins_are_dropped(earlier, spent, coin);
        assert(coins =~= earlier.push(last));
        assert(coins.contains(coin) <==> earlier.contains(coin) || coin == last) by {
            if earlier.contains(coin) {
                let i = choose|i: int| 0 <= i < earlier.len() && earlier[i] == coin;
                assert(coins[i] == coin);
            }
            assert(coins[coins.len() - 1] == last);
        }
        if !sits_at(spent, last.outpoint) {
            assert(without(coins, spent) == kept.push(last));
            assert(kept.push(last).contains(coin) <==> kept.contains(coin) || coin == last) by {
                if kept.contains(coin) {
                    let i = choose|i: int| 0 <= i < kept.len() && kept[i] == coin;
                    assert(kept.push(last)[i] == coin);
                }
                assert(kept.push(last)[kept.len() as int] == last);
            }
        } else {
            assert(without(coins, spent) == kept);
        }
    }
}

/// Coins that the intents commit to are not offered to the selector again: none of those
/// on offer sits where a required one does, and every one of them is the wallet's.
pub proof fn required_coins_are_not_on_offer<Q: Queue + Clone>(
    state: WalletState<Q>,
    required: Seq<UtxoView>,
    realizing: Seq<Q::Id>,
    params: SelectionParams,
    coin: UtxoView,
)
    requires
        state.request(required, realizing, params).available.contains(coin),
    ensures
        state.coins().contains(coin),
        !sits_at(required, coin.outpoint),
{
    only_spent_coins_are_dropped(state.coins(), required, coin);
}

/// Without change nothing comes back: every coin left was the wallet's before, and none
/// of those spent is left.
pub proof fn without_change_nothing_comes_back<Q: Queue + Clone>(
    before: WalletState<Q>,
    after: WalletState<Q>,
    txid: Seq<u8>,
    spent: Seq<UtxoView>,
    payments: nat,
    realized: Seq<Q::Id>,
    coin: UtxoView,
)
    requires
        before.becomes(after, txid, spent, payments, realized, None),
    ensures
        after.coins().contains(coin) <==> before.coins().contains(coin) && !sits_at(
            spent,
            coin.outpoint,
        ),
{
    only_spent_coins_are_dropped(before.coins(), spent, coin);
    assert(after.coins() =~= without(before.coins(), spent));
}

/// Only change comes back, as one coin placed after the payments. Every other coin left
/// was the wallet's before and was not spent.
pub proof fn only_change_comes_back<Q: Queue + Clone>(
    before: WalletState<Q>,
    after: WalletState<Q>,
    txid: Seq<u8>,
    spent: Seq<UtxoView>,
    payments: nat,
    realized: Seq<Q::Id>,
    change: TxOutView,
    coin: UtxoView,
)
    requires
        before.becomes(after, txid, spent, payments, realized, Some(change)),
    ensures
        after.coins().len() == without(before.coins(), spent).len() + 1,
        after.coins().last().output == change,
        after.coins().last().outpoint.vout == payments as usize as u32,
        after.coins().drop_last().contains(coin) <==> before.coins().contains(coin) && !sits_at(
            spent,
            coin.outpoint,
        ),
{
    only_spent_coins_are_dropped(before.coins(), spent, coin);
    assert(after.coins().drop_last() =~= without(before.coins(), spent));
}

/// The wallet stops owing what it just paid, and nothing else: an intent is still queued
/// afterwards exactly if it was before and was not realized.
pub proof fn realized_intents_leave_the_queue(
    before: WalletState<InMemoryQueue>,
    after: WalletState<InMemoryQueue>,
    txid: Seq<u8>,
    spent: Seq<UtxoView>,
    payments: nat,
    realized: Seq<u64>,
    change: Option<TxOutView>,
    id: u64,
)
    requires
        before.becomes(after, txid, spent, payments, realized, change),
    ensures
        after.owed().held().contains_key(id) <==> before.owed().held().contains_key(id)
            && !realized.contains(id),
        after.owed().held().contains_key(id) ==> after.owed().held()[id]
            == before.owed().held()[id],
{
}

/// An id the queue has forgotten asks for no output.
pub proof fn a_forgotten_id_asks_for_no_output<Id>(
    held: Map<Id, IntentView>,
    ids: Seq<Id>,
    forgotten: Id,
)
    requires
        !held.contains_key(forgotten),
    ensures
        payments(held, ids.push(forgotten)) == payments(held, ids),
{
    assert(ids.push(forgotten).drop_last() =~= ids);
}

/// Realizing the same intents again finds nothing left to pay.
pub proof fn nothing_is_paid_twice<Id>(held: Map<Id, IntentView>, realized: Seq<Id>)
    ensures
        payments(held.remove_keys(realized.to_set()), realized) == Seq::<TxOutView>::empty(),
{
    nothing_is_paid_for_removed_ids(held.remove_keys(realized.to_set()), realized);
}

/// Ids that name nothing any more ask for no output, all together.
proof fn nothing_is_paid_for_removed_ids<Id>(held: Map<Id, IntentView>, ids: Seq<Id>)
    requires
        forall|i: int| 0 <= i < ids.len() ==> !held.contains_key(#[trigger] ids[i]),
    ensures
        payments(held, ids) == Seq::<TxOutView>::empty(),
    decreases ids.len(),
{
    if ids.len() > 0 {
        nothing_is_paid_for_removed_ids(held, ids.drop_last());
    }
}

/// Each intent is paid for on its own: where every id names one, there are as many
/// outputs as ids, and each is the one its intent asks for, however alike they are.
pub proof fn each_intent_is_paid_its_own_output<Id>(held: Map<Id, IntentView>, ids: Seq<Id>)
    requires
        forall|i: int| 0 <= i < ids.len() ==> held.contains_key(#[trigger] ids[i]),
    ensures
        payments(held, ids).len() == ids.len(),
        forall|i: int|
            0 <= i < ids.len() ==> #[trigger] payments(held, ids)[i]
                == held[ids[i]].action.outputs()[0],
    decreases ids.len(),
{
    if ids.len() > 0 {
        each_intent_is_paid_its_own_output(held, ids.drop_last());
    }
}

/// Coins are dropped one by one: a coin stays, after those before it, if each spent coin has
/// another transaction or another place in it, and goes if one has the same.
pub proof fn coins_are_dropped_one_by_one(
    coins: Seq<UtxoView>,
    coin: UtxoView,
    spent: Seq<UtxoView>,
)
    ensures
        without(Seq::empty(), spent) == Seq::<UtxoView>::empty(),
        (forall|j: int|
            0 <= j < spent.len() ==> (#[trigger] spent[j]).outpoint.txid != coin.outpoint.txid
                || spent[j].outpoint.vout != coin.outpoint.vout) ==> without(
            coins.push(coin),
            spent,
        ) == without(coins, spent).push(coin),
        (exists|j: int|
            0 <= j < spent.len() && (#[trigger] spent[j]).outpoint.txid == coin.outpoint.txid
                && spent[j].outpoint.vout == coin.outpoint.vout) ==> without(
            coins.push(coin),
            spent,
        ) == without(coins, spent),
{
    reveal(Seq::filter);
    let longer = coins.push(coin);
    assert(longer.drop_last() =~= coins);
    assert(without(Seq::empty(), spent) =~= Seq::<UtxoView>::empty());
    if forall|j: int|
        0 <= j < spent.len() ==> (#[trigger] spent[j]).outpoint.txid != coin.outpoint.txid
            || spent[j].outpoint.vout != coin.outpoint.vout {
        assert(!sits_at(spent, coin.outpoint));
    }
    if exists|j: int|
        0 <= j < spent.len() && (#[trigger] spent[j]).outpoint.txid == coin.outpoint.txid
            && spent[j].outpoint.vout == coin.outpoint.vout {
        let j = choose|j: int|
            0 <= j < spent.len() && (#[trigger] spent[j]).outpoint.txid == coin.outpoint.txid
                && spent[j].outpoint.vout == coin.outpoint.vout;
        assert(spent[j].outpoint == coin.outpoint);
        assert(sits_at(spent, coin.outpoint));
    }
}

/// A coin of the wallet whose transaction or whose place in it differs from that of every
/// spent coin is still held afterwards.
pub proof fn a_coin_that_sits_elsewhere_is_still_held<Q: Queue + Clone>(
    before: WalletState<Q>,
    after: WalletState<Q>,
    txid: Seq<u8>,
    spent: Seq<UtxoView>,
    payments: nat,
    realized: Seq<Q::Id>,
    change: Option<TxOutView>,
    i: int,
)
    requires
        before.becomes(after, txid, spent, payments, realized, change),
        0 <= i < before.coins().len(),
        forall|j: int|
            0 <= j < spent.len() ==> (#[trigger] spent[j]).outpoint.txid
                != before.coins()[i].outpoint.txid || spent[j].outpoint.vout
                != before.coins()[i].outpoint.vout,
    ensures
        after.coins().contains(before.coins()[i]),
{
    let coin = before.coins()[i];
    assert(!sits_at(spent, coin.outpoint));
    only_spent_coins_are_dropped(before.coins(), spent, coin);
    assert(before.coins().contains(coin));
    let kept = without(before.coins(), spent);
    let k = choose|k: int| 0 <= k < kept.len() && kept[k] == coin;
    assert(after.coins()[k] == coin);
}

/// What is left is what was held before and not spent, in the same order, and after it the
/// change, if there is any: in the transaction of the given name, placed after the payments.
pub proof fn what_is_left_is_what_was_not_spent_and_the_change<Q: Queue + Clone>(
    before: WalletState<Q>,
    after: WalletState<Q>,
    txid: Seq<u8>,
    spent: Seq<UtxoView>,
    payments: nat,
    realized: Seq<Q::Id>,
    change: Option<TxOutView>,
)
    requires
        before.becomes(after, txid, spent, payments, realized, change),
    ensures
        match change {
            None => after.coins() == without(before.coins(), spent),
            Some(output) => {
                &&& after.coins().len() > 0
                &&& after.coins().drop_last() == without(before.coins(), spent)
                &&& after.coins().last().outpoint.txid == txid
                &&& payments <= u32::MAX ==> after.coins().last().outpoint.vout == payments
                &&& after.coins().last().output.sat == output.sat
                &&& after.coins().last().output.script == output.script
            },
        },
        forall|k: int, j: int|
            #![trigger without(before.coins(), spent)[k], spent[j]]
            0 <= k < without(before.coins(), spent).len() && 0 <= j < spent.len() ==> without(
                before.coins(),
                spent,
            )[k].outpoint.txid != spent[j].outpoint.txid || without(
                before.coins(),
                spent,
            )[k].outpoint.vout != spent[j].outpoint.vout,
        forall|k: int|
            0 <= k < without(before.coins(), spent).len() ==> before.coins().contains(
                #[trigger] without(before.coins(), spent)[k],
            ),
{
    let kept = without(before.coins(), spent);
    match change {
        None => {
            assert(after.coins() =~= kept);
        },
        Some(_) => {
            assert(after.coins().drop_last() =~= kept);
        },
    }
    assert forall|k: int, j: int|
        #![trigger kept[k], spent[j]]
        0 <= k < kept.len() && 0 <= j < spent.len() implies kept[k].outpoint.txid
        != spent[j].outpoint.txid || kept[k].outpoint.vout != spent[j].outpoint.vout by {
        only_spent_coins_are_dropped(before.coins(), spent, kept[k]);
        assert(kept.contains(kept[k]));
        assert(!sits_at(spent, kept[k].outpoint));
    }
    assert forall|k: int| 0 <= k < kept.len() implies before.coins().contains(
        #[trigger] kept[k],
    ) by {
        only_spent_coins_are_dropped(before.coins(), spent, kept[k]);
        assert(kept.contains(kept[k]));
    }
}

/// A coin of the wallet is on offer to the selector if its transaction or its place in it
/// differs from that of every required coin, and is not if one has the same. The selector is
/// told of the required coins and of the parameters as they are.
pub proof fn coins_that_are_not_required_are_on_offer<Q: Queue + Clone>(
    state: WalletState<Q>,
    required: Seq<UtxoView>,
    realizing: Seq<Q::Id>,
    params: SelectionParams,
    i: int,
)
    requires
        0 <= i < state.coins().len(),
    ensures
        state.request(required, realizing, params).required == required,
        state.request(required, realizing, params).params == params,
        state.request(required, realizing, params).available.contains(state.coins()[i])
            <==> forall|j: int|
            0 <= j < required.len() ==> (#[trigger] required[j]).outpoint.txid
                != state.coins()[i].outpoint.txid || required[j].outpoint.vout
                != state.coins()[i].outpoint.vout,
        state.request(required, realizing, params).available == without(state.coins(), required),
        state.request(required, realizing, params).outputs == payments(
            state.owed().held(),
            realizing,
        ),
{
    let coin = state.coins()[i];
    only_spent_coins_are_dropped(state.coins(), required, coin);
    assert(state.coins().contains(coin));
    if sits_at(required, coin.outpoint) {
        let j = choose|j: int|
            0 <= j < required.len() && (#[trigger] required[j]).outpoint == coin.outpoint;
        assert(required[j].outpoint.txid == coin.outpoint.txid);
    } else {
        assert forall|j: int| 0 <= j < required.len() implies (#[trigger] required[j]).outpoint.txid
            != coin.outpoint.txid || required[j].outpoint.vout != coin.outpoint.vout by {
            if required[j].outpoint.txid == coin.outpoint.txid && required[j].outpoint.vout
                == coin.outpoint.vout {
                assert(required[j].outpoint == coin.outpoint);
            }
        }
    }
}

/// Intents are paid one by one, in the order in which they are named: one that is still owed
/// adds the output that it asks for, with its amount and its script, and any other adds none.
pub proof fn intents_are_paid_one_by_one<Id>(held: Map<Id, IntentView>, ids: Seq<Id>, id: Id)
    ensures
        payments(held, Seq::empty()) == Seq::<TxOutView>::empty(),
        !held.contains_key(id) ==> payments(held, ids.push(id)) == payments(held, ids),
        held.contains_key(id) ==> match held[id].action {
            ActionView::OutputCreation(script, sat) => payments(held, ids.push(id)) == payments(
                held,
                ids,
            ).push(TxOutView { sat, script }),
        },
{
    assert(ids.push(id).drop_last() =~= ids);
    if held.contains_key(id) {
        match held[id].action {
            ActionView::OutputCreation(script, sat) => {
                assert(payments(held, ids.push(id)) =~= payments(held, ids).push(
                    TxOutView { sat, script },
                ));
            },
        }
    }
}

/// Realizing spends the required coins and the selected ones, and no other: once the selector
/// has found funding, a coin of the wallet that sits where none of either does is still held,
/// the selector's change comes back as it is, and the outputs paid are those of the intents.
pub proof fn realizing_spends_what_is_required_and_selected<Q: Queue + Clone, E>(
    before: WalletState<Q>,
    required: Seq<UtxoView>,
    realizing: Seq<Q::Id>,
    funding: Funding,
    txid: Seq<u8>,
    result: Result<WalletState<Q>, E>,
    i: int,
)
    requires
        before.comes_to(required, realizing, Ok(funding), txid, result),
        0 <= i < before.coins().len(),
    ensures
        result matches Ok(after) && {
            let coin = before.coins()[i];
            &&& (forall|j: int|
                0 <= j < required.len() ==> (#[trigger] required[j]).outpoint.txid
                    != coin.outpoint.txid || required[j].outpoint.vout != coin.outpoint.vout)
                && (forall|j: int|
                0 <= j < funding.inputs@.len() ==> (#[trigger] funding.inputs@[j]).outpoint.txid.hash@
                    != coin.outpoint.txid || funding.inputs@[j].outpoint.vout
                    != coin.outpoint.vout) ==> after.coins().contains(coin)
            &&& funding.change is None && ((exists|j: int|
                0 <= j < required.len() && (#[trigger] required[j]).outpoint.txid
                    == coin.outpoint.txid && required[j].outpoint.vout == coin.outpoint.vout)
                || (exists|j: int|
                0 <= j < funding.inputs@.len() && (#[trigger] funding.inputs@[j]).outpoint.txid.hash@
                    == coin.outpoint.txid && funding.inputs@[j].outpoint.vout
                    == coin.outpoint.vout)) ==> !after.coins().contains(coin)
            &&& funding.change matches Some(output) ==> {
                &&& after.coins().last().output.sat == output.value.sat
                &&& after.coins().last().output.script == output.script_pubkey.bytes@
                &&& after.coins().last().outpoint.txid == txid
                &&& payments(before.owed().held(), realizing).len() <= u32::MAX
                    ==> after.coins().last().outpoint.vout == payments(
                    before.owed().held(),
                    realizing,
                ).len()
            }
        },
{
    let inputs = wallet::views(funding.inputs@);
    let spent = required + inputs;
    let coin = before.coins()[i];
    let after = result->Ok_0;
    let change = change_view(funding.change);
    let paid = payments(before.owed().held(), realizing).len();
    wallet::coins_are_shown_whole(funding.inputs@);
    what_is_left_is_what_was_not_spent_and_the_change(
        before,
        after,
        txid,
        spent,
        paid,
        realizing,
        change,
    );
    if (forall|j: int|
        0 <= j < required.len() ==> (#[trigger] required[j]).outpoint.txid != coin.outpoint.txid
            || required[j].outpoint.vout != coin.outpoint.vout) && (forall|j: int|
        0 <= j < funding.inputs@.len() ==> (#[trigger] funding.inputs@[j]).outpoint.txid.hash@
            != coin.outpoint.txid || funding.inputs@[j].outpoint.vout != coin.outpoint.vout) {
        assert forall|j: int| 0 <= j < spent.len() implies (#[trigger] spent[j]).outpoint.txid
            != coin.outpoint.txid || spent[j].outpoint.vout != coin.outpoint.vout by {
            if j < required.len() {
                assert(spent[j] == required[j]);
            } else {
                let k = j - required.len();
                assert(spent[j] == inputs[k]);
                assert(funding.inputs@[k].outpoint.txid.hash@ == inputs[k].outpoint.txid);
            }
        }
        a_coin_that_sits_elsewhere_is_still_held(
            before,
            after,
            txid,
            spent,
            paid,
            realizing,
            change,
            i,
        );
    }
    only_spent_coins_are_dropped(before.coins(), spent, coin);
    if exists|j: int|
        0 <= j < required.len() && (#[trigger] required[j]).outpoint.txid == coin.outpoint.txid
            && required[j].outpoint.vout == coin.outpoint.vout {
        let j = choose|j: int|
            0 <= j < required.len() && (#[trigger] required[j]).outpoint.txid == coin.outpoint.txid
                && required[j].outpoint.vout == coin.outpoint.vout;
        assert(spent[j].outpoint == coin.outpoint);
        assert(sits_at(spent, coin.outpoint));
    }
    if exists|j: int|
        0 <= j < funding.inputs@.len() && (#[trigger] funding.inputs@[j]).outpoint.txid.hash@
            == coin.outpoint.txid && funding.inputs@[j].outpoint.vout == coin.outpoint.vout {
        let j = choose|j: int|
            0 <= j < funding.inputs@.len() && (#[trigger] funding.inputs@[j]).outpoint.txid.hash@
                == coin.outpoint.txid && funding.inputs@[j].outpoint.vout == coin.outpoint.vout;
        assert(inputs[j].outpoint == coin.outpoint);
        assert(spent[required.len() + j].outpoint == coin.outpoint);
        assert(sits_at(spent, coin.outpoint));
    }
}

/// A selector that finds no funding is all that comes of realizing: its own error.
pub proof fn a_failed_selection_is_passed_on<Q: Queue + Clone, E>(
    before: WalletState<Q>,
    required: Seq<UtxoView>,
    realizing: Seq<Q::Id>,
    error: E,
    txid: Seq<u8>,
    result: Result<WalletState<Q>, E>,
)
    requires
        before.comes_to(required, realizing, Err(error), txid, result),
    ensures
        result matches Err(same) && same == error,
{
}

/// The intents that are realized leave the queue, and no other: what is held afterwards under
/// an id is what a copy of the queue held under it, unless the id was realized.
pub proof fn only_realized_intents_are_discharged<Q: Queue + Clone>(
    before: WalletState<Q>,
    realized: Seq<Q::Id>,
    queue: Q,
)
    requires
        before.discharges(realized, queue),
    ensures
        exists|copy: Q| #[trigger]
            cloned(before.owed(), copy) && forall|id: Q::Id|
                {
                    &&& #[trigger] queue.held().contains_key(id) <==> copy.held().contains_key(id)
                        && !realized.contains(id)
                    &&& queue.held().contains_key(id) ==> queue.held()[id] == copy.held()[id]
                },
{
    let copy = choose|copy: Q| #[trigger]
        cloned(before.owed(), copy) && queue.held() == copy.held().remove_keys(realized.to_set());
    assert(cloned(before.owed(), copy));
}

/// The selector's change comes back as one coin, as the selector gave it, and without change
/// no coin does; and the intents named are those discharged.
pub proof fn realizing_credits_the_change_and_discharges_the_intents<Q: Queue + Clone, E>(
    before: WalletState<Q>,
    required: Seq<UtxoView>,
    realizing: Seq<Q::Id>,
    funding: Funding,
    txid: Seq<u8>,
    result: Result<WalletState<Q>, E>,
)
    requires
        before.comes_to(required, realizing, Ok(funding), txid, result),
    ensures
        result matches Ok(after) && {
            let kept = without(before.coins(), required + wallet::views(funding.inputs@));
            &&& funding.change is None ==> after.coins() == kept
            &&& funding.change matches Some(output) ==> {
                &&& after.coins().len() == kept.len() + 1
                &&& after.coins().drop_last() == kept
                &&& after.coins().last().output.sat == output.value.sat
                &&& after.coins().last().output.script == output.script_pubkey.bytes@
                &&& after.coins().last().outpoint.txid == txid
                &&& payments(before.owed().held(), realizing).len() <= u32::MAX
                    ==> after.coins().last().outpoint.vout == payments(
                    before.owed().held(),
                    realizing,
                ).len()
            }
            &&& before.discharges(realizing, after.owed())
        },
{
    what_is_left_is_what_was_not_spent_and_the_change(
        before,
        result->Ok_0,
        txid,
        required + wallet::views(funding.inputs@),
        payments(before.owed().held(), realizing).len(),
        realizing,
        change_view(funding.change),
    );
}

/// Whatever is spent, the intents named as realized are those discharged.
pub proof fn spending_discharges_the_realized_intents<Q: Queue + Clone>(
    before: WalletState<Q>,
    after: WalletState<Q>,
    txid: Seq<u8>,
    spent: Seq<UtxoView>,
    payments: nat,
    realized: Seq<Q::Id>,
    change: Option<TxOutView>,
)
    requires
        before.becomes(after, txid, spent, payments, realized, change),
    ensures
        before.discharges(realized, after.owed()),
{
}

/// Change is shown as it is, with its amount and its script.
pub proof fn change_is_shown_whole(output: TxOut)
    ensures
        change_view(None) is None,
        change_view(Some(output)) matches Some(shown) && shown.sat == output.value.sat
            && shown.script == output.script_pubkey.bytes@,
{
}

/// A simulated transaction is named by bytes that were drawn for it.
proof fn names_are_drawn(bytes: [u8; 32])
    ensures
        may_be_drawn(bytes) <==> call_ensures(random_bytes, (), bytes),
{
}

} // verus!
