use std::collections::HashSet;

use fungi::cost::chain::{Amount, FeeRate, OutPoint, ScriptBuf, TxOut, Txid, Weight};
use fungi::cost::intent::{
    Action, Duration, FixedPaymentInstructions, Instant, Intent, PayoffCurve,
};
use fungi::cost::queue::{InMemoryQueue, Queue};
use fungi::cost::selection::{CoinSelector, Funding, FundingRequest, SelectionParams};
use fungi::cost::wallet::{Utxo, WalletState};

fn zeros() -> Txid {
    Txid { hash: [0; 32] }
}

fn utxo(vout: u32, sats: u64) -> Utxo {
    Utxo {
        outpoint: OutPoint {
            txid: zeros(),
            vout,
        },
        prev_out: TxOut {
            value: Amount { sat: sats },
            script_pubkey: ScriptBuf { bytes: vec![] },
        },
    }
}

fn now() -> Instant {
    Instant { nanos: 1_000_000 }
}

fn per_vb(sats: u64) -> FeeRate {
    FeeRate {
        sat_per_kwu: bitcoin::FeeRate::from_sat_per_vb(sats)
            .expect("a feerate in range")
            .to_sat_per_kwu(),
    }
}

/// Built from an explicit `start` so two calls with the same arguments compare equal.
fn intent(start: Instant, sats: u64) -> Intent {
    Intent::new(
        Action::OutputCreation(FixedPaymentInstructions {
            script_pubkey: ScriptBuf { bytes: vec![0x51] },
            amount: Amount { sat: sats },
        }),
        PayoffCurve::new(
            start,
            vec![(
                Duration {
                    nanos: 60_000_000_000,
                },
                Amount { sat: sats },
            )],
        ),
    )
}

#[test]
fn an_empty_queue_has_nothing_in_it() {
    let queue = InMemoryQueue::new(vec![]);

    assert_eq!(queue.iter().len(), 0);
}

#[test]
fn every_intent_is_yielded_under_its_own_id() {
    let start = now();
    let mut queue = InMemoryQueue::new(vec![intent(start, 1), intent(start, 2)]);
    let pushed = queue.push(intent(start, 3));

    let ids: HashSet<u64> = queue.iter().into_iter().map(|(id, _)| id).collect();

    assert_eq!(ids.len(), 3);
    assert_eq!(
        queue
            .iter()
            .into_iter()
            .find(|&(id, _)| id == pushed)
            .map(|(_, held)| held),
        Some(&intent(start, 3))
    );
    assert_eq!(queue.clone(), queue);
}

#[test]
fn an_id_is_not_given_to_another_intent() {
    let start = now();
    let mut queue = InMemoryQueue::new(vec![intent(start, 1), intent(start, 2)]);
    assert_eq!(queue.get(1), Some(&intent(start, 2)));
    queue.remove(1);
    queue.remove(7);
    assert_eq!(queue.get(1), None);
    assert_eq!(queue.push(intent(start, 3)), 2);
    assert_eq!(queue.get(0), Some(&intent(start, 1)));
    assert_eq!(queue.get(2), Some(&intent(start, 3)));
    assert_eq!(queue.iter().len(), 2);
}

fn selection_params() -> SelectionParams {
    SelectionParams {
        feerate: per_vb(10),
        long_term_feerate: per_vb(3),
        change_script: ScriptBuf { bytes: vec![] },
        dust_limit: Amount { sat: 330 },
        max_selection_weight: Weight { wu: 400_000 },
    }
}

/// Takes every coin on offer, or refuses when there are none. Enough to exercise the
/// contract, not a strategy anyone should use.
struct TakeEverything;

#[derive(Debug, PartialEq, Eq)]
struct NothingOnOffer;

impl CoinSelector for TakeEverything {
    type Error = NothingOnOffer;

    fn select(&self, request: FundingRequest<'_>) -> Result<Funding, NothingOnOffer> {
        if request.available.is_empty() {
            return Err(NothingOnOffer);
        }

        Ok(Funding {
            inputs: request.available.to_vec(),
            change: None,
        })
    }
}

#[test]
fn a_selector_answers_with_coins_from_those_on_offer() {
    let required = [utxo(0, 10_000)];
    let available = [utxo(1, 20_000), utxo(2, 30_000)];
    let params = selection_params();

    let funding = TakeEverything
        .select(FundingRequest {
            required: &required,
            available: &available,
            outputs: &[],
            params: &params,
        })
        .unwrap();

    assert_eq!(funding.inputs, available);
    assert!(!funding.inputs.contains(&required[0]));
    assert_eq!(funding.change, None);
    assert_eq!(funding.clone(), funding);
    assert_eq!(params.clone(), params);
}

#[test]
fn a_selector_reports_failure_in_its_own_terms() {
    let params = selection_params();

    let err = TakeEverything
        .select(FundingRequest {
            required: &[],
            available: &[],
            outputs: &[],
            params: &params,
        })
        .unwrap_err();

    assert_eq!(err, NothingOnOffer);
}

#[test]
fn a_coin_is_named_by_the_outpoint_it_sits_at() {
    let coin = utxo(1, 50_000);

    assert_eq!(coin.outpoint.vout, 1);
    assert_eq!(coin.clone(), coin);
}

#[test]
fn a_wallet_state_keeps_the_coins_and_queue_it_was_given() {
    let state = WalletState::new(
        vec![utxo(0, 10_000), utxo(1, 20_000)],
        InMemoryQueue::new(vec![]),
    );

    assert_eq!(state.utxos(), [utxo(0, 10_000), utxo(1, 20_000)]);
    assert_eq!(*state.queue(), InMemoryQueue::new(vec![]));
    assert_eq!(state.clone(), state);
}

/// Where every payment in these tests goes, so two intents for the same amount are
/// genuinely indistinguishable by their outputs.
fn payee() -> ScriptBuf {
    ScriptBuf { bytes: vec![0x52] }
}

fn payment(sats: u64) -> TxOut {
    TxOut {
        value: Amount { sat: sats },
        script_pubkey: payee(),
    }
}

fn intent_paying(sats: u64) -> Intent {
    Intent::new(
        Action::OutputCreation(FixedPaymentInstructions {
            script_pubkey: payee(),
            amount: Amount { sat: sats },
        }),
        PayoffCurve::new(now(), vec![]),
    )
}

fn params() -> SelectionParams {
    SelectionParams {
        feerate: per_vb(10),
        long_term_feerate: per_vb(5),
        change_script: ScriptBuf { bytes: vec![0x51] },
        dust_limit: Amount { sat: 330 },
        max_selection_weight: Weight { wu: 400_000 },
    }
}

/// A wallet holding `utxos` and owing a payment for each amount in `owed`, with the
/// ids naming them in the order given.
fn wallet(utxos: Vec<Utxo>, owed: &[u64]) -> (WalletState<InMemoryQueue>, Vec<u64>) {
    let mut queue = InMemoryQueue::new(vec![]);
    let ids = owed.iter().map(|&sats| queue.push(intent_paying(sats)));

    let ids: Vec<u64> = ids.collect();

    (WalletState::new(utxos, queue), ids)
}

fn change_of(sats: u64) -> Option<TxOut> {
    Some(TxOut {
        value: Amount { sat: sats },
        script_pubkey: params().change_script,
    })
}

/// Takes whatever it is offered and hands back `change`, so a test says outright what
/// the funding decision was.
struct Decided {
    change: Option<TxOut>,
}

impl CoinSelector for Decided {
    type Error = NothingOnOffer;

    fn select(&self, request: FundingRequest<'_>) -> Result<Funding, NothingOnOffer> {
        for coin in request.required {
            assert!(
                !request.available.contains(coin),
                "a coin the outputs commit to is not on offer again"
            );
        }

        if request.available.is_empty() && request.required.is_empty() {
            return Err(NothingOnOffer);
        }

        Ok(Funding {
            inputs: request.available.to_vec(),
            change: self.change.clone(),
        })
    }
}

#[test]
fn realizing_spends_the_selected_coins_and_credits_the_change() {
    let (before, owed) = wallet(vec![utxo(0, 100_000)], &[30_000]);
    let selector = Decided {
        change: change_of(69_000),
    };

    let after = before
        .realize(&[], &owed, &params(), &selector)
        .expect("the wallet has a coin to offer");

    // The spent coin is gone and only the change came back: 30k to a stranger and
    // 1k to the miner.
    assert_eq!(
        after
            .utxos()
            .iter()
            .map(|coin| coin.prev_out.value)
            .collect::<Vec<_>>(),
        [Amount { sat: 69_000 }]
    );
}

/// Change lands after the payments, so its vout depends on how many intents the
/// transaction realizes.
#[test]
fn change_is_a_coin_the_wallet_can_go_on_to_spend() {
    let (before, owed) = wallet(vec![utxo(0, 100_000)], &[10_000, 20_000]);
    let selector = Decided {
        change: change_of(69_000),
    };

    let after = before
        .realize(&[], &owed, &params(), &selector)
        .expect("the wallet has a coin to offer");

    let change = &after.utxos()[0];

    assert_eq!(change.outpoint.vout, 2);
    assert_ne!(change.outpoint.txid, zeros());
}

/// The whole reason intents are named by id: two asking for the same payment are two
/// obligations, and settling both takes two outputs.
#[test]
fn identical_intents_are_paid_one_output_each() {
    let (before, owed) = wallet(vec![utxo(0, 100_000)], &[30_000, 30_000]);
    let paid = std::cell::RefCell::new(Vec::new());

    let selector = Recording { paid: &paid };

    let after = before
        .realize(&[], &owed, &params(), &selector)
        .expect("the wallet has a coin to offer");

    assert_eq!(*paid.borrow(), [payment(30_000), payment(30_000)]);
    assert_eq!(after.queue().iter().len(), 0);
}

/// Notes the outputs it was asked to fund, so a test can see what the transaction pays.
struct Recording<'a> {
    paid: &'a std::cell::RefCell<Vec<TxOut>>,
}

impl CoinSelector for Recording<'_> {
    type Error = NothingOnOffer;

    fn select(&self, request: FundingRequest<'_>) -> Result<Funding, NothingOnOffer> {
        self.paid
            .borrow_mut()
            .extend(request.outputs.iter().cloned());

        Ok(Funding {
            inputs: request.available.to_vec(),
            change: None,
        })
    }
}

/// A changeless transaction pays the surplus to the miner, so nothing returns.
#[test]
fn without_change_nothing_comes_back() {
    let (before, owed) = wallet(vec![utxo(0, 100_000), utxo(1, 5_000)], &[30_000]);
    let selector = Decided { change: None };

    let after = before
        .realize(&[], &owed, &params(), &selector)
        .expect("the wallet has coins to offer");

    assert!(after.utxos().is_empty());
}

/// Coins the intents already commit to are spent, not offered again.
#[test]
fn a_required_coin_is_spent_without_being_selected() {
    let committed = utxo(0, 100_000);
    let (before, owed) = wallet(vec![committed.clone(), utxo(1, 5_000)], &[30_000]);
    let selector = Decided { change: None };

    let after = before
        .realize(&[committed], &owed, &params(), &selector)
        .expect("the wallet has coins to offer");

    // The selector saw only the other coin, and both are spent regardless.
    assert!(after.utxos().is_empty());
}

/// A selector that cannot fund the request says so, and no state is simulated.
#[test]
fn a_selector_that_gives_up_is_not_simulated() {
    let (before, owed) = wallet(vec![], &[30_000]);
    let selector = Decided { change: None };

    assert_eq!(
        before.realize(&[], &owed, &params(), &selector),
        Err(NothingOnOffer)
    );
}

/// The wallet stops owing what it just paid, so the next batch is not asked to pay
/// it again.
#[test]
fn realizing_an_intent_takes_it_off_the_queue() {
    let (before, owed) = wallet(vec![utxo(0, 100_000)], &[30_000]);
    let selector = Decided { change: None };

    let after = before
        .realize(&[], &owed, &params(), &selector)
        .expect("the wallet has a coin to offer");

    assert_eq!(before.queue().iter().len(), 1);
    assert_eq!(after.queue().iter().len(), 0);
}

/// Only the intents the transaction was told to realize are discharged.
#[test]
fn an_intent_left_out_stays_owed() {
    let (before, owed) = wallet(vec![utxo(0, 100_000)], &[30_000, 70_000]);
    let selector = Decided { change: None };

    let after = before
        .realize(&[], &owed[..1], &params(), &selector)
        .expect("the wallet has a coin to offer");

    let still_owed: Vec<TxOut> = after
        .queue()
        .iter()
        .into_iter()
        .flat_map(|(_, intent)| intent.action().outputs())
        .collect();

    assert_eq!(still_owed, [payment(70_000)]);
}

/// An id the queue no longer holds pays for nothing and discharges nothing.
#[test]
fn an_id_the_queue_has_forgotten_asks_for_no_output() {
    let (before, owed) = wallet(vec![utxo(0, 100_000)], &[30_000]);
    let selector = Decided { change: None };

    let after = before
        .realize(&[], &owed, &params(), &selector)
        .expect("the wallet has a coin to offer");

    // Realizing the same intent again finds nothing left to pay.
    let again = after
        .realize(&[], &owed, &params(), &selector)
        .expect_err("the wallet has nothing left to offer");

    assert_eq!(again, NothingOnOffer);
}

/// Selects nothing beyond what is required.
struct Idle;

impl CoinSelector for Idle {
    type Error = NothingOnOffer;

    fn select(&self, _request: FundingRequest<'_>) -> Result<Funding, NothingOnOffer> {
        Ok(Funding {
            inputs: vec![],
            change: None,
        })
    }
}

#[test]
fn coins_that_are_not_spent_stay_in_order() {
    let coins = vec![utxo(0, 1), utxo(1, 2), utxo(2, 3), utxo(3, 4)];
    let (before, owed) = wallet(coins, &[1]);

    let after = before
        .realize(&[utxo(2, 3)], &owed, &params(), &Idle)
        .expect("nothing is asked of the selector");

    assert_eq!(after.utxos(), [utxo(0, 1), utxo(1, 2), utxo(3, 4)]);
    assert_eq!(before.utxos().len(), 4);
}

#[test]
fn change_of_a_named_transaction_sits_after_its_payments() {
    let (before, owed) = wallet(vec![utxo(0, 100_000), utxo(1, 7)], &[1, 2]);
    let txid = Txid { hash: [9; 32] };

    let after = before.spend_as(
        txid,
        &[utxo(0, 100_000)],
        &[payment(1), payment(2), payment(3)],
        &owed[1..],
        change_of(50),
    );

    assert_eq!(
        after.utxos(),
        [
            utxo(1, 7),
            Utxo {
                outpoint: OutPoint { txid, vout: 3 },
                prev_out: change_of(50).unwrap(),
            }
        ]
    );
    assert_eq!(after.queue().get(owed[0]), Some(&intent_paying(1)));
    assert_eq!(after.queue().get(owed[1]), None);
}

#[test]
fn simulated_transactions_have_different_names() {
    let (before, owed) = wallet(vec![utxo(0, 100_000)], &[1]);
    let spend = || before.spend(&[], &[], &owed, change_of(50));
    let (first, second) = (spend(), spend());
    assert_ne!(first.utxos()[1].outpoint.txid, second.utxos()[1].outpoint.txid);
}
