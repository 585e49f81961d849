use fungi::cost::blockspace::EffectiveCost;
use fungi::cost::chain::{
    Amount, FeeRate, OutPoint, ScriptBuf, SignedAmount, TxOut, Txid, Weight,
};
use fungi::cost::wallet::Utxo;

fn per_vb(sats: u64) -> FeeRate {
    FeeRate {
        sat_per_kwu: bitcoin::FeeRate::from_sat_per_vb(sats)
            .unwrap()
            .to_sat_per_kwu(),
    }
}

fn p2tr_spk() -> ScriptBuf {
    let mut spk = vec![0x51, 0x20]; // OP_1 PUSH32
    spk.extend_from_slice(&[0xab; 32]);
    ScriptBuf { bytes: spk }
}

fn p2wpkh_spk() -> ScriptBuf {
    let mut spk = vec![0x00, 0x14]; // OP_0 PUSH20
    spk.extend_from_slice(&[0xcd; 20]);
    ScriptBuf { bytes: spk }
}

fn utxo_with(script_pubkey: ScriptBuf, sats: u64) -> Utxo {
    Utxo {
        outpoint: OutPoint {
            txid: Txid { hash: [0; 32] },
            vout: 0,
        },
        prev_out: TxOut {
            value: Amount { sat: sats },
            script_pubkey,
        },
    }
}

fn p2tr_txout(sats: u64) -> TxOut {
    TxOut {
        value: Amount { sat: sats },
        script_pubkey: p2tr_spk(),
    }
}

#[test]
fn an_output_costs_its_value_plus_its_blockspace() {
    let txout = p2tr_txout(30_000);

    // 8 value + 1 length + 34 script = 43 vB. At 1000 sat/kwu every weight unit is a sat.
    assert_eq!(
        txout
            .effective_cost(FeeRate { sat_per_kwu: 1000 })
            .unwrap(),
        Amount {
            sat: 30_000 + bitcoin::Weight::from_vb(43).unwrap().to_wu()
        }
    );

    // At 10 sat/vB that is 430 sat to create, on top of what it carries.
    let feerate = per_vb(10);
    assert_eq!(
        txout.effective_cost(feerate).unwrap(),
        Amount { sat: 30_430 }
    );
}

/// A feerate no chain will ever see, but the arithmetic still has to say so rather
/// than wrap.
#[test]
fn an_output_priced_past_the_money_supply_has_no_cost() {
    let most = FeeRate {
        sat_per_kwu: u64::MAX,
    };
    assert!(p2tr_txout(30_000).effective_cost(most).is_none());
}

#[test]
fn a_taproot_coin_is_worth_its_value_less_the_spend() {
    let coin = utxo_with(p2tr_spk(), 100_000);

    // 40 vB outpoint and sequence, plus 70 WU for the scriptSig length and a default
    // sighash key path signature: 230 WU, or 57.5 vB.
    assert_eq!(coin.input_weight().unwrap(), Weight { wu: 230 });

    // At 10 sat/vB that spend costs 575 sat.
    let feerate = per_vb(10);
    assert_eq!(
        coin.effective_value(feerate).unwrap(),
        SignedAmount { sat: 99_425 }
    );
}

#[test]
fn a_segwit_v0_coin_pays_for_a_bigger_witness() {
    let coin = utxo_with(p2wpkh_spk(), 100_000);

    // The same 40 vB, plus 112 WU for a DER signature and a compressed key.
    assert_eq!(coin.input_weight().unwrap(), Weight { wu: 272 });
}

/// A coin worth less than its own input is dust: spending it loses money.
#[test]
fn dust_has_negative_effective_value() {
    let coin = utxo_with(p2tr_spk(), 400);
    let feerate = per_vb(10);

    assert_eq!(
        coin.effective_value(feerate).unwrap(),
        SignedAmount { sat: -175 }
    );
}

/// Script types whose spend size depends on a policy we don't have.
#[test]
fn a_coin_we_cannot_price_the_spend_of_has_no_effective_value() {
    let coin = utxo_with(ScriptBuf { bytes: vec![] }, 100_000);

    assert!(coin.input_weight().is_none());
    assert!(coin.effective_value(per_vb(10)).is_none());
}

/// A coin's effective value and an output's effective cost have to agree, or coin
/// selection cannot balance anything: paying a coin straight through to an identical
/// output leaves exactly the transaction overhead unfunded.
#[test]
fn effective_value_and_cost_are_mirrors() {
    let feerate = per_vb(10);
    let coin = utxo_with(p2tr_spk(), 100_000);
    let payment = p2tr_txout(100_000);

    let have = coin.effective_value(feerate).unwrap();
    let need = payment.effective_cost(feerate).unwrap().sat as i64;

    // Short by the input's 575 sat and the output's 430 sat.
    assert_eq!(need - have.sat, 1_005);
}

fn txout(sats: u64, script_len: usize) -> TxOut {
    TxOut {
        value: Amount { sat: sats },
        script_pubkey: ScriptBuf {
            bytes: vec![0xab; script_len],
        },
    }
}

#[test]
fn the_length_prefix_grows_with_the_script() {
    let rate = FeeRate { sat_per_kwu: 1000 };
    for (len, prefix) in [
        (0, 1),
        (0xfc, 1),
        (0xfd, 3),
        (0xffff, 3),
        (0x1_0000, 5),
        (200_000, 5),
    ] {
        assert_eq!(
            txout(7, len).effective_cost(rate).unwrap(),
            Amount {
                sat: 7 + 4 * (8 + prefix + len as u64)
            }
        );
    }
}

#[test]
fn a_fee_is_rounded_up_to_whole_satoshis() {
    // 9 bytes are 36 weight units.
    for (rate, fee) in [(0, 0), (1, 1), (27, 1), (28, 2), (1000, 36), (1001, 37)] {
        assert_eq!(
            txout(0, 0)
                .effective_cost(FeeRate { sat_per_kwu: rate })
                .unwrap(),
            Amount { sat: fee }
        );
    }
}

#[test]
fn costs_and_values_that_do_not_fit_are_refused() {
    let free = FeeRate { sat_per_kwu: 0 };
    let cheap = FeeRate { sat_per_kwu: 1 };
    assert_eq!(
        txout(u64::MAX, 0).effective_cost(free).unwrap(),
        Amount { sat: u64::MAX }
    );
    assert!(txout(u64::MAX, 0).effective_cost(cheap).is_none());

    let most = i64::MAX as u64;
    assert_eq!(
        utxo_with(p2tr_spk(), most).effective_value(free).unwrap(),
        SignedAmount { sat: i64::MAX }
    );
    assert!(utxo_with(p2tr_spk(), most + 1)
        .effective_value(free)
        .is_none());
    assert!(utxo_with(p2tr_spk(), 0)
        .effective_value(FeeRate {
            sat_per_kwu: u64::MAX
        })
        .is_none());
}

#[test]
fn only_known_scripts_are_priced() {
    let mut long = p2tr_spk();
    long.bytes.push(0);
    let mut other_version = p2tr_spk();
    other_version.bytes[0] = 0x52;
    let mut script_hash = p2tr_spk();
    script_hash.bytes[0] = 0x00;
    let mut other_push = p2wpkh_spk();
    other_push.bytes[1] = 0x13;
    for script in [long, other_version, script_hash, other_push] {
        assert!(utxo_with(script, 1).input_weight().is_none());
    }
}

#[test]
fn costs_grow_with_the_script_the_feerate_and_the_value() {
    let rates = [0, 1, 999, 2500, 250_000_000];
    let lens = [0, 34, 0xfc, 0xfd, 0xffff, 0x1_0000];
    for rate in rates {
        let feerate = FeeRate { sat_per_kwu: rate };
        for len in lens {
            let cost = txout(1000, len).effective_cost(feerate).unwrap();
            assert!(cost.sat >= 1000);
            let longer = txout(1000, len + 1).effective_cost(feerate).unwrap();
            assert!(longer >= cost);
            let dearer = FeeRate {
                sat_per_kwu: rate + 1,
            };
            assert!(txout(1000, len).effective_cost(dearer).unwrap() >= cost);
            let bigger = txout(1007, len).effective_cost(feerate).unwrap();
            assert_eq!(bigger.sat - cost.sat, 7);
            let other = TxOut {
                value: Amount { sat: 1000 },
                script_pubkey: ScriptBuf {
                    bytes: (0..len).map(|i| i as u8).collect(),
                },
            };
            assert_eq!(other.effective_cost(feerate).unwrap(), cost);
        }
    }
}
