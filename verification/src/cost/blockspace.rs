//! Blockspace accounting.
//!
//! What it costs, in satoshis, to put something in a block. Everything here falls out of
//! consensus rules and the feerate.

use crate::cost::chain::{Amount, FeeRate, SignedAmount, TxOut, Weight};
use crate::cost::wallet::Utxo;
use vstd::prelude::*;

verus! {

/// The non-witness fields every input carries: a 36 byte outpoint and a 4 byte sequence,
/// at four weight units a byte.
pub const OUTPOINT_AND_SEQUENCE: u64 = 160;

/// The script asks for a taproot key: version one, and 32 bytes pushed.
pub open spec fn pays_taproot(script: Seq<u8>) -> bool {
    script.len() == 34 && script[0] == 0x51 && script[1] == 0x20
}

/// The script asks for a key hash in a witness: version zero, and 20 bytes pushed.
pub open spec fn pays_witness_key_hash(script: Seq<u8>) -> bool {
    script.len() == 22 && script[0] == 0x00 && script[1] == 0x14
}

/// How many bytes it takes to write down a length.
pub open spec fn length_prefix(len: nat) -> nat {
    if len < 0xfd {
        1
    } else if len <= 0xffff {
        3
    } else if len <= 0xffff_ffff {
        5
    } else {
        9
    }
}

/// How many bytes an output takes: eight for its value, the script's length prefix and
/// the script.
pub open spec fn output_size(script_len: nat) -> nat {
    8 + length_prefix(script_len) + script_len
}

/// How many satoshis a weight costs at a rate per thousand weight units: the next whole
/// one.
pub open spec fn fee(sat_per_kwu: nat, wu: nat) -> nat {
    (sat_per_kwu * wu + 999) / 1000
}

/// The fee can be computed without exceeding what an amount can hold.
pub open spec fn fee_fits(sat_per_kwu: nat, wu: nat) -> bool {
    sat_per_kwu * wu + 999 <= u64::MAX
}

/// Asks `bitcoin::Script::is_p2tr`.
///
/// Claims that it answers whether the script is 34 bytes, of which the first is the
/// opcode for one and the second pushes 32 bytes.
#[verifier::external_body]
fn is_p2tr(script: &[u8]) -> (answer: bool)
    ensures
        answer == pays_taproot(script@),
{
    bitcoin::Script::from_bytes(script).is_p2tr()
}

/// Asks `bitcoin::Script::is_p2wpkh`.
///
/// Claims that it answers whether the script is 22 bytes, of which the first is the
/// opcode for zero and the second pushes 20 bytes.
#[verifier::external_body]
fn is_p2wpkh(script: &[u8]) -> (answer: bool)
    ensures
        answer == pays_witness_key_hash(script@),
{
    bitcoin::Script::from_bytes(script).is_p2wpkh()
}

/// Asks `bitcoin::transaction::InputWeightPrediction::weight` of
/// `P2TR_KEY_DEFAULT_SIGHASH`.
///
/// Claims 70 weight units: an empty script's length at four a byte, and a witness of one
/// 64 byte signature with its length and the number of elements.
#[verifier::external_body]
fn taproot_spend_weight() -> (wu: u64)
    ensures
        wu == 70,
{
    bitcoin::transaction::InputWeightPrediction::P2TR_KEY_DEFAULT_SIGHASH.weight().to_wu()
}

/// Asks `bitcoin::transaction::InputWeightPrediction::weight` of `P2WPKH_MAX`.
///
/// Claims 112 weight units: an empty script's length at four a byte, and a witness of a
/// 72 byte signature and a 33 byte key with their lengths and the number of elements.
#[verifier::external_body]
fn witness_key_hash_spend_weight() -> (wu: u64)
    ensures
        wu == 112,
{
    bitcoin::transaction::InputWeightPrediction::P2WPKH_MAX.weight().to_wu()
}

/// Asks `bitcoin::FeeRate::fee_wu`.
///
/// Claims that it multiplies rate and weight and rounds up to whole satoshis, unless the
/// product with the rounding added exceeds 64 bits.
#[verifier::external_body]
fn fee_wu(sat_per_kwu: u64, wu: u64) -> (sat: Option<u64>)
    ensures
        match sat {
            Some(sat) => fee_fits(sat_per_kwu as nat, wu as nat) && sat == fee(
                sat_per_kwu as nat,
                wu as nat,
            ),
            None => !fee_fits(sat_per_kwu as nat, wu as nat),
        },
{
    let fee = bitcoin::FeeRate::from_sat_per_kwu(sat_per_kwu).fee_wu(bitcoin::Weight::from_wu(wu));
    fee.map(bitcoin::Amount::to_sat)
}

/// Asks `bitcoin::Amount::to_signed`.
///
/// Claims that an amount is kept, unless it exceeds what a signed one can hold.
#[verifier::external_body]
fn to_signed(sat: u64) -> (signed: Option<i64>)
    ensures
        match signed {
            Some(signed) => signed == sat,
            None => sat > i64::MAX,
        },
{
    bitcoin::Amount::from_sat(sat).to_signed().ok().map(bitcoin::SignedAmount::to_sat)
}

/// Asks `bitcoin::Amount::checked_add`.
///
/// Claims the sum, unless it exceeds what an amount can hold.
#[verifier::external_body]
fn checked_add(left: u64, right: u64) -> (sum: Option<u64>)
    ensures
        match sum {
            Some(sum) => sum == left + right,
            None => left + right > u64::MAX,
        },
{
    bitcoin::Amount::from_sat(left).checked_add(bitcoin::Amount::from_sat(right)).map(
        bitcoin::Amount::to_sat,
    )
}

/// Asks `bitcoin::TxOut::weight`, which panics if the size does not fit its type or four
/// times the size does not fit a weight.
///
/// Claims four weight units for each byte of the output, none of which is witness data.
#[verifier::external_body]
fn output_weight(sat: u64, script: &[u8]) -> (wu: u64)
    requires
        output_size(script@.len()) <= usize::MAX,
        4 * output_size(script@.len()) <= u64::MAX,
    ensures
        wu == 4 * output_size(script@.len()),
{
    let value = bitcoin::Amount::from_sat(sat);
    let script_pubkey = bitcoin::ScriptBuf::from_bytes(script.to_vec());
    bitcoin::TxOut { value, script_pubkey }.weight().to_wu()
}

/// Weight of an input spending an output with this script, witness included, where the
/// script alone tells.
pub open spec fn spend_weight(script: Seq<u8>) -> Option<u64> {
    if pays_taproot(script) {
        Some(230)
    } else if pays_witness_key_hash(script) {
        Some(272)
    } else {
        None
    }
}

/// Value of an output less the blockspace needed to spend it; nothing if the script does
/// not tell, or an amount does not fit.
pub open spec fn value_to_spend(sat: u64, script: Seq<u8>, sat_per_kwu: u64) -> Option<int> {
    match spend_weight(script) {
        None => None,
        Some(wu) => if fee_fits(sat_per_kwu as nat, wu as nat) && sat <= i64::MAX && fee(
            sat_per_kwu as nat,
            wu as nat,
        ) <= i64::MAX {
            Some(sat - fee(sat_per_kwu as nat, wu as nat))
        } else {
            None
        },
    }
}

impl Utxo {
    /// Weight an input spending this coin adds, witness included.
    ///
    /// `None` for anything whose spend size depends on a policy we don't have: P2WSH,
    /// legacy, script path taproot.
    pub fn input_weight(&self) -> (weight: Option<Weight>)
        ensures
            match weight {
                Some(weight) => spend_weight(self@.output.script) == Some(weight.wu),
                None => spend_weight(self@.output.script) is None,
            },
    {
        let script = self.prev_out.script_pubkey.bytes.as_slice();
        if is_p2tr(script) {
            Some(Weight { wu: taproot_spend_weight() + OUTPOINT_AND_SEQUENCE })
        } else if is_p2wpkh(script) {
            Some(Weight { wu: witness_key_hash_spend_weight() + OUTPOINT_AND_SEQUENCE })
        } else {
            None
        }
    }

    /// Value minus the blockspace needed to spend it, which is the number coin selection
    /// adds up.
    ///
    /// Negative means the coin costs more to spend than it carries: dust, at this feerate.
    pub fn effective_value(&self, feerate: FeeRate) -> (value: Option<SignedAmount>)
        ensures
            match value {
                Some(value) => value_to_spend(
                    self@.output.sat,
                    self@.output.script,
                    feerate.sat_per_kwu,
                ) == Some(value.sat as int),
                None => value_to_spend(
                    self@.output.sat,
                    self@.output.script,
                    feerate.sat_per_kwu,
                ) is None,
            },
    {
        let weight = match self.input_weight() {
            Some(weight) => weight,
            None => return None,
        };
        let cost: u64 = match fee_wu(feerate.sat_per_kwu, weight.wu) {
            Some(cost) => cost,
            None => return None,
        };
        match (to_signed(self.prev_out.value.sat), to_signed(cost)) {
            (Some(value), Some(cost)) => Some(SignedAmount { sat: value - cost }),
            _ => None,
        }
    }
}

/// Value of an output plus the blockspace needed to create it; nothing if that exceeds
/// what an amount can hold.
pub open spec fn cost_to_create(sat: u64, script_len: nat, sat_per_kwu: u64) -> Option<int> {
    let wu = 4 * output_size(script_len);
    if fee_fits(sat_per_kwu as nat, wu) && sat + fee(sat_per_kwu as nat, wu) <= u64::MAX {
        Some(sat + fee(sat_per_kwu as nat, wu))
    } else {
        None
    }
}

/// Blockspace accounting for an output the wallet is considering creating.
pub trait EffectiveCost {
    /// The output's size and weight can be computed.
    open spec fn weighable(&self) -> bool {
        true
    }

    /// What creating the output costs in satoshis at a rate per thousand weight units.
    closed spec fn cost(&self, sat_per_kwu: u64) -> Option<int> {
        vstd::pervasive::arbitrary()
    }

    /// Value plus the blockspace needed to create it at a given feerate.
    /// This is effectively the cost of spending this output. i.e value leaving the wallet
    /// as a sender of a transaction.
    ///
    /// `None` if the feerate makes the sum overflow.
    fn effective_cost(&self, feerate: FeeRate) -> (cost: Option<Amount>)
        requires
            self.weighable(),
        ensures
            match cost {
                Some(amount) => self.cost(feerate.sat_per_kwu) == Some(amount.sat as int),
                None => self.cost(feerate.sat_per_kwu) is None,
            },
    ;
}

impl EffectiveCost for TxOut {
    open spec fn weighable(&self) -> bool {
        &&& output_size(self@.script.len()) <= usize::MAX
        &&& 4 * output_size(self@.script.len()) <= u64::MAX
    }

    open spec fn cost(&self, sat_per_kwu: u64) -> Option<int> {
        cost_to_create(self@.sat, self@.script.len(), sat_per_kwu)
    }

    fn effective_cost(&self, feerate: FeeRate) -> (cost: Option<Amount>) {
        let wu: u64 = output_weight(self.value.sat, self.script_pubkey.bytes.as_slice());
        match fee_wu(feerate.sat_per_kwu, wu) {
            None => None,
            Some(fee) => match checked_add(self.value.sat, fee) {
                None => None,
                Some(sat) => Some(Amount { sat }),
            },
        }
    }
}

/// A fee grows with the weight and with the rate, and fits wherever a larger one does.
proof fn fee_is_monotone(low_rate: nat, high_rate: nat, low_wu: nat, high_wu: nat)
    requires
        low_rate <= high_rate,
        low_wu <= high_wu,
    ensures
        fee(low_rate, low_wu) <= fee(high_rate, high_wu),
        fee_fits(high_rate, high_wu) ==> fee_fits(low_rate, low_wu),
{
    assert(low_rate * low_wu <= high_rate * high_wu) by (nonlinear_arith)
        requires
            low_rate <= high_rate,
            low_wu <= high_wu,
    ;
}

/// An output never costs less than it carries.
pub proof fn cost_is_never_less_than_value(sat: u64, script_len: nat, sat_per_kwu: u64)
    ensures
        cost_to_create(sat, script_len, sat_per_kwu) matches Some(cost) ==> cost >= sat,
{
}

/// A longer script never costs less to pay to.
pub proof fn a_longer_script_never_costs_less(
    sat: u64,
    script_len: nat,
    longer: nat,
    sat_per_kwu: u64,
)
    requires
        script_len <= longer,
    ensures
        cost_to_create(sat, longer, sat_per_kwu) matches Some(more) ==> (cost_to_create(
            sat,
            script_len,
            sat_per_kwu,
        ) matches Some(cost) && cost <= more),
{
    fee_is_monotone(
        sat_per_kwu as nat,
        sat_per_kwu as nat,
        4 * output_size(script_len),
        4 * output_size(longer),
    );
}

/// A higher feerate never makes an output cost less.
pub proof fn a_higher_feerate_never_costs_less(
    sat: u64,
    script_len: nat,
    sat_per_kwu: u64,
    higher: u64,
)
    requires
        sat_per_kwu <= higher,
    ensures
        cost_to_create(sat, script_len, higher) matches Some(more) ==> (cost_to_create(
            sat,
            script_len,
            sat_per_kwu,
        ) matches Some(cost) && cost <= more),
{
    fee_is_monotone(
        sat_per_kwu as nat,
        higher as nat,
        4 * output_size(script_len),
        4 * output_size(script_len),
    );
}

/// Every extra satoshi the output carries is one more satoshi it costs.
pub proof fn cost_moves_one_for_one_with_value(
    sat: u64,
    more: u64,
    script_len: nat,
    sat_per_kwu: u64,
)
    requires
        sat <= more,
    ensures
        cost_to_create(more, script_len, sat_per_kwu) matches Some(larger) ==> (cost_to_create(
            sat,
            script_len,
            sat_per_kwu,
        ) matches Some(cost) && larger - cost == more - sat),
{
}

/// Blockspace is priced by size, so what a script says does not matter to the cost of an
/// output, only how long it is.
pub proof fn only_the_script_length_matters(left: TxOut, right: TxOut, sat_per_kwu: u64)
    requires
        left@.sat == right@.sat,
        left@.script.len() == right@.script.len(),
    ensures
        left.cost(sat_per_kwu) == right.cost(sat_per_kwu),
{
}

/// What a coin is worth to spend and what an output costs to create agree: paying a coin
/// straight through to an identical output leaves exactly the fees of the input and of
/// the output unfunded.
pub proof fn effective_value_and_cost_are_mirrors(sat: u64, script: Seq<u8>, sat_per_kwu: u64)
    ensures
        value_to_spend(sat, script, sat_per_kwu) matches Some(have) ==> (cost_to_create(
            sat,
            script.len(),
            sat_per_kwu,
        ) matches Some(need) ==> need - have == fee(
            sat_per_kwu as nat,
            spend_weight(script)->0 as nat,
        ) + fee(sat_per_kwu as nat, 4 * output_size(script.len()))),
{
}

/// A coin is dust, with a negative value to spend, exactly if it carries less than its
/// own input costs.
pub proof fn dust_has_negative_effective_value(sat: u64, script: Seq<u8>, sat_per_kwu: u64)
    ensures
        value_to_spend(sat, script, sat_per_kwu) matches Some(value) ==> (value < 0 <==> sat < fee(
            sat_per_kwu as nat,
            spend_weight(script)->0 as nat,
        )),
{
}

/// Realistic outputs always have a cost: amounts up to the money supply, scripts of up
/// to 200 kB, and feerates of up to a million satoshis per virtual byte.
pub proof fn realistic_outputs_have_a_cost(sat: u64, script_len: nat, sat_per_kwu: u64)
    requires
        sat <= 2_100_000_000_000_000,
        script_len <= 201_000,
        sat_per_kwu <= 250_000_000,
    ensures
        cost_to_create(sat, script_len, sat_per_kwu) is Some,
{
    fee_is_monotone(
        sat_per_kwu as nat,
        250_000_000,
        4 * output_size(script_len),
        4 * output_size(201_000),
    );
    assert(250_000_000nat * 804_052nat + 999 <= u64::MAX) by (nonlinear_arith);
}

/// The two scripts whose spends can be priced are told by their length and their first two
/// bytes, and an input that spends them takes 230 and 272 weight units.
pub proof fn spends_are_priced_by_script(script: Seq<u8>)
    ensures
        script.len() == 34 && script[0] == 0x51 && script[1] == 0x20 ==> spend_weight(script)
            == Some(230u64),
        script.len() == 22 && script[0] == 0x00 && script[1] == 0x14 ==> spend_weight(script)
            == Some(272u64),
        spend_weight(script) is Some ==> {
            ||| script.len() == 34 && script[0] == 0x51 && script[1] == 0x20
            ||| script.len() == 22 && script[0] == 0x00 && script[1] == 0x14
        },
{
}

/// A fee is the least whole number of satoshis that covers the weight at the rate.
pub proof fn a_fee_is_rounded_up(sat_per_kwu: nat, wu: nat)
    ensures
        sat_per_kwu * wu <= 1000 * fee(sat_per_kwu, wu),
        1000 * fee(sat_per_kwu, wu) < sat_per_kwu * wu + 1000,
{
}

/// What an output costs beyond its value is the fee for four weight units for each of its
/// bytes, rounded up: eight bytes of value, the length of the script in one, three, five or
/// nine bytes, and the script. It has no cost only if that does not fit.
pub proof fn an_output_costs_four_weight_units_a_byte(sat: u64, script_len: nat, sat_per_kwu: u64)
    ensures
        ({
            let prefix: nat = if script_len <= 252 {
                1
            } else if script_len <= 65535 {
                3
            } else if script_len <= 4294967295 {
                5
            } else {
                9
            };
            let due = sat_per_kwu * (4 * (8 + prefix + script_len));
            &&& cost_to_create(sat, script_len, sat_per_kwu) matches Some(cost) ==> {
                &&& due <= 1000 * (cost - sat)
                &&& 1000 * (cost - sat) < due + 1000
            }
            &&& cost_to_create(sat, script_len, sat_per_kwu) is None <==> {
                ||| due + 999 > u64::MAX
                ||| 1000 * sat + due > 1000 * u64::MAX
            }
        }),
{
}

/// The same of an output as it stands.
pub proof fn an_output_is_charged_for_its_bytes(output: TxOut, sat_per_kwu: u64)
    ensures
        ({
            let len = output.script_pubkey.bytes@.len();
            let prefix: nat = if len <= 252 {
                1
            } else if len <= 65535 {
                3
            } else if len <= 4294967295 {
                5
            } else {
                9
            };
            let due = sat_per_kwu * (4 * (8 + prefix + len));
            &&& output.cost(sat_per_kwu) matches Some(cost) ==> {
                &&& due <= 1000 * (cost - output.value.sat)
                &&& 1000 * (cost - output.value.sat) < due + 1000
            }
            &&& output.cost(sat_per_kwu) is None <==> {
                ||| due + 999 > u64::MAX
                ||| 1000 * output.value.sat + due > 1000 * u64::MAX
            }
            &&& 8 + prefix + len <= usize::MAX && 4 * (8 + prefix + len) <= u64::MAX
                ==> output.weighable()
        }),
{
    an_output_costs_four_weight_units_a_byte(
        output.value.sat,
        output.script_pubkey.bytes@.len(),
        sat_per_kwu,
    );
}

/// What a coin is worth to spend is its value less the fee for its input, rounded up. It is
/// worth nothing definite only if the script does not tell the weight of that input, or an
/// amount does not fit.
pub proof fn a_coin_is_worth_its_value_less_its_input(sat: u64, script: Seq<u8>, sat_per_kwu: u64)
    ensures
        ({
            let taproot = script.len() == 34 && script[0] == 0x51 && script[1] == 0x20;
            let key_hash = script.len() == 22 && script[0] == 0x00 && script[1] == 0x14;
            let due: int = if taproot {
                sat_per_kwu * 230
            } else {
                sat_per_kwu * 272
            };
            &&& value_to_spend(sat, script, sat_per_kwu) matches Some(value) ==> {
                &&& taproot || key_hash
                &&& due <= 1000 * (sat - value)
                &&& 1000 * (sat - value) < due + 1000
            }
            &&& value_to_spend(sat, script, sat_per_kwu) is None <==> {
                ||| !taproot && !key_hash
                ||| due + 999 > u64::MAX
                ||| sat > i64::MAX
                ||| due > 1000 * i64::MAX
            }
        }),
{
    spends_are_priced_by_script(script);
    a_fee_is_rounded_up(sat_per_kwu as nat, 230);
    a_fee_is_rounded_up(sat_per_kwu as nat, 272);
}

} // verus!
