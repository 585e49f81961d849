//! Which coins fund a transaction.

use crate::cost::chain::{Amount, FeeRate, ScriptBuf, TxOut, TxOutView, Weight};
use crate::cost::wallet::{self, Utxo, UtxoView};
use vstd::prelude::*;

verus! {

/// Everything a `CoinSelector` needs that isn't wallet state.
#[derive(Debug, PartialEq, Eq)]
pub struct SelectionParams {
    /// What we pay for blockspace now.
    pub feerate: FeeRate,
    /// What we expect to pay to spend change later.
    pub long_term_feerate: FeeRate,
    /// Where change goes, if there is any.
    pub change_script: ScriptBuf,
    /// Change below this is not worth creating.
    pub dust_limit: Amount,
    /// Ceiling on the weight of the selected inputs.
    pub max_selection_weight: Weight,
}

impl Clone for SelectionParams {
    fn clone(&self) -> (params: Self)
        ensures
            params.feerate == self.feerate,
            params.long_term_feerate == self.long_term_feerate,
            params.change_script.bytes@ == self.change_script.bytes@,
            params.dust_limit == self.dust_limit,
            params.max_selection_weight == self.max_selection_weight,
    {
        Self {
            feerate: self.feerate,
            long_term_feerate: self.long_term_feerate,
            change_script: self.change_script.clone(),
            dust_limit: self.dust_limit,
            max_selection_weight: self.max_selection_weight,
        }
    }
}

/// A funding gap to close.
#[derive(Debug)]
pub struct FundingRequest<'a> {
    /// Coins the batch's intents already commit to spending.
    pub required: &'a [Utxo],
    /// Coins the selector may draw on. Disjoint from `required`.
    pub available: &'a [Utxo],
    /// What the transaction has to pay. This should not include change coming back to the wallet.
    pub outputs: &'a [TxOut],
    /// What else there is to know.
    pub params: &'a SelectionParams,
}

/// A funding gap to close, by value.
pub struct FundingRequestView {
    /// Coins the batch's intents already commit to spending.
    pub required: Seq<UtxoView>,
    /// Coins the selector may draw on.
    pub available: Seq<UtxoView>,
    /// What the transaction has to pay.
    pub outputs: Seq<TxOutView>,
    /// What else there is to know.
    pub params: SelectionParams,
}

/// Outputs, by value.
pub open spec fn views(outputs: Seq<TxOut>) -> Seq<TxOutView> {
    outputs.map_values(|output: TxOut| output@)
}

impl<'a> View for FundingRequest<'a> {
    type V = FundingRequestView;

    open spec fn view(&self) -> FundingRequestView {
        FundingRequestView {
            required: wallet::views(self.required@),
            available: wallet::views(self.available@),
            outputs: views(self.outputs@),
            params: *self.params,
        }
    }
}

/// What a `CoinSelector` returns.
#[derive(Debug, PartialEq, Eq)]
pub struct Funding {
    /// Coins the selector added. Excludes [`FundingRequest::required`].
    pub inputs: Vec<Utxo>,
    /// Change, when the surplus is worth an output.
    pub change: Option<TxOut>,
}

impl Clone for Funding {
    fn clone(&self) -> (funding: Self)
        ensures
            wallet::views(funding.inputs@) == wallet::views(self.inputs@),
            match self.change {
                None => funding.change is None,
                Some(change) => funding.change matches Some(same) && same@ == change@,
            },
    {
        Self {
            inputs: wallet::copies(self.inputs.as_slice()),
            change: match &self.change {
                None => None,
                Some(change) => Some(change.clone()),
            },
        }
    }
}

/// A strategy for closing a [`FundingRequest`]'s funding gap.
pub trait CoinSelector {
    /// Why a gap could not be closed.
    type Error;

    /// The strategy can be asked about `request`.
    open spec fn selectable(&self, request: FundingRequestView) -> bool {
        true
    }

    /// The strategy may answer `request` with `answer`.
    open spec fn selects(
        &self,
        request: FundingRequestView,
        answer: Result<Funding, Self::Error>,
    ) -> bool {
        true
    }

    /// Close a funding gap.
    fn select(&self, request: FundingRequest<'_>) -> (answer: Result<Funding, Self::Error>)
        requires
            self.selectable(request@),
        ensures
            self.selects(request@, answer),
    ;
}

/// Outputs are shown whole, one for one and in order.
pub proof fn outputs_are_shown_whole(outputs: Seq<TxOut>)
    ensures
        views(outputs).len() == outputs.len(),
        forall|i: int|
            0 <= i < outputs.len() ==> {
                &&& (#[trigger] views(outputs)[i]).sat == outputs[i].value.sat
                &&& views(outputs)[i].script == outputs[i].script_pubkey.bytes@
            },
{
}

/// A funding gap is shown whole: every coin and output of it, in order, and what else there is
/// to know.
pub proof fn a_funding_gap_is_shown_whole(request: FundingRequest<'_>, i: int)
    ensures
        request@.params == *request.params,
        request@.required.len() == request.required@.len(),
        request@.available.len() == request.available@.len(),
        request@.outputs.len() == request.outputs@.len(),
        0 <= i < request.required@.len() ==> request@.required[i] == request.required@[i]@,
        0 <= i < request.available@.len() ==> request@.available[i] == request.available@[i]@,
        0 <= i < request.outputs@.len() ==> request@.outputs[i] == request.outputs@[i]@,
{
}

} // verus!
