//! The interactive selection menu: one entry per outcome, labelled with
//! its one-based position, plus a trailing cancel entry, and the mapping
//! from the operator's selection to the end-prediction request.

use vstd::prelude::*;
use crate::prediction::{Outcome, Prediction, PredictionStatus};
use crate::text::{dec_seq, dec_string};

verus! {

/// The label of the menu entry for the outcome at position `i` (counted
/// from zero): its one-based position in brackets, a space, and its title.
pub open spec fn menu_label(i: nat, title: Seq<char>) -> Seq<char> {
    seq!['['] + dec_seq(i + 1) + seq![']', ' '] + title
}

/// Builds the label of one outcome's menu entry.
fn menu_item(i: usize, title: &String) -> (r: String)
    requires
        i < usize::MAX,
    ensures
        r@ == menu_label(i as nat, title@),
{
    proof {
        reveal_strlit("[");
        reveal_strlit("] ");
    }
    let mut s = String::from_str("[");
    let num = dec_string((i as u64) + 1);
    s.append(num.as_str());
    s.append("] ");
    s.append(title.as_str());
    proof {
        assert(s@ =~= menu_label(i as nat, title@));
    }
    s
}

/// Builds the selection menu for a prediction's outcomes: one labelled
/// entry per outcome, in order, followed by a final cancel entry.
pub fn menu_items(outcomes: &Vec<Outcome>) -> (items: Vec<String>)
    ensures
        items@.len() == outcomes@.len() + 1,
        forall|i: int|
            0 <= i < outcomes@.len() ==> items@[i]@ == menu_label(
                i as nat,
                outcomes@[i].title@,
            ),
        items@.last()@ == "CANCEL"@,
{
    let mut items: Vec<String> = Vec::new();
    let mut i: usize = 0;
    while i < outcomes.len()
        invariant
            i <= outcomes@.len(),
            items@.len() == i,
            forall|j: int|
                0 <= j < i ==> items@[j]@ == menu_label(j as nat, outcomes@[j].title@),
        decreases outcomes@.len() - i,
    {
        items.push(menu_item(i, &outcomes[i].title));
        i = i + 1;
    }
    items.push(String::from_str("CANCEL"));
    items
}

/// Everything an "end prediction" call needs: which prediction to end,
/// its new status, and the winning outcome when one was picked.
pub struct EndRequest {
    /// Identifier of the prediction being ended.
    pub prediction_id: String,
    /// The status to move the prediction to.
    pub status: PredictionStatus,
    /// The winning outcome's identifier when resolving; nothing when
    /// cancelling.
    pub winning_outcome_id: Option<String>,
}

/// Turns the operator's menu selection into the end-prediction request.
/// A selection within the outcome list resolves the prediction with that
/// outcome as the winner; the trailing cancel entry (or any selection past
/// the outcomes) cancels it with no winning outcome.
pub fn end_request_for_selection(prediction: &Prediction, selection: usize) -> (r: EndRequest)
    ensures
        r.prediction_id == prediction.id,
        selection < prediction.outcomes@.len() ==> r.status == PredictionStatus::Resolved
            && r.winning_outcome_id == Some(prediction.outcomes@[selection as int].id),
        selection >= prediction.outcomes@.len() ==> r.status == PredictionStatus::Canceled
            && r.winning_outcome_id is None,
{
    if selection < prediction.outcomes.len() {
        EndRequest {
            prediction_id: prediction.id.clone(),
            status: PredictionStatus::Resolved,
            winning_outcome_id: Some(prediction.outcomes[selection].id.clone()),
        }
    } else {
        EndRequest {
            prediction_id: prediction.id.clone(),
            status: PredictionStatus::Canceled,
            winning_outcome_id: None,
        }
    }
}

} // verus!
