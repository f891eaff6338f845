//! The prediction snapshot the client works on, the lookup filter that
//! decides whether an existing prediction can be resumed, and the plan
//! that decides between resuming it and creating a new one.

use vstd::prelude::*;

verus! {

/// The lifecycle state of a prediction as reported by the platform.
#[derive(Clone, Copy, Debug, PartialEq, Eq, Structural)]
pub enum PredictionStatus {
    /// Viewers can still vote.
    Active,
    /// Voting is closed but no winner has been picked yet.
    Locked,
    /// A winning outcome was picked.
    Resolved,
    /// The prediction was cancelled and points were refunded.
    Canceled,
    /// A state this client does not know about.
    Other,
}

/// One selectable choice within a prediction.
#[derive(Debug)]
pub struct Outcome {
    /// Platform-assigned identifier of the outcome.
    pub id: String,
    /// The outcome's display title.
    pub title: String,
}

/// A read-only snapshot of a prediction owned by the platform.
#[derive(Debug)]
pub struct Prediction {
    /// Platform-assigned identifier of the prediction.
    pub id: String,
    /// The prediction's display title.
    pub title: String,
    /// The prediction's lifecycle state.
    pub status: PredictionStatus,
    /// The prediction's outcomes, in the order the platform returned them.
    pub outcomes: Vec<Outcome>,
}

/// A prediction can be resumed while viewers can still vote on it or while
/// it is locked awaiting resolution.
pub open spec fn is_running(status: PredictionStatus) -> bool {
    status == PredictionStatus::Active || status == PredictionStatus::Locked
}

/// Returns whether a prediction in this state can be resumed.
pub fn status_is_running(status: &PredictionStatus) -> (r: bool)
    ensures
        r == is_running(*status),
{
    match status {
        PredictionStatus::Active => true,
        PredictionStatus::Locked => true,
        _ => false,
    }
}

/// Picks the prediction to resume out of a "list predictions" response:
/// the most recent entry, and only if it is still active or locked.
/// Any other entry, and an empty response, yield nothing.
pub fn last_active_prediction(response: Vec<Prediction>) -> (r: Option<Prediction>)
    ensures
        response@.len() > 0 && is_running(response@.last().status) ==> r == Some(
            response@.last(),
        ),
        !(response@.len() > 0 && is_running(response@.last().status)) ==> r is None,
{
    let mut response = response;
    match response.pop() {
        Some(last_prediction) => {
            if status_is_running(&last_prediction.status) {
                Some(last_prediction)
            } else {
                None
            }
        },
        None => None,
    }
}

/// Everything a "create prediction" call needs: the title, the outcome
/// titles in order, and the voting window in seconds.
pub struct CreateRequest {
    /// The title of the prediction to create.
    pub title: String,
    /// The outcome titles, in the order they were supplied.
    pub outcome_titles: Vec<String>,
    /// Duration of the voting window in seconds.
    pub window: i64,
}

/// What to do about the prediction: resume an existing one untouched, or
/// create a new one from the supplied arguments.
pub enum PredictionPlan {
    /// An active or locked prediction already exists; work with it and do
    /// not issue a create call.
    Reuse(Prediction),
    /// No prediction is running; issue exactly this create call.
    Create(CreateRequest),
}

/// Decides between resuming the prediction the lookup found and creating
/// a new one. An existing prediction is reused as it is; otherwise the
/// create request carries exactly the supplied title, outcome titles and
/// window.
pub fn plan_prediction(
    existing: Option<Prediction>,
    title: String,
    outcomes: Vec<String>,
    window: i64,
) -> (r: PredictionPlan)
    ensures
        existing matches Some(p) ==> r == PredictionPlan::Reuse(p),
        existing is None ==> r == PredictionPlan::Create(
            (CreateRequest { title, outcome_titles: outcomes, window }),
        ),
{
    match existing {
        Some(current_prediction) => PredictionPlan::Reuse(current_prediction),
        None => PredictionPlan::Create(
            CreateRequest { title, outcome_titles: outcomes, window },
        ),
    }
}

} // verus!
