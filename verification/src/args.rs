//! Command-line argument validation: a prediction needs a title, between
//! two and five outcome titles, and a prediction window in seconds.

use vstd::prelude::*;
use crate::text::{dec_seq, dec_string};

verus! {

/// The validated command-line arguments: the prediction's title, its
/// outcome titles, and how long viewers may vote, in seconds.
pub struct App {
    /// The title of the prediction.
    pub title: String,
    /// Outcome titles. At least 2 and at most 5 must be provided.
    pub outcome: Vec<String>,
    /// Duration of the voting window in seconds.
    pub prediction_window: i64,
}

/// Why argument validation rejected the input. Each variant carries the
/// number of outcomes that were actually supplied.
#[derive(Debug, PartialEq, Eq, Structural)]
pub enum ArgError {
    /// Fewer than two outcomes were supplied.
    TooFewOutcomes(usize),
    /// More than five outcomes were supplied.
    TooManyOutcomes(usize),
}

impl ArgError {
    /// The message reported for this rejection, quoting the number of
    /// outcomes that were supplied.
    pub open spec fn message_spec(&self) -> Seq<char> {
        match self {
            ArgError::TooFewOutcomes(n) => "You must provide at least 2 outcomes with --outcome, you provided "@
                + dec_seq(*n as nat),
            ArgError::TooManyOutcomes(n) => "You may provide at most 5 outcomes with --outcome, you provided "@
                + dec_seq(*n as nat),
        }
    }

    /// Writes out the message reported for this rejection.
    pub fn message(&self) -> (r: String)
        ensures
            r@ == self.message_spec(),
    {
        match self {
            ArgError::TooFewOutcomes(n) => {
                let mut s = String::from_str(
                    "You must provide at least 2 outcomes with --outcome, you provided ",
                );
                let count = dec_string(*n as u64);
                s.append(count.as_str());
                s
            },
            ArgError::TooManyOutcomes(n) => {
                let mut s = String::from_str(
                    "You may provide at most 5 outcomes with --outcome, you provided ",
                );
                let count = dec_string(*n as u64);
                s.append(count.as_str());
                s
            },
        }
    }
}

/// Validates the raw argument values. Succeeds exactly when between two
/// and five outcomes are supplied; no other validation is performed.
pub fn parse_args(title: String, outcome: Vec<String>, prediction_window: i64) -> (r: Result<
    App,
    ArgError,
>)
    ensures
        r is Ok <==> 2 <= outcome@.len() <= 5,
        r matches Ok(app) ==> app.title == title && app.outcome == outcome
            && app.prediction_window == prediction_window,
        outcome@.len() < 2 ==> r == Err::<App, ArgError>(ArgError::TooFewOutcomes(outcome.len())),
        outcome@.len() > 5 ==> r == Err::<App, ArgError>(ArgError::TooManyOutcomes(outcome.len())),
{
    let num_outcomes = outcome.len();
    if num_outcomes < 2 {
        Err(ArgError::TooFewOutcomes(num_outcomes))
    } else if num_outcomes > 5 {
        Err(ArgError::TooManyOutcomes(num_outcomes))
    } else {
        Ok(App { title, outcome, prediction_window })
    }
}

} // verus!
