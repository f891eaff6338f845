//! The final status line: which end-prediction responses the client
//! recognises and what it says about each.

use vstd::prelude::*;

verus! {

/// The kinds of response an end-prediction call can come back with.
pub enum EndResponseKind {
    /// The prediction was ended as requested.
    Success,
    /// The platform rejected the request body.
    MissingQuery,
    /// The platform rejected the credentials.
    AuthFailed,
    /// A response this client does not know about.
    Unknown,
}

/// The status line for a recognised response, and nothing for an
/// unrecognised one, which the caller must treat as fatal.
pub open spec fn report_line(kind: EndResponseKind) -> Option<Seq<char>> {
    match kind {
        EndResponseKind::Success => Some("Successfully ended prediction"@),
        EndResponseKind::MissingQuery => Some("ERROR: Bad prediction body"@),
        EndResponseKind::AuthFailed => Some("ERROR: Auth failed"@),
        EndResponseKind::Unknown => None,
    }
}

/// Produces the status line to print for an end-prediction response, or
/// nothing when the response is of a kind this client does not know,
/// which the caller must treat as fatal.
pub fn end_report(kind: &EndResponseKind) -> (r: Option<String>)
    ensures
        match r {
            Some(line) => report_line(*kind) matches Some(expected) && line@ == expected,
            None => report_line(*kind) is None,
        },
{
    match kind {
        EndResponseKind::Success => Some(String::from_str("Successfully ended prediction")),
        EndResponseKind::MissingQuery => Some(String::from_str("ERROR: Bad prediction body")),
        EndResponseKind::AuthFailed => Some(String::from_str("ERROR: Auth failed")),
        EndResponseKind::Unknown => None,
    }
}

} // verus!
