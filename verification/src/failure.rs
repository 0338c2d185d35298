//! What can go wrong in a run.

use vstd::prelude::*;

verus! {

/// The failure of a run.  Both kinds are fatal: nothing is printed for an
/// input or a pattern that is rejected.
#[derive(Debug)]
pub enum Failure {
    /// The filter pattern does not compile.  Holds the reason, as the
    /// `regex` crate words it.
    InvalidPattern(String),
    /// The input is no JSON list of records.  Holds the reason, as the
    /// `serde_json` crate words it.
    InvalidJson(String),
}

/// The mathematical model of [`Failure`].
pub enum FailureView {
    InvalidPattern(Seq<char>),
    InvalidJson(Seq<char>),
}

impl View for Failure {
    type V = FailureView;

    open spec fn view(&self) -> FailureView {
        match self {
            Failure::InvalidPattern(reason) => FailureView::InvalidPattern(reason@),
            Failure::InvalidJson(reason) => FailureView::InvalidJson(reason@),
        }
    }
}

/// The diagnostic for `failure`: what went wrong, a colon, and the reason.
pub open spec fn diagnostic(failure: FailureView) -> Seq<char> {
    match failure {
        FailureView::InvalidPattern(reason) => "Invalid grep pattern: "@ + reason,
        FailureView::InvalidJson(reason) => "Error parsing JSON: "@ + reason,
    }
}

impl Failure {
    /// The diagnostic to print for this failure.
    pub fn message(&self) -> (out: String)
        ensures
            out@ == diagnostic(self@),
    {
        match self {
            Failure::InvalidPattern(reason) => {
                let mut out = String::from_str("Invalid grep pattern: ");
                out.append(reason.as_str());
                out
            },
            Failure::InvalidJson(reason) => {
                let mut out = String::from_str("Error parsing JSON: ");
                out.append(reason.as_str());
                out
            },
        }
    }
}

} // verus!
