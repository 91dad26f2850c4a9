//! The reply to a request, and the split between replies and fatal failures.
use vstd::prelude::*;
use crate::evaluate::{outcome_verdict, PatTestErr};

verus! {

/// The reply document: the match outcome, or `false` with a diagnostic.
pub struct PatternTestResult {
    pub is_match: bool,
    pub error: String,
}

impl View for PatternTestResult {
    type V = (bool, Seq<char>);

    open spec fn view(&self) -> (bool, Seq<char>) {
        (self.is_match, self.error@)
    }
}

/// The reply that a verdict gets: a match outcome with an empty error, or
/// no match with the diagnostic.
pub open spec fn reply(verdict: Result<bool, Seq<char>>) -> (bool, Seq<char>) {
    match verdict {
        Ok(b) => (b, Seq::empty()),
        Err(m) => (false, m),
    }
}

/// Builds the reply to an outcome. Problems with the request's content
/// become replies; a failure of the input stream is handed back as the error.
pub fn respond(outcome: Result<bool, PatTestErr>) -> (r: Result<PatternTestResult, std::io::Error>)
    ensures
        match outcome_verdict(outcome) {
            Some(v) => r matches Ok(p) && p@ == reply(v),
            None => r matches Err(e) && outcome == Err::<bool, PatTestErr>(PatTestErr::IoError(e)),
        },
{
    match outcome {
        Ok(b) => Ok(PatternTestResult { is_match: b, error: String::new() }),
        Err(PatTestErr::IoError(e)) => Err(e),
        Err(PatTestErr::InvalidInput(m)) => Ok(PatternTestResult { is_match: false, error: m }),
        Err(PatTestErr::InvalidPattern(m)) => Ok(PatternTestResult { is_match: false, error: m }),
    }
}

} // verus!
