use vstd::prelude::*;

verus! {

/// Verdict on a pending commit.
#[derive(Clone, Debug)]
pub enum CommitDecision {
    Allow { message: String, suggestions: Vec<String> },
    Block { reason: String, details: String, suggestions: Vec<String> },
}

/// Message of the decision given while code review is disabled.
pub open spec fn review_disabled_message() -> Seq<char> {
    "Code review functionality has been disabled (Agent functionality removed)"@
}

/// The decision given while code review is disabled: every commit is
/// allowed, with no suggestions.
pub fn review_disabled_decision() -> (r: CommitDecision)
    ensures
        r matches CommitDecision::Allow { message, suggestions } && message@
            == review_disabled_message() && suggestions@.len() == 0,
{
    CommitDecision::Allow {
        message: String::from_str(
            "Code review functionality has been disabled (Agent functionality removed)",
        ),
        suggestions: Vec::new(),
    }
}

} // verus!
