//! The all-or-nothing boundary around an attempt.
//!
//! The library holds no rollback logic. On chain the host runtime discards
//! every change of an invocation that ends in failure; a harness that stands
//! in for the runtime has to do the same, and this is the rule it applies.

use crate::error::ProvisionError;
use vstd::prelude::*;

verus! {

/// What is visible after an attempt that started from `before` and, while
/// it ran, turned that state into `attempted`: the attempted state if the
/// attempt succeeded, the earlier one if it failed.
pub open spec fn visible<S>(before: S, attempted: S, outcome: Result<(), ProvisionError>) -> S {
    if outcome is Ok {
        attempted
    } else {
        before
    }
}

/// Commits or discards the changes of one attempt.
pub fn settle<S>(before: S, attempted: S, outcome: &Result<(), ProvisionError>) -> (after: S)
    ensures
        after == visible(before, attempted, *outcome),
{
    match outcome {
        Ok(_) => attempted,
        Err(_) => before,
    }
}

} // verus!
