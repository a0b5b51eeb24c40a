use vstd::prelude::*;
use crate::message::Outcome;

verus! {

/// The worker's conversion of a handler's result into the one outcome owed
/// for the envelope it processed. Any error a handler surfaces becomes a
/// failure outcome here, at the boundary nearest its origin, so a failing
/// request never escapes as a raw error and never terminates the worker
/// loop: subsequent requests are still served.
pub fn handler_outcome(result: Result<String, String>) -> (o: Outcome)
    ensures
        o == match result {
            Ok(identity) => Outcome::Success(identity),
            Err(message) => Outcome::Failure(message),
        },
{
    match result {
        Ok(identity) => Outcome::Success(identity),
        Err(message) => Outcome::Failure(message),
    }
}

} // verus!
