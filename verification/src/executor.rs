//! Submitting a transaction and waiting for it: when to retry, when to give
//! up, and when the transaction counts as committed.

use vstd::prelude::*;

verus! {

/// How many times a node request is tried before the client gives up.
pub const MAX_ATTEMPTS: u32 = 20;

/// A transaction id, as the four field elements of its digest.
pub type TxId = [u64; 4];

/// How a request to the node went.
#[derive(Debug, Clone, Copy, PartialEq, Eq, Structural)]
pub enum RpcOutcome {
    /// The request succeeded.
    Success,
    /// The node could not be reached; worth trying again.
    NodeUnavailable,
    /// Any other failure.
    Failure,
}

/// What the client does after a request.
#[derive(Debug, Clone, Copy, PartialEq, Eq, Structural)]
pub enum RetryStep {
    /// Go on with the result.
    Done,
    /// Pause, then try again.
    PauseThenRetry,
    /// Pause, then give up: the attempts are used up.
    PauseThenGiveUp,
    /// Give up at once: the failure is not one to retry.
    Abort,
}

/// The step after the request numbered `attempt` (counting from 0): done on
/// success, abort on a failure other than an unreachable node, and for an
/// unreachable node a pause followed by another attempt while attempts remain,
/// or by giving up after the last one.
pub open spec fn spec_retry_step(attempt: u32, outcome: RpcOutcome) -> RetryStep {
    match outcome {
        RpcOutcome::Success => RetryStep::Done,
        RpcOutcome::Failure => RetryStep::Abort,
        RpcOutcome::NodeUnavailable => if attempt + 1 < MAX_ATTEMPTS {
            RetryStep::PauseThenRetry
        } else {
            RetryStep::PauseThenGiveUp
        },
    }
}

/// Decides what follows the request numbered `attempt` (counting from 0).
pub fn retry_step(attempt: u32, outcome: RpcOutcome) -> (step: RetryStep)
    requires
        attempt < MAX_ATTEMPTS,
    ensures
        step == spec_retry_step(attempt, outcome),
{
    match outcome {
        RpcOutcome::Success => RetryStep::Done,
        RpcOutcome::Failure => RetryStep::Abort,
        RpcOutcome::NodeUnavailable => {
            if attempt + 1 < MAX_ATTEMPTS {
                RetryStep::PauseThenRetry
            } else {
                RetryStep::PauseThenGiveUp
            }
        },
    }
}

/// The transaction `id` is committed once it is no longer among the
/// transactions the client still sees as uncommitted.
pub fn is_tx_committed(uncommitted: &Vec<TxId>, id: &TxId) -> (committed: bool)
    ensures
        committed == !(exists|j: int| 0 <= j < uncommitted@.len() && (#[trigger] uncommitted@[j])@ == id@),
{
    let mut j: usize = 0;
    while j < uncommitted.len()
        invariant
            j <= uncommitted.len(),
            forall|m: int| 0 <= m < j ==> (#[trigger] uncommitted@[m])@ != id@,
        decreases uncommitted.len() - j,
    {
        let t = &uncommitted[j];
        if t[0] == id[0] && t[1] == id[1] && t[2] == id[2] && t[3] == id[3] {
            proof {
                assert(uncommitted@[j as int]@ =~= id@);
            }
            return false;
        }
        proof {
            assert(uncommitted@[j as int]@[0] != id@[0] || uncommitted@[j as int]@[1] != id@[1]
                || uncommitted@[j as int]@[2] != id@[2] || uncommitted@[j as int]@[3] != id@[3]);
        }
        j = j + 1;
    }
    true
}

/// A successful request is done with, whatever attempt it was; a failure
/// other than an unreachable node aborts at once; an unreachable node is
/// retried after a pause on every attempt but the last of `MAX_ATTEMPTS` (20),
/// after which the client pauses and gives up. So no request is made more
/// than 20 times.
pub proof fn law_retry(attempt: u32, outcome: RpcOutcome)
    requires
        attempt < MAX_ATTEMPTS,
    ensures
        outcome == RpcOutcome::Success ==> spec_retry_step(attempt, outcome) == RetryStep::Done,
        outcome == RpcOutcome::Failure ==> spec_retry_step(attempt, outcome) == RetryStep::Abort,
        outcome == RpcOutcome::NodeUnavailable && attempt < 19 ==> spec_retry_step(attempt, outcome)
            == RetryStep::PauseThenRetry,
        outcome == RpcOutcome::NodeUnavailable && attempt == 19 ==> spec_retry_step(attempt, outcome)
            == RetryStep::PauseThenGiveUp,
        spec_retry_step(attempt, outcome) == RetryStep::PauseThenRetry ==> attempt + 1 < 20,
{
}

} // verus!
