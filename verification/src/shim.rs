//! The shim between a blocking-style engine and a transport that never
//! blocks: each call of the engine is one attempt on the transport, and "not
//! ready" reaches the engine as the error it knows as "try again".

use vstd::prelude::*;
use crate::outcome::{is_would_block, would_block_error, Polled};

verus! {

/// How the engine sees one non-blocking attempt on the transport: an attempt
/// that finished is seen as it ended, success or failure alike; an attempt
/// that is not ready is seen as an error of the would-block kind.
pub open spec fn seen_by_engine<T>(
    attempt: Polled<Result<T, std::io::Error>>,
    seen: Result<T, std::io::Error>,
) -> bool {
    match attempt {
        Polled::Ready(ended) => seen == ended,
        Polled::Pending => seen is Err && is_would_block(seen->Err_0),
    }
}

/// Gives the engine the blocking-style result of one attempt on the
/// transport. The attempt has been made by the caller, once; nothing is
/// retried here.
pub fn blocking_result<T>(attempt: Polled<Result<T, std::io::Error>>) -> (seen: Result<
    T,
    std::io::Error,
>)
    ensures
        seen_by_engine(attempt, seen),
{
    match attempt {
        Polled::Ready(ended) => ended,
        Polled::Pending => Err(would_block_error()),
    }
}

/// One blocking-style call of the engine on the transport: `attempt` is run
/// once on the transport, and the engine is given the blocking-style result
/// of that one attempt. Nothing is retried, and nothing waits: a transport
/// that is not ready is reported as would-block at once.
pub fn blocking_attempt<S, T, F>(transport: &mut S, attempt: F) -> (seen: Result<
    T,
    std::io::Error,
>)
    where F: FnOnce(&mut S) -> Polled<Result<T, std::io::Error>>
    requires
        forall|bound: &mut S|
            *bound == *old(transport) ==> #[trigger] call_requires(attempt, (bound,)),
    ensures
        exists|bound: &mut S, made: Polled<Result<T, std::io::Error>>|
            {
                &&& *bound == *old(transport)
                &&& #[trigger] call_ensures(attempt, (bound,), made)
                &&& *final(transport) == *final(bound)
                &&& seen_by_engine(made, seen)
            },
{
    let made = attempt(transport);
    blocking_result(made)
}

} // verus!
