//! A run as a whole: what the retry policy, the report and the tally say
//! together about the addresses of a run.

use crate::report::{failure_line, final_line, success_line};
use crate::retry::{failure_after_budget, replay};
use crate::tally::{failure_contributes_nothing, successes, successes_of_equal_amounts};
use vstd::prelude::*;

verus! {

/// Where every address of a run succeeds with the same amount, every address
/// gets a success line, and the total is made of that amount once for each
/// address.
pub proof fn every_address_succeeds<T, E>(
    addresses: Seq<Seq<char>>,
    outcomes: Seq<Result<T, E>>,
    amount: T,
    shown: Seq<char>,
)
    requires
        outcomes.len() == addresses.len(),
        forall|i: int| 0 <= i < outcomes.len() ==> outcomes[i] == Ok::<T, E>(amount),
    ensures
        forall|i: int|
            0 <= i < addresses.len() ==> final_line(
                #[trigger] addresses[i],
                outcomes[i] is Ok,
                shown,
            ) == success_line(addresses[i], shown),
        successes(outcomes) == Seq::new(addresses.len(), |i: int| amount),
{
    successes_of_equal_amounts(outcomes, amount);
}

/// An address whose every attempt fails is given up after exactly
/// `max_retries` retries and `max_retries + 1` attempts, gets a failure line,
/// and contributes nothing: the total is made of the same amounts as if the
/// address, at index `at` of the run, had not been queried.
pub proof fn address_fails_for_good<T, E>(
    max_retries: nat,
    attempts: Seq<Result<T, E>>,
    address: Seq<char>,
    shown: Seq<char>,
    outcomes: Seq<Result<T, E>>,
    at: int,
)
    requires
        attempts.len() > max_retries,
        forall|i: int| 0 <= i < attempts.len() ==> attempts[i] is Err,
        0 <= at < outcomes.len(),
        replay(0, max_retries, attempts).outcome == Some(outcomes[at]),
    ensures
        replay(0, max_retries, attempts).attempts == max_retries + 1,
        replay(0, max_retries, attempts).retries == max_retries,
        outcomes[at] == attempts[max_retries as int],
        final_line(address, outcomes[at] is Ok, shown) == failure_line(address, shown),
        successes(outcomes) == successes(outcomes.remove(at)),
{
    failure_after_budget(max_retries, attempts);
    failure_contributes_nothing(outcomes, at);
}

} // verus!
