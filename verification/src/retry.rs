//! The retry policy: a fixed number of retries after a fixed delay, the same
//! for every kind of error.
//!
//! The policy does not make the attempts itself. The caller makes one, hands
//! the outcome to [`Retry::on_attempt`], and does what the returned [`Step`]
//! says: stop with the final outcome, or log a notice, wait and attempt again.

use vstd::prelude::*;

verus! {

/// The number of retries that a run grants each address.
pub const MAX_RETRIES: u32 = 10;

/// The seconds to wait before a retry.
pub const RETRY_DELAY_SECS: u64 = 1;

/// What to do after an attempt.
#[derive(Debug, PartialEq, Eq)]
pub enum Step<T, E> {
    /// The sequence is over, with this outcome.
    Done(Result<T, E>),
    /// The attempt failed with `error` and is to be repeated after
    /// `delay_secs` seconds: this will be retry number `retry`, counted from
    /// one.
    Again { retry: u32, delay_secs: u64, error: E },
}

/// The progress of one address's attempts.
#[derive(Debug)]
pub struct Retry {
    retries: u32,
    max_retries: u32,
}

/// A [`Retry`] as numbers.
pub struct RetryView {
    /// The retries granted so far.
    pub retries: nat,
    /// The retries that may be granted at most.
    pub max_retries: nat,
}

impl View for Retry {
    type V = RetryView;

    closed spec fn view(&self) -> RetryView {
        RetryView { retries: self.retries as nat, max_retries: self.max_retries as nat }
    }
}

/// What follows an attempt that ended in `outcome`, after `retries` retries
/// out of `max_retries`: a success ends the sequence at once, a failure of
/// any kind is retried after the fixed delay while the budget lasts, and the
/// failure after the last retry is final.
pub open spec fn step_after<T, E>(retries: nat, max_retries: nat, outcome: Result<T, E>) -> Step<
    T,
    E,
> {
    match outcome {
        Ok(value) => Step::Done(Ok(value)),
        Err(error) => if retries < max_retries {
            Step::Again { retry: (retries + 1) as u32, delay_secs: RETRY_DELAY_SECS, error }
        } else {
            Step::Done(Err(error))
        },
    }
}

/// The retries granted once `step` has been taken.
pub open spec fn retries_after<T, E>(retries: nat, step: Step<T, E>) -> nat {
    match step {
        Step::Done(_) => retries,
        Step::Again { .. } => retries + 1,
    }
}

impl Retry {
    #[verifier::type_invariant]
    spec fn within_budget(&self) -> bool {
        self.retries <= self.max_retries
    }

    /// The state before the first attempt, with `max_retries` retries to grant.
    pub fn new(max_retries: u32) -> (state: Retry)
        ensures
            state@ == (RetryView { retries: 0, max_retries: max_retries as nat }),
    {
        Retry { retries: 0, max_retries }
    }

    /// The retries granted so far.
    pub fn retries(&self) -> (n: u32)
        ensures
            n == self@.retries,
            n <= self@.max_retries,
    {
        proof {
            use_type_invariant(self);
        }
        self.retries
    }

    /// The retries that may be granted at most.
    pub fn max_retries(&self) -> (n: u32)
        ensures
            n == self@.max_retries,
    {
        self.max_retries
    }

    /// Takes the outcome of the attempt just made and says what follows.
    pub fn on_attempt<T, E>(&mut self, outcome: Result<T, E>) -> (step: Step<T, E>)
        ensures
            step == step_after(old(self)@.retries, old(self)@.max_retries, outcome),
            final(self)@.retries == retries_after(old(self)@.retries, step),
            final(self)@.max_retries == old(self)@.max_retries,
    {
        proof {
            use_type_invariant(&*self);
        }
        match outcome {
            Ok(value) => Step::Done(Ok(value)),
            Err(error) => {
                if self.retries < self.max_retries {
                    self.retries = self.retries + 1;
                    Step::Again { retry: self.retries, delay_secs: RETRY_DELAY_SECS, error }
                } else {
                    Step::Done(Err(error))
                }
            },
        }
    }
}

/// How a sequence of attempts went.
pub struct Trace<T, E> {
    /// The final outcome, or `None` where the policy asks for one more attempt.
    pub outcome: Option<Result<T, E>>,
    /// The attempts made.
    pub attempts: nat,
    /// The retries granted, each with its notice and its delay.
    pub retries: nat,
}

/// What the policy makes of attempts that end in `outcomes`, one after another,
/// when `retries` retries out of `max_retries` were granted before: it takes
/// [`step_after`] each attempt until one ends the sequence.
pub open spec fn replay<T, E>(retries: nat, max_retries: nat, outcomes: Seq<Result<T, E>>) -> Trace<
    T,
    E,
>
    decreases outcomes.len(),
{
    if outcomes.len() == 0 {
        Trace { outcome: None, attempts: 0, retries: 0 }
    } else {
        let step = step_after(retries, max_retries, outcomes.first());
        match step {
            Step::Done(outcome) => Trace { outcome: Some(outcome), attempts: 1, retries: 0 },
            Step::Again { .. } => {
                let rest = replay(
                    retries_after(retries, step),
                    max_retries,
                    outcomes.drop_first(),
                );
                Trace {
                    outcome: rest.outcome,
                    attempts: rest.attempts + 1,
                    retries: rest.retries + 1,
                }
            },
        }
    }
}

/// How a sequence of attempts went, as [`replay_attempts`] found it.
#[derive(Debug, PartialEq, Eq)]
pub struct Replay<T, E> {
    /// The final outcome, or `None` where the policy asks for one more attempt.
    pub outcome: Option<Result<T, E>>,
    /// The attempts made.
    pub attempts: usize,
    /// The retries granted.
    pub retries: u32,
}

impl<T, E> View for Replay<T, E> {
    type V = Trace<T, E>;

    open spec fn view(&self) -> Trace<T, E> {
        Trace {
            outcome: self.outcome,
            attempts: self.attempts as nat,
            retries: self.retries as nat,
        }
    }
}

/// Puts `first` attempts, each followed by a retry, in front of `rest`.
pub open spec fn after_retries<T, E>(first: nat, rest: Trace<T, E>) -> Trace<T, E> {
    Trace { outcome: rest.outcome, attempts: first + rest.attempts, retries: first + rest.retries }
}

/// Takes a fresh policy with `max_retries` retries through attempts whose
/// outcomes are known beforehand, as a caller would who made them one by
/// one, and says how far it got: outcomes past the end of the sequence are
/// not looked at.
pub fn replay_attempts<T, E>(max_retries: u32, outcomes: Vec<Result<T, E>>) -> (run: Replay<T, E>)
    ensures
        run@ == replay(0, max_retries as nat, outcomes@),
{
    let mut policy = Retry::new(max_retries);
    let mut attempts: usize = 0;
    let available = outcomes.len();
    assert(outcomes@.skip(0) =~= outcomes@);
    for outcome in it: outcomes
        invariant
            it.seq() == outcomes@,
            available == outcomes@.len(),
            attempts == it.index(),
            policy@ == (RetryView { retries: attempts as nat, max_retries: max_retries as nat }),
            replay(0, max_retries as nat, outcomes@) == after_retries(
                attempts as nat,
                replay(attempts as nat, max_retries as nat, outcomes@.skip(attempts as int)),
            ),
    {
        proof {
            let rest = outcomes@.skip(attempts as int);
            assert(rest.first() == outcome);
            assert(rest.drop_first() =~= outcomes@.skip(attempts + 1));
        }
        let retries = policy.retries();
        match policy.on_attempt(outcome) {
            Step::Done(last) => {
                return Replay { outcome: Some(last), attempts: attempts + 1, retries };
            },
            Step::Again { .. } => {
                attempts = attempts + 1;
            },
        }
    }
    Replay { outcome: None, attempts, retries: policy.retries() }
}

proof fn replay_until_success<T, E>(
    retries: nat,
    max_retries: nat,
    outcomes: Seq<Result<T, E>>,
    failures: nat,
    value: T,
)
    requires
        retries + failures <= max_retries,
        failures < outcomes.len(),
        forall|i: int| 0 <= i < failures ==> outcomes[i] is Err,
        outcomes[failures as int] == Ok::<T, E>(value),
    ensures
        replay(retries, max_retries, outcomes) == (Trace {
            outcome: Some(Ok::<T, E>(value)),
            attempts: failures + 1,
            retries: failures,
        }),
    decreases failures,
{
    if failures > 0 {
        let rest = outcomes.drop_first();
        assert forall|i: int| 0 <= i < failures - 1 implies rest[i] is Err by {
            assert(rest[i] == outcomes[i + 1]);
        }
        replay_until_success(retries + 1, max_retries, rest, (failures - 1) as nat, value);
    }
}

proof fn replay_until_exhausted<T, E>(retries: nat, max_retries: nat, outcomes: Seq<Result<T, E>>)
    requires
        retries <= max_retries,
        outcomes.len() > max_retries - retries,
        forall|i: int| 0 <= i <= max_retries - retries ==> outcomes[i] is Err,
    ensures
        replay(retries, max_retries, outcomes) == (Trace {
            outcome: Some(outcomes[max_retries - retries]),
            attempts: (max_retries - retries + 1) as nat,
            retries: (max_retries - retries) as nat,
        }),
    decreases max_retries - retries,
{
    if retries < max_retries {
        let rest = outcomes.drop_first();
        assert forall|i: int| 0 <= i <= max_retries - (retries + 1) implies rest[i] is Err by {
            assert(rest[i] == outcomes[i + 1]);
        }
        replay_until_exhausted(retries + 1, max_retries, rest);
    }
}

/// Attempts that fail `failures` times, no more often than retries may be
/// granted, and succeed the next time end in that success, after exactly
/// `failures` retries and `failures + 1` attempts.
pub proof fn success_after_failures<T, E>(
    max_retries: nat,
    outcomes: Seq<Result<T, E>>,
    failures: nat,
    value: T,
)
    requires
        failures <= max_retries,
        failures < outcomes.len(),
        forall|i: int| 0 <= i < failures ==> outcomes[i] is Err,
        outcomes[failures as int] == Ok::<T, E>(value),
    ensures
        replay(0, max_retries, outcomes) == (Trace {
            outcome: Some(Ok::<T, E>(value)),
            attempts: failures + 1,
            retries: failures,
        }),
{
    replay_until_success(0, max_retries, outcomes, failures, value);
}

/// Attempts that fail every time end in failure, with the error of the attempt
/// that followed the last retry, after exactly `max_retries` retries and
/// `max_retries + 1` attempts.
pub proof fn failure_after_budget<T, E>(max_retries: nat, outcomes: Seq<Result<T, E>>)
    requires
        outcomes.len() > max_retries,
        forall|i: int| 0 <= i < outcomes.len() ==> outcomes[i] is Err,
    ensures
        replay(0, max_retries, outcomes) == (Trace {
            outcome: Some(outcomes[max_retries as int]),
            attempts: max_retries + 1,
            retries: max_retries,
        }),
        outcomes[max_retries as int] is Err,
{
    replay_until_exhausted(0, max_retries, outcomes);
}

/// However the attempts go, the sequence is over after `max_retries + 1` of
/// them at the latest: no more than `max_retries` retries are granted, each
/// attempt but the last is followed by a retry, and a final outcome is there
/// as soon as more outcomes are at hand than retries are left.
pub proof fn attempts_are_bounded<T, E>(
    retries: nat,
    max_retries: nat,
    outcomes: Seq<Result<T, E>>,
)
    requires
        retries <= max_retries,
    ensures
        replay(retries, max_retries, outcomes).retries <= max_retries - retries,
        replay(retries, max_retries, outcomes).attempts == replay(
            retries,
            max_retries,
            outcomes,
        ).retries + (if replay(retries, max_retries, outcomes).outcome is Some {
            1nat
        } else {
            0nat
        }),
        outcomes.len() > max_retries - retries ==> replay(
            retries,
            max_retries,
            outcomes,
        ).outcome is Some,
    decreases outcomes.len(),
{
    if outcomes.len() > 0 {
        match step_after(retries, max_retries, outcomes.first()) {
            Step::Done(_) => {},
            Step::Again { .. } => {
                attempts_are_bounded(retries + 1, max_retries, outcomes.drop_first());
            },
        }
    }
}

} // verus!
