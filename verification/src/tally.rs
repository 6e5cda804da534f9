//! What enters the total: the amounts of the addresses that succeeded in the
//! end. Adding them up is left to the caller, who knows what an amount is.

use vstd::prelude::*;
use vstd::seq_lib::*;

verus! {

/// The amounts that `outcomes` contribute to the total: those of the
/// successes, in the order of the outcomes. A failure contributes nothing.
pub open spec fn successes<T, E>(outcomes: Seq<Result<T, E>>) -> Seq<T>
    decreases outcomes.len(),
{
    if outcomes.len() == 0 {
        Seq::empty()
    } else {
        let before = successes(outcomes.drop_last());
        match outcomes.last() {
            Ok(amount) => before.push(amount),
            Err(_) => before,
        }
    }
}

/// The amounts to add up for the total, given the final outcome of each
/// address.
pub fn contributions<T, E>(outcomes: Vec<Result<T, E>>) -> (amounts: Vec<T>)
    ensures
        amounts@ == successes(outcomes@),
{
    let mut amounts: Vec<T> = Vec::new();
    for outcome in it: outcomes
        invariant
            it.seq() == outcomes@,
            amounts@ == successes(it.seq().take(it.index())),
    {
        proof {
            let seen = it.seq().take(it.index() + 1);
            assert(seen.drop_last() =~= it.seq().take(it.index()));
            assert(seen.last() == outcome);
        }
        match outcome {
            Ok(amount) => {
                amounts.push(amount);
            },
            Err(_) => {},
        }
    }
    proof {
        assert(outcomes@.take(outcomes@.len() as int) =~= outcomes@);
    }
    amounts
}

/// The contributions of one run after another are those of the first
/// followed by those of the second.
pub proof fn successes_of_concat<T, E>(first: Seq<Result<T, E>>, second: Seq<Result<T, E>>)
    ensures
        successes(first + second) == successes(first) + successes(second),
    decreases second.len(),
{
    if second.len() > 0 {
        assert((first + second).drop_last() =~= first + second.drop_last());
        successes_of_concat(first, second.drop_last());
    }
}

proof fn successes_around<T, E>(outcomes: Seq<Result<T, E>>, at: int)
    requires
        0 <= at < outcomes.len(),
    ensures
        successes(outcomes) == successes(outcomes.take(at)) + successes(seq![outcomes[at]])
            + successes(outcomes.skip(at + 1)),
        successes(outcomes.remove(at)) == successes(outcomes.take(at)) + successes(
            outcomes.skip(at + 1),
        ),
{
    let before = outcomes.take(at);
    let one = seq![outcomes[at]];
    let after = outcomes.skip(at + 1);
    assert(outcomes =~= before + one + after);
    successes_of_concat(before, one);
    successes_of_concat(before + one, after);
    successes_of_concat(before, after);
}

proof fn successes_of_one<T, E>(outcome: Result<T, E>)
    ensures
        successes(seq![outcome]) == match outcome {
            Ok(amount) => seq![amount],
            Err(_) => Seq::empty(),
        },
{
    assert(successes(seq![outcome].drop_last()) =~= Seq::<T>::empty());
}

/// Where every address succeeds with the same amount, the total is made of
/// that amount once for each address.
pub proof fn successes_of_equal_amounts<T, E>(outcomes: Seq<Result<T, E>>, amount: T)
    requires
        forall|i: int| 0 <= i < outcomes.len() ==> outcomes[i] == Ok::<T, E>(amount),
    ensures
        successes(outcomes) == Seq::new(outcomes.len(), |i: int| amount),
    decreases outcomes.len(),
{
    if outcomes.len() > 0 {
        successes_of_equal_amounts(outcomes.drop_last(), amount);
    }
}

/// An address that failed in the end contributes nothing: the total is made
/// of the same amounts as if the address had not been queried.
pub proof fn failure_contributes_nothing<T, E>(outcomes: Seq<Result<T, E>>, at: int)
    requires
        0 <= at < outcomes.len(),
        outcomes[at] is Err,
    ensures
        successes(outcomes) == successes(outcomes.remove(at)),
{
    successes_around(outcomes, at);
    successes_of_one(outcomes[at]);
}

proof fn successes_without<T, E>(outcomes: Seq<Result<T, E>>, at: int)
    requires
        0 <= at < outcomes.len(),
    ensures
        successes(outcomes).to_multiset() == successes(outcomes.remove(at)).to_multiset().add(
            successes(seq![outcomes[at]]).to_multiset(),
        ),
{
    let before = successes(outcomes.take(at));
    let one = successes(seq![outcomes[at]]);
    let after = successes(outcomes.skip(at + 1));
    successes_around(outcomes, at);
    lemma_multiset_commutative(before + one, after);
    lemma_multiset_commutative(before, one);
    lemma_multiset_commutative(before, after);
}

/// The amounts that make the total do not depend on the order in which the
/// addresses finish: outcomes that are collected in another order contribute
/// the same amounts, each as often.
pub proof fn successes_ignore_order<T, E>(first: Seq<Result<T, E>>, second: Seq<Result<T, E>>)
    requires
        first.to_multiset() == second.to_multiset(),
    ensures
        successes(first).to_multiset() == successes(second).to_multiset(),
    decreases first.len(),
{
    broadcast use group_to_multiset_ensures;

    if first.len() == 0 {
        to_multiset_len(first);
        to_multiset_len(second);
    } else {
        let last = first.last();
        let at = first.len() - 1;
        assert(second.to_multiset().count(last) > 0);
        let found = choose|i: int| 0 <= i < second.len() && second[i] == last;
        successes_ignore_order(first.remove(at), second.remove(found));
        successes_without(first, at);
        successes_without(second, found);
    }
}

} // verus!
