//! The fixed-cost iteration that solves Kepler's equation.

use vstd::prelude::*;

verus! {

/// How many corrections the solver applies. It is a constant of the design:
/// the cost of a solve does not depend on the orbit.
pub const NEWTON_ITERATIONS: usize = 5;

/// Whether each value of `chain` after the first is a result of `correct`
/// for the value before it.
pub open spec fn is_correction_chain<T, F: Fn(T) -> T>(correct: F, chain: Seq<T>) -> bool {
    forall|k: int| 1 <= k < chain.len() ==> correct.ensures((chain[k - 1],), #[trigger] chain[k])
}

/// Whether `root` is what `NEWTON_ITERATIONS` successive corrections make of
/// `start`.
pub open spec fn is_newton_result<T, F: Fn(T) -> T>(correct: F, start: T, root: T) -> bool {
    exists|chain: Seq<T>|
        {
            &&& chain.len() == NEWTON_ITERATIONS + 1
            &&& chain[0] == start
            &&& #[trigger] chain[NEWTON_ITERATIONS as int] == root
            &&& is_correction_chain(correct, chain)
        }
}

/// One start, one root. Where `correct` has a single result for each value,
/// any two results of the iteration from the same start are equal.
pub proof fn newton_result_is_determined<T, F: Fn(T) -> T>(
    correct: F,
    start: T,
    first: T,
    second: T,
)
    requires
        is_newton_result(correct, start, first),
        is_newton_result(correct, start, second),
        forall|x: T, p: T, q: T|
            correct.ensures((x,), p) && correct.ensures((x,), q) ==> p == q,
    ensures
        first == second,
{
    let a = choose|chain: Seq<T>|
        {
            &&& chain.len() == NEWTON_ITERATIONS + 1
            &&& chain[0] == start
            &&& #[trigger] chain[NEWTON_ITERATIONS as int] == first
            &&& is_correction_chain(correct, chain)
        };
    let b = choose|chain: Seq<T>|
        {
            &&& chain.len() == NEWTON_ITERATIONS + 1
            &&& chain[0] == start
            &&& #[trigger] chain[NEWTON_ITERATIONS as int] == second
            &&& is_correction_chain(correct, chain)
        };
    assert(a[1] == b[1]);
    assert(a[2] == b[2]);
    assert(a[3] == b[3]);
    assert(a[4] == b[4]);
    assert(a[5] == b[5]);
}

/// Applies the correction `correct` to `start` exactly `NEWTON_ITERATIONS`
/// times, each time to the value that the time before gave, and returns the
/// last value. There is no test for convergence and no early exit.
pub fn newton_raphson<T, F: Fn(T) -> T>(start: T, correct: F) -> (root: T)
    requires
        correct.requires((start,)),
        forall|x: T, y: T| correct.ensures((x,), y) ==> correct.requires((y,)),
    ensures
        is_newton_result(correct, start, root),
{
    let ghost mut chain: Seq<T> = seq![start];
    let mut estimate = start;
    let mut done: usize = 0;
    while done < NEWTON_ITERATIONS
        invariant
            done <= NEWTON_ITERATIONS,
            chain.len() == done + 1,
            chain[0] == start,
            chain[done as int] == estimate,
            is_correction_chain(correct, chain),
            correct.requires((estimate,)),
            forall|x: T, y: T| correct.ensures((x,), y) ==> correct.requires((y,)),
        decreases NEWTON_ITERATIONS - done,
    {
        estimate = correct(estimate);
        proof {
            chain = chain.push(estimate);
        }
        done = done + 1;
    }
    estimate
}

} // verus!
