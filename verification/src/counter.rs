//! A counter behind the lock: no update is lost.
//!
//! A thread adds to a shared counter by reading it and writing back the sum.
//! Without the lock two threads could read the same value and one addition
//! would be lost. The proofs here are about threads that do both under the
//! lease.
use crate::protocol::lemma_apply_wf;
use crate::protocol::lemma_run_wf;
use crate::protocol::LockModel;
use crate::protocol::Op;
use crate::protocol::Step;
use vstd::prelude::*;

verus! {

/// The increments that the writes of `steps` apply: each write counts for the
/// difference between what it stores and what its thread had last seen.
pub open spec fn applied_increments(s: LockModel<int>, steps: Seq<Step<int>>) -> int
    decreases steps.len(),
{
    if steps.len() == 0 {
        0
    } else {
        let before = s.run(steps.drop_last());
        applied_increments(s, steps.drop_last()) + match steps.last().op {
            Op::Write(value) => value - before.seen[steps.last().thread],
            _ => 0,
        }
    }
}

/// Each write of `steps` is made by a thread that has read or written the
/// payload before under the same lease.
pub open spec fn reads_before_writing(s: LockModel<int>, steps: Seq<Step<int>>) -> bool
    decreases steps.len(),
{
    steps.len() > 0 ==> reads_before_writing(s, steps.drop_last()) && (steps.last().op is Write
        ==> s.run(steps.drop_last()).seen.contains_key(steps.last().thread))
}

/// No lost update. When threads add to a shared counter by reading it and
/// writing back the sum, each under the lease, the counter ends at its first
/// value plus all the increments, in whatever order the threads ran.
pub proof fn no_lost_update(s: LockModel<int>, steps: Seq<Step<int>>)
    requires
        s.wf(),
        s.lawful(steps),
        reads_before_writing(s, steps),
    ensures
        s.run(steps).payload == s.payload + applied_increments(s, steps),
    decreases steps.len(),
{
    if steps.len() > 0 {
        no_lost_update(s, steps.drop_last());
        lemma_run_wf(s, steps.drop_last());
    }
}

/// One uncontended cycle of a worker that adds `increment` to the counter:
/// take the lock, read the counter, write back the sum, release.
pub open spec fn increment_cycle(s: LockModel<int>, thread: int, increment: int) -> Seq<
    Step<int>,
> {
    seq![
        Step { thread, op: Op::Exchange },
        Step { thread, op: Op::Read },
        Step { thread, op: Op::Write(s.payload + increment) },
        Step { thread, op: Op::Release },
    ]
}

/// A worker's cycle on a free lock keeps to the contract, applies its
/// increment and leaves the lock free.
pub proof fn increment_cycle_adds(s: LockModel<int>, thread: int, increment: int)
    requires
        s.wf(),
        !s.held,
    ensures
        s.lawful(increment_cycle(s, thread, increment)),
        reads_before_writing(s, increment_cycle(s, thread, increment)),
        applied_increments(s, increment_cycle(s, thread, increment)) == increment,
        s.run(increment_cycle(s, thread, increment)).payload == s.payload + increment,
        !s.run(increment_cycle(s, thread, increment)).held,
        s.run(increment_cycle(s, thread, increment)).wf(),
{
    let steps = increment_cycle(s, thread, increment);
    let none = steps.take(0);
    let one = steps.take(1);
    let two = steps.take(2);
    let three = steps.take(3);
    assert(one.drop_last() == none);
    assert(two.drop_last() == one);
    assert(three.drop_last() == two);
    assert(steps.drop_last() == three);
    let taken = s.apply(steps[0]);
    let read = taken.apply(steps[1]);
    let written = read.apply(steps[2]);
    assert(s.run(none) == s);
    assert(s.run(one) == taken);
    assert(s.run(two) == read);
    assert(s.run(three) == written);
    lemma_apply_wf(s, steps[0]);
    assert(taken.lessees.contains(thread));
    lemma_apply_wf(taken, steps[1]);
    lemma_apply_wf(read, steps[2]);
    lemma_apply_wf(written, steps[3]);
    assert(s.lawful(none) && reads_before_writing(s, none));
    assert(s.lawful(one) && reads_before_writing(s, one));
    assert(s.lawful(two) && reads_before_writing(s, two));
    assert(s.lawful(three) && reads_before_writing(s, three));
    assert(applied_increments(s, none) == 0);
    assert(applied_increments(s, one) == 0);
    assert(applied_increments(s, two) == 0);
    assert(applied_increments(s, three) == increment);
}

} // verus!
