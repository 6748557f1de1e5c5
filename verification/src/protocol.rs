//! The lock as the threads that share it see it, and what the protocol
//! guarantees them.
//!
//! [`LockModel`] is the flag, the payload and the leases at one moment.
//! Threads act on it one operation at a time ([`Step`]), in any order. The
//! flag operations behave as the atomic operations on a single flag do: a
//! compare-exchange takes the flag only when it finds it free, a poll changes
//! nothing, a release frees it. [`LockModel::permits`] is what the lock asks
//! of its callers: the payload is touched, and the lease given back, only by
//! the thread that holds the lease.
//!
//! The proofs below are about every order in which threads that keep to this
//! contract may act. They are proofs about the protocol: that the atomic flag
//! of the executable lock behaves like the flag of the model is what the
//! hardware and the memory orderings are relied on for.
use vstd::prelude::*;

verus! {

/// What one thread does to the lock in one step.
pub enum Op<T> {
    /// The compare-exchange of the flag from free to held.
    Exchange,
    /// A read of the flag.
    Poll,
    /// The store that frees the flag.
    Release,
    /// A read of the payload.
    Read,
    /// A write of the payload.
    Write(T),
}

/// One operation by one thread.
pub struct Step<T> {
    pub thread: int,
    pub op: Op<T>,
}

/// The lock at one moment.
pub struct LockModel<T> {
    /// The flag: `true` while the lock is held.
    pub held: bool,
    /// The protected value.
    pub payload: T,
    /// The threads that have taken the flag and not yet released it.
    pub lessees: Set<int>,
    /// What each thread last read from or wrote to the payload under its
    /// present lease.
    pub seen: Map<int, T>,
}

impl<T> LockModel<T> {
    /// A freshly made lock: free, with nobody holding a lease.
    pub open spec fn init(payload: T) -> LockModel<T> {
        LockModel { held: false, payload, lessees: Set::empty(), seen: Map::empty() }
    }

    /// Whether `thread` holds the lease.
    pub open spec fn holds(self, thread: int) -> bool {
        self.lessees.contains(thread)
    }

    /// What the lock asks of its callers: only the lessee releases, reads or
    /// writes. Anyone may try the compare-exchange or poll at any time.
    pub open spec fn permits(self, step: Step<T>) -> bool {
        match step.op {
            Op::Exchange | Op::Poll => true,
            Op::Release | Op::Read | Op::Write(_) => self.holds(step.thread),
        }
    }

    /// The lock after `step`.
    pub open spec fn apply(self, step: Step<T>) -> LockModel<T> {
        match step.op {
            Op::Exchange => if self.held {
                self
            } else {
                LockModel {
                    held: true,
                    lessees: self.lessees.insert(step.thread),
                    seen: self.seen.remove(step.thread),
                    ..self
                }
            },
            Op::Poll => self,
            Op::Release => LockModel {
                held: false,
                lessees: self.lessees.remove(step.thread),
                seen: self.seen.remove(step.thread),
                ..self
            },
            Op::Read => LockModel { seen: self.seen.insert(step.thread, self.payload), ..self },
            Op::Write(value) => LockModel {
                payload: value,
                seen: self.seen.insert(step.thread, value),
                ..self
            },
        }
    }

    /// At most one thread holds the lease, and the flag is held exactly while
    /// one does.
    pub open spec fn exclusive(self) -> bool {
        &&& forall|a: int, b: int|
            self.lessees.contains(a) && self.lessees.contains(b) ==> a == b
        &&& self.held <==> exists|a: int| self.lessees.contains(a)
    }

    /// Whatever a thread has seen of the payload under its present lease is
    /// what the payload holds now.
    pub open spec fn coherent(self) -> bool {
        forall|a: int| #[trigger]
            self.seen.contains_key(a) ==> self.lessees.contains(a) && self.seen[a]
                == self.payload
    }

    /// The lock is in a state that the protocol can reach.
    pub open spec fn wf(self) -> bool {
        self.exclusive() && self.coherent()
    }

    /// The lock after all of `steps`, in order.
    pub open spec fn run(self, steps: Seq<Step<T>>) -> LockModel<T>
        decreases steps.len(),
    {
        if steps.len() == 0 {
            self
        } else {
            self.run(steps.drop_last()).apply(steps.last())
        }
    }

    /// Every step of `steps` is permitted at the moment it is taken.
    pub open spec fn lawful(self, steps: Seq<Step<T>>) -> bool
        decreases steps.len(),
    {
        steps.len() > 0 ==> self.lawful(steps.drop_last()) && self.run(steps.drop_last()).permits(
            steps.last(),
        )
    }

    /// The lock is free before the first of `steps` and after each of them.
    pub open spec fn stays_free(self, steps: Seq<Step<T>>) -> bool {
        forall|i: int| 0 <= i <= steps.len() ==> !(#[trigger] self.run(steps.take(i))).held
    }
}

/// A fresh lock is in a reachable state.
pub proof fn lemma_init_wf<T>(payload: T)
    ensures
        LockModel::init(payload).wf(),
{
}

/// A permitted step keeps the lock in a reachable state.
pub proof fn lemma_apply_wf<T>(s: LockModel<T>, step: Step<T>)
    requires
        s.wf(),
        s.permits(step),
    ensures
        s.apply(step).wf(),
{
    let next = s.apply(step);
    match step.op {
        Op::Exchange => {
            if !s.held {
                assert(next.lessees.contains(step.thread));
            }
        },
        Op::Poll => {},
        Op::Release => {},
        Op::Read => {
            assert(next.lessees == s.lessees);
        },
        Op::Write(_) => {
            assert(next.lessees == s.lessees);
        },
    }
}

/// Permitted steps keep the lock in a reachable state.
pub proof fn lemma_run_wf<T>(s: LockModel<T>, steps: Seq<Step<T>>)
    requires
        s.wf(),
        s.lawful(steps),
    ensures
        s.run(steps).wf(),
    decreases steps.len(),
{
    if steps.len() > 0 {
        lemma_run_wf(s, steps.drop_last());
        lemma_apply_wf(s.run(steps.drop_last()), steps.last());
    }
}

/// A lawful history is lawful up to each of its moments.
pub proof fn lemma_lawful_prefix<T>(s: LockModel<T>, steps: Seq<Step<T>>, upto: int)
    requires
        s.lawful(steps),
        0 <= upto <= steps.len(),
    ensures
        s.lawful(steps.take(upto)),
    decreases steps.len(),
{
    if upto == steps.len() {
        assert(steps.take(upto) == steps);
    } else {
        assert(steps.drop_last().take(upto) == steps.take(upto));
        lemma_lawful_prefix(s, steps.drop_last(), upto);
    }
}

/// Mutual exclusion. Whatever the threads do and in whatever order, as long
/// as each keeps to the contract, no two of them hold the lease at the same
/// moment: the stretches of time during which different threads hold it are
/// disjoint.
pub proof fn mutual_exclusion<T>(
    payload: T,
    steps: Seq<Step<T>>,
    moment: int,
    one: int,
    other: int,
)
    requires
        LockModel::init(payload).lawful(steps),
        0 <= moment <= steps.len(),
        LockModel::init(payload).run(steps.take(moment)).holds(one),
        LockModel::init(payload).run(steps.take(moment)).holds(other),
    ensures
        one == other,
{
    let s = LockModel::init(payload);
    lemma_init_wf(payload);
    lemma_lawful_prefix(s, steps, moment);
    lemma_run_wf(s, steps.take(moment));
}

/// A lease lasts until its holder gives it back: whatever the other threads
/// do meanwhile, within the contract, the lessee still holds the lease and
/// the flag is still held.
pub proof fn lease_lasts_until_release<T>(s: LockModel<T>, lessee: int, steps: Seq<Step<T>>)
    requires
        s.wf(),
        s.holds(lessee),
        s.lawful(steps),
        forall|i: int|
            0 <= i < steps.len() ==> !(steps[i].thread == lessee && steps[i].op is Release),
    ensures
        s.run(steps).holds(lessee),
        s.run(steps).held,
        s.run(steps).wf(),
    decreases steps.len(),
{
    if steps.len() > 0 {
        let before = steps.drop_last();
        assert forall|i: int| 0 <= i < before.len() implies !(before[i].thread == lessee
            && before[i].op is Release) by {
            assert(before[i] == steps[i]);
        }
        lease_lasts_until_release(s, lessee, before);
        lemma_apply_wf(s.run(before), steps.last());
        assert(!(steps[steps.len() - 1].thread == lessee && steps[steps.len() - 1].op is Release));
    }
}

/// While the lock is held, a compare-exchange fails and changes nothing,
/// whoever makes it.
pub proof fn held_lock_refuses_exchange<T>(s: LockModel<T>, thread: int)
    requires
        s.held,
    ensures
        s.apply(Step { thread, op: Op::Exchange }) == s,
{
}

/// Only a compare-exchange that finds the flag free grants a lease, and it
/// grants it to the thread that made it.
pub proof fn lease_is_granted_by_exchange<T>(s: LockModel<T>, step: Step<T>, thread: int)
    requires
        !s.holds(thread),
        s.apply(step).holds(thread),
    ensures
        step.op is Exchange,
        step.thread == thread,
        !s.held,
{
}

/// Why the contract is needed. A release by a thread that does not hold the
/// lease frees the flag under the lessee's feet: the next compare-exchange
/// succeeds, and two threads hold the lease at once.
pub proof fn release_without_lease_breaks_exclusion<T>(payload: T, lessee: int, intruder: int)
    requires
        lessee != intruder,
    ensures
        ({
            let taken = LockModel::init(payload).apply(Step { thread: lessee, op: Op::Exchange });
            let broken = taken.apply(Step { thread: intruder, op: Op::Release }).apply(
                Step { thread: intruder, op: Op::Exchange },
            );
            &&& taken.wf()
            &&& !taken.permits(Step { thread: intruder, op: Op::Release })
            &&& broken.holds(lessee)
            &&& broken.holds(intruder)
            &&& !broken.exclusive()
        }),
{
    let taken = LockModel::init(payload).apply(Step { thread: lessee, op: Op::Exchange });
    lemma_apply_wf(LockModel::init(payload), Step { thread: lessee, op: Op::Exchange });
    assert(taken.lessees.contains(lessee));
}

/// No missed release. Once the lessee has released, the lock is free, and the
/// next compare-exchange takes it, whoever makes it: the thread that has just
/// released or any other.
pub proof fn release_readmits<T>(s: LockModel<T>, lessee: int, next: int)
    requires
        s.wf(),
        s.holds(lessee),
    ensures
        ({
            let released = s.apply(Step { thread: lessee, op: Op::Release });
            &&& !released.held
            &&& released.wf()
            &&& released.payload == s.payload
            &&& released.apply(Step { thread: next, op: Op::Exchange }).holds(next)
        }),
{
    lemma_apply_wf(s, Step { thread: lessee, op: Op::Release });
}

/// While the lock stays free, nothing that the contract permits changes it.
pub proof fn lemma_free_lock_is_untouched<T>(s: LockModel<T>, steps: Seq<Step<T>>)
    requires
        s.wf(),
        s.lawful(steps),
        s.stays_free(steps),
    ensures
        s.run(steps).payload == s.payload,
        !s.run(steps).held,
    decreases steps.len(),
{
    assert(steps.take(steps.len() as int) == steps);
    assert(!s.run(steps.take(steps.len() as int)).held);
    if steps.len() > 0 {
        let before = steps.drop_last();
        assert forall|i: int| 0 <= i <= before.len() implies !(#[trigger] s.run(
            before.take(i),
        )).held by {
            assert(before.take(i) == steps.take(i));
        }
        lemma_free_lock_is_untouched(s, before);
        lemma_run_wf(s, before);
    }
}

/// Visibility. What the lessee last wrote before releasing is what the next
/// lessee finds: however long the lock then stays free and whatever the
/// other threads do meanwhile, the thread that takes it next reads that very
/// value.
pub proof fn write_is_visible_to_next_lessee<T>(
    s: LockModel<T>,
    writer: int,
    value: T,
    meanwhile: Seq<Step<T>>,
    next: int,
)
    requires
        s.wf(),
        s.holds(writer),
        s.apply(Step { thread: writer, op: Op::Write(value) }).apply(
            Step { thread: writer, op: Op::Release },
        ).lawful(meanwhile),
        s.apply(Step { thread: writer, op: Op::Write(value) }).apply(
            Step { thread: writer, op: Op::Release },
        ).stays_free(meanwhile),
    ensures
        ({
            let released = s.apply(Step { thread: writer, op: Op::Write(value) }).apply(
                Step { thread: writer, op: Op::Release },
            );
            let taken = released.run(meanwhile).apply(Step { thread: next, op: Op::Exchange });
            &&& taken.holds(next)
            &&& taken.payload == value
            &&& taken.permits(Step { thread: next, op: Op::Read })
            &&& taken.apply(Step { thread: next, op: Op::Read }).seen[next] == value
        }),
{
    let written = s.apply(Step { thread: writer, op: Op::Write(value) });
    lemma_apply_wf(s, Step { thread: writer, op: Op::Write(value) });
    let released = written.apply(Step { thread: writer, op: Op::Release });
    lemma_apply_wf(written, Step { thread: writer, op: Op::Release });
    lemma_free_lock_is_untouched(released, meanwhile);
}

/// While one thread holds the lease, no other thread's permitted step changes
/// the payload or what the lessee has seen of it.
pub proof fn payload_is_the_lessees<T>(s: LockModel<T>, lessee: int, step: Step<T>)
    requires
        s.wf(),
        s.holds(lessee),
        s.permits(step),
        step.thread != lessee,
    ensures
        s.apply(step) == s,
{
    assert(s.held);
    assert(!s.holds(step.thread));
}

} // verus!
