//! An acquisition at work on the shared lock.
//!
//! [`advance`] is what `SpinLock::advance` does, told over the model: the
//! thread performs the flag operation that its acquisition is waiting for,
//! and the acquisition is told what the flag held at that moment. The proofs
//! say when an acquisition ends, how, and what it has changed by then.
use crate::acquire::AcquisitionState;
use crate::acquire::Directive;
use crate::config::SpinConfig;
use crate::config::SPIN_LOCK_SLEEP_MILLIS;
use crate::protocol::lease_lasts_until_release;
use crate::protocol::lemma_apply_wf;
use crate::protocol::release_readmits;
use crate::protocol::LockModel;
use crate::protocol::Op;
use crate::protocol::Step;
use vstd::prelude::*;

verus! {

/// The flag operation that `directive` asks for, if any.
pub open spec fn flag_op<T>(directive: Directive) -> Option<Op<T>> {
    match directive {
        Directive::Exchange => Some(Op::Exchange),
        Directive::Poll | Directive::Yield | Directive::Sleep { .. } => Some(Op::Poll),
        Directive::Acquired | Directive::TimedOut => None,
    }
}

/// `thread` carries its acquisition one operation further: it performs the
/// flag operation that is due and the acquisition is told what the flag held
/// at that moment.
pub open spec fn advance<T>(s: LockModel<T>, thread: int, acquisition: AcquisitionState) -> (
    LockModel<T>,
    AcquisitionState,
) {
    match flag_op::<T>(acquisition.pending) {
        Some(op) => (s.apply(Step { thread, op }), acquisition.observe(s.held)),
        None => (s, acquisition),
    }
}

/// `thread` takes `turns` turns in a row while no other thread acts.
pub open spec fn advance_alone<T>(
    s: LockModel<T>,
    thread: int,
    acquisition: AcquisitionState,
    turns: nat,
) -> (LockModel<T>, AcquisitionState)
    decreases turns,
{
    if turns == 0 {
        (s, acquisition)
    } else {
        let (before, waiting) = advance_alone(s, thread, acquisition, (turns - 1) as nat);
        advance(before, thread, waiting)
    }
}

/// An acquisition asks only for what the contract permits at any time.
pub proof fn acquisition_keeps_to_the_contract<T>(
    s: LockModel<T>,
    thread: int,
    acquisition: AcquisitionState,
)
    requires
        s.wf(),
    ensures
        flag_op::<T>(acquisition.pending) matches Some(op) ==> s.permits(Step { thread, op }),
        advance(s, thread, acquisition).0.wf(),
{
    match flag_op::<T>(acquisition.pending) {
        Some(op) => {
            lemma_apply_wf(s, Step { thread, op });
        },
        None => {},
    }
}

/// An acquisition ends in success only by a compare-exchange that found the
/// lock free, and from then on its thread holds the lease.
pub proof fn acquired_means_lease<T>(s: LockModel<T>, thread: int, waiting: AcquisitionState)
    requires
        !waiting.pending.is_final(),
        advance(s, thread, waiting).1.pending == Directive::Acquired,
    ensures
        waiting.pending == Directive::Exchange,
        !s.held,
        advance(s, thread, waiting).0.holds(thread),
{
    if waiting.pending == Directive::Exchange {
        if s.held {
            assert(waiting.observe(true).pending == Directive::Poll);
        } else {
            assert(s.apply(Step { thread, op: Op::Exchange }).lessees.contains(thread));
        }
    } else {
        assert(waiting.observe(s.held).pending != Directive::Acquired);
    }
}

/// While one thread holds the lease, no acquisition succeeds: whoever
/// tries is kept waiting, or times out, and changes nothing.
pub proof fn held_lock_keeps_others_waiting<T>(
    s: LockModel<T>,
    lessee: int,
    thread: int,
    waiting: AcquisitionState,
)
    requires
        s.wf(),
        s.holds(lessee),
        !waiting.pending.is_final(),
    ensures
        advance(s, thread, waiting).0 == s,
        advance(s, thread, waiting).1.pending != Directive::Acquired,
{
    assert(s.held);
}

/// Mutual exclusion of acquisitions. From the moment one thread holds the
/// lease until that thread releases, whatever else happens within the
/// contract, no acquisition by anyone ends in success.
pub proof fn no_acquisition_succeeds_before_release<T>(
    s: LockModel<T>,
    lessee: int,
    meanwhile: Seq<Step<T>>,
    thread: int,
    waiting: AcquisitionState,
)
    requires
        s.wf(),
        s.holds(lessee),
        s.lawful(meanwhile),
        forall|i: int|
            0 <= i < meanwhile.len() ==> !(meanwhile[i].thread == lessee
                && meanwhile[i].op is Release),
        !waiting.pending.is_final(),
    ensures
        advance(s.run(meanwhile), thread, waiting).1.pending != Directive::Acquired,
        advance(s.run(meanwhile), thread, waiting).0 == s.run(meanwhile),
{
    lease_lasts_until_release(s, lessee, meanwhile);
    held_lock_keeps_others_waiting(s.run(meanwhile), lessee, thread, waiting);
}

/// An acquisition takes a free lock with its first operation, without any
/// wait: no poll, no yield, no sleep.
pub proof fn free_lock_is_taken_at_once<T>(
    s: LockModel<T>,
    thread: int,
    config: SpinConfig,
    bounded: bool,
)
    requires
        s.wf(),
        !s.held,
    ensures
        ({
            let (taken, done) = advance(s, thread, AcquisitionState::start(config, bounded));
            &&& done.pending == Directive::Acquired
            &&& done.polls == 0
            &&& taken.holds(thread)
            &&& taken.wf()
            &&& taken.payload == s.payload
        }),
{
    lemma_apply_wf(s, Step { thread, op: Op::Exchange });
}

/// A freshly made lock is free: whoever asks first has it at once.
pub proof fn fresh_lock_is_taken_at_once<T>(
    payload: T,
    thread: int,
    config: SpinConfig,
    bounded: bool,
)
    ensures
        ({
            let (taken, done) = advance(
                LockModel::init(payload),
                thread,
                AcquisitionState::start(config, bounded),
            );
            &&& done.pending == Directive::Acquired
            &&& done.polls == 0
            &&& taken.holds(thread)
            &&& taken.payload == payload
        }),
{
    free_lock_is_taken_at_once(LockModel::init(payload), thread, config, bounded);
}

/// A release is not missed. A thread that is waiting for the lock, at
/// whatever point of its wait, has the lease within two operations once the
/// lock is free and no one else takes it first; no further poll is counted.
pub proof fn waiter_takes_free_lock<T>(s: LockModel<T>, thread: int, waiting: AcquisitionState)
    requires
        s.wf(),
        !s.held,
        !waiting.pending.is_final(),
    ensures
        ({
            let (taken, done) = advance_alone(s, thread, waiting, 2);
            &&& done.pending == Directive::Acquired
            &&& done.polls == waiting.polls
            &&& taken.holds(thread)
            &&& taken.payload == s.payload
        }),
{
    reveal_with_fuel(advance_alone, 3);
    let (first, then) = advance(s, thread, waiting);
    assert(advance_alone(s, thread, waiting, 1) == (first, then));
    if waiting.pending == Directive::Exchange {
        assert(first.lessees.contains(thread));
    } else {
        assert(advance(first, thread, then).0.lessees.contains(thread));
    }
}

/// No missed release, from acquisition to acquisition. When a thread has
/// taken a free lock and released it, the next acquisition, by that thread or
/// by any other, succeeds with its first operation.
pub proof fn reacquire_after_release<T>(
    s: LockModel<T>,
    first: int,
    second: int,
    config: SpinConfig,
    first_bounded: bool,
    second_bounded: bool,
)
    requires
        s.wf(),
        !s.held,
    ensures
        ({
            let (taken, _) = advance(s, first, AcquisitionState::start(config, first_bounded));
            let released = taken.apply(Step { thread: first, op: Op::Release });
            let (retaken, done) = advance(
                released,
                second,
                AcquisitionState::start(config, second_bounded),
            );
            &&& taken.permits(Step { thread: first, op: Op::Release })
            &&& done.pending == Directive::Acquired
            &&& retaken.holds(second)
            &&& retaken.wf()
        }),
{
    free_lock_is_taken_at_once(s, first, config, first_bounded);
    let (taken, _) = advance(s, first, AcquisitionState::start(config, first_bounded));
    release_readmits(taken, first, second);
    let released = taken.apply(Step { thread: first, op: Op::Release });
    free_lock_is_taken_at_once(released, second, config, second_bounded);
}

/// While the lock stays held and no one releases it, an acquisition that has
/// made its compare-exchange and `polls` polls has changed nothing, and what
/// is due next is what follows the `polls`-th contended poll.
pub proof fn lemma_waiting_on_held_lock<T>(
    s: LockModel<T>,
    thread: int,
    config: SpinConfig,
    bounded: bool,
    polls: nat,
)
    requires
        s.held,
        polls >= 1,
        bounded ==> polls <= config.patience(),
    ensures
        advance_alone(s, thread, AcquisitionState::start(config, bounded), polls + 1) == (
            s,
            AcquisitionState {
                config,
                bounded,
                pending: AcquisitionState::backoff(config, bounded, polls),
                polls,
            },
        ),
    decreases polls,
{
    let start = AcquisitionState::start(config, bounded);
    if polls == 1 {
        reveal_with_fuel(advance_alone, 3);
        assert(advance_alone(s, thread, start, 1) == advance(s, thread, start));
    } else {
        lemma_waiting_on_held_lock(s, thread, config, bounded, (polls - 1) as nat);
        let waiting = AcquisitionState {
            config,
            bounded,
            pending: AcquisitionState::backoff(config, bounded, (polls - 1) as nat),
            polls: (polls - 1) as nat,
        };
        assert(advance_alone(s, thread, start, polls as nat) == (s, waiting));
        assert(!waiting.pending.is_final());
    }
}

/// Bounded-acquire failure. While the lock stays held by someone else, a
/// bounded acquisition ends in the timeout after its compare-exchange and as
/// many polls as its budget allows (one, where the budget is 0). It has not
/// ended before, and it has left the flag, the payload and the leases as they
/// were.
pub proof fn bounded_acquisition_times_out<T>(
    s: LockModel<T>,
    thread: int,
    config: SpinConfig,
    turns: nat,
)
    requires
        s.held,
    ensures
        ({
            let (after, waiting) = advance_alone(
                s,
                thread,
                AcquisitionState::start(config, true),
                turns,
            );
            &&& after == s
            &&& turns <= config.patience() ==> !waiting.pending.is_final()
            &&& turns > config.patience() ==> waiting.pending == Directive::TimedOut
                && waiting.polls == config.patience()
        }),
    decreases turns,
{
    if turns == 0 {
    } else if turns == 1 {
        reveal_with_fuel(advance_alone, 2);
    } else if turns <= config.patience() + 1 {
        lemma_waiting_on_held_lock(s, thread, config, true, (turns - 1) as nat);
    } else {
        bounded_acquisition_times_out(s, thread, config, (turns - 1) as nat);
    }
}

/// While the lock stays held, an unbounded acquisition never ends: it goes
/// on polling for as long as no one releases, and changes nothing.
pub proof fn unbounded_acquisition_keeps_waiting<T>(
    s: LockModel<T>,
    thread: int,
    config: SpinConfig,
    turns: nat,
)
    requires
        s.held,
    ensures
        ({
            let (after, waiting) = advance_alone(
                s,
                thread,
                AcquisitionState::start(config, false),
                turns,
            );
            &&& after == s
            &&& !waiting.pending.is_final()
        }),
{
    if turns == 0 {
    } else if turns == 1 {
        reveal_with_fuel(advance_alone, 2);
    } else {
        lemma_waiting_on_held_lock(s, thread, config, false, (turns - 1) as nat);
    }
}

/// The pauses of a waiting thread. After the `polls`-th poll in a row that
/// found the lock held, a thread that has not given up sleeps where `polls`
/// is a multiple of the sleep frequency, and yields otherwise.
pub proof fn waiter_sleeps_on_every_nth_poll<T>(
    s: LockModel<T>,
    thread: int,
    config: SpinConfig,
    bounded: bool,
    polls: nat,
)
    requires
        s.held,
        polls >= 1,
        bounded ==> polls < config.patience(),
    ensures
        ({
            let (after, waiting) = advance_alone(
                s,
                thread,
                AcquisitionState::start(config, bounded),
                polls + 1,
            );
            let sleeps = config.sleep_frequency > 0 && polls % (config.sleep_frequency as nat)
                == 0;
            &&& sleeps ==> waiting.pending == Directive::Sleep { millis: SPIN_LOCK_SLEEP_MILLIS }
            &&& !sleeps ==> waiting.pending == Directive::Yield
        }),
{
    lemma_waiting_on_held_lock(s, thread, config, bounded, polls);
}

} // verus!
