//! The lock: an atomic flag beside the payload it guards.
//!
//! The flag is `false` while the lock is free and `true` while some thread
//! holds the lease. A thread takes the lease by the compare-exchange from
//! `false` to `true` (acquire ordering) and gives it back by storing `false`
//! (release ordering), so that what one lessee wrote to the payload is seen
//! by the next. Polling reads the flag with relaxed ordering.
//!
//! What a flag operation returns depends on what the other threads do, so no
//! contract here says what it is. [`SpinLock::advance`] hands whatever came
//! back to the [`Acquisition`], whose answer to each value is exact. What the
//! protocol guarantees to threads that keep to it is proved in
//! [`crate::protocol`], over a model of the flag.
//!
//! The payload lies in an [`UnsafeCell`]: the lease, not the compiler, is
//! what makes access to it exclusive. Only the lessee may touch it, and the
//! pointer to it is obtained from `data` by the caller.
use crate::acquire::Acquisition;
use crate::acquire::Directive;
use crate::config::SpinConfig;
use std::cell::UnsafeCell;
use std::sync::atomic::AtomicBool;
use std::sync::atomic::Ordering;
use vstd::prelude::*;

verus! {

/// `std::cell::UnsafeCell`, carried as an opaque value.
#[verifier::external_type_specification]
#[verifier::external_body]
#[verifier::reject_recursive_types(T)]
pub struct ExUnsafeCell<T: ?Sized>(UnsafeCell<T>);

/// `UnsafeCell::new` wraps a value in a cell. Nothing is claimed of the
/// cell: what it holds can change behind a shared reference.
pub assume_specification<T>[ UnsafeCell::<T>::new ](value: T) -> (cell: UnsafeCell<T>);

/// A payload of type `T` behind a spin lock.
///
/// The lock is made free and stays usable for as long as it lives: free to
/// held by a compare-exchange that succeeds, held to free by
/// [`SpinLock::unlock`]. It is not reentrant: a thread that asks again while
/// it holds the lease waits for itself.
///
/// Because of the payload cell the type is not `Sync`. Whoever shares it
/// between threads vouches that every thread reaches the payload only under
/// the lease.
#[verifier::reject_recursive_types(T)]
pub struct SpinLock<T> {
    lock_: AtomicBool,
    /// The payload. Only the thread that holds the lease may access it.
    pub data: UnsafeCell<T>,
    config: SpinConfig,
}

impl<T> SpinLock<T> {
    /// The tunables this lock was made with.
    pub closed spec fn spec_config(&self) -> SpinConfig {
        self.config
    }

    /// A free lock around `data`, with the default tunables.
    pub fn new(data: T) -> (lock: SpinLock<T>)
        ensures
            lock.config() == SpinConfig::standard(),
    {
        SpinLock {
            lock_: AtomicBool::new(false),
            data: UnsafeCell::new(data),
            config: SpinConfig::default(),
        }
    }

    /// A free lock around `data`, with the given tunables.
    pub fn with_config(data: T, config: SpinConfig) -> (lock: SpinLock<T>)
        ensures
            lock.config() == config,
    {
        SpinLock { lock_: AtomicBool::new(false), data: UnsafeCell::new(data), config }
    }

    /// The tunables this lock was made with.
    #[verifier::when_used_as_spec(spec_config)]
    pub fn config(&self) -> (config: SpinConfig)
        ensures
            config == self.config(),
    {
        self.config
    }

    /// Starts an acquisition that waits as long as it takes.
    pub fn acquisition(&self) -> (acquisition: Acquisition)
        ensures
            acquisition@ == crate::acquire::AcquisitionState::start(self.config(), false),
    {
        Acquisition::unbounded(self.config)
    }

    /// Starts an acquisition that gives up when the attempt budget is spent.
    pub fn bounded_acquisition(&self) -> (acquisition: Acquisition)
        ensures
            acquisition@ == crate::acquire::AcquisitionState::start(self.config(), true),
    {
        Acquisition::bounded(self.config)
    }

    /// Attempts to move the flag from free to held. Returns whether it did.
    fn take(&self) -> (won: bool) {
        self.lock_.compare_exchange(false, true, Ordering::Acquire, Ordering::Relaxed).is_ok()
    }

    /// Reads the flag: `true` while the lock is held.
    fn is_held(&self) -> (held: bool) {
        self.lock_.load(Ordering::Relaxed)
    }

    /// Performs the flag operation that `acquisition` is waiting for and
    /// tells it what the operation saw: the compare-exchange where that is
    /// due, a read of the flag after a poll or a pause, nothing at all once
    /// the acquisition has ended. Returns the operation that is due next; the
    /// caller yields or sleeps first where that is `Yield` or `Sleep`.
    ///
    /// The flag is written only by a compare-exchange that finds it free, so
    /// an acquisition that times out leaves it as it was. What this does to a
    /// lock that other threads share is told by [`crate::waiting::advance`].
    pub fn advance(&self, acquisition: &mut Acquisition) -> (next: Directive)
        ensures
            exists|held: bool| final(acquisition)@ == #[trigger] old(acquisition)@.observe(held),
            old(acquisition)@.pending.is_final() ==> final(acquisition)@ == old(acquisition)@,
            next == final(acquisition)@.pending,
    {
        match acquisition.pending() {
            Directive::Acquired | Directive::TimedOut => {
                assert(acquisition@ == acquisition@.observe(true));
                acquisition.pending()
            },
            Directive::Exchange => {
                let won = self.take();
                acquisition.observe(!won)
            },
            _ => {
                let held = self.is_held();
                acquisition.observe(held)
            },
        }
    }

    /// Gives the lease back: stores `false` in the flag with release
    /// ordering. To be called once for each acquisition that ended in
    /// `Acquired`, by the thread that holds that lease. Nothing detects a
    /// call without the lease.
    pub fn unlock(&self) {
        self.lock_.store(false, Ordering::Release);
    }
}

} // verus!
