use spin_lock::AcquireError;
use spin_lock::Acquisition;
use spin_lock::Directive;
use spin_lock::SpinConfig;
use spin_lock::SpinLock;

/// Carries `acquisition` to its end on `lock`, without pausing, and returns
/// the result with the number of flag operations it took.
fn drive<T>(lock: &SpinLock<T>, mut acquisition: Acquisition) -> (Result<(), AcquireError>, usize) {
    let mut operations = 0;
    loop {
        let next = lock.advance(&mut acquisition);
        operations += 1;
        if let Some(result) = next.outcome() {
            return (result, operations);
        }
        assert!(operations < 1_000_000);
    }
}

#[test]
fn new_lock_has_the_default_config() {
    let lock = SpinLock::new(0u64);
    assert_eq!(lock.config(), SpinConfig::default());
    assert_eq!(lock.config(), SpinConfig::new(50, 500));
}

#[test]
fn with_config_keeps_the_config() {
    let lock = SpinLock::with_config(0u64, SpinConfig::new(4, 3));
    assert_eq!(lock.config(), SpinConfig::new(4, 3));
    assert_eq!(lock.bounded_acquisition().config(), SpinConfig::new(4, 3));
    assert_eq!(lock.acquisition().config(), SpinConfig::new(4, 3));
    assert!(lock.bounded_acquisition().is_bounded());
    assert!(!lock.acquisition().is_bounded());
}

#[test]
fn new_lock_stores_the_payload() {
    let lock = SpinLock::new(String::from("payload"));
    assert_eq!(lock.data.into_inner(), "payload");
    let configured = SpinLock::with_config(41u8, SpinConfig::new(1, 1));
    assert_eq!(configured.data.into_inner(), 41);
}

#[test]
fn fresh_lock_is_acquired_with_the_first_operation() {
    let lock = SpinLock::new(());
    let mut acquisition = lock.acquisition();
    assert_eq!(lock.advance(&mut acquisition), Directive::Acquired);
    assert_eq!(acquisition.pending(), Directive::Acquired);
    let other = SpinLock::new(());
    assert_eq!(drive(&other, other.bounded_acquisition()), (Ok(()), 1));
}

#[test]
fn held_lock_is_not_acquired_twice() {
    let lock = SpinLock::new(());
    assert_eq!(drive(&lock, lock.bounded_acquisition()), (Ok(()), 1));
    let mut second = lock.acquisition();
    assert_eq!(lock.advance(&mut second), Directive::Poll);
    assert_eq!(lock.advance(&mut second), Directive::Yield);
    for _ in 0..200 {
        assert!(lock.advance(&mut second).outcome().is_none());
    }
}

#[test]
fn released_lock_is_acquired_again() {
    let lock = SpinLock::new(());
    for _ in 0..1000 {
        assert_eq!(drive(&lock, lock.acquisition()), (Ok(()), 1));
        lock.unlock();
        assert_eq!(drive(&lock, lock.bounded_acquisition()), (Ok(()), 1));
        lock.unlock();
    }
}

#[test]
fn waiter_acquires_once_the_lock_is_released() {
    let lock = SpinLock::new(());
    assert_eq!(drive(&lock, lock.acquisition()), (Ok(()), 1));
    let mut waiter = lock.bounded_acquisition();
    assert_eq!(lock.advance(&mut waiter), Directive::Poll);
    for _ in 0..10 {
        assert_eq!(lock.advance(&mut waiter), Directive::Yield);
    }
    lock.unlock();
    assert_eq!(lock.advance(&mut waiter), Directive::Exchange);
    assert_eq!(lock.advance(&mut waiter), Directive::Acquired);
    let mut late = lock.bounded_acquisition();
    assert_eq!(lock.advance(&mut late), Directive::Poll);
}

#[test]
fn bounded_acquisition_times_out_on_a_held_lock() {
    let lock = SpinLock::new(7u32);
    assert_eq!(drive(&lock, lock.acquisition()), (Ok(()), 1));
    // One compare-exchange and 500 polls.
    assert_eq!(
        drive(&lock, lock.bounded_acquisition()),
        (Err(AcquireError::AcquisitionTimeout), 501)
    );
    // The flag is as it was: still held, and free again after the release.
    let mut probe = lock.bounded_acquisition();
    assert_eq!(lock.advance(&mut probe), Directive::Poll);
    lock.unlock();
    assert_eq!(drive(&lock, lock.bounded_acquisition()), (Ok(()), 1));
    assert_eq!(lock.data.into_inner(), 7);
}

#[test]
fn bounded_acquisition_with_a_small_budget_times_out() {
    let lock = SpinLock::with_config((), SpinConfig::new(50, 3));
    assert_eq!(drive(&lock, lock.bounded_acquisition()), (Ok(()), 1));
    let mut waiter = lock.bounded_acquisition();
    assert_eq!(lock.advance(&mut waiter), Directive::Poll);
    assert_eq!(lock.advance(&mut waiter), Directive::Yield);
    assert_eq!(lock.advance(&mut waiter), Directive::Yield);
    assert_eq!(lock.advance(&mut waiter), Directive::TimedOut);
    assert_eq!(
        waiter.pending().outcome().unwrap().unwrap_err().message(),
        "Failed to acquire lock after maximum attempts"
    );
}

#[test]
fn timed_out_acquisition_does_not_take_a_lock_freed_later() {
    let lock = SpinLock::with_config((), SpinConfig::new(50, 2));
    assert_eq!(drive(&lock, lock.acquisition()), (Ok(()), 1));
    let mut waiter = lock.bounded_acquisition();
    assert_eq!(
        drive(&lock, lock.bounded_acquisition()),
        (Err(AcquireError::AcquisitionTimeout), 3)
    );
    assert_eq!(lock.advance(&mut waiter), Directive::Poll);
    assert_eq!(lock.advance(&mut waiter), Directive::Yield);
    assert_eq!(lock.advance(&mut waiter), Directive::TimedOut);
    lock.unlock();
    assert_eq!(lock.advance(&mut waiter), Directive::TimedOut);
    // The lock is still free: the ended acquisition did not touch the flag.
    assert_eq!(drive(&lock, lock.acquisition()), (Ok(()), 1));
}

#[test]
fn ended_acquisition_leaves_the_flag_alone() {
    let lock = SpinLock::new(());
    let mut first = lock.acquisition();
    assert_eq!(lock.advance(&mut first), Directive::Acquired);
    lock.unlock();
    assert_eq!(lock.advance(&mut first), Directive::Acquired);
    assert_eq!(drive(&lock, lock.bounded_acquisition()), (Ok(()), 1));
}

#[test]
fn waiter_on_a_held_lock_sleeps_on_every_50th_poll() {
    let lock = SpinLock::new(());
    assert_eq!(drive(&lock, lock.acquisition()), (Ok(()), 1));
    let mut waiter = lock.acquisition();
    assert_eq!(lock.advance(&mut waiter), Directive::Poll);
    for poll in 1..=1200 {
        let expected = if poll % 50 == 0 {
            Directive::Sleep { millis: 1 }
        } else {
            Directive::Yield
        };
        assert_eq!(lock.advance(&mut waiter), expected);
    }
}

#[test]
fn counter_under_the_lease_ends_at_the_sum_of_increments() {
    let mut lock = SpinLock::new(0u64);
    let workers = 8;
    let cycles = 1000;
    let mut expected = 0;
    for _ in 0..cycles {
        for _worker in 0..workers {
            for increment in 0..2 {
                assert_eq!(drive(&lock, lock.acquisition()), (Ok(()), 1));
                *lock.data.get_mut() += increment;
                lock.unlock();
                expected += increment;
            }
        }
    }
    assert_eq!(expected, 8000);
    assert_eq!(lock.data.into_inner(), 8000);
}

#[test]
fn value_written_under_one_lease_is_read_under_the_next() {
    let mut lock = SpinLock::new(vec![1u8]);
    assert_eq!(drive(&lock, lock.acquisition()), (Ok(()), 1));
    lock.data.get_mut().push(2);
    lock.unlock();
    assert_eq!(drive(&lock, lock.bounded_acquisition()), (Ok(()), 1));
    assert_eq!(*lock.data.get_mut(), vec![1u8, 2]);
    lock.data.get_mut().push(3);
    lock.unlock();
    assert_eq!(lock.data.into_inner(), vec![1u8, 2, 3]);
}
