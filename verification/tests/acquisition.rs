use spin_lock::AcquireError;
use spin_lock::Acquisition;
use spin_lock::Directive;
use spin_lock::SpinConfig;

/// Feeds `count` polls that see the flag held and returns what each was
/// answered with.
fn contended_polls(acquisition: &mut Acquisition, count: usize) -> Vec<Directive> {
    let mut answers = Vec::new();
    for _ in 0..count {
        answers.push(acquisition.observe(true));
    }
    answers
}

#[test]
fn default_config_is_fifty_and_five_hundred() {
    let config = SpinConfig::default();
    assert_eq!(config.sleep_frequency, 50);
    assert_eq!(config.max_attempts, 500);
    assert_eq!(config, SpinConfig::new(50, 500));
    assert_eq!(spin_lock::config::SPIN_LOCK_SLEEP_ONE_FREQUENCY, 50);
    assert_eq!(spin_lock::config::SPIN_LOCK_MAX_ATTEMPTS, 500);
    assert_eq!(spin_lock::config::SPIN_LOCK_SLEEP_MILLIS, 1);
}

#[test]
fn acquisition_starts_with_the_exchange() {
    let bounded = Acquisition::bounded(SpinConfig::new(7, 9));
    assert_eq!(bounded.pending(), Directive::Exchange);
    assert!(bounded.is_bounded());
    assert_eq!(bounded.config(), SpinConfig::new(7, 9));
    let unbounded = Acquisition::unbounded(SpinConfig::default());
    assert_eq!(unbounded.pending(), Directive::Exchange);
    assert!(!unbounded.is_bounded());
    assert_eq!(unbounded.config(), SpinConfig::default());
}

#[test]
fn exchange_that_finds_the_flag_free_acquires() {
    let mut acquisition = Acquisition::bounded(SpinConfig::default());
    assert_eq!(acquisition.observe(false), Directive::Acquired);
    assert_eq!(acquisition.pending(), Directive::Acquired);
    let mut unbounded = Acquisition::unbounded(SpinConfig::default());
    assert_eq!(unbounded.observe(false), Directive::Acquired);
}

#[test]
fn exchange_that_finds_the_flag_held_goes_polling() {
    let mut acquisition = Acquisition::unbounded(SpinConfig::default());
    assert_eq!(acquisition.observe(true), Directive::Poll);
    assert_eq!(acquisition.pending(), Directive::Poll);
}

#[test]
fn poll_that_finds_the_flag_free_retries_the_exchange() {
    let mut acquisition = Acquisition::bounded(SpinConfig::default());
    assert_eq!(acquisition.observe(true), Directive::Poll);
    assert_eq!(acquisition.observe(false), Directive::Exchange);
    // Another thread was faster: back to polling, still no contended poll.
    assert_eq!(acquisition.observe(true), Directive::Poll);
    assert_eq!(acquisition.observe(true), Directive::Yield);
    assert_eq!(acquisition.observe(false), Directive::Exchange);
    assert_eq!(acquisition.observe(false), Directive::Acquired);
}

#[test]
fn bounded_acquisition_gives_up_at_the_500th_contended_poll() {
    let mut acquisition = Acquisition::bounded(SpinConfig::default());
    assert_eq!(acquisition.observe(true), Directive::Poll);
    let answers = contended_polls(&mut acquisition, 500);
    for (index, answer) in answers.iter().enumerate() {
        let poll = index + 1;
        if poll == 500 {
            assert_eq!(*answer, Directive::TimedOut);
        } else if poll % 50 == 0 {
            assert_eq!(*answer, Directive::Sleep { millis: 1 });
        } else {
            assert_eq!(*answer, Directive::Yield);
        }
    }
    assert_eq!(acquisition.pending(), Directive::TimedOut);
}

#[test]
fn bounded_acquisition_with_a_budget_of_three() {
    let mut acquisition = Acquisition::bounded(SpinConfig::new(50, 3));
    assert_eq!(acquisition.observe(true), Directive::Poll);
    assert_eq!(
        contended_polls(&mut acquisition, 3),
        vec![Directive::Yield, Directive::Yield, Directive::TimedOut]
    );
}

#[test]
fn budget_of_zero_is_spent_at_the_first_contended_poll() {
    let mut acquisition = Acquisition::bounded(SpinConfig::new(50, 0));
    assert_eq!(acquisition.observe(true), Directive::Poll);
    assert_eq!(acquisition.observe(true), Directive::TimedOut);
    let mut single = Acquisition::bounded(SpinConfig::new(50, 1));
    assert_eq!(single.observe(true), Directive::Poll);
    assert_eq!(single.observe(true), Directive::TimedOut);
}

#[test]
fn budget_of_zero_does_not_fail_a_free_lock() {
    let mut acquisition = Acquisition::bounded(SpinConfig::new(50, 0));
    assert_eq!(acquisition.observe(false), Directive::Acquired);
}

#[test]
fn timeout_wins_over_sleep_on_the_same_poll() {
    let mut acquisition = Acquisition::bounded(SpinConfig::new(2, 4));
    assert_eq!(acquisition.observe(true), Directive::Poll);
    assert_eq!(
        contended_polls(&mut acquisition, 4),
        vec![
            Directive::Yield,
            Directive::Sleep { millis: 1 },
            Directive::Yield,
            Directive::TimedOut,
        ]
    );
}

#[test]
fn unbounded_acquisition_sleeps_on_every_50th_contended_poll() {
    let mut acquisition = Acquisition::unbounded(SpinConfig::default());
    assert_eq!(acquisition.observe(true), Directive::Poll);
    let answers = contended_polls(&mut acquisition, 2000);
    let mut sleeps = 0;
    for (index, answer) in answers.iter().enumerate() {
        if (index + 1) % 50 == 0 {
            assert_eq!(*answer, Directive::Sleep { millis: 1 });
            sleeps += 1;
        } else {
            assert_eq!(*answer, Directive::Yield);
        }
    }
    assert_eq!(sleeps, 40);
    assert_eq!(acquisition.observe(false), Directive::Exchange);
    assert_eq!(acquisition.observe(false), Directive::Acquired);
}

#[test]
fn sleep_counter_runs_on_across_retries() {
    let mut acquisition = Acquisition::unbounded(SpinConfig::new(3, 500));
    assert_eq!(acquisition.observe(true), Directive::Poll);
    assert_eq!(acquisition.observe(true), Directive::Yield);
    assert_eq!(acquisition.observe(true), Directive::Yield);
    assert_eq!(acquisition.observe(false), Directive::Exchange);
    assert_eq!(acquisition.observe(true), Directive::Poll);
    assert_eq!(acquisition.observe(true), Directive::Sleep { millis: 1 });
    assert_eq!(acquisition.observe(true), Directive::Yield);
}

#[test]
fn attempt_counter_runs_on_across_retries() {
    let mut acquisition = Acquisition::bounded(SpinConfig::new(50, 3));
    assert_eq!(acquisition.observe(true), Directive::Poll);
    assert_eq!(acquisition.observe(true), Directive::Yield);
    assert_eq!(acquisition.observe(false), Directive::Exchange);
    assert_eq!(acquisition.observe(true), Directive::Poll);
    assert_eq!(acquisition.observe(true), Directive::Yield);
    assert_eq!(acquisition.observe(true), Directive::TimedOut);
}

#[test]
fn frequency_of_zero_never_sleeps() {
    let mut acquisition = Acquisition::unbounded(SpinConfig::new(0, 500));
    assert_eq!(acquisition.observe(true), Directive::Poll);
    for answer in contended_polls(&mut acquisition, 1000) {
        assert_eq!(answer, Directive::Yield);
    }
}

#[test]
fn frequency_of_one_always_sleeps() {
    let mut acquisition = Acquisition::unbounded(SpinConfig::new(1, 500));
    assert_eq!(acquisition.observe(true), Directive::Poll);
    for answer in contended_polls(&mut acquisition, 10) {
        assert_eq!(answer, Directive::Sleep { millis: 1 });
    }
}

#[test]
fn ended_acquisition_stays_ended() {
    let mut acquired = Acquisition::bounded(SpinConfig::default());
    assert_eq!(acquired.observe(false), Directive::Acquired);
    assert_eq!(acquired.observe(true), Directive::Acquired);
    assert_eq!(acquired.observe(false), Directive::Acquired);
    let mut timed_out = Acquisition::bounded(SpinConfig::new(50, 1));
    assert_eq!(timed_out.observe(true), Directive::Poll);
    assert_eq!(timed_out.observe(true), Directive::TimedOut);
    assert_eq!(timed_out.observe(false), Directive::TimedOut);
    assert_eq!(timed_out.observe(true), Directive::TimedOut);
}

#[test]
fn outcome_of_each_directive() {
    assert_eq!(Directive::Acquired.outcome(), Some(Ok(())));
    assert_eq!(
        Directive::TimedOut.outcome(),
        Some(Err(AcquireError::AcquisitionTimeout))
    );
    assert_eq!(Directive::Exchange.outcome(), None);
    assert_eq!(Directive::Poll.outcome(), None);
    assert_eq!(Directive::Yield.outcome(), None);
    assert_eq!(Directive::Sleep { millis: 1 }.outcome(), None);
}

#[test]
fn timeout_message_names_the_maximum_attempts() {
    assert_eq!(
        AcquireError::AcquisitionTimeout.message(),
        "Failed to acquire lock after maximum attempts"
    );
}
