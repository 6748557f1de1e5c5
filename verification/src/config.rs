//! Tunables of the wait loop.
use vstd::prelude::*;

verus! {

/// By default the waiter sleeps on every 50th contended poll.
pub const SPIN_LOCK_SLEEP_ONE_FREQUENCY: usize = 50;

/// By default a bounded acquisition gives up at its 500th contended poll.
pub const SPIN_LOCK_MAX_ATTEMPTS: usize = 500;

/// How long one sleep lasts, in milliseconds.
pub const SPIN_LOCK_SLEEP_MILLIS: u64 = 1;

/// How a waiter backs off and when a bounded one gives up.
#[derive(Clone, Copy, Debug, PartialEq, Eq, Structural)]
pub struct SpinConfig {
    /// The waiter sleeps, instead of yielding, on every `sleep_frequency`-th
    /// contended poll. With 0 it never sleeps: a pure spin.
    pub sleep_frequency: usize,
    /// A bounded acquisition gives up at the `max_attempts`-th contended
    /// poll. A budget of 0 is spent at the first one, like a budget of 1.
    pub max_attempts: usize,
}

impl SpinConfig {
    /// The configuration with the given tunables.
    pub fn new(sleep_frequency: usize, max_attempts: usize) -> (config: SpinConfig)
        ensures
            config.sleep_frequency == sleep_frequency,
            config.max_attempts == max_attempts,
    {
        SpinConfig { sleep_frequency, max_attempts }
    }

    /// The default tunables as a specification value.
    pub open spec fn standard() -> SpinConfig {
        SpinConfig {
            sleep_frequency: SPIN_LOCK_SLEEP_ONE_FREQUENCY,
            max_attempts: SPIN_LOCK_MAX_ATTEMPTS,
        }
    }

    /// The number of contended polls after which a bounded acquisition has
    /// given up: the budget, and 1 where the budget is 0.
    pub open spec fn patience(self) -> nat {
        if self.max_attempts == 0 {
            1
        } else {
            self.max_attempts as nat
        }
    }
}

impl Default for SpinConfig {
    /// Sleep on every 50th contended poll, give up at the 500th.
    fn default() -> (config: SpinConfig)
        ensures
            config == SpinConfig::standard(),
    {
        SpinConfig {
            sleep_frequency: SPIN_LOCK_SLEEP_ONE_FREQUENCY,
            max_attempts: SPIN_LOCK_MAX_ATTEMPTS,
        }
    }
}

} // verus!
