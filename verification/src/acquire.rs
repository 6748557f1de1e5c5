//! The acquisition procedure as a state machine.
//!
//! A thread that wants the lock alternates between operations on the flag and
//! pauses. This module holds the decisions: an [`Acquisition`] says which
//! operation is due ([`Directive`]), is told what that operation saw
//! ([`Acquisition::observe`]), and answers with the next one. It performs
//! neither the flag operations nor the pauses.
//!
//! The procedure: try the free-to-held compare-exchange. If it fails, poll the
//! flag until it is seen free, then try again. Each poll that sees the flag
//! held is a contended poll; after it the thread yields, or sleeps on every
//! `sleep_frequency`-th one. A bounded acquisition gives up at the
//! `max_attempts`-th contended poll; an unbounded one never does.
use crate::config::SpinConfig;
use crate::config::SPIN_LOCK_SLEEP_MILLIS;
use vstd::arithmetic::div_mod::lemma_fundamental_div_mod_converse;
use vstd::arithmetic::div_mod::lemma_mod_bound;
use vstd::arithmetic::div_mod::lemma_fundamental_div_mod;
use vstd::prelude::*;

verus! {

/// What the acquiring thread must do next.
#[derive(Clone, Copy, Debug, PartialEq, Eq, Structural)]
pub enum Directive {
    /// Attempt the compare-exchange from free to held.
    Exchange,
    /// Read the flag.
    Poll,
    /// Yield the processor, then read the flag.
    Yield,
    /// Sleep for `millis` milliseconds, then read the flag.
    Sleep { millis: u64 },
    /// The lease is taken: stop.
    Acquired,
    /// The attempt budget is spent and the flag was left as found: stop.
    TimedOut,
}

/// Why an acquisition ended without the lease.
#[derive(Clone, Copy, Debug, PartialEq, Eq, Structural)]
pub enum AcquireError {
    /// A bounded acquisition spent its attempt budget.
    AcquisitionTimeout,
}

impl AcquireError {
    /// The diagnostic handed to the caller.
    pub fn message(&self) -> (text: &'static str)
        ensures
            text@ == "Failed to acquire lock after maximum attempts"@,
    {
        "Failed to acquire lock after maximum attempts"
    }
}

impl Directive {
    /// No further operation follows.
    pub open spec fn is_final(self) -> bool {
        self is Acquired || self is TimedOut
    }

    /// The result of the acquisition, once it has ended.
    pub open spec fn spec_outcome(self) -> Option<Result<(), AcquireError>> {
        match self {
            Directive::Acquired => Some(Ok(())),
            Directive::TimedOut => Some(Err(AcquireError::AcquisitionTimeout)),
            _ => None,
        }
    }

    /// The result of the acquisition: success with no value, the timeout, or
    /// `None` while operations are still due.
    pub fn outcome(&self) -> (result: Option<Result<(), AcquireError>>)
        ensures
            result == self.spec_outcome(),
    {
        match self {
            Directive::Acquired => Some(Ok(())),
            Directive::TimedOut => Some(Err(AcquireError::AcquisitionTimeout)),
            _ => None,
        }
    }
}

/// An acquisition as a mathematical value.
pub struct AcquisitionState {
    /// The tunables it runs under.
    pub config: SpinConfig,
    /// Whether it gives up when the attempt budget is spent.
    pub bounded: bool,
    /// The operation that is due.
    pub pending: Directive,
    /// How many polls have seen the flag held so far.
    pub polls: nat,
}

impl AcquisitionState {
    /// An acquisition that has done nothing yet: the compare-exchange is due.
    pub open spec fn start(config: SpinConfig, bounded: bool) -> AcquisitionState {
        AcquisitionState { config, bounded, pending: Directive::Exchange, polls: 0 }
    }

    /// What follows the `polls`-th contended poll.
    pub open spec fn backoff(config: SpinConfig, bounded: bool, polls: nat) -> Directive {
        if bounded && polls >= config.max_attempts {
            Directive::TimedOut
        } else if config.sleep_frequency > 0 && polls % (config.sleep_frequency as nat) == 0 {
            Directive::Sleep { millis: SPIN_LOCK_SLEEP_MILLIS }
        } else {
            Directive::Yield
        }
    }

    /// The acquisition after the pending operation saw the flag `held`.
    ///
    /// A compare-exchange that sees the flag free has taken it. A poll that
    /// sees it free sends the thread back to the compare-exchange. A poll
    /// that sees it held is counted and answered with a pause or the timeout.
    /// An acquisition that has ended stays as it is.
    pub open spec fn observe(self, held: bool) -> AcquisitionState {
        match self.pending {
            Directive::Acquired | Directive::TimedOut => self,
            Directive::Exchange => AcquisitionState {
                pending: if held {
                    Directive::Poll
                } else {
                    Directive::Acquired
                },
                ..self
            },
            _ => if held {
                AcquisitionState {
                    pending: Self::backoff(self.config, self.bounded, self.polls + 1),
                    polls: self.polls + 1,
                    ..self
                }
            } else {
                AcquisitionState { pending: Directive::Exchange, ..self }
            },
        }
    }
}

/// One attempt to take the lock, from its first compare-exchange to its end.
///
/// Its view counts every contended poll. The value itself keeps two bounded
/// counters in place of that count: the polls since the last sleep, and the
/// polls charged to the budget, which stop at the budget.
pub struct Acquisition {
    config: SpinConfig,
    bounded: bool,
    pending: Directive,
    /// Contended polls since the last sleep.
    since_sleep: usize,
    /// Contended polls counted against the budget.
    attempts: usize,
    polls: Ghost<nat>,
}

impl View for Acquisition {
    type V = AcquisitionState;

    closed spec fn view(&self) -> AcquisitionState {
        AcquisitionState {
            config: self.config,
            bounded: self.bounded,
            pending: self.pending,
            polls: self.polls@,
        }
    }
}

impl Acquisition {
    #[verifier::type_invariant]
    spec fn counters_agree(self) -> bool {
        &&& self.config.sleep_frequency == 0 ==> self.since_sleep == 0
        &&& self.config.sleep_frequency > 0 ==> self.since_sleep == self.polls@ % (
        self.config.sleep_frequency as nat)
        &&& !self.bounded ==> self.attempts == 0
        &&& self.bounded && self.polls@ <= self.config.max_attempts ==> self.attempts
            == self.polls@
        &&& self.bounded && self.polls@ > self.config.max_attempts ==> self.attempts
            == self.config.max_attempts
    }

    /// An acquisition that waits as long as it takes.
    pub fn unbounded(config: SpinConfig) -> (acquisition: Acquisition)
        ensures
            acquisition@ == AcquisitionState::start(config, false),
    {
        proof {
            lemma_zero_remainder(config.sleep_frequency as nat);
        }
        Acquisition {
            config,
            bounded: false,
            pending: Directive::Exchange,
            since_sleep: 0,
            attempts: 0,
            polls: Ghost(0),
        }
    }

    /// An acquisition that gives up when `config.max_attempts` is spent.
    pub fn bounded(config: SpinConfig) -> (acquisition: Acquisition)
        ensures
            acquisition@ == AcquisitionState::start(config, true),
    {
        proof {
            lemma_zero_remainder(config.sleep_frequency as nat);
        }
        Acquisition {
            config,
            bounded: true,
            pending: Directive::Exchange,
            since_sleep: 0,
            attempts: 0,
            polls: Ghost(0),
        }
    }

    /// The operation that is due.
    pub fn pending(&self) -> (directive: Directive)
        ensures
            directive == self@.pending,
    {
        self.pending
    }

    /// The tunables this acquisition runs under.
    pub fn config(&self) -> (config: SpinConfig)
        ensures
            config == self@.config,
    {
        self.config
    }

    /// Whether this acquisition gives up when its budget is spent.
    pub fn is_bounded(&self) -> (bounded: bool)
        ensures
            bounded == self@.bounded,
    {
        self.bounded
    }

    /// Takes in what the pending operation saw of the flag and returns the
    /// operation that is due next. `held` says that the flag was held at that
    /// moment: that the compare-exchange failed, or that the poll read `true`.
    /// An acquisition that has ended ignores it.
    pub fn observe(&mut self, held: bool) -> (next: Directive)
        ensures
            final(self)@ == old(self)@.observe(held),
            next == final(self)@.pending,
    {
        proof {
            use_type_invariant(&*self);
        }
        match self.pending {
            Directive::Acquired | Directive::TimedOut => {},
            Directive::Exchange => {
                self.pending = if held {
                    Directive::Poll
                } else {
                    Directive::Acquired
                };
            },
            _ => {
                if held {
                    self.count_contended_poll();
                } else {
                    self.pending = Directive::Exchange;
                }
            },
        }
        self.pending
    }

    /// Counts one poll that saw the flag held and decides what follows it.
    fn count_contended_poll(&mut self)
        ensures
            final(self)@ == (AcquisitionState {
                pending: AcquisitionState::backoff(
                    old(self)@.config,
                    old(self)@.bounded,
                    old(self)@.polls + 1,
                ),
                polls: old(self)@.polls + 1,
                ..old(self)@
            }),
    {
        proof {
            use_type_invariant(&*self);
        }
        let frequency: usize = self.config.sleep_frequency;
        let budget: usize = self.config.max_attempts;
        let ghost polls: nat = self.polls@ + 1;
        let attempts: usize = if self.bounded && self.attempts < budget {
            self.attempts + 1
        } else {
            self.attempts
        };
        let sleep_due: bool = frequency > 0 && self.since_sleep >= frequency - 1;
        let since_sleep: usize = if frequency == 0 || sleep_due {
            0
        } else {
            self.since_sleep + 1
        };
        proof {
            if frequency > 0 {
                lemma_next_remainder(self.polls@, frequency as nat);
            }
        }
        let pending = if self.bounded && attempts >= budget {
            Directive::TimedOut
        } else if sleep_due {
            Directive::Sleep { millis: SPIN_LOCK_SLEEP_MILLIS }
        } else {
            Directive::Yield
        };
        *self = Acquisition {
            config: self.config,
            bounded: self.bounded,
            pending,
            since_sleep,
            attempts,
            polls: Ghost(polls),
        };
    }
}

/// Nothing is left over when 0 is divided.
proof fn lemma_zero_remainder(m: nat)
    ensures
        m > 0 ==> 0nat % m == 0,
{
    if m > 0 {
        lemma_fundamental_div_mod_converse(0, m as int, 0, 0);
    }
}

/// Counting up by one moves the remainder up by one, or back to 0 from the
/// last remainder before the modulus.
proof fn lemma_next_remainder(n: nat, m: nat)
    requires
        m > 0,
    ensures
        n % m < m,
        (n + 1) % m == if n % m == m - 1 {
            0
        } else {
            n % m + 1
        },
{
    let q = (n as int) / (m as int);
    let r = (n as int) % (m as int);
    lemma_fundamental_div_mod(n as int, m as int);
    lemma_mod_bound(n as int, m as int);
    if r == m - 1 {
        assert(n + 1 == (q + 1) * m + 0) by (nonlinear_arith)
            requires
                n == m * q + r,
                r == m - 1,
        ;
        lemma_fundamental_div_mod_converse((n + 1) as int, m as int, q + 1, 0);
    } else {
        assert(n + 1 == q * m + (r + 1)) by (nonlinear_arith)
            requires
                n == m * q + r,
        ;
        lemma_fundamental_div_mod_converse((n + 1) as int, m as int, q, r + 1);
    }
}

} // verus!
