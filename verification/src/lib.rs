//! A spin lock: a flag taken by compare-exchange and given back by a store,
//! guarding a payload that only the thread holding the lease may touch.
//!
//! * [`config`] holds the tunables of the wait loop.
//! * [`acquire`] is the acquisition procedure, written as a state machine
//!   that is told what each flag operation saw and answers with what to do
//!   next. It never blocks by itself: the caller yields or sleeps when told.
//! * [`spin_lock`] is the lock: the atomic flag, the payload cell, and the
//!   single flag operation that an acquisition asks for.
//! * [`protocol`] is the model of the lock shared by any number of threads,
//!   with the proofs of what the protocol guarantees: mutual exclusion, that
//!   no release is missed, that what one lessee wrote the next one reads.
//! * [`waiting`] runs acquisitions on that model: a free lock is taken at
//!   once, a bounded acquisition on a held lock times out and leaves the lock
//!   as it was.
//! * [`counter`] proves that no update to a counter behind the lock is lost.
pub mod acquire;
pub mod config;
pub mod counter;
pub mod protocol;
pub mod spin_lock;
pub mod waiting;

pub use crate::acquire::AcquireError;
pub use crate::acquire::Acquisition;
pub use crate::acquire::Directive;
pub use crate::config::SpinConfig;
pub use crate::spin_lock::SpinLock;
