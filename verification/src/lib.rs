//! A discrete-event simulation of preemptive round-robin scheduling.
//!
//! A [`Scheduler`] owns a FIFO queue of work units and a monotonic clock.
//! Each dispatch step pops the unit at the head of the queue, lets it run
//! for a (possibly jittered) time quantum, advances the clock by the ticks
//! actually consumed, and either retires the unit or re-enqueues it at the
//! tail.

mod errors;
mod sched;
mod textfmt;
mod thread;

pub use errors::SchedError;
pub use sched::{
    lemma_sum_runtimes_nonneg, lemma_sum_runtimes_push, log_line, quantum_hi, quantum_lo,
    sum_runtimes, JitterSource, NoJitter, Scheduler, TestScheduler, ThreadRngJitter, RUN_INTERVAL,
};
pub use textfmt::{dec_str, digit_char, justified, push_decimal, push_padded_decimal, spaces};
pub use thread::{
    consumed_ticks, lemma_retired_unit_done, thread_desc, Dtq, MyThread, Thread, ThreadModel,
};
