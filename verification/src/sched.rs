//! The scheduler: a FIFO dispatch queue of work units, a monotonic clock,
//! and the round-robin dispatch loop.
//!
//! Each dispatch step pops the unit at the head of the queue, logs the
//! dispatch, computes a jittered quantum, lets the unit consume ticks,
//! advances the clock by the ticks actually consumed (never by the nominal
//! quantum), and either retires the unit — it consumed fewer ticks than
//! requested, so nothing remains — or re-enqueues it at the tail.

use crate::errors::SchedError;
use crate::textfmt::{dec_str, justified, push_padded_decimal};
use crate::thread::{
    consumed_ticks, lemma_retired_unit_done, thread_desc, Dtq, MyThread, Thread, ThreadModel,
};
use rand::Rng;
use std::collections::VecDeque;
use vstd::prelude::*;

verus! {

/// The nominal quantum: ticks a unit may run per dispatch step, before
/// jitter is applied.
pub const RUN_INTERVAL: Dtq = 10;

/// The smallest quantum a dispatch step can request once jitter is applied.
pub open spec fn quantum_lo() -> int {
    RUN_INTERVAL as int - (RUN_INTERVAL as int) / 2
}

/// The largest quantum a dispatch step can request once jitter is applied.
pub open spec fn quantum_hi() -> int {
    RUN_INTERVAL as int + (RUN_INTERVAL as int) / 2
}

/// The total ticks of work still required by a queue of unit models.
pub open spec fn sum_runtimes(q: Seq<ThreadModel>) -> int
    decreases q.len(),
{
    if q.len() == 0 {
        0
    } else {
        q[0].runtime + sum_runtimes(q.drop_first())
    }
}

pub proof fn lemma_sum_runtimes_nonneg(q: Seq<ThreadModel>)
    ensures
        sum_runtimes(q) >= 0,
    decreases q.len(),
{
    if q.len() > 0 {
        lemma_sum_runtimes_nonneg(q.drop_first());
    }
}

pub proof fn lemma_sum_runtimes_push(q: Seq<ThreadModel>, m: ThreadModel)
    ensures
        sum_runtimes(q.push(m)) == sum_runtimes(q) + m.runtime,
    decreases q.len(),
{
    if q.len() == 0 {
        assert(q.push(m)[0] == m);
        assert(q.push(m).drop_first() =~= Seq::<ThreadModel>::empty());
        assert(sum_runtimes(q.push(m)) == m.runtime + sum_runtimes(Seq::<ThreadModel>::empty()));
    } else {
        assert(q.push(m)[0] == q[0]);
        assert(q.push(m).drop_first() =~= q.drop_first().push(m));
        lemma_sum_runtimes_push(q.drop_first(), m);
        assert(sum_runtimes(q.push(m)) == q[0].runtime + sum_runtimes(q.drop_first().push(m)));
    }
}

/// One log record: the current time right-justified to four characters, the
/// scheduler's name, and the dispatched unit's description.
pub open spec fn log_line(time: Dtq, name: Seq<char>, m: ThreadModel) -> Seq<char> {
    justified(dec_str(time as nat), 4) + " "@ + name + " scheduled "@ + thread_desc(m)
}

/// A source of bounded scheduling noise: one draw per dispatch step. Tests
/// substitute a deterministic source, so the dispatch loop itself stays
/// decoupled from true randomness.
pub trait JitterSource: Sized {
    /// Creates the source.
    fn source() -> (s: Self);

    /// Draws a value in the closed range `[lo, hi]`.
    fn draw(&mut self, lo: i64, hi: i64) -> (r: i64)
        requires
            lo <= hi,
        ensures
            lo <= r <= hi,
    ;
}

/// A deterministic jitter source: every draw is as close to zero as the
/// requested range allows, so the quantum is never perturbed.
pub struct NoJitter;

impl JitterSource for NoJitter {
    fn source() -> (s: Self) {
        NoJitter
    }

    fn draw(&mut self, lo: i64, hi: i64) -> (r: i64)
        ensures
            r == (if lo > 0 {
                lo
            } else if hi < 0 {
                hi
            } else {
                0i64
            }),
    {
        if lo > 0 {
            lo
        } else if hi < 0 {
            hi
        } else {
            0
        }
    }
}

/// `rand::rngs::ThreadRng`, declared so a jitter source can hold one.
#[verifier::external_type_specification]
#[verifier::external_body]
pub struct ExThreadRng(rand::rngs::ThreadRng);

/// Relies on `rand::thread_rng`: returns a handle to the thread-local
/// generator. Nothing is stated of it; every draw is specified on its own.
#[verifier::external_body]
fn fresh_thread_rng() -> rand::rngs::ThreadRng {
    rand::thread_rng()
}

/// Relies on `rand::Rng::gen_range` over an inclusive integer range: it
/// panics on an empty range (ruled out here by `lo <= hi`) and otherwise
/// returns a uniformly distributed value within the range. Only membership
/// in the range is stated; the draw is not a function of its arguments.
#[verifier::external_body]
fn draw_in_range(rng: &mut rand::rngs::ThreadRng, lo: i64, hi: i64) -> (r: i64)
    requires
        lo <= hi,
    ensures
        lo <= r <= hi,
{
    rng.gen_range(lo..=hi)
}

/// The jitter source of a live run: draws from the thread-local generator.
pub struct ThreadRngJitter {
    rng: rand::rngs::ThreadRng,
}

impl JitterSource for ThreadRngJitter {
    fn source() -> (s: Self) {
        ThreadRngJitter { rng: fresh_thread_rng() }
    }

    fn draw(&mut self, lo: i64, hi: i64) -> (r: i64) {
        draw_in_range(&mut self.rng, lo, hi)
    }
}

/// A round-robin scheduler over work units.
///
/// The queue is FIFO: insertion order is dispatch order. The clock starts at
/// zero and advances only by the ticks actually consumed in a dispatch step.
pub trait Scheduler<T: Thread>: Sized {
    /// The models of the queued units, head first.
    spec fn queue(&self) -> Seq<ThreadModel>;

    /// The current time.
    spec fn time(&self) -> Dtq;

    /// The log records emitted so far, in dispatch order.
    spec fn log(&self) -> Seq<Seq<char>>;

    /// The scheduler's fixed identifier.
    spec fn name() -> Seq<char>;

    /// Creates an empty scheduler at time zero.
    fn new() -> (s: Self)
        ensures
            s.queue() == Seq::<ThreadModel>::empty(),
            s.time() == 0,
            s.log() == Seq::<Seq<char>>::empty(),
    ;

    /// Appends a unit at the tail of the dispatch queue. Always succeeds.
    fn add_threads(&mut self, thread: T)
        ensures
            final(self).queue() == old(self).queue().push(thread.model()),
            final(self).time() == old(self).time(),
            final(self).log() == old(self).log(),
    ;

    /// Runs the full simulation: dispatch steps repeat until every unit has
    /// been retired.
    ///
    /// On an empty scheduler this fails at once with
    /// [`SchedError::EmptyQueue`] and changes nothing; those are the only
    /// inputs on which it fails. Otherwise it returns `Ok`, the queue is
    /// drained, and the clock has advanced by exactly the total runtime the
    /// units required when the run began: every tick of work is accounted
    /// for, and none is counted twice. The log grows by one record per
    /// dispatch step, keeping every earlier record: at least one record per
    /// unit that was queued, and no more records than the total initial
    /// runtime plus the number of queued units.
    fn run(&mut self) -> (r: Result<(), SchedError>)
        requires
            old(self).time() + sum_runtimes(old(self).queue()) <= u64::MAX,
        ensures
            r == (if old(self).queue().len() == 0 {
                Err::<(), SchedError>(SchedError::EmptyQueue)
            } else {
                Ok::<(), SchedError>(())
            }),
            old(self).queue().len() == 0 ==> final(self).queue() == old(self).queue()
                && final(self).time() == old(self).time() && final(self).log() == old(self).log(),
            old(self).queue().len() > 0 ==> final(self).queue().len() == 0 && final(self).time()
                == old(self).time() + sum_runtimes(old(self).queue()),
            final(self).time() >= old(self).time(),
            old(self).log().is_prefix_of(final(self).log()),
            final(self).log().len() - old(self).log().len() >= old(self).queue().len()
                - final(self).queue().len(),
            final(self).log().len() - old(self).log().len() <= sum_runtimes(old(self).queue())
                + old(self).queue().len(),
    ;

    /// Renders one dispatch record for the given unit at the current time.
    fn log_scheduling(&self, thread: &T) -> (r: String)
        ensures
            r@ == log_line(self.time(), Self::name(), thread.model()),
    {
        let mut line = String::new();
        push_padded_decimal(&mut line, self.get_time());
        line.append(" ");
        line.append(Self::get_name());
        line.append(" scheduled ");
        let d = thread.describe();
        line.append(d.as_str());
        proof {
            assert(line@ =~= log_line(self.time(), Self::name(), thread.model()));
        }
        line
    }

    /// The current time. Pure: no side effects, no failure mode.
    fn get_time(&self) -> (t: Dtq)
        ensures
            t == self.time(),
    ;

    /// The scheduler's fixed identifier, for logging.
    fn get_name() -> (n: &'static str)
        ensures
            n@ == Self::name(),
    ;
}

/// A round-robin scheduler over [`MyThread`] units, with a pluggable jitter
/// source.
pub struct TestScheduler<J: JitterSource> {
    run_queue: VecDeque<MyThread>,
    current_time: Dtq,
    jitter: J,
    log: Vec<String>,
}

impl<J: JitterSource> TestScheduler<J> {
    /// What one successful dispatch step with requested quantum `iv` does to
    /// the scheduler: the clock advances by exactly the consumed ticks, a
    /// record of the dispatch is appended to the log — the time at the top
    /// of the step and the unit as the step leaves it, its remaining runtime
    /// already reduced by the consumed ticks — and the head unit is retired
    /// — gone from the queue for good — exactly when it consumed fewer ticks
    /// than requested, else re-enqueued at the tail.
    pub open spec fn step_post(pre: Self, post: Self, iv: Dtq) -> bool {
        let head = pre.queue()[0];
        let used = consumed_ticks(head.runtime, iv);
        let worked = ThreadModel {
            id: head.id,
            name: head.name,
            runtime: (head.runtime - used) as Dtq,
        };
        &&& post.time() == pre.time() + used
        &&& post.log() == pre.log().push(
            log_line(pre.time(), <Self as Scheduler<MyThread>>::name(), worked),
        )
        &&& (used < iv ==> post.queue() == pre.queue().drop_first())
        &&& (used == iv ==> post.queue() == pre.queue().drop_first().push(worked))
    }

    /// One successful dispatch step took place, with a requested quantum in
    /// the jitter range around the nominal one.
    pub open spec fn step_taken(pre: Self, post: Self, iv: Dtq) -> bool {
        &&& quantum_lo() <= iv as int <= quantum_hi()
        &&& Self::step_post(pre, post, iv)
    }

    /// Monotonic clock: across any dispatch step the current time never
    /// decreases, and it increases by exactly the ticks the dispatched unit
    /// consumed — never by the nominal quantum when the two differ.
    pub proof fn lemma_clock_monotonic(pre: Self, post: Self, iv: Dtq)
        requires
            pre.queue().len() > 0,
            Self::step_taken(pre, post, iv),
        ensures
            post.time() >= pre.time(),
            post.time() - pre.time() == consumed_ticks(pre.queue()[0].runtime, iv),
    {
    }

    /// Retirement finality: a dispatch step whose unit consumed fewer ticks
    /// than requested removes that unit from the queue, and the unit has no
    /// runtime left. The scheduler owns its units exclusively and dispatches
    /// only from the queue, so a retired unit is never dispatched again.
    pub proof fn lemma_retirement_final(pre: Self, post: Self, iv: Dtq)
        requires
            pre.queue().len() > 0,
            Self::step_taken(pre, post, iv),
            consumed_ticks(pre.queue()[0].runtime, iv) < iv,
        ensures
            post.queue() == pre.queue().drop_first(),
            pre.queue()[0].runtime - consumed_ticks(pre.queue()[0].runtime, iv) == 0,
    {
        lemma_retired_unit_done(pre.queue()[0].runtime, iv);
    }

    /// One dispatch step: pops the head unit, logs the dispatch, computes a
    /// One dispatch step at a given requested quantum: pops the head unit,
    /// lets it consume ticks, logs the dispatch with the unit's runtime as
    /// reduced by the step, advances the clock by the consumed ticks, and
    /// re-enqueues the unit unless it finished early. Exactly [`step_post`]
    /// holds of a successful step; a zero quantum is rejected by the unit,
    /// and the error propagates after the unit has already left the queue.
    ///
    /// [`step_post`]: TestScheduler::step_post
    pub fn dispatch_step_at(&mut self, interval: Dtq) -> (r: Result<(), SchedError>)
        requires
            old(self).queue().len() > 0 ==> old(self).time() + old(self).queue()[0].runtime
                <= u64::MAX,
        ensures
            old(self).queue().len() == 0 ==> ({
                &&& r == Err::<(), SchedError>(SchedError::EmptyQueue)
                &&& final(self).queue() == old(self).queue()
                &&& final(self).time() == old(self).time()
                &&& final(self).log() == old(self).log()
            }),
            old(self).queue().len() > 0 && interval == 0 ==> ({
                &&& r == Err::<(), SchedError>(SchedError::InvalidInterval)
                &&& final(self).queue() == old(self).queue().drop_first()
                &&& final(self).time() == old(self).time()
                &&& final(self).log() == old(self).log()
            }),
            old(self).queue().len() > 0 && interval > 0 ==> ({
                &&& r == Ok::<(), SchedError>(())
                &&& Self::step_post(*old(self), *final(self), interval)
            }),
    {
        let popped = self.run_queue.pop_front();
        let mut t = match popped {
            None => {
                proof {
                    assert(self.queue() =~= old(self).queue());
                }
                return Err(SchedError::EmptyQueue);
            },
            Some(tt) => tt,
        };
        proof {
            assert(t.model() == old(self).queue()[0]);
            assert(self.queue() =~= old(self).queue().drop_first());
        }
        let used: Dtq = match t.do_work(interval) {
            Ok(u) => u,
            Err(e) => {
                return Err(e);
            },
        };
        let line = self.log_scheduling(&t);
        self.log.push(line);
        proof {
            assert(self.log() =~= old(self).log().push(line@));
        }
        self.current_time = self.current_time + used;
        if used < interval {
            // The unit finished early: retire it by dropping it here.
            proof {
                assert(Self::step_post(*old(self), *self, interval));
            }
        } else {
            self.run_queue.push_back(t);
            proof {
                assert(self.queue() =~= old(self).queue().drop_first().push(t.model()));
                assert(Self::step_post(*old(self), *self, interval));
            }
        }
        Ok(())
    }

    /// One dispatch step of a live run: draws the jitter for this step,
    /// computes the requested quantum around the nominal one, and takes the
    /// step at that quantum.
    pub fn dispatch_step(&mut self) -> (r: Result<(), SchedError>)
        requires
            old(self).queue().len() > 0 ==> old(self).time() + old(self).queue()[0].runtime
                <= u64::MAX,
        ensures
            old(self).queue().len() == 0 ==> ({
                &&& r == Err::<(), SchedError>(SchedError::EmptyQueue)
                &&& final(self).queue() == old(self).queue()
                &&& final(self).time() == old(self).time()
                &&& final(self).log() == old(self).log()
            }),
            old(self).queue().len() > 0 ==> ({
                &&& r == Ok::<(), SchedError>(())
                &&& (exists|iv: Dtq| Self::step_taken(*old(self), *final(self), iv))
            }),
    {
        if self.run_queue.len() == 0 {
            return Err(SchedError::EmptyQueue);
        }
        let half: Dtq = RUN_INTERVAL / 2;
        let lo: i64 = -(half as i64);
        let hi: i64 = half as i64;
        let variance: i64 = self.jitter.draw(lo, hi);
        let interval: Dtq = ((RUN_INTERVAL as i64) + variance) as u64;
        let r = self.dispatch_step_at(interval);
        proof {
            assert(Self::step_taken(*old(self), *self, interval));
        }
        r
    }

    /// The log records emitted so far, one rendered line per dispatch step.
    pub fn log_lines(&self) -> (r: &Vec<String>)
        ensures
            r@.map_values(|s: String| s@) == self.log(),
    {
        proof {
            assert(self.log@.map_values(|s: String| s@) =~= self.log());
        }
        &self.log
    }
}

impl<J: JitterSource> Scheduler<MyThread> for TestScheduler<J> {
    closed spec fn queue(&self) -> Seq<ThreadModel> {
        self.run_queue@.map_values(|t: MyThread| t.model())
    }

    closed spec fn time(&self) -> Dtq {
        self.current_time
    }

    closed spec fn log(&self) -> Seq<Seq<char>> {
        self.log@.map_values(|s: String| s@)
    }

    open spec fn name() -> Seq<char> {
        "TestShed"@
    }

    fn new() -> (s: Self) {
        let s = TestScheduler {
            run_queue: VecDeque::new(),
            current_time: 0,
            jitter: J::source(),
            log: Vec::new(),
        };
        proof {
            assert(s.queue() =~= Seq::<ThreadModel>::empty());
            assert(s.log() =~= Seq::<Seq<char>>::empty());
        }
        s
    }

    fn add_threads(&mut self, thread: MyThread) {
        let ghost m = thread.model();
        self.run_queue.push_back(thread);
        proof {
            assert(self.queue() =~= old(self).queue().push(m));
        }
    }

    fn run(&mut self) -> (r: Result<(), SchedError>) {
        loop
            invariant
                old(self).time() + sum_runtimes(old(self).queue()) <= u64::MAX,
                self.time() + sum_runtimes(self.queue()) == old(self).time() + sum_runtimes(
                    old(self).queue(),
                ),
                self.time() >= old(self).time(),
                self.queue().len() == 0 <==> old(self).queue().len() == 0,
                self.queue().len() == 0 ==> self.queue() == old(self).queue() && self.time()
                    == old(self).time() && self.log() == old(self).log(),
                old(self).log().is_prefix_of(self.log()),
                self.log().len() + self.queue().len() >= old(self).log().len() + old(
                    self,
                ).queue().len(),
                self.log().len() + sum_runtimes(self.queue()) + self.queue().len() <= old(
                    self,
                ).log().len() + sum_runtimes(old(self).queue()) + old(self).queue().len(),
            decreases sum_runtimes(self.queue()) + self.queue().len(),
        {
            proof {
                lemma_sum_runtimes_nonneg(self.queue());
                if self.queue().len() > 0 {
                    lemma_sum_runtimes_nonneg(self.queue().drop_first());
                }
            }
            let ghost looppre = *self;
            let res = self.dispatch_step();
            match res {
                Err(e) => {
                    return Err(e);
                },
                Ok(()) => {},
            }
            proof {
                let iv = choose|iv: Dtq| Self::step_taken(looppre, *self, iv);
                let head = looppre.queue()[0];
                let used = consumed_ticks(head.runtime, iv);
                let worked = ThreadModel {
                    id: head.id,
                    name: head.name,
                    runtime: (head.runtime - used) as Dtq,
                };
                assert(sum_runtimes(looppre.queue()) == head.runtime + sum_runtimes(
                    looppre.queue().drop_first(),
                ));
                if used == iv {
                    lemma_sum_runtimes_push(looppre.queue().drop_first(), worked);
                }
                assert(old(self).log().is_prefix_of(self.log())) by {
                    assert(self.log() == looppre.log().push(
                        log_line(looppre.time(), <Self as Scheduler<MyThread>>::name(), worked),
                    ));
                    assert(old(self).log() =~= self.log().subrange(
                        0,
                        old(self).log().len() as int,
                    ));
                }
            }
            if self.run_queue.len() == 0 {
                return Ok(());
            }
        }
    }

    fn get_time(&self) -> (t: Dtq) {
        self.current_time
    }

    fn get_name() -> (n: &'static str) {
        "TestShed"
    }
}

} // verus!
